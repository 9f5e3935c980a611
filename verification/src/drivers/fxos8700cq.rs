//! The FXOS8700CQ accelerometer and magnetometer: what its driver decides from what it is
//! asked and from what the chip answers.

use vstd::prelude::*;

verus! {

/// The I2C address of the chip unless another is given
pub const DEFAULT_ADDRESS: u16 = 0x1E;

/// What the chip answers when asked who it is
pub const DEVICE_ID: u8 = 0xC7;

/// The interval of the timer that fetches the readings
pub const TIMER_INTERVAL: u32 = 32768;

/// The result of a request that was carried out
pub const SUCCESS: isize = 0;

/// The result of a request that was refused
pub const FAILURE: isize = -1;

/// The registers of the chip
#[derive(Clone, Copy, Debug, PartialEq, Eq, Structural)]
pub enum Registers {
    Status,
    /// Accel XYZ FIFO data
    OutXMSB,
    OutXLSB,
    OutYMSB,
    OutYLSB,
    OutZMSB,
    OutZLSB,
    /// FIFO Setup
    FSetup,
    /// FIFO event trigger config
    TrigCFG,
    /// System Mode
    SysMod,
    /// interrupt status
    IntSource,
    WhoAmI,
    /// dynamic range and filter enable settings for accel
    XYZDataCFG,
    /// magnetometer configs
    MagnetCtrlREG1,
    MagnetCtrlREG2,
    /// system ODR, accel OSR, operating mode
    CtrlReg1,
    /// reset, accelerometer OSR, sleep mode settings
    CtrlReg2,
    /// sleep mode interrupt, wake enable
    CtrlReg3,
    /// enable interrupt register
    CtrlReg4,
}

impl Registers {
    /// The address of this register.
    pub open spec fn spec_address(&self) -> u8 {
        match *self {
            Registers::Status => 0x00,
            Registers::OutXMSB => 0x01,
            Registers::OutXLSB => 0x02,
            Registers::OutYMSB => 0x03,
            Registers::OutYLSB => 0x04,
            Registers::OutZMSB => 0x05,
            Registers::OutZLSB => 0x06,
            Registers::FSetup => 0x09,
            Registers::TrigCFG => 0x0A,
            Registers::SysMod => 0x0B,
            Registers::IntSource => 0x0C,
            Registers::WhoAmI => 0x0D,
            Registers::XYZDataCFG => 0x0E,
            Registers::MagnetCtrlREG1 => 0x5B,
            Registers::MagnetCtrlREG2 => 0x5C,
            Registers::CtrlReg1 => 0x2A,
            Registers::CtrlReg2 => 0x2B,
            Registers::CtrlReg3 => 0x2C,
            Registers::CtrlReg4 => 0x2D,
        }
    }

    /// Returns the address of this register
    #[verifier::when_used_as_spec(spec_address)]
    pub fn address(&self) -> (address: u8)
        ensures
            address == self.spec_address(),
    {
        match *self {
            Registers::Status => 0x00,
            Registers::OutXMSB => 0x01,
            Registers::OutXLSB => 0x02,
            Registers::OutYMSB => 0x03,
            Registers::OutYLSB => 0x04,
            Registers::OutZMSB => 0x05,
            Registers::OutZLSB => 0x06,
            Registers::FSetup => 0x09,
            Registers::TrigCFG => 0x0A,
            Registers::SysMod => 0x0B,
            Registers::IntSource => 0x0C,
            Registers::WhoAmI => 0x0D,
            Registers::XYZDataCFG => 0x0E,
            Registers::MagnetCtrlREG1 => 0x5B,
            Registers::MagnetCtrlREG2 => 0x5C,
            Registers::CtrlReg1 => 0x2A,
            Registers::CtrlReg2 => 0x2B,
            Registers::CtrlReg3 => 0x2C,
            Registers::CtrlReg4 => 0x2D,
        }
    }
}

/// A reading of a sensor along its three axes.
#[derive(Clone, Copy, Debug, PartialEq, Eq, Structural)]
pub struct Reading {
    pub x: i16,
    pub y: i16,
    pub z: i16,
}

/// What the driver keeps between two requests.
#[derive(Clone, Copy, Debug, PartialEq, Eq, Structural)]
pub struct Sensor {
    /// If the chip has been configured
    pub enabled: bool,
    /// If the accelerometer has been configured
    pub use_accelerometer: bool,
    /// If the magnetometer has been configured
    pub use_magnetometer: bool,
    /// The last reading of the accelerometer
    pub last_accel: Option<Reading>,
    /// The last reading of the magnetometer
    pub last_magnet: Option<Reading>,
    /// If a callback has been saved
    pub has_callback: bool,
}

/// A register of the chip and the value to write to it.
#[derive(Clone, Copy, Debug, PartialEq, Eq, Structural)]
pub struct RegisterWrite {
    /// The register
    pub register: Registers,
    /// The value
    pub value: u8,
}

/// What a subscription leads to.
#[derive(Clone, Copy, Debug, PartialEq, Eq, Structural)]
pub struct Subscription {
    /// The result for whoever subscribed
    pub result: isize,
    /// The reading to hand to the callback at once, if there is one
    pub report: Option<Reading>,
    /// If the callback is to be saved
    pub save_callback: bool,
}

/// What a command leads to.
pub struct Command {
    /// The result for whoever gave the command
    pub result: isize,
    /// The registers to write, in order
    pub writes: Vec<RegisterWrite>,
    /// If the timer is to be started with `TIMER_INTERVAL`
    pub start_timer: bool,
    /// What the driver keeps from now on
    pub sensor: Sensor,
}

/// The reading of one axis of the accelerometer: the 14 bits that the chip gives in the
/// upper bits of two bytes.
pub open spec fn spec_accelerometer_axis(msb: u8, lsb: u8) -> i16 {
    ((0x100 * msb + lsb) / 4) as i16
}

/// Returns the reading of one axis of the accelerometer
#[verifier::when_used_as_spec(spec_accelerometer_axis)]
pub fn accelerometer_axis(msb: u8, lsb: u8) -> (value: i16)
    ensures
        value == spec_accelerometer_axis(msb, lsb),
        0 <= value < 0x4000,
{
    let high: u16 = msb as u16;
    let low: u16 = lsb as u16;
    // convert 14bit accelerometer data to 16bit
    let raw: u16 = ((high << 8) | low) >> 2;
    assert(raw == (0x100 * high + low) / 4 && raw < 0x4000) by (bit_vector)
        requires
            raw == ((high << 8) | low) >> 2,
            high < 0x100,
            low < 0x100,
    ;
    raw as i16
}

/// The reading of one axis of the magnetometer: the 16 bits of two bytes as a signed number.
pub open spec fn spec_magnetometer_axis(msb: u8, lsb: u8) -> i16 {
    if 0x100 * msb + lsb < 0x8000 {
        (0x100 * msb + lsb) as i16
    } else {
        (0x100 * msb + lsb - 0x10000) as i16
    }
}

/// Returns the reading of one axis of the magnetometer
#[verifier::when_used_as_spec(spec_magnetometer_axis)]
pub fn magnetometer_axis(msb: u8, lsb: u8) -> (value: i16)
    ensures
        value == spec_magnetometer_axis(msb, lsb),
{
    let high: u16 = msb as u16;
    let low: u16 = lsb as u16;
    let raw: u16 = (high << 8) | low;
    let value: i16 = #[verifier::truncate] (raw as i16);
    assert(raw == 0x100 * high + low && (raw < 0x8000 ==> value == raw) && (raw >= 0x8000
        ==> value == raw - 0x10000)) by (bit_vector)
        requires
            raw == (high << 8) | low,
            value == raw as i16,
            high < 0x100,
            low < 0x100,
    ;
    value
}

/// Returns true if the readings are to be fetched from the chip when the timer fires: once
/// the chip has been configured
pub fn may_read(sensor: Sensor) -> (allowed: bool)
    ensures
        allowed == sensor.enabled,
{
    sensor.enabled
}

/// Returns true if a command may configure the chip: as long as it has not been configured.
/// The chip can be configured once
pub fn may_configure(sensor: Sensor) -> (allowed: bool)
    ensures
        allowed == !sensor.enabled,
{
    !sensor.enabled
}

/// Returns true if `cmd_num` is a command of the chip used as an accelerometer alone:
/// command 0, which configures it, is the only one
pub fn is_accelerometer_command(cmd_num: usize) -> (known: bool)
    ensures
        known == (cmd_num == 0),
{
    cmd_num == 0
}

/// The readings of the three axes in the six bytes that the chip gives, most significant
/// byte first for each axis: of the accelerometer if it has been configured, else of the
/// magnetometer if that has been configured, else zero.
pub open spec fn spec_reading(sensor: Sensor, raw: Seq<u8>) -> Reading {
    if sensor.use_accelerometer {
        Reading {
            x: accelerometer_axis(raw[0], raw[1]),
            y: accelerometer_axis(raw[2], raw[3]),
            z: accelerometer_axis(raw[4], raw[5]),
        }
    } else if sensor.use_magnetometer {
        Reading {
            x: magnetometer_axis(raw[0], raw[1]),
            y: magnetometer_axis(raw[2], raw[3]),
            z: magnetometer_axis(raw[4], raw[5]),
        }
    } else {
        Reading { x: 0, y: 0, z: 0 }
    }
}

/// Takes in what the chip gave when the timer fired: returns the readings, for the callback
/// if there is one, and what the driver keeps from now on, which holds them as the last
/// reading of the sensor that they are of.
///
/// The chip is asked, and this called, only where `may_read(sensor)`.
pub fn fired(sensor: Sensor, raw: &[u8]) -> (result: (Reading, Sensor))
    requires
        raw@.len() >= 6,
    ensures
        result.0 == spec_reading(sensor, raw@),
        sensor.use_accelerometer ==> result.1 == (Sensor { last_accel: Some(result.0), ..sensor }),
        !sensor.use_accelerometer && sensor.use_magnetometer ==> result.1 == (Sensor {
            last_magnet: Some(result.0),
            ..sensor
        }),
        !sensor.use_accelerometer && !sensor.use_magnetometer ==> result.1 == sensor,
{
    if sensor.use_accelerometer {
        // use first 6
        let reading = Reading {
            x: accelerometer_axis(raw[0], raw[1]),
            y: accelerometer_axis(raw[2], raw[3]),
            z: accelerometer_axis(raw[4], raw[5]),
        };
        (reading, Sensor { last_accel: Some(reading), ..sensor })
    } else if sensor.use_magnetometer {
        let reading = Reading {
            x: magnetometer_axis(raw[0], raw[1]),
            y: magnetometer_axis(raw[2], raw[3]),
            z: magnetometer_axis(raw[4], raw[5]),
        };
        (reading, Sensor { last_magnet: Some(reading), ..sensor })
    } else {
        (Reading { x: 0, y: 0, z: 0 }, sensor)
    }
}

/// What a subscription to the readings `subscribe_num` leads to. Subscription 1 is to the
/// accelerometer and 2 to the magnetometer; there is no other. Both fail before the chip
/// has been configured, and the first fails if the accelerometer has not been. A
/// subscription to a configured sensor reports its last reading at once, and the callback
/// is saved unless one has been.
pub open spec fn spec_subscribe(sensor: Sensor, subscribe_num: usize) -> Subscription {
    let refused = Subscription { result: FAILURE, report: None, save_callback: false };
    if subscribe_num == 1 {
        if !sensor.enabled || !sensor.use_accelerometer {
            refused
        } else {
            Subscription {
                result: SUCCESS,
                report: sensor.last_accel,
                save_callback: !sensor.has_callback,
            }
        }
    } else if subscribe_num == 2 {
        if !sensor.enabled {
            refused
        } else if sensor.use_magnetometer {
            Subscription {
                result: SUCCESS,
                report: sensor.last_magnet,
                save_callback: !sensor.has_callback,
            }
        } else {
            Subscription { result: SUCCESS, report: None, save_callback: false }
        }
    } else {
        refused
    }
}

/// Returns what a subscription to the readings `subscribe_num` leads to
#[verifier::when_used_as_spec(spec_subscribe)]
pub fn subscribe(sensor: Sensor, subscribe_num: usize) -> (subscription: Subscription)
    ensures
        subscription == spec_subscribe(sensor, subscribe_num),
{
    let refused = Subscription { result: FAILURE, report: None, save_callback: false };
    match subscribe_num {
        0 => {
            // all three values cannot be subscribed to
            refused
        },
        1 => {
            // subscribe to accelerometer
            // if chip hasn't been enabled yet
            if !sensor.enabled {
                return refused;
            }
            if sensor.use_accelerometer {
                Subscription {
                    result: SUCCESS,
                    report: sensor.last_accel,
                    save_callback: !sensor.has_callback,
                }
            } else {
                refused  // accelerometer not configured!
            }
        },
        2 => {
            // subscribe to magnetometer
            // if chip hasn't been enabled yet
            if !sensor.enabled {
                return refused;
            }
            if sensor.use_magnetometer {
                Subscription {
                    result: SUCCESS,
                    report: sensor.last_magnet,
                    save_callback: !sensor.has_callback,
                }
            } else {
                Subscription { result: SUCCESS, report: None, save_callback: false }
            }
        },
        _ => refused,
    }
}

/// The sensors that the command `cmd_num` configures, the accelerometer first: both for 0,
/// the accelerometer for 1, the magnetometer for 2. There is no other command.
pub open spec fn spec_selection(cmd_num: usize) -> Option<(bool, bool)> {
    if cmd_num == 0 {
        Some((true, true))
    } else if cmd_num == 1 {
        Some((true, false))
    } else if cmd_num == 2 {
        Some((false, true))
    } else {
        None
    }
}

/// The registers that configure the selected sensors.
pub open spec fn sensor_writes(accelerometer: bool, magnetometer: bool) -> Seq<RegisterWrite> {
    (if accelerometer {
        seq![RegisterWrite { register: Registers::XYZDataCFG, value: 0x01 }]
    } else {
        Seq::empty()
    }) + (if magnetometer {
        seq![
            RegisterWrite { register: Registers::MagnetCtrlREG1, value: 0x1F },
            RegisterWrite { register: Registers::MagnetCtrlREG2, value: 0x20 },
        ]
    } else {
        Seq::empty()
    })
}

/// Takes in the command `cmd_num` and what the chip answered when asked who it is: returns
/// what the command leads to.
///
/// If the answer is not `DEVICE_ID`, the command fails and nothing is written. Else the
/// chip is put into standby. If there is no such command, the command fails then. Else the
/// registers that configure the selected sensors are written, the chip is made active, the
/// timer is started, and the chip and the selected sensors count as configured.
///
/// The chip is asked, and this called, only where `may_configure(sensor)`.
pub fn command(sensor: Sensor, cmd_num: usize, who_am_i: u8) -> (outcome: Command)
    ensures
        who_am_i != DEVICE_ID ==> outcome.result == FAILURE && outcome.writes@.len() == 0
            && !outcome.start_timer && outcome.sensor == sensor,
        who_am_i == DEVICE_ID && spec_selection(cmd_num) is None ==> outcome.result == FAILURE
            && outcome.writes@ == seq![
            RegisterWrite { register: Registers::CtrlReg1, value: 0x00 },
        ] && !outcome.start_timer && outcome.sensor == sensor,
        who_am_i == DEVICE_ID && spec_selection(cmd_num) is Some ==> ({
            let (accelerometer, magnetometer) = spec_selection(cmd_num)->Some_0;
            &&& outcome.result == SUCCESS
            &&& outcome.writes@ == seq![
                RegisterWrite { register: Registers::CtrlReg1, value: 0x00 },
            ] + sensor_writes(accelerometer, magnetometer) + seq![
                RegisterWrite { register: Registers::CtrlReg1, value: 0x0D },
            ]
            &&& outcome.start_timer
            &&& outcome.sensor == (Sensor {
                enabled: true,
                use_accelerometer: sensor.use_accelerometer || accelerometer,
                use_magnetometer: sensor.use_magnetometer || magnetometer,
                ..sensor
            })
        }),
{
    let mut writes: Vec<RegisterWrite> = Vec::new();
    // check that the accelerometer isn't crazy
    if who_am_i != DEVICE_ID {
        return Command { result: FAILURE, writes, start_timer: false, sensor };
    }
    // put into standby mode
    writes.push(RegisterWrite { register: Registers::CtrlReg1, value: 0x00 });
    let (accelerometer, magnetometer) = match cmd_num {
        0 => (true, true),  // enable all sensors
        1 => (true, false),  // enable accelerometer
        2 => (false, true),  // enable magnetometer
        _ => {
            // unrecognized command
            return Command { result: FAILURE, writes, start_timer: false, sensor };
        },
    };
    if accelerometer {
        // config accelerometer
        writes.push(RegisterWrite { register: Registers::XYZDataCFG, value: 0x01 });
    }
    if magnetometer {
        // config magnetometer
        writes.push(RegisterWrite { register: Registers::MagnetCtrlREG1, value: 0x1F });
        writes.push(RegisterWrite { register: Registers::MagnetCtrlREG2, value: 0x20 });
    }
    // leave standby
    writes.push(RegisterWrite { register: Registers::CtrlReg1, value: 0x0D });
    proof {
        assert(writes@ =~= seq![RegisterWrite { register: Registers::CtrlReg1, value: 0x00 }]
            + sensor_writes(accelerometer, magnetometer) + seq![
            RegisterWrite { register: Registers::CtrlReg1, value: 0x0D },
        ]);
    }
    Command {
        result: SUCCESS,
        writes,
        start_timer: true,
        sensor: Sensor {
            enabled: true,
            use_accelerometer: sensor.use_accelerometer || accelerometer,
            use_magnetometer: sensor.use_magnetometer || magnetometer,
            ..sensor
        },
    }
}

/// The readings of the accelerometer in the six bytes that the chip gives, where the chip
/// is used as an accelerometer alone: the 16 bits of each two bytes as a signed number.
pub open spec fn spec_accelerometer_fired(raw: Seq<u8>) -> Reading {
    Reading {
        x: magnetometer_axis(raw[0], raw[1]),
        y: magnetometer_axis(raw[2], raw[3]),
        z: magnetometer_axis(raw[4], raw[5]),
    }
}

/// Takes in what the chip gave when the timer fired, where the chip is used as an
/// accelerometer alone: returns the readings, which are the last reading from now on
pub fn accelerometer_fired(raw: &[u8]) -> (reading: Reading)
    requires
        raw@.len() >= 6,
    ensures
        reading == spec_accelerometer_fired(raw@),
{
    Reading {
        x: magnetometer_axis(raw[0], raw[1]),
        y: magnetometer_axis(raw[2], raw[3]),
        z: magnetometer_axis(raw[4], raw[5]),
    }
}

/// Returns what a subscription leads to where the chip is used as an accelerometer alone.
/// There is subscription 0 only, and it fails before the chip has been configured. It
/// reports the last reading at once if there is one; if there is none, the callback is saved
pub fn accelerometer_subscribe(enabled: bool, last_accel: Option<Reading>, subscribe_num: usize) -> (subscription:
    Subscription)
    ensures
        subscribe_num != 0 || !enabled ==> subscription == (Subscription {
            result: FAILURE,
            report: None,
            save_callback: false,
        }),
        subscribe_num == 0 && enabled ==> subscription == (Subscription {
            result: SUCCESS,
            report: last_accel,
            save_callback: last_accel is None,
        }),
{
    match subscribe_num {
        0 => {
            // read all three accelerometer values
            // if chip hasn't been enabled yet
            if !enabled {
                return Subscription { result: FAILURE, report: None, save_callback: false };
            }
            match last_accel {
                Some(accel) => Subscription {
                    result: SUCCESS,
                    report: Some(accel),
                    save_callback: false,
                },
                None => Subscription { result: SUCCESS, report: None, save_callback: true },
            }
        },
        _ => Subscription { result: FAILURE, report: None, save_callback: false },
    }
}

/// Takes in what the chip answered when asked who it is, where the chip is used as an
/// accelerometer alone and the command is 0, the only one: returns the result of the
/// command and the registers to write, in order.
///
/// If the answer is not `expected`, the command fails and nothing is written. Else the chip
/// is put into standby, the accelerometer is configured and the chip is made active.
pub fn accelerometer_command(who_am_i: u8, expected: u8) -> (outcome: (isize, Vec<RegisterWrite>))
    ensures
        who_am_i != expected ==> outcome.0 == FAILURE && outcome.1@.len() == 0,
        who_am_i == expected ==> outcome.0 == SUCCESS && outcome.1@ == seq![
            RegisterWrite { register: Registers::CtrlReg1, value: 0x00 },
            RegisterWrite { register: Registers::XYZDataCFG, value: 0x01 },
            RegisterWrite { register: Registers::CtrlReg1, value: 0x0D },
        ],
{
    let mut writes: Vec<RegisterWrite> = Vec::new();
    // check that the accelerometer isn't crazy
    if who_am_i != expected {
        return (FAILURE, writes);
    }
    // put into standby mode
    writes.push(RegisterWrite { register: Registers::CtrlReg1, value: 0x00 });
    // config accelerometer
    writes.push(RegisterWrite { register: Registers::XYZDataCFG, value: 0x01 });
    // leave standby
    writes.push(RegisterWrite { register: Registers::CtrlReg1, value: 0x0D });
    proof {
        assert(writes@ =~= seq![
            RegisterWrite { register: Registers::CtrlReg1, value: 0x00 },
            RegisterWrite { register: Registers::XYZDataCFG, value: 0x01 },
            RegisterWrite { register: Registers::CtrlReg1, value: 0x0D },
        ]);
    }
    (SUCCESS, writes)
}

} // verus!
