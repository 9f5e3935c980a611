use rf230::drivers::fxos8700cq::{
    accelerometer_axis, accelerometer_command, accelerometer_fired, accelerometer_subscribe,
    command, fired, is_accelerometer_command, magnetometer_axis, may_configure, may_read,
    subscribe, Reading, RegisterWrite, Registers, Sensor, Subscription, DEVICE_ID,
};

fn sensor() -> Sensor {
    Sensor {
        enabled: false,
        use_accelerometer: false,
        use_magnetometer: false,
        last_accel: None,
        last_magnet: None,
        has_callback: false,
    }
}

fn write(register: Registers, value: u8) -> RegisterWrite {
    RegisterWrite { register, value }
}

const REFUSED: Subscription = Subscription { result: -1, report: None, save_callback: false };

#[test]
fn registers_have_their_addresses() {
    assert_eq!(Registers::Status.address(), 0x00);
    assert_eq!(Registers::OutXMSB.address(), 0x01);
    assert_eq!(Registers::OutZLSB.address(), 0x06);
    assert_eq!(Registers::WhoAmI.address(), 0x0D);
    assert_eq!(Registers::XYZDataCFG.address(), 0x0E);
    assert_eq!(Registers::MagnetCtrlREG1.address(), 0x5B);
    assert_eq!(Registers::MagnetCtrlREG2.address(), 0x5C);
    assert_eq!(Registers::CtrlReg1.address(), 0x2A);
    assert_eq!(Registers::CtrlReg4.address(), 0x2D);
}

#[test]
fn axes_are_read_from_two_bytes() {
    assert_eq!(accelerometer_axis(0x00, 0x04), 1);
    assert_eq!(accelerometer_axis(0x12, 0x34), 0x048D);
    assert_eq!(accelerometer_axis(0xFF, 0xFF), 0x3FFF);
    assert_eq!(magnetometer_axis(0x12, 0x34), 0x1234);
    assert_eq!(magnetometer_axis(0x7F, 0xFF), 32767);
    assert_eq!(magnetometer_axis(0x80, 0x00), -32768);
    assert_eq!(magnetometer_axis(0xFF, 0xFF), -1);
}

#[test]
fn readings_go_to_the_sensor_that_is_configured() {
    let raw = [0x12, 0x34, 0xFF, 0xFF, 0x00, 0x04, 0xAA];
    let accel = Sensor { enabled: true, use_accelerometer: true, use_magnetometer: true, ..sensor() };
    let reading = Reading { x: 0x048D, y: 0x3FFF, z: 1 };
    assert_eq!(fired(accel, &raw), (reading, Sensor { last_accel: Some(reading), ..accel }));
    let magnet = Sensor { enabled: true, use_magnetometer: true, ..sensor() };
    let reading = Reading { x: 0x1234, y: -1, z: 4 };
    assert_eq!(fired(magnet, &raw), (reading, Sensor { last_magnet: Some(reading), ..magnet }));
    let none = Sensor { enabled: true, ..sensor() };
    assert_eq!(fired(none, &raw), (Reading { x: 0, y: 0, z: 0 }, none));
    assert_eq!(accelerometer_fired(&raw), Reading { x: 0x1234, y: -1, z: 4 });
}

#[test]
fn subscriptions() {
    let last = Reading { x: 1, y: 2, z: 3 };
    let ready = Sensor {
        enabled: true,
        use_accelerometer: true,
        last_accel: Some(last),
        ..sensor()
    };
    assert_eq!(subscribe(ready, 0), REFUSED);
    assert_eq!(subscribe(ready, 3), REFUSED);
    assert_eq!(subscribe(sensor(), 1), REFUSED);
    assert_eq!(subscribe(sensor(), 2), REFUSED);
    assert_eq!(
        subscribe(ready, 1),
        Subscription { result: 0, report: Some(last), save_callback: true }
    );
    assert_eq!(
        subscribe(Sensor { has_callback: true, last_accel: None, ..ready }, 1),
        Subscription { result: 0, report: None, save_callback: false }
    );
    assert_eq!(subscribe(ready, 2), Subscription { result: 0, report: None, save_callback: false });
    assert_eq!(subscribe(Sensor { use_accelerometer: false, ..ready }, 1), REFUSED);
    let magnet = Sensor { enabled: true, use_magnetometer: true, last_magnet: Some(last), ..sensor() };
    assert_eq!(
        subscribe(magnet, 2),
        Subscription { result: 0, report: Some(last), save_callback: true }
    );

    assert_eq!(accelerometer_subscribe(false, Some(last), 0), REFUSED);
    assert_eq!(accelerometer_subscribe(true, Some(last), 1), REFUSED);
    assert_eq!(
        accelerometer_subscribe(true, Some(last), 0),
        Subscription { result: 0, report: Some(last), save_callback: false }
    );
    assert_eq!(
        accelerometer_subscribe(true, None, 0),
        Subscription { result: 0, report: None, save_callback: true }
    );
}

#[test]
fn commands_configure_the_selected_sensors() {
    let standby = write(Registers::CtrlReg1, 0x00);
    let active = write(Registers::CtrlReg1, 0x0D);
    let accel = write(Registers::XYZDataCFG, 0x01);
    let magnet = [write(Registers::MagnetCtrlREG1, 0x1F), write(Registers::MagnetCtrlREG2, 0x20)];

    let outcome = command(sensor(), 0, DEVICE_ID);
    assert_eq!(outcome.result, 0);
    assert_eq!(outcome.writes, vec![standby, accel, magnet[0], magnet[1], active]);
    assert!(outcome.start_timer);
    assert_eq!(
        outcome.sensor,
        Sensor { enabled: true, use_accelerometer: true, use_magnetometer: true, ..sensor() }
    );

    let outcome = command(sensor(), 1, 0xC7);
    assert_eq!(outcome.writes, vec![standby, accel, active]);
    assert_eq!(outcome.sensor, Sensor { enabled: true, use_accelerometer: true, ..sensor() });

    let outcome = command(sensor(), 2, 0xC7);
    assert_eq!(outcome.writes, vec![standby, magnet[0], magnet[1], active]);
    assert_eq!(outcome.sensor, Sensor { enabled: true, use_magnetometer: true, ..sensor() });

    let outcome = command(sensor(), 3, 0xC7);
    assert_eq!(outcome.result, -1);
    assert_eq!(outcome.writes, vec![standby]);
    assert!(!outcome.start_timer);
    assert_eq!(outcome.sensor, sensor());

    let outcome = command(sensor(), 0, 0xC6);
    assert_eq!(outcome.result, -1);
    assert!(outcome.writes.is_empty());
    assert!(!outcome.start_timer);
    assert_eq!(outcome.sensor, sensor());

    assert_eq!(accelerometer_command(0xC7, 0xC7), (0, vec![standby, accel, active]));
    assert_eq!(accelerometer_command(0x0D, 0x0D), (0, vec![standby, accel, active]));
    assert_eq!(accelerometer_command(0x0D, 0xC7), (-1, vec![]));
}

#[test]
fn the_chip_is_configured_once_and_read_once_configured() {
    let configured = Sensor { enabled: true, ..sensor() };
    assert!(may_configure(sensor()));
    assert!(!may_configure(configured));
    assert!(!may_read(sensor()));
    assert!(may_read(configured));
    assert!(may_read(command(sensor(), 1, DEVICE_ID).sensor));
    assert!(!may_read(command(sensor(), 9, DEVICE_ID).sensor));
    assert!(is_accelerometer_command(0));
    assert!(!is_accelerometer_command(1));
    assert!(!is_accelerometer_command(usize::MAX));
}
