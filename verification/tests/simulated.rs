use rf230::driver::{Mode, RF230};
use rf230::frame::Frame;
use rf230::hil::gpio::GPIOPin;
use rf230::hil::ieee802154::{Params, Reader, Transceiver};
use rf230::hil::spi_master::{SPIParams, SPI};
use rf230::sam4l::eic::Interrupt;
use rf230::state::State;
use std::cell::RefCell;
use std::rc::Rc;

/// A radio that follows the state diagram: it takes a written state from the states from
/// which it can go there, wakes when its control pin is taken low, and comes out of a busy
/// state by itself after it has been asked once.
struct Radio {
    state: State,
    command: Option<u8>,
    position: usize,
    selected: bool,
    polls: usize,
    stray: usize,
}

impl Radio {
    fn stable(state: State) -> bool {
        matches!(state, State::TRX_OFF | State::PLL_ON | State::RX_ON)
    }

    fn settle(&mut self) {
        self.state = match self.state {
            State::BUSY_RX => State::RX_ON,
            State::BUSY_TX => State::PLL_ON,
            State::STATE_TRANSITION_IN_PROGRESS => State::TRX_OFF,
            other => other,
        };
    }

    fn write_state(&mut self, code: u8) {
        let Ok(target) = State::from_status(code) else { return };
        let allowed = match self.state {
            State::P_ON => target == State::TRX_OFF,
            current => Radio::stable(current) && Radio::stable(target),
        };
        if allowed {
            self.state = target;
        }
    }

    fn transfer(&mut self, byte: u8) -> u8 {
        if !self.selected {
            self.stray += 1;
            return 0;
        }
        self.position += 1;
        match (self.position, self.command) {
            (1, _) => {
                self.command = Some(byte);
                0
            },
            (2, Some(0x81)) => {
                self.polls += 1;
                let status = self.state.as_byte();
                self.settle();
                status
            },
            (2, Some(0xC2)) => {
                self.write_state(byte);
                0
            },
            _ => 0,
        }
    }
}

struct Bus(Rc<RefCell<Radio>>);

impl SPI for Bus {
    fn init(&mut self, _params: SPIParams) {}

    fn write_byte(&mut self, out_byte: u8) -> u8 {
        self.0.borrow_mut().transfer(out_byte)
    }

    fn read_byte(&mut self) -> u8 {
        self.write_byte(0)
    }

    fn read(&mut self, _buffer: &mut [u8]) {}

    fn write(&mut self, _buffer: &[u8]) {}

    fn read_and_write(&mut self, _read_buffer: &mut [u8], _write_buffer: &[u8]) {}

    fn enable(&mut self) {}

    fn disable(&mut self) {}
}

struct SelectPin(Rc<RefCell<Radio>>);

impl GPIOPin for SelectPin {
    fn enable_output(&mut self) {}

    fn set(&mut self) {
        self.0.borrow_mut().selected = false;
    }

    fn clear(&mut self) {
        let mut radio = self.0.borrow_mut();
        radio.selected = true;
        radio.position = 0;
        radio.command = None;
    }
}

struct ControlPin(Rc<RefCell<Radio>>);

impl GPIOPin for ControlPin {
    fn enable_output(&mut self) {}

    fn set(&mut self) {}

    fn clear(&mut self) {
        let mut radio = self.0.borrow_mut();
        radio.state = match radio.state {
            State::SLEEP => State::TRX_OFF,
            State::RX_ON_NOCLK => State::RX_ON,
            other => other,
        };
    }
}

struct ResetPin;

impl GPIOPin for ResetPin {
    fn enable_output(&mut self) {}

    fn set(&mut self) {}

    fn clear(&mut self) {}
}

/// Any of the three kinds of pins.
enum Pin {
    Select(SelectPin),
    Control(ControlPin),
    Reset(ResetPin),
}

impl GPIOPin for Pin {
    fn enable_output(&mut self) {}

    fn set(&mut self) {
        match self {
            Pin::Select(pin) => pin.set(),
            Pin::Control(pin) => pin.set(),
            Pin::Reset(pin) => pin.set(),
        }
    }

    fn clear(&mut self) {
        match self {
            Pin::Select(pin) => pin.clear(),
            Pin::Control(pin) => pin.clear(),
            Pin::Reset(pin) => pin.clear(),
        }
    }
}

struct NoReader;

impl Reader for NoReader {
    fn frame_received(&mut self, _frame: Frame) {}

    fn send_done(&mut self) {}
}

const STATES: [State; 9] = [
    State::P_ON,
    State::BUSY_RX,
    State::BUSY_TX,
    State::RX_ON,
    State::TRX_OFF,
    State::PLL_ON,
    State::SLEEP,
    State::RX_ON_NOCLK,
    State::STATE_TRANSITION_IN_PROGRESS,
];

fn driver(start: State, poll_limit: usize) -> (RF230<Bus, Pin, NoReader>, Rc<RefCell<Radio>>) {
    let radio = Rc::new(RefCell::new(Radio {
        state: start,
        command: None,
        position: 0,
        selected: false,
        polls: 0,
        stray: 0,
    }));
    let rf = RF230::new(
        Bus(radio.clone()),
        Pin::Select(SelectPin(radio.clone())),
        Interrupt::Interrupt5,
        Pin::Control(ControlPin(radio.clone())),
        Pin::Reset(ResetPin),
        poll_limit,
    );
    (rf, radio)
}

#[test]
fn every_target_is_reached_from_every_state_within_four_polls() {
    for target in [State::RX_ON, State::PLL_ON, State::TRX_OFF] {
        for start in STATES {
            let (mut rf, radio) = driver(start, 4);
            assert_eq!(rf.drive_to(target), Ok(()));
            assert_eq!(radio.borrow().state, target);
            assert!(radio.borrow().polls <= 4);
            assert_eq!(radio.borrow().stray, 0);
            assert!(!radio.borrow().selected);
        }
    }
}

#[test]
fn one_poll_is_enough_only_where_the_radio_is_there() {
    for start in STATES {
        let (mut rf, radio) = driver(start, 1);
        let result = rf.drive_to(State::RX_ON);
        assert_eq!(result.is_ok(), start == State::RX_ON);
        assert_eq!(radio.borrow().polls, 1);
    }
}

#[test]
fn the_receiver_is_enabled_and_disabled_on_the_simulated_radio() {
    let (mut rf, radio) = driver(State::P_ON, 8);
    rf.init(Params { client: NoReader });
    assert_eq!(rf.enable_rx(), Ok(()));
    assert_eq!(radio.borrow().state, State::RX_ON);
    assert_eq!(rf.mode(), Mode::Receiving);
    assert_eq!(rf.disable_rx(), Ok(()));
    assert_eq!(radio.borrow().state, State::TRX_OFF);
    assert_eq!(rf.mode(), Mode::Idle);
    assert_eq!(rf.set_state_pll_on(), Ok(()));
    assert_eq!(radio.borrow().state, State::PLL_ON);
    assert_eq!(radio.borrow().stray, 0);
}
