use rf230::error::Error;
use rf230::interrupt::InterruptEvent;
use rf230::state::{State, Step};

const STATES: [(State, u8); 9] = [
    (State::P_ON, 0x00),
    (State::BUSY_RX, 0x01),
    (State::BUSY_TX, 0x02),
    (State::RX_ON, 0x06),
    (State::TRX_OFF, 0x08),
    (State::PLL_ON, 0x09),
    (State::SLEEP, 0x0F),
    (State::RX_ON_NOCLK, 0x1C),
    (State::STATE_TRANSITION_IN_PROGRESS, 0x1F),
];

#[test]
fn state_codes_are_the_documented_ones() {
    for (state, code) in STATES {
        assert_eq!(state.as_byte(), code);
        assert_eq!(State::from_status(code), Ok(state));
        assert_eq!(State::from_status(code | 0b1110_0000), Ok(state));
    }
}

#[test]
fn every_other_code_is_unrecognized() {
    let mut recognized = 0;
    for status in 0..=255u8 {
        match State::from_status(status) {
            Ok(state) => {
                recognized += 1;
                assert_eq!(state.as_byte(), status & 0x1F);
            },
            Err(error) => assert_eq!(error, Error::UnrecognizedHardwareState),
        }
    }
    assert_eq!(recognized, 9 * 8);
}

#[test]
fn only_three_states_are_targets() {
    for (state, _) in STATES {
        let expected = matches!(state, State::RX_ON | State::PLL_ON | State::TRX_OFF);
        assert_eq!(state.is_target(), expected);
    }
}

#[test]
fn steps_toward_rx_on() {
    let target = State::RX_ON;
    assert_eq!(State::P_ON.step_toward(target), Step::Write(State::TRX_OFF));
    assert_eq!(State::BUSY_RX.step_toward(target), Step::Wait);
    assert_eq!(State::BUSY_TX.step_toward(target), Step::Wait);
    assert_eq!(State::RX_ON.step_toward(target), Step::Done);
    assert_eq!(State::TRX_OFF.step_toward(target), Step::Write(State::RX_ON));
    assert_eq!(State::PLL_ON.step_toward(target), Step::Write(State::RX_ON));
    assert_eq!(State::SLEEP.step_toward(target), Step::Wake);
    assert_eq!(State::RX_ON_NOCLK.step_toward(target), Step::Wake);
    assert_eq!(State::STATE_TRANSITION_IN_PROGRESS.step_toward(target), Step::Wait);
}

#[test]
fn steps_toward_pll_on_and_trx_off() {
    assert_eq!(State::P_ON.step_toward(State::PLL_ON), Step::Write(State::TRX_OFF));
    assert_eq!(State::TRX_OFF.step_toward(State::PLL_ON), Step::Write(State::PLL_ON));
    assert_eq!(State::RX_ON.step_toward(State::PLL_ON), Step::Write(State::PLL_ON));
    assert_eq!(State::PLL_ON.step_toward(State::PLL_ON), Step::Done);
    assert_eq!(State::P_ON.step_toward(State::TRX_OFF), Step::Write(State::TRX_OFF));
    assert_eq!(State::RX_ON.step_toward(State::TRX_OFF), Step::Write(State::TRX_OFF));
    assert_eq!(State::PLL_ON.step_toward(State::TRX_OFF), Step::Write(State::TRX_OFF));
    assert_eq!(State::TRX_OFF.step_toward(State::TRX_OFF), Step::Done);
    assert_eq!(State::SLEEP.step_toward(State::TRX_OFF), Step::Wake);
    assert_eq!(State::BUSY_TX.step_toward(State::PLL_ON), Step::Wait);
}

#[test]
fn interrupt_status_is_serviced_for_its_highest_bit() {
    assert_eq!(InterruptEvent::first_pending(0), None);
    assert_eq!(InterruptEvent::first_pending(0b0011_0000), None);
    assert_eq!(InterruptEvent::first_pending(0b0000_0001), Some(InterruptEvent::PllLock));
    assert_eq!(InterruptEvent::first_pending(0b0000_0011), Some(InterruptEvent::PllUnlock));
    assert_eq!(InterruptEvent::first_pending(0b0000_0111), Some(InterruptEvent::ReceiveStarted));
    assert_eq!(InterruptEvent::first_pending(0b0000_1000), Some(InterruptEvent::TransferComplete));
    assert_eq!(InterruptEvent::first_pending(0b0000_1111), Some(InterruptEvent::TransferComplete));
    assert_eq!(InterruptEvent::first_pending(0b0011_1111), Some(InterruptEvent::TransferComplete));
    assert_eq!(
        InterruptEvent::first_pending(0b0100_1111),
        Some(InterruptEvent::FrameBufferViolation)
    );
    assert_eq!(InterruptEvent::first_pending(0b1000_0000), Some(InterruptEvent::SupplyVoltageLow));
    assert_eq!(InterruptEvent::first_pending(0xFF), Some(InterruptEvent::SupplyVoltageLow));
    for low in 0..8u8 {
        assert_eq!(
            InterruptEvent::first_pending(0b0000_1000 | low),
            Some(InterruptEvent::TransferComplete)
        );
    }
}
