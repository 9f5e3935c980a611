use rf230::driver::{decode_received, Diagnostic, Mode, RF230};
use rf230::error::Error;
use rf230::frame::{Address, Addresses, Frame, FrameType, FullAddress, Payload};
use rf230::hil::gpio::GPIOPin;
use rf230::hil::ieee802154::{Params, Reader, Transceiver};
use rf230::hil::spi_master::{ClockPhase, ClockPolarity, DataOrder, SPIParams, SPI};
use rf230::interrupt::InterruptEvent;
use rf230::recorded::PinEvent;
use rf230::registers::{Register, RegisterName};
use rf230::sam4l::eic::Interrupt;
use rf230::state::State;

/// A bus that answers with the bytes of a script, then with zero, and records what is sent.
struct ScriptedBus {
    replies: Vec<u8>,
    sent: Vec<u8>,
    params: Option<SPIParams>,
    enabled: bool,
}

impl SPI for ScriptedBus {
    fn init(&mut self, params: SPIParams) {
        self.params = Some(params);
    }

    fn write_byte(&mut self, out_byte: u8) -> u8 {
        let reply = self.replies.get(self.sent.len()).copied().unwrap_or(0);
        self.sent.push(out_byte);
        reply
    }

    fn read_byte(&mut self) -> u8 {
        self.write_byte(0)
    }

    fn read(&mut self, _buffer: &mut [u8]) {}

    fn write(&mut self, _buffer: &[u8]) {}

    fn read_and_write(&mut self, _read_buffer: &mut [u8], _write_buffer: &[u8]) {}

    fn enable(&mut self) {
        self.enabled = true;
    }

    fn disable(&mut self) {
        self.enabled = false;
    }
}

struct RecordingPin {
    events: Vec<PinEvent>,
}

impl GPIOPin for RecordingPin {
    fn enable_output(&mut self) {
        self.events.push(PinEvent::OutputEnabled);
    }

    fn set(&mut self) {
        self.events.push(PinEvent::DrivenHigh);
    }

    fn clear(&mut self) {
        self.events.push(PinEvent::DrivenLow);
    }
}

struct RecordingReader {
    sent: usize,
    frames: Vec<Frame>,
}

impl Reader for RecordingReader {
    fn frame_received(&mut self, frame: Frame) {
        self.frames.push(frame);
    }

    fn send_done(&mut self) {
        self.sent += 1;
    }
}

type Radio = RF230<ScriptedBus, RecordingPin, RecordingReader>;

fn pin() -> RecordingPin {
    RecordingPin { events: Vec::new() }
}

fn radio(replies: &[u8], poll_limit: usize) -> Radio {
    let bus = ScriptedBus { replies: replies.to_vec(), sent: Vec::new(), params: None, enabled: false };
    RF230::new(bus, pin(), Interrupt::Interrupt5, pin(), pin(), poll_limit)
}

/// A radio that has been initialized, with what that did to the pins forgotten by the test.
fn initialized(replies: &[u8], poll_limit: usize) -> Radio {
    let mut rf = radio(replies, poll_limit);
    rf.init(Params { client: RecordingReader { sent: 0, frames: Vec::new() } });
    rf
}

/// What `count` transactions do to a select pin that nothing had been done to: it is made
/// an output once, and taken low and high again for each.
fn framed(count: usize) -> Vec<PinEvent> {
    let mut events = Vec::new();
    for i in 0..count {
        if i == 0 {
            events.push(PinEvent::OutputEnabled);
        }
        events.extend([PinEvent::DrivenLow, PinEvent::DrivenHigh]);
    }
    events
}

fn data_frame(payload: &[u8]) -> Frame {
    Frame {
        frame_type: FrameType::Data,
        security_enabled: false,
        frame_pending: false,
        acknowledgment_request: true,
        sequence_number: 7,
        addresses: Addresses::Local {
            source_address: Address::Short(0x1234),
            destination: FullAddress { address: Address::Short(0x5678), pan_id: 0xABCD },
        },
        payload: Payload::from_slice(payload).unwrap(),
    }
}

const ENCODED: [u8; 11] = [0x61, 0x88, 0x07, 0x78, 0x56, 0xCD, 0xAB, 0x34, 0x12, 0xDE, 0xAD];

#[test]
fn a_new_driver_has_touched_nothing() {
    let rf = radio(&[], 10);
    assert_eq!(rf.mode(), Mode::Uninitialized);
    assert_eq!(rf.irq(), Interrupt::Interrupt5);
    assert!(rf.client().is_none());
    assert!(rf.spi().sent.is_empty());
    assert!(rf.select().events.is_empty());
    assert!(rf.control().events.is_empty());
    assert!(rf.reset().events.is_empty());
}

#[test]
fn read_register_sends_the_read_command_and_returns_the_second_byte() {
    let mut rf = radio(&[0xAA, 0x02], 10);
    assert_eq!(rf.read_register(RegisterName::PartNum.register()), 0x02);
    assert_eq!(rf.spi().sent, vec![0x9C, 0x00]);
    assert_eq!(rf.select().events, framed(1));
    assert!(rf.control().events.is_empty());
    assert_eq!(rf.mode(), Mode::Uninitialized);
}

#[test]
fn write_register_sends_the_write_command_and_the_cleaned_value() {
    let mut rf = radio(&[], 10);
    rf.write_register(RegisterName::CcaThres.register(), 0x3A);
    rf.write_register(Register { address: 0x05, reset_value: 0, reserved_mask: 0x70 }, 0xFF);
    assert_eq!(rf.spi().sent, vec![0xC9, 0xCA, 0xC5, 0x8F]);
    assert_eq!(rf.select().events, framed(2));
}

#[test]
fn identity_registers_are_read_at_their_addresses() {
    let mut rf = radio(&[0, 0x02, 0, 0x01, 0, 0x1F, 0, 0xAB], 10);
    assert_eq!(rf.get_part_number(), 0x02);
    assert_eq!(rf.get_version_number(), 0x01);
    assert_eq!(rf.get_manufacturer_id(), 0xAB1F);
    assert_eq!(rf.spi().sent, vec![0x9C, 0, 0x9D, 0, 0x9E, 0, 0x9F, 0]);
    assert_eq!(rf.select().events, framed(4));
}

#[test]
fn write_frame_buffer_sends_command_length_and_data() {
    let mut rf = radio(&[], 10);
    assert_eq!(rf.write_frame_buffer(&[0, 1, 2, 3, 4, 5]), Ok(()));
    assert_eq!(rf.spi().sent, vec![0x60, 6, 0, 1, 2, 3, 4, 5]);
    assert_eq!(rf.select().events, framed(1));
    let mut rf = radio(&[], 10);
    assert_eq!(rf.write_frame_buffer(&[0x11; 122]), Ok(()));
    assert_eq!(rf.spi().sent.len(), 124);
    assert_eq!(rf.spi().sent[1], 122);
}

#[test]
fn write_frame_buffer_longer_than_122_bytes_touches_nothing() {
    for length in [123usize, 127, 128, 300] {
        let mut rf = radio(&[], 10);
        let data = vec![0x55u8; length];
        assert_eq!(rf.write_frame_buffer(&data), Err(Error::OversizeFrame));
        assert!(rf.spi().sent.is_empty());
        assert!(rf.select().events.is_empty());
        assert!(rf.control().events.is_empty());
        assert!(rf.reset().events.is_empty());
    }
}

#[test]
fn sram_is_read_and_written_from_an_address() {
    let mut rf = radio(&[0xEE, 0xEE, 0x0A, 0x0B, 0x0C], 10);
    let mut data = [0u8; 3];
    rf.read_sram(0x42, &mut data);
    assert_eq!(data, [0x0A, 0x0B, 0x0C]);
    assert_eq!(rf.spi().sent, vec![0x00, 0x42, 0, 0, 0]);
    assert_eq!(rf.select().events, framed(1));

    let mut rf = radio(&[], 10);
    rf.write_sram(0x10, &[9, 8, 7]);
    rf.write_sram(0x11, &[]);
    assert_eq!(rf.spi().sent, vec![0x40, 0x10, 9, 8, 7, 0x40, 0x11]);
    assert_eq!(rf.select().events, framed(2));
}

#[test]
fn read_frame_buffer_reads_length_data_and_link_quality() {
    let mut rf = radio(&[0, 4, 0xA1, 0xA2, 0xA3, 0x7F], 10);
    let frame = rf.read_frame_buffer().unwrap();
    assert_eq!(frame.len(), 3);
    assert_eq!(frame.as_slice(), &[0xA1, 0xA2, 0xA3]);
    assert_eq!(frame.link_quality(), 0x7F);
    assert_eq!(frame.get(0), Ok(0xA1));
    assert_eq!(frame.get(2), Ok(0xA3));
    assert_eq!(frame.get(3), Err(Error::BufferIndexOutOfRange));
    assert_eq!(frame.get(126), Err(Error::BufferIndexOutOfRange));
    assert_eq!(frame.get(usize::MAX), Err(Error::BufferIndexOutOfRange));
    assert_eq!(rf.spi().sent, vec![0x20, 0, 0, 0, 0, 0]);
    assert_eq!(rf.select().events, framed(1));
}

#[test]
fn read_frame_buffer_takes_a_length_of_zero_as_no_data() {
    let mut rf = radio(&[0, 0, 0x33], 10);
    let frame = rf.read_frame_buffer().unwrap();
    assert_eq!(frame.len(), 0);
    assert_eq!(frame.link_quality(), 0x33);
    assert_eq!(frame.get(0), Err(Error::BufferIndexOutOfRange));
    assert_eq!(rf.spi().sent, vec![0x20, 0, 0]);
}

#[test]
fn read_frame_buffer_fills_the_whole_buffer_at_most() {
    let mut replies = vec![0, 128];
    replies.extend((0..127).map(|i| i as u8));
    replies.push(0x99);
    let mut rf = radio(&replies, 10);
    let frame = rf.read_frame_buffer().unwrap();
    assert_eq!(frame.len(), 127);
    assert_eq!(frame.get(126), Ok(126));
    assert_eq!(frame.link_quality(), 0x99);

    let mut rf = radio(&[0, 129, 1, 2, 3], 10);
    assert_eq!(rf.read_frame_buffer(), Err(Error::OversizeFrame));
    assert_eq!(rf.spi().sent, vec![0x20, 0]);
    assert_eq!(rf.select().events, framed(1));
}

#[test]
fn get_state_reads_the_five_low_bits_of_the_status() {
    let mut rf = radio(&[0, 0x03], 10);
    assert_eq!(rf.get_state(), Err(Error::UnrecognizedHardwareState));
    let mut rf = radio(&[0, 0x06 | 0xC0], 10);
    assert_eq!(rf.get_state(), Ok(State::RX_ON));
    assert_eq!(rf.spi().sent, vec![0x81, 0]);
}

#[test]
fn write_state_register_writes_the_state_control_register() {
    let mut rf = radio(&[], 10);
    rf.write_state_register(State::PLL_ON);
    assert_eq!(rf.spi().sent, vec![0xC2, 0x09]);
    assert_eq!(rf.select().events, framed(1));
}

/// Runs `drive_to(RX_ON)` against the statuses of `script`, with junk where no status is
/// read, and returns the radio.
fn driven(script: &[u8], limit: usize, target: State) -> (Radio, Result<(), Error>) {
    let mut rf = radio(script, limit);
    let result = rf.drive_to(target);
    (rf, result)
}

#[test]
fn drive_to_rx_on_ends_from_each_of_the_nine_states() {
    let j = 0x5A;
    let poll = [0x81, 0];
    let cases: [(State, Vec<u8>, Vec<u8>, usize); 9] = [
        (
            State::P_ON,
            vec![j, 0x00, j, j, j, 0x08, j, j, j, 0x06],
            vec![0x81, 0, 0xC2, 0x08, 0x81, 0, 0xC2, 0x06, 0x81, 0],
            0,
        ),
        (State::BUSY_RX, vec![j, 0x01, j, 0x06], vec![0x81, 0, 0x81, 0], 0),
        (State::BUSY_TX, vec![j, 0x02, j, 0x06], vec![0x81, 0, 0x81, 0], 0),
        (State::RX_ON, vec![j, 0x06], poll.to_vec(), 0),
        (State::TRX_OFF, vec![j, 0x08, j, j, j, 0x06], vec![0x81, 0, 0xC2, 0x06, 0x81, 0], 0),
        (State::PLL_ON, vec![j, 0x09, j, j, j, 0x06], vec![0x81, 0, 0xC2, 0x06, 0x81, 0], 0),
        (
            State::SLEEP,
            vec![j, 0x0F, j, 0x08, j, j, j, 0x06],
            vec![0x81, 0, 0x81, 0, 0xC2, 0x06, 0x81, 0],
            1,
        ),
        (State::RX_ON_NOCLK, vec![j, 0x1C, j, 0x06], vec![0x81, 0, 0x81, 0], 1),
        (State::STATE_TRANSITION_IN_PROGRESS, vec![j, 0x1F, j, 0x1F, j, 0x06], vec![0x81, 0, 0x81, 0, 0x81, 0], 0),
    ];
    for (start, script, sent, wakes) in cases {
        assert_eq!(State::from_status(script[1]), Ok(start));
        let (rf, result) = driven(&script, 8, State::RX_ON);
        assert_eq!(result, Ok(()));
        assert_eq!(rf.spi().sent, sent);
        assert_eq!(rf.select().events, framed(sent.len() / 2));
        assert_eq!(rf.control().events, vec![PinEvent::DrivenLow; wakes]);
        assert!(rf.reset().events.is_empty());
        assert!(sent.len() <= 4 * 8);
    }
}

#[test]
fn drive_to_stops_as_soon_as_the_target_is_reported() {
    for (target, code) in [(State::RX_ON, 0x06), (State::PLL_ON, 0x09), (State::TRX_OFF, 0x08)] {
        let (rf, result) = driven(&[0, code, 0, 0x00, 0, 0x00], 5, target);
        assert_eq!(result, Ok(()));
        assert_eq!(rf.spi().sent, vec![0x81, 0]);
    }
}

#[test]
fn drive_to_gives_up_after_the_allowed_polls() {
    let (rf, result) = driven(&[0, 0x01, 0, 0x01, 0, 0x01, 0, 0x06], 3, State::RX_ON);
    assert_eq!(result, Err(Error::TransitionTimeout));
    assert_eq!(rf.spi().sent, vec![0x81, 0, 0x81, 0, 0x81, 0]);

    let (rf, result) = driven(&[0, 0x06], 0, State::RX_ON);
    assert_eq!(result, Err(Error::TransitionTimeout));
    assert!(rf.spi().sent.is_empty());
    assert!(rf.select().events.is_empty());

    let (rf, result) = driven(&[0, 0x08, 0, 0], 1, State::RX_ON);
    assert_eq!(result, Err(Error::TransitionTimeout));
    assert_eq!(rf.spi().sent, vec![0x81, 0, 0xC2, 0x06]);
}

#[test]
fn drive_to_reports_an_unrecognized_state() {
    let (rf, result) = driven(&[0, 0x01, 0, 0x0A, 0, 0x06], 5, State::PLL_ON);
    assert_eq!(result, Err(Error::UnrecognizedHardwareState));
    assert_eq!(rf.spi().sent, vec![0x81, 0, 0x81, 0]);
}

#[test]
fn set_state_functions_drive_to_their_states() {
    let mut rf = radio(&[0, 0x08, 0, 0, 0, 0x09], 5);
    assert_eq!(rf.set_state_pll_on(), Ok(()));
    assert_eq!(rf.spi().sent, vec![0x81, 0, 0xC2, 0x09, 0x81, 0]);
    let mut rf = radio(&[0, 0x09, 0, 0, 0, 0x06], 5);
    assert_eq!(rf.set_state_rx_on(), Ok(()));
    assert_eq!(rf.spi().sent, vec![0x81, 0, 0xC2, 0x06, 0x81, 0]);
}

#[test]
fn init_configures_the_bus_and_the_pins() {
    let rf = initialized(&[], 10);
    assert_eq!(rf.mode(), Mode::Idle);
    assert!(rf.client().is_some());
    assert!(rf.spi().enabled);
    assert_eq!(
        rf.spi().params,
        Some(SPIParams {
            baud_rate: 4_000_000,
            data_order: DataOrder::MSBFirst,
            clock_polarity: ClockPolarity::IdleLow,
            clock_phase: ClockPhase::SampleLeading,
        })
    );
    assert!(rf.spi().sent.is_empty());
    assert_eq!(rf.select().events, vec![PinEvent::OutputEnabled, PinEvent::DrivenHigh]);
    assert_eq!(rf.control().events, vec![PinEvent::OutputEnabled, PinEvent::DrivenLow]);
    assert_eq!(rf.reset().events, vec![PinEvent::OutputEnabled, PinEvent::DrivenHigh]);
}

#[test]
fn the_select_pin_is_made_an_output_once() {
    let mut rf = initialized(&[], 10);
    rf.write_sram(0, &[1]);
    rf.write_sram(1, &[2]);
    assert_eq!(
        rf.select().events,
        vec![
            PinEvent::OutputEnabled,
            PinEvent::DrivenHigh,
            PinEvent::DrivenLow,
            PinEvent::DrivenHigh,
            PinEvent::DrivenLow,
            PinEvent::DrivenHigh,
        ]
    );
    rf.init(Params { client: RecordingReader { sent: 0, frames: Vec::new() } });
    assert_eq!(rf.select().events.len(), 7);
    assert_eq!(rf.control().events, vec![PinEvent::OutputEnabled, PinEvent::DrivenLow, PinEvent::DrivenLow]);
    assert_eq!(rf.reset().events, vec![PinEvent::OutputEnabled, PinEvent::DrivenHigh, PinEvent::DrivenHigh]);
}

#[test]
fn nothing_starts_before_init() {
    let mut rf = radio(&[0, 0x06], 10);
    assert_eq!(rf.enable_rx(), Err(Error::NotReady));
    assert_eq!(rf.disable_rx(), Err(Error::NotReady));
    assert_eq!(rf.send(data_frame(&[1])), Err(Error::NotReady));
    assert!(rf.spi().sent.is_empty());
    assert!(rf.select().events.is_empty());
    assert_eq!(rf.mode(), Mode::Uninitialized);
}

#[test]
fn enable_and_disable_rx_move_between_idle_and_receiving() {
    let mut rf = initialized(&[0, 0x08, 0, 0, 0, 0x06, 0, 0x06, 0, 0, 0, 0x08], 10);
    assert_eq!(rf.enable_rx(), Ok(()));
    assert_eq!(rf.mode(), Mode::Receiving);
    assert_eq!(rf.spi().sent, vec![0x81, 0, 0xC2, 0x06, 0x81, 0]);
    assert_eq!(rf.disable_rx(), Ok(()));
    assert_eq!(rf.mode(), Mode::Idle);
    assert_eq!(rf.spi().sent[6..], [0x81, 0, 0xC2, 0x08, 0x81, 0]);

    let mut rf = initialized(&[0, 0x01], 1);
    assert_eq!(rf.enable_rx(), Err(Error::TransitionTimeout));
    assert_eq!(rf.mode(), Mode::Idle);
}

#[test]
fn send_writes_the_frame_then_starts_the_transmission() {
    let mut script = vec![0u8; 13];
    script.extend([0, 0x08, 0, 0, 0, 0x09]);
    let mut rf = initialized(&script, 10);
    assert_eq!(rf.send(data_frame(&[0xDE, 0xAD])), Ok(()));
    assert_eq!(rf.mode(), Mode::Transmitting);
    let mut expected = vec![0x60, 11];
    expected.extend(ENCODED);
    expected.extend([0x81, 0, 0xC2, 0x09, 0x81, 0]);
    assert_eq!(rf.spi().sent, expected);
    assert_eq!(
        rf.control().events,
        vec![PinEvent::OutputEnabled, PinEvent::DrivenLow, PinEvent::DrivenHigh, PinEvent::DrivenLow]
    );
    assert_eq!(rf.client().unwrap().sent, 0);

    assert_eq!(rf.send(data_frame(&[1])), Err(Error::NotReady));
    assert_eq!(rf.enable_rx(), Err(Error::NotReady));
    assert_eq!(rf.spi().sent, expected);
}

#[test]
fn send_refuses_an_oversize_frame_before_it_touches_the_bus() {
    let mut rf = initialized(&[], 10);
    assert_eq!(rf.send(data_frame(&[0u8; 122])), Err(Error::OversizeFrame));
    assert_eq!(rf.send(data_frame(&[0u8; 114])), Err(Error::OversizeFrame));
    assert!(rf.spi().sent.is_empty());
    assert_eq!(rf.select().events.len(), 2);
    assert_eq!(rf.control().events.len(), 2);
    assert_eq!(rf.mode(), Mode::Idle);
}

#[test]
fn send_without_reaching_pll_on_does_not_pulse() {
    let mut rf = initialized(&[], 2);
    assert_eq!(rf.send(data_frame(&[])), Err(Error::TransitionTimeout));
    assert_eq!(rf.mode(), Mode::Idle);
    assert_eq!(rf.control().events, vec![PinEvent::OutputEnabled, PinEvent::DrivenLow]);
    assert_eq!(rf.spi().sent.len(), 2 + 9 + 8);
}

#[test]
fn a_complete_transmission_is_reported_exactly_once() {
    for low in 0..8u8 {
        let mut script = vec![0u8; 11];
        script.extend([0, 0x09]);
        script.extend([0, 0b0000_1000 | low]);
        let mut rf = initialized(&script, 10);
        assert_eq!(rf.send(data_frame(&[])), Ok(()));
        rf.handle_interrupt();
        assert_eq!(rf.mode(), Mode::Idle);
        assert_eq!(rf.client().unwrap().sent, 1);
        assert!(rf.client().unwrap().frames.is_empty());
        assert!(rf.take_diagnostics().is_empty());
        assert_eq!(rf.spi().sent[13..], [0x8F, 0]);
    }
}

#[test]
fn a_received_frame_is_handed_to_the_client() {
    let mut script = vec![0, 0x06, 0, 0b0000_1100, 0, 13];
    script.extend(ENCODED);
    script.extend([0xFC, 0x80]);
    let mut rf = initialized(&script, 10);
    assert_eq!(rf.enable_rx(), Ok(()));
    rf.handle_interrupt();
    assert_eq!(rf.mode(), Mode::Receiving);
    let client = rf.client().unwrap();
    assert_eq!(client.sent, 0);
    assert_eq!(client.frames, vec![data_frame(&[0xDE, 0xAD])]);
    assert!(rf.take_diagnostics().is_empty());
    let mut expected = vec![0x81, 0, 0x8F, 0, 0x20, 0];
    expected.extend([0u8; 13]);
    assert_eq!(rf.spi().sent, expected);
}

#[test]
fn what_is_not_a_frame_is_recorded() {
    let scripts: [&[u8]; 3] = [
        &[0, 0x06, 0, 0x08, 0, 3, 0x81, 0x00, 0x55],
        &[0, 0x06, 0, 0x08, 0, 0, 0x55],
        &[0, 0x06, 0, 0x08, 0, 200],
    ];
    for script in scripts {
        let mut rf = initialized(script, 10);
        assert_eq!(rf.enable_rx(), Ok(()));
        rf.handle_interrupt();
        assert!(rf.client().unwrap().frames.is_empty());
        assert_eq!(rf.client().unwrap().sent, 0);
        assert_eq!(rf.take_diagnostics(), vec![Diagnostic::UndecodableFrame]);
        assert!(rf.take_diagnostics().is_empty());
    }
}

#[test]
fn other_causes_are_recorded_one_for_each_interrupt() {
    let cases = [
        (0b1000_1111u8, Diagnostic::Raised(InterruptEvent::SupplyVoltageLow)),
        (0b0100_1111, Diagnostic::Raised(InterruptEvent::FrameBufferViolation)),
        (0b0000_1000, Diagnostic::UnexpectedTransfer),
        (0b0000_0111, Diagnostic::Raised(InterruptEvent::ReceiveStarted)),
        (0b0000_0011, Diagnostic::Raised(InterruptEvent::PllUnlock)),
        (0b0000_0001, Diagnostic::Raised(InterruptEvent::PllLock)),
    ];
    for (status, diagnostic) in cases {
        let mut rf = initialized(&[0, status], 10);
        rf.handle_interrupt();
        assert_eq!(rf.spi().sent, vec![0x8F, 0]);
        assert_eq!(rf.client().unwrap().sent, 0);
        assert!(rf.client().unwrap().frames.is_empty());
        assert_eq!(rf.take_diagnostics(), vec![diagnostic]);
        assert_eq!(rf.mode(), Mode::Idle);
    }
    let mut rf = initialized(&[0, 0b0011_0000], 10);
    rf.handle_interrupt();
    assert!(rf.take_diagnostics().is_empty());

    let mut rf = radio(&[0, 0b0000_1000], 10);
    rf.handle_interrupt();
    assert_eq!(rf.take_diagnostics(), vec![Diagnostic::UnexpectedTransfer]);
    assert_eq!(rf.mode(), Mode::Uninitialized);
}

#[test]
fn received_bytes_hold_the_frame_and_one_byte_of_its_check_sequence() {
    let mut data = ENCODED.to_vec();
    data.push(0xFC);
    assert_eq!(decode_received(&data), Ok(data_frame(&[0xDE, 0xAD])));
    assert_eq!(decode_received(&[]), Err(Error::MalformedFrame));
    assert_eq!(decode_received(&ENCODED), Ok(data_frame(&[0xDE])));
}
