//! The driver of the AT86RF230: register, memory and frame buffer access over the bus, the
//! way to an operating state, and the service of the radio's interrupt.

use vstd::prelude::*;

use crate::bus::{extends_by, idle_bytes, BusEvent, BusRecord, BusTransaction, RecordedBus};
use crate::error::Error;
use crate::frame::{Frame, MAX_MPDU_LENGTH, MAX_PAYLOAD_LENGTH};
use crate::hil::gpio::GPIOPin;
use crate::hil::ieee802154::{Params, Reader, Transceiver};
use crate::hil::spi_master;
use crate::hil::spi_master::{ClockPhase, ClockPolarity, DataOrder, SPIParams, SPI};
use crate::interrupt::InterruptEvent;
use crate::received::ReceivedFrame;
use crate::recorded::{PinRecord, RecordedClient, RecordedPin, Upcall};
use crate::registers::{Register, RegisterName};
use crate::state::{run_toward, state_command, status_poll, State, Step};
use crate::sam4l::eic::Interrupt;

verus! {

/// Where the transceiver stands between its initialization and the frames it sends and
/// receives.
#[derive(Clone, Copy, Debug, PartialEq, Eq, Structural)]
pub enum Mode {
    /// `init` has not been called
    Uninitialized,
    /// Initialized, neither receiving nor sending
    Idle,
    /// The receiver is enabled
    Receiving,
    /// A frame has been handed to the radio and its transmission has not been reported as
    /// complete
    Transmitting,
}

/// What the driver records of an interrupt that leads to no notification of the client.
#[derive(Clone, Copy, Debug, PartialEq, Eq, Structural)]
pub enum Diagnostic {
    /// The radio raised its interrupt for this cause, which the client is not told of
    Raised(InterruptEvent),
    /// The radio reported a complete transfer while the transceiver was neither sending nor
    /// receiving
    UnexpectedTransfer,
    /// The radio received something that is not a frame
    UndecodableFrame,
}

/// The first byte of a register read: the bits `10`, then the six bits of the register's
/// address. (An address of more than six bits spills into the bits of the command.)
pub open spec fn spec_register_read_command(register: Register) -> u8 {
    if register.address < 0x80 {
        (0x80 + register.address) as u8
    } else {
        register.address
    }
}

/// Returns the first byte of a register read
#[verifier::when_used_as_spec(spec_register_read_command)]
pub fn register_read_command(register: Register) -> (command: u8)
    ensures
        command == spec_register_read_command(register),
{
    let address: u8 = register.address;
    assert((address < 0x80 ==> 0b1000_0000u8 | address == 0x80 + address) && (address >= 0x80
        ==> 0b1000_0000u8 | address == address)) by (bit_vector);
    0b1000_0000 | address
}

/// The first byte of a register write: the bits `11`, then the six bits of the register's
/// address.
pub open spec fn spec_register_write_command(register: Register) -> u8 {
    (0xC0 + register.address % 0x40) as u8
}

/// Returns the first byte of a register write
#[verifier::when_used_as_spec(spec_register_write_command)]
pub fn register_write_command(register: Register) -> (command: u8)
    ensures
        command == spec_register_write_command(register),
{
    let address: u8 = register.address;
    assert(0b1100_0000u8 | address == 0xC0 + address % 0x40) by (bit_vector);
    0b1100_0000 | address
}

/// The first byte of a frame buffer read
pub const FRAME_BUFFER_READ: u8 = 0b0010_0000;

/// The first byte of a frame buffer write
pub const FRAME_BUFFER_WRITE: u8 = 0b0110_0000;

/// The first byte of an SRAM read
pub const SRAM_READ: u8 = 0b0000_0000;

/// The first byte of an SRAM write
pub const SRAM_WRITE: u8 = 0b0100_0000;

/// The number of bytes that follow the length byte of a frame buffer read before the link
/// quality: one less than the length byte says, and none if it says zero.
pub open spec fn frame_data_length(length_byte: u8) -> nat {
    if length_byte == 0 {
        0
    } else {
        (length_byte - 1) as nat
    }
}

/// 4 MHz: the bit rate of the bus
pub const BAUD_RATE: u32 = 4000000;

/// Bit ordering with the most significant bit first
pub const ORDERING: DataOrder = DataOrder::MSBFirst;

/// Clock polarity: Normally low
pub const POLARITY: ClockPolarity = ClockPolarity::IdleLow;

/// Clock phase: Sample on rising (leading) clock edge
pub const PHASE: ClockPhase = ClockPhase::SampleLeading;

/// The parameters of the bus that the radio asks for.
pub open spec fn bus_params() -> SPIParams {
    SPIParams {
        baud_rate: BAUD_RATE,
        data_order: ORDERING,
        clock_polarity: POLARITY,
        clock_phase: PHASE,
    }
}

/// The frame in the bytes read from the frame buffer after a reception. The bytes hold a
/// protocol data unit and, behind it, the first byte of its frame check sequence.
pub open spec fn spec_decode_received(data: Seq<u8>) -> Result<Frame, Error> {
    if data.len() == 0 {
        Err(Error::MalformedFrame)
    } else {
        Frame::spec_from_mpdu_bytes(data.drop_last())
    }
}

/// Returns the frame in the bytes read from the frame buffer after a reception, or
/// `Error::MalformedFrame` if they hold none
pub fn decode_received(data: &[u8]) -> (result: Result<Frame, Error>)
    ensures
        result == spec_decode_received(data@),
{
    if data.len() == 0 {
        Err(Error::MalformedFrame)
    } else {
        Frame::from_mpdu_bytes(vstd::slice::slice_subrange(data, 0, data.len() - 1))
    }
}

/// What can be observed of a driver: what it has done to the bus and to its pins, what it
/// has told its client and recorded, and where it stands.
pub struct RF230View {
    /// The record of the bus and of the pin that selects the radio
    pub bus: BusRecord,
    /// The record of the multi-purpose control pin (SLP_TR)
    pub control: PinRecord,
    /// The record of the reset pin
    pub reset: PinRecord,
    /// What the client has been notified of, if there is a client
    pub upcalls: Option<Seq<Upcall>>,
    /// What has been recorded of interrupts, oldest first
    pub diagnostics: Seq<Diagnostic>,
    /// Where the transceiver stands
    pub mode: Mode,
    /// The most polls of the status register that one change of the operating state may take
    pub poll_limit: usize,
    /// The external interrupt that the radio raises
    pub irq: Interrupt,
}

impl RF230View {
    /// This view after the interrupt status register has been read, where `received` holds
    /// all that has been received by then.
    pub open spec fn status_polled(self, received: Seq<u8>) -> RF230View {
        RF230View { bus: self.bus.exchange(seq![0x8Fu8, 0u8]).receiving(received), ..self }
    }

    /// This view with one more diagnostic recorded.
    pub open spec fn recorded(self, diagnostic: Diagnostic) -> RF230View {
        RF230View { diagnostics: self.diagnostics.push(diagnostic), ..self }
    }

    /// This view with the client notified once more.
    pub open spec fn notified(self, upcall: Upcall) -> RF230View {
        RF230View {
            upcalls: match self.upcalls {
                Some(upcalls) => Some(upcalls.push(upcall)),
                None => None,
            },
            ..self
        }
    }

    /// The number of notifications given and diagnostics recorded.
    pub open spec fn reports(self) -> nat {
        self.diagnostics.len() + match self.upcalls {
            Some(upcalls) => upcalls.len(),
            None => 0,
        }
    }
}

/// What fetching a received frame does after the interrupt status has been read: the frame
/// buffer is read; the client is notified of the frame that was read, or, if no frame can
/// be made of what was read, that is recorded.
pub open spec fn frame_fetched(before: RF230View, after: RF230View) -> bool {
    let start = before.bus.received.len() as int;
    let received = after.bus.received;
    let count = frame_data_length(received[start + 3]);
    let polled = before.bus.exchange(seq![0x8Fu8, 0u8]);
    if count > MAX_MPDU_LENGTH {
        let asked = RF230View {
            bus: polled.exchange(seq![FRAME_BUFFER_READ, 0u8]).receiving(received),
            ..before
        };
        &&& extends_by(received, before.bus.received, 4)
        &&& after == asked.recorded(Diagnostic::UndecodableFrame)
    } else {
        let read = RF230View {
            bus: polled.exchange(seq![FRAME_BUFFER_READ, 0u8] + idle_bytes(count + 1)).receiving(
                received,
            ),
            ..before
        };
        &&& extends_by(received, before.bus.received, 4 + count + 1)
        &&& match spec_decode_received(received.subrange(start + 4, start + 4 + count)) {
            Ok(frame) => after == read.notified(Upcall::FrameReceived(frame)),
            Err(_) => after == read.recorded(Diagnostic::UndecodableFrame),
        }
    }
}

/// What the service of a complete transfer does after the interrupt status has been read.
/// While a frame is being sent, the client is told that it has been sent, and the
/// transceiver is idle again. While the receiver is enabled, the received frame is fetched.
/// Else, and whenever there is no client, the transfer is recorded as unexpected.
pub open spec fn transfer_serviced(before: RF230View, after: RF230View) -> bool {
    if before.upcalls is Some && before.mode == Mode::Transmitting {
        &&& extends_by(after.bus.received, before.bus.received, 2)
        &&& after == (RF230View {
            mode: Mode::Idle,
            ..before.status_polled(after.bus.received).notified(Upcall::SendDone)
        })
    } else if before.upcalls is Some && before.mode == Mode::Receiving {
        frame_fetched(before, after)
    } else {
        &&& extends_by(after.bus.received, before.bus.received, 2)
        &&& after == before.status_polled(after.bus.received).recorded(
            Diagnostic::UnexpectedTransfer,
        )
    }
}

/// What the service of one interrupt does. The interrupt status register is read once, and
/// the status is serviced for the first cause, in the order of priority, that it reports: a
/// complete transfer as `transfer_serviced` says, any other cause by recording it.
pub open spec fn interrupt_serviced(before: RF230View, after: RF230View) -> bool {
    let status = after.bus.received[before.bus.received.len() as int + 1];
    match InterruptEvent::first_pending(status) {
        None => {
            &&& extends_by(after.bus.received, before.bus.received, 2)
            &&& after == before.status_polled(after.bus.received)
        },
        Some(InterruptEvent::TransferComplete) => transfer_serviced(before, after),
        Some(event) => {
            &&& extends_by(after.bus.received, before.bus.received, 2)
            &&& after == before.status_polled(after.bus.received).recorded(
                Diagnostic::Raised(event),
            )
        },
    }
}

/// A transaction of two transfers is on record as one exchange of the two bytes sent.
proof fn lemma_exchange_of_two(record: BusRecord, first: u8, second: u8, between: u8, received: Seq<u8>)
    ensures
        record.selected().sent(seq![first]).receiving(record.received.push(between)).sent(
            seq![second],
        ).receiving(received).after(BusEvent::Released) == record.exchange(
            seq![first, second],
        ).receiving(received),
{
    record.selected().lemma_sent_twice(seq![first], record.received.push(between), seq![second]);
    assert(seq![first] + seq![second] =~= seq![first, second]);
}

/// A transaction of two transfers and a stretch of bytes is on record as one exchange of
/// all the bytes sent.
proof fn lemma_exchange_of_more(
    record: BusRecord,
    first: u8,
    second: u8,
    between: u8,
    middle: Seq<u8>,
    rest: Seq<u8>,
    received: Seq<u8>,
)
    ensures
        record.selected().sent(seq![first]).receiving(record.received.push(between)).sent(
            seq![second],
        ).receiving(middle).sent(rest).receiving(received).after(BusEvent::Released)
            == record.exchange(seq![first, second] + rest).receiving(received),
{
    let start = record.selected();
    start.lemma_sent_twice(seq![first], record.received.push(between), seq![second]);
    assert(seq![first] + seq![second] =~= seq![first, second]);
    start.lemma_sent_twice(seq![first, second], middle, rest);
}

/// What a change of the operating state does on the way to `target`: the run toward
/// `target` that goes with what the radio answers is made, and the transceiver is in
/// `reached` afterwards if the radio got there.
pub open spec fn state_changed(before: RF230View, after: RF230View, target: State, reached: Mode, result: Result<(), Error>) -> bool {
    let run = run_toward(
        target,
        before.poll_limit as nat,
        after.bus.received.skip(before.bus.received.len() as int),
    );
    &&& result == run.result
    &&& extends_by(after.bus.received, before.bus.received, run.bytes())
    &&& after == (RF230View {
        bus: before.bus.exchanges(run.exchanges).receiving(after.bus.received),
        control: before.control.lowered(run.wakes),
        mode: if run.result is Ok {
            reached
        } else {
            before.mode
        },
        ..before
    })
}

///
/// Provides access to an RF230
///
pub struct RF230<S: SPI, G: GPIOPin, R: Reader> {
    /// SPI communication, and the select signal (SEL), active low
    bus: RecordedBus<S, G>,
    /// Multi-purpose control signal (SLP_TR)
    control: RecordedPin<G>,
    /// Reset signal
    reset: RecordedPin<G>,
    /// The external interrupt that the radio raises
    irq: Interrupt,
    /// Reader
    client: Option<RecordedClient<R>>,
    /// Where the transceiver stands
    mode: Mode,
    /// The most polls of the status register that one change of the operating state may take
    poll_limit: usize,
    /// What has been recorded of interrupts
    diagnostics: Vec<Diagnostic>,
}

impl<S: SPI, G: GPIOPin, R: Reader> View for RF230<S, G, R> {
    type V = RF230View;

    closed spec fn view(&self) -> RF230View {
        RF230View {
            bus: self.bus@,
            control: self.control@,
            reset: self.reset@,
            upcalls: match self.client {
                Some(client) => Some(client.upcalls()),
                None => None,
            },
            diagnostics: self.diagnostics@,
            mode: self.mode,
            poll_limit: self.poll_limit,
            irq: self.irq,
        }
    }
}

impl<S: SPI, G: GPIOPin, R: Reader> RF230<S, G, R> {
    /// Creates an RF230 object using the provided SPI object and input/output pins
    ///
    /// `spi` is the SPI object used to communicate with the RF230. The corresponding pins
    /// must have already been configured with the correct peripheral.
    ///
    /// `irq` is the external interrupt that the RF230's IRQ pin is connected to.
    ///
    /// `select`, `control` and `reset` are GPIO pins connected to the RF230's SEL, SLP_TR and
    /// RST pins.
    ///
    /// `poll_limit` is the most polls of the status register that one change of the operating
    /// state may take before it is given up.
    pub fn new(spi: S, select: G, irq: Interrupt, control: G, reset: G, poll_limit: usize) -> (rf230:
        Self)
        ensures
            rf230@ == (RF230View {
                bus: BusRecord::untouched(),
                control: PinRecord::untouched(),
                reset: PinRecord::untouched(),
                upcalls: None,
                diagnostics: Seq::empty(),
                mode: Mode::Uninitialized,
                poll_limit,
                irq,
            }),
            *rf230.spi() == spi,
            *rf230.select() == select,
            *rf230.control() == control,
            *rf230.reset() == reset,
            rf230.client() is None,
    {
        RF230 {
            bus: RecordedBus::new(spi, select),
            control: RecordedPin::new(control),
            reset: RecordedPin::new(reset),
            irq,
            client: None,
            mode: Mode::Uninitialized,
            poll_limit,
            diagnostics: Vec::new(),
        }
    }

    /// Writes the given value to the given register: in one transaction, the write
    /// command with the register's address, then the value with its reserved bits forced to
    /// the register's reset value.
    pub fn write_register(&mut self, register: Register, value: u8)
        ensures
            final(self).off_the_bus_as(old(self)),
            final(self)@ == (RF230View {
                bus: old(self)@.bus.exchange(
                    seq![register_write_command(register), register.spec_clean_for_write(value)],
                ).receiving(final(self)@.bus.received),
                ..old(self)@
            }),
            extends_by(final(self)@.bus.received, old(self)@.bus.received, 2),
    {
        let cleaned = register.clean_for_write(value);
        let command = register_write_command(register);
        let mut transaction = BusTransaction::begin(&mut self.bus);
        let first = transaction.transfer(command);
        transaction.transfer(cleaned);
        transaction.end();
        proof {
            lemma_exchange_of_two(old(self)@.bus, command, cleaned, first, self@.bus.received);
        }
    }

    /// Reads the given register and returns its value: in one transaction, the read
    /// command with the register's address, then one more transfer that receives the value.
    pub fn read_register(&mut self, register: Register) -> (value: u8)
        ensures
            final(self).off_the_bus_as(old(self)),
            final(self)@ == (RF230View {
                bus: old(self)@.bus.exchange(seq![register_read_command(register), 0u8]).receiving(
                    final(self)@.bus.received,
                ),
                ..old(self)@
            }),
            extends_by(final(self)@.bus.received, old(self)@.bus.received, 2),
            value == final(self)@.bus.received.last(),
    {
        let command = register_read_command(register);
        let mut transaction = BusTransaction::begin(&mut self.bus);
        let first = transaction.transfer(command);
        let value = transaction.transfer(0);
        transaction.end();
        proof {
            lemma_exchange_of_two(old(self)@.bus, command, 0, first, self@.bus.received);
        }
        value
    }


    /// Returns the RF230 part number
    pub fn get_part_number(&mut self) -> (number: u8)
        ensures
            final(self).off_the_bus_as(old(self)),
            final(self)@ == (RF230View {
                bus: old(self)@.bus.exchange(seq![0x9Cu8, 0u8]).receiving(final(self)@.bus.received),
                ..old(self)@
            }),
            extends_by(final(self)@.bus.received, old(self)@.bus.received, 2),
            number == final(self)@.bus.received.last(),
    {
        self.read_register(RegisterName::PartNum.register())
    }

    /// Returns the RF230 version number
    pub fn get_version_number(&mut self) -> (number: u8)
        ensures
            final(self).off_the_bus_as(old(self)),
            final(self)@ == (RF230View {
                bus: old(self)@.bus.exchange(seq![0x9Du8, 0u8]).receiving(final(self)@.bus.received),
                ..old(self)@
            }),
            extends_by(final(self)@.bus.received, old(self)@.bus.received, 2),
            number == final(self)@.bus.received.last(),
    {
        self.read_register(RegisterName::VersionNum.register())
    }

    /// Returns the lower 16 bits of the RF230's 32-bit JEDEC manufacturer ID: the value of
    /// `MAN_ID_0` in the low byte, the value of `MAN_ID_1` in the high byte.
    pub fn get_manufacturer_id(&mut self) -> (id: u16)
        ensures
            final(self).off_the_bus_as(old(self)),
            final(self)@ == (RF230View {
                bus: old(self)@.bus.exchange(seq![0x9Eu8, 0u8]).exchange(seq![0x9Fu8, 0u8]).receiving(
                    final(self)@.bus.received,
                ),
                ..old(self)@
            }),
            extends_by(final(self)@.bus.received, old(self)@.bus.received, 4),
            id == final(self)@.bus.received[old(self)@.bus.received.len() as int + 1] + 0x100
                * final(self)@.bus.received[old(self)@.bus.received.len() as int + 3],
    {
        let lower_bits = self.read_register(RegisterName::ManId0.register());
        let ghost middle = self@.bus.received;
        let upper_bits = self.read_register(RegisterName::ManId1.register());
        proof {
            let before = old(self)@.bus.received;
            let after = self@.bus.received;
            assert(after.take(before.len() as int) =~= after.take(middle.len() as int).take(
                before.len() as int,
            ));
            assert(after[before.len() as int + 1] == after.take(middle.len() as int)[before.len() as int + 1]);
        }
        let lower: u16 = lower_bits as u16;
        let upper: u16 = upper_bits as u16;
        assert(lower | (upper << 8) == lower + 0x100 * upper) by (bit_vector)
            requires
                lower < 0x100,
                upper < 0x100,
        ;
        lower | (upper << 8)
    }

    /// Writes a frame to the frame buffer: in one transaction, the frame buffer write
    /// command, the number of bytes, and the bytes.
    ///
    /// The data must not contain more than `MAX_PAYLOAD_LENGTH` bytes. If it does, nothing is
    /// done to the bus or to any pin, and `Error::OversizeFrame` is returned.
    pub fn write_frame_buffer(&mut self, data: &[u8]) -> (result: Result<(), Error>)
        ensures
            final(self).off_the_bus_as(old(self)),
            data@.len() > MAX_PAYLOAD_LENGTH ==> result == Err::<(), Error>(Error::OversizeFrame)
                && *final(self) == *old(self),
            data@.len() <= MAX_PAYLOAD_LENGTH ==> result == Ok::<(), Error>(()) && final(self)@
                == (RF230View {
                bus: old(self)@.bus.exchange(
                    seq![FRAME_BUFFER_WRITE, data@.len() as u8] + data@,
                ).receiving(final(self)@.bus.received),
                ..old(self)@
            }) && extends_by(final(self)@.bus.received, old(self)@.bus.received, 2 + data@.len()),
    {
        if data.len() > MAX_PAYLOAD_LENGTH {
            return Err(Error::OversizeFrame);
        }
        let length: u8 = data.len() as u8;
        let mut transaction = BusTransaction::begin(&mut self.bus);
        let first = transaction.transfer(FRAME_BUFFER_WRITE);
        transaction.transfer(length);
        let ghost middle = transaction.bus@.received;
        transaction.write_all(data);
        transaction.end();
        proof {
            let before = old(self)@.bus.received;
            let after = self@.bus.received;
            lemma_exchange_of_more(
                old(self)@.bus,
                FRAME_BUFFER_WRITE,
                length,
                first,
                middle,
                data@,
                after,
            );
            assert(after.take(before.len() as int) =~= after.take(middle.len() as int).take(
                before.len() as int,
            ));
        }
        Ok(())
    }

    /// Reads `data.len()` bytes from the RF230 SRAM starting at the given address and
    /// stores them in `data`: in one transaction, the SRAM read command, the address, and
    /// one transfer for each byte.
    pub fn read_sram(&mut self, address: u8, data: &mut [u8])
        ensures
            final(self).off_the_bus_as(old(self)),
            final(data)@.len() == old(data)@.len(),
            final(self)@ == (RF230View {
                bus: old(self)@.bus.exchange(
                    seq![SRAM_READ, address] + idle_bytes(old(data)@.len()),
                ).receiving(final(self)@.bus.received),
                ..old(self)@
            }),
            extends_by(final(self)@.bus.received, old(self)@.bus.received, 2 + old(data)@.len()),
            final(data)@ == final(self)@.bus.received.skip(old(self)@.bus.received.len() as int + 2),
    {
        let count = data.len();
        let mut transaction = BusTransaction::begin(&mut self.bus);
        let first = transaction.transfer(SRAM_READ);
        transaction.transfer(address);
        let ghost middle = transaction.bus@.received;
        transaction.read_into(data, count);
        transaction.end();
        proof {
            assert(data@.take(count as int) =~= data@);
            let before = old(self)@.bus.received;
            let after = self@.bus.received;
            lemma_exchange_of_more(
                old(self)@.bus,
                SRAM_READ,
                address,
                first,
                middle,
                idle_bytes(count as nat),
                after,
            );
            assert(after.take(before.len() as int) =~= before);
            assert(data@ =~= after.skip(before.len() as int + 2));
        }
    }

    /// Writes `data.len()` bytes from `data` to the RF230 SRAM starting at the given
    /// address: in one transaction, the SRAM write command, the address, and the bytes.
    pub fn write_sram(&mut self, address: u8, data: &[u8])
        ensures
            final(self).off_the_bus_as(old(self)),
            final(self)@ == (RF230View {
                bus: old(self)@.bus.exchange(seq![SRAM_WRITE, address] + data@).receiving(
                    final(self)@.bus.received,
                ),
                ..old(self)@
            }),
            extends_by(final(self)@.bus.received, old(self)@.bus.received, 2 + data@.len()),
    {
        let mut transaction = BusTransaction::begin(&mut self.bus);
        let first = transaction.transfer(SRAM_WRITE);
        transaction.transfer(address);
        let ghost middle = transaction.bus@.received;
        transaction.write_all(data);
        transaction.end();
        proof {
            let before = old(self)@.bus.received;
            let after = self@.bus.received;
            lemma_exchange_of_more(old(self)@.bus, SRAM_WRITE, address, first, middle, data@, after);
            assert(after.take(before.len() as int) =~= after.take(middle.len() as int).take(
                before.len() as int,
            ));
        }
    }

    /// Returns the current state of the RF230, as the five low bits of the status register
    /// report it, or `Error::UnrecognizedHardwareState` if the chip defines no state of
    /// that code.
    pub fn get_state(&mut self) -> (result: Result<State, Error>)
        ensures
            final(self).off_the_bus_as(old(self)),
            final(self)@ == (RF230View {
                bus: old(self)@.bus.exchange(status_poll()).receiving(final(self)@.bus.received),
                ..old(self)@
            }),
            extends_by(final(self)@.bus.received, old(self)@.bus.received, 2),
            result == State::from_status(final(self)@.bus.received.last()),
    {
        let status = self.read_register(RegisterName::TrxStatus.register());
        State::from_status(status)
    }

    /// Writes the given state to the TRX_STATE register.
    /// Note that this is only valid for some state transitions, as defined in the state
    /// diagram: the radio ignores the others.
    pub fn write_state_register(&mut self, state: State)
        ensures
            final(self).off_the_bus_as(old(self)),
            final(self)@ == (RF230View {
                bus: old(self)@.bus.exchange(state_command(state)).receiving(
                    final(self)@.bus.received,
                ),
                ..old(self)@
            }),
            extends_by(final(self)@.bus.received, old(self)@.bus.received, 2),
    {
        let code = state.as_byte();
        proof {
            RegisterName::TrxState.register().lemma_clean_for_write(code);
        }
        self.write_register(RegisterName::TrxState.register(), code);
    }

    /// Reads a frame from the frame buffer: in one transaction, the frame buffer read
    /// command, one transfer that receives the length byte, one transfer for each byte of
    /// the frame, and one that receives the link quality.
    ///
    /// If the length byte announces more bytes than a frame can have, the transaction ends
    /// after the length byte and `Error::OversizeFrame` is returned.
    pub fn read_frame_buffer(&mut self) -> (result: Result<ReceivedFrame, Error>)
        ensures
            final(self).off_the_bus_as(old(self)),
            ({
                let before = old(self)@.bus.received.len() as int;
                let received = final(self)@.bus.received;
                let count = frame_data_length(received[before + 1]);
                &&& count <= MAX_MPDU_LENGTH ==> {
                    &&& result is Ok
                    &&& result->Ok_0@ == received.subrange(before + 2, before + 2 + count)
                    &&& result->Ok_0.link_quality() == received.last()
                    &&& extends_by(received, old(self)@.bus.received, 2 + count + 1)
                    &&& final(self)@ == (RF230View {
                        bus: old(self)@.bus.exchange(
                            seq![FRAME_BUFFER_READ, 0u8] + idle_bytes(count + 1),
                        ).receiving(received),
                        ..old(self)@
                    })
                }
                &&& count > MAX_MPDU_LENGTH ==> {
                    &&& result == Err::<ReceivedFrame, Error>(Error::OversizeFrame)
                    &&& extends_by(received, old(self)@.bus.received, 2)
                    &&& final(self)@ == (RF230View {
                        bus: old(self)@.bus.exchange(seq![FRAME_BUFFER_READ, 0u8]).receiving(
                            received,
                        ),
                        ..old(self)@
                    })
                }
            }),
    {
        let mut transaction = BusTransaction::begin(&mut self.bus);
        let first = transaction.transfer(FRAME_BUFFER_READ);
        let length_byte = transaction.transfer(0);
        let count: usize = if length_byte == 0 {
            0
        } else {
            (length_byte - 1) as usize
        };
        if count > MAX_MPDU_LENGTH {
            transaction.end();
            proof {
                lemma_exchange_of_two(
                    old(self)@.bus,
                    FRAME_BUFFER_READ,
                    0,
                    first,
                    self@.bus.received,
                );
            }
            return Err(Error::OversizeFrame);
        }
        let mut buffer: [u8; MAX_MPDU_LENGTH] = [0; MAX_MPDU_LENGTH];
        let ghost header = transaction.bus@.received;
        transaction.read_into(&mut buffer, count);
        let ghost body = transaction.bus@;
        let lqi = transaction.transfer(0);
        transaction.end();
        let frame = ReceivedFrame::new(buffer, count, lqi);
        proof {
            let before = old(self)@.bus.received.len() as int;
            let received = self@.bus.received;
            assert(received =~= (header + buffer@.take(count as int)).push(lqi));
            assert(received[before + 1] == length_byte);
            assert(received.take(before) =~= old(self)@.bus.received);
            assert(frame@ =~= received.subrange(before + 2, before + 2 + count));
            let start = old(self)@.bus.selected().sent(seq![FRAME_BUFFER_READ]).receiving(
                old(self)@.bus.received.push(first),
            ).sent(seq![0u8]).receiving(header);
            start.lemma_sent_twice(idle_bytes(count as nat), body.received, seq![0u8]);
            assert(idle_bytes(count as nat) + seq![0u8] =~= idle_bytes((count + 1) as nat));
            lemma_exchange_of_more(
                old(self)@.bus,
                FRAME_BUFFER_READ,
                0,
                first,
                header,
                idle_bytes((count + 1) as nat),
                received,
            );
        }
        Ok(frame)
    }

    /// Brings the radio to the state `target`, one of `RX_ON`, `PLL_ON` and `TRX_OFF`.
    ///
    /// Polls the status register until it reports `target`, at most as often as the limit
    /// given to `new` allows. After each poll that reports another state, takes the step
    /// from that state toward `target`: waits while the radio is busy or between two
    /// states, takes the control signal low when it sleeps, and else writes the one state
    /// that leads on.
    ///
    /// Returns `Error::TransitionTimeout` if the allowed polls are used up, and
    /// `Error::UnrecognizedHardwareState` as soon as the radio reports a state that the chip
    /// does not define.
    pub fn drive_to(&mut self, target: State) -> (result: Result<(), Error>)
        requires
            target.is_target(),
        ensures
            final(self).reset() == old(self).reset(),
            final(self).client() == old(self).client(),
            state_changed(old(self)@, final(self)@, target, old(self)@.mode, result),
    {
        let ghost start = old(self)@.bus.received.len() as int;
        let ghost limit = old(self)@.poll_limit as nat;
        let ghost mut done: Seq<Seq<u8>> = Seq::empty();
        let ghost mut wakes: nat = 0;
        let mut polls: usize = 0;
        proof {
            old(self)@.bus.lemma_exchanges_push(Seq::empty(), Seq::empty());
            assert(self@.bus.received.skip(start) =~= Seq::<u8>::empty());
            assert forall|rest: Seq<u8>|
                #[trigger] run_toward(target, limit, self@.bus.received.skip(start) + rest)
                    == run_toward(target, limit, rest).after(done, wakes) by {
                assert(self@.bus.received.skip(start) + rest =~= rest);
                assert(done + run_toward(target, limit, rest).exchanges =~= run_toward(
                    target,
                    limit,
                    rest,
                ).exchanges);
            }
        }
        while polls < self.poll_limit
            invariant
                target.is_target(),
                self.reset() == old(self).reset(),
                self.client() == old(self).client(),
                start == old(self)@.bus.received.len(),
                limit == old(self)@.poll_limit,
                polls <= limit,
                extends_by(self@.bus.received, old(self)@.bus.received, 2 * done.len()),
                self@ == (RF230View {
                    bus: old(self)@.bus.exchanges(done).receiving(self@.bus.received),
                    control: old(self)@.control.lowered(wakes),
                    ..old(self)@
                }),
                forall|rest: Seq<u8>|
                    #[trigger] run_toward(target, limit, self@.bus.received.skip(start) + rest)
                        == run_toward(target, (limit - polls) as nat, rest).after(done, wakes),
            decreases limit - polls,
        {
            let ghost consumed = self@.bus.received.skip(start);
            let ghost done_before = done;
            let ghost wakes_before = wakes;
            let ghost left = (limit - polls) as nat;
            let ghost received_before = self@.bus.received;
            let polled = self.get_state();
            let ghost poll = self@.bus.received.skip(received_before.len() as int);
            proof {
                assert(poll.len() == 2);
                assert(poll[1] == self@.bus.received.last());
                assert(self@.bus.received.skip(start) =~= consumed + poll);
                assert(self@.bus.received.take(start) =~= received_before.take(start));
                old(self)@.bus.lemma_exchanges_push(done, status_poll());
                done = done.push(status_poll());
                assert(done =~= done_before + seq![status_poll()]);
            }
            let state = match polled {
                Ok(state) => state,
                Err(error) => {
                    proof {
                        assert(poll + Seq::<u8>::empty() =~= poll);
                        assert(seq![status_poll()] + Seq::<Seq<u8>>::empty() =~= seq![
                            status_poll(),
                        ]);
                        assert(run_toward(target, left, poll).after(
                            done_before,
                            wakes_before,
                        ).exchanges =~= done);
                    }
                    return Err(error);
                },
            };
            match state.step_toward(target) {
                Step::Done => {
                    proof {
                        assert(poll + Seq::<u8>::empty() =~= poll);
                        assert(run_toward(target, left, poll).after(
                            done_before,
                            wakes_before,
                        ).exchanges =~= done);
                    }
                    return Ok(());
                },
                Step::Wait => {
                    proof {
                        assert forall|rest: Seq<u8>|
                            #[trigger] run_toward(
                                target,
                                limit,
                                self@.bus.received.skip(start) + rest,
                            ) == run_toward(target, (left - 1) as nat, rest).after(
                                done,
                                wakes,
                            ) by {
                            assert(self@.bus.received.skip(start) + rest =~= consumed + (poll
                                + rest));
                            assert((poll + rest).skip(2) =~= rest);
                            assert((poll + rest)[1] == poll[1]);
                            let tail = run_toward(target, (left - 1) as nat, rest);
                            assert(tail.after(seq![status_poll()], 0).after(
                                done_before,
                                wakes_before,
                            ).exchanges =~= tail.after(done, wakes).exchanges);
                        }
                    }
                },
                Step::Wake => {
                    self.control.clear();
                    proof {
                        wakes = wakes + 1;
                        assert forall|rest: Seq<u8>|
                            #[trigger] run_toward(
                                target,
                                limit,
                                self@.bus.received.skip(start) + rest,
                            ) == run_toward(target, (left - 1) as nat, rest).after(
                                done,
                                wakes,
                            ) by {
                            assert(self@.bus.received.skip(start) + rest =~= consumed + (poll
                                + rest));
                            assert((poll + rest).skip(2) =~= rest);
                            assert((poll + rest)[1] == poll[1]);
                            let tail = run_toward(target, (left - 1) as nat, rest);
                            assert(tail.after(seq![status_poll()], 1).after(
                                done_before,
                                wakes_before,
                            ).exchanges =~= tail.after(done, wakes).exchanges);
                        }
                    }
                },
                Step::Write(next) => {
                    let ghost middle = self@.bus.received;
                    self.write_state_register(next);
                    let ghost command = self@.bus.received.skip(middle.len() as int);
                    proof {
                        let round = poll + command;
                        assert(self@.bus.received.skip(start) =~= consumed + round);
                        assert(self@.bus.received.take(start) =~= middle.take(start));
                        old(self)@.bus.lemma_exchanges_push(done, state_command(next));
                        done = done.push(state_command(next));
                        assert(done =~= done_before + seq![status_poll(), state_command(next)]);
                        assert forall|rest: Seq<u8>|
                            #[trigger] run_toward(
                                target,
                                limit,
                                self@.bus.received.skip(start) + rest,
                            ) == run_toward(target, (left - 1) as nat, rest).after(
                                done,
                                wakes,
                            ) by {
                            assert(self@.bus.received.skip(start) + rest =~= consumed + (round
                                + rest));
                            assert((round + rest).skip(4) =~= rest);
                            assert((round + rest)[1] == poll[1]);
                            let tail = run_toward(target, (left - 1) as nat, rest);
                            assert(tail.after(
                                seq![status_poll(), state_command(next)],
                                0,
                            ).after(done_before, wakes_before).exchanges =~= tail.after(
                                done,
                                wakes,
                            ).exchanges);
                        }
                    }
                },
            }
            polls += 1;
        }
        proof {
            assert(self@.bus.received.skip(start) + Seq::<u8>::empty()
                =~= self@.bus.received.skip(start));
            assert(run_toward(target, 0, Seq::<u8>::empty()).after(done, wakes).exchanges
                =~= done);
        }
        Err(Error::TransitionTimeout)
    }

    /// Sets the state of the RF230 to State::RX_ON
    pub fn set_state_rx_on(&mut self) -> (result: Result<(), Error>)
        ensures
            final(self).reset() == old(self).reset(),
            final(self).client() == old(self).client(),
            state_changed(old(self)@, final(self)@, State::RX_ON, old(self)@.mode, result),
    {
        self.drive_to(State::RX_ON)
    }

    /// Sets the state of the RF230 to State::PLL_ON (used to send frames)
    pub fn set_state_pll_on(&mut self) -> (result: Result<(), Error>)
        ensures
            final(self).reset() == old(self).reset(),
            final(self).client() == old(self).client(),
            state_changed(old(self)@, final(self)@, State::PLL_ON, old(self)@.mode, result),
    {
        self.drive_to(State::PLL_ON)
    }

    /// Services a complete transfer, of which the interrupt status has told.
    fn service_transfer(&mut self)
        ensures
            final(self).control() == old(self).control(),
            final(self).reset() == old(self).reset(),
            old(self)@.upcalls is Some && old(self)@.mode == Mode::Transmitting ==> final(self)@
                == (RF230View { mode: Mode::Idle, ..old(self)@.notified(Upcall::SendDone) }),
            old(self)@.upcalls is Some && old(self)@.mode == Mode::Receiving ==> ({
                let start = old(self)@.bus.received.len() as int;
                let received = final(self)@.bus.received;
                let count = frame_data_length(received[start + 1]);
                if count > MAX_MPDU_LENGTH {
                    &&& extends_by(received, old(self)@.bus.received, 2)
                    &&& final(self)@ == (RF230View {
                        bus: old(self)@.bus.exchange(seq![FRAME_BUFFER_READ, 0u8]).receiving(
                            received,
                        ),
                        ..old(self)@
                    }).recorded(Diagnostic::UndecodableFrame)
                } else {
                    let read = RF230View {
                        bus: old(self)@.bus.exchange(
                            seq![FRAME_BUFFER_READ, 0u8] + idle_bytes(count + 1),
                        ).receiving(received),
                        ..old(self)@
                    };
                    &&& extends_by(received, old(self)@.bus.received, 2 + count + 1)
                    &&& match spec_decode_received(received.subrange(start + 2, start + 2 + count)) {
                        Ok(frame) => final(self)@ == read.notified(Upcall::FrameReceived(frame)),
                        Err(_) => final(self)@ == read.recorded(Diagnostic::UndecodableFrame),
                    }
                }
            }),
            !(old(self)@.upcalls is Some && (old(self)@.mode == Mode::Transmitting || old(
                self,
            )@.mode == Mode::Receiving)) ==> final(self)@ == old(self)@.recorded(
                Diagnostic::UnexpectedTransfer,
            ),
    {
        match self.mode {
            Mode::Transmitting => {
                match &mut self.client {
                    Some(client) => {
                        client.send_done();
                        self.mode = Mode::Idle;
                    },
                    None => {
                        self.diagnostics.push(Diagnostic::UnexpectedTransfer);
                    },
                }
            },
            Mode::Receiving => {
                if self.client.is_some() {
                    let decoded = match self.read_frame_buffer() {
                        Ok(received) => decode_received(received.as_slice()),
                        Err(error) => Err(error),
                    };
                    match decoded {
                        Ok(frame) => {
                            match &mut self.client {
                                Some(client) => {
                                    client.frame_received(frame);
                                },
                                None => {},
                            }
                        },
                        Err(_) => {
                            self.diagnostics.push(Diagnostic::UndecodableFrame);
                        },
                    }
                } else {
                    self.diagnostics.push(Diagnostic::UnexpectedTransfer);
                }
            },
            _ => {
                self.diagnostics.push(Diagnostic::UnexpectedTransfer);
            },
        }
    }

    /// Responds to an interrupt from the RF230.
    ///
    /// Reads the interrupt status register once and services the first cause, in the order
    /// of priority, that it reports. Each cause leads to exactly one notification of the
    /// client or to exactly one recorded diagnostic. The operating state of the radio is
    /// never waited for.
    pub fn handle_interrupt(&mut self)
        ensures
            final(self).control() == old(self).control(),
            final(self).reset() == old(self).reset(),
            interrupt_serviced(old(self)@, final(self)@),
            final(self)@.reports() == old(self)@.reports() + (if InterruptEvent::first_pending(
                final(self)@.bus.received[old(self)@.bus.received.len() as int + 1],
            ) is Some {
                1nat
            } else {
                0nat
            }),
    {
        let status = self.read_register(RegisterName::IrqStatus.register());
        let ghost polled = self@;
        match InterruptEvent::first_pending(status) {
            None => {},
            Some(InterruptEvent::TransferComplete) => {
                self.service_transfer();
                proof {
                    let before = old(self)@;
                    let after = self@;
                    let start = before.bus.received.len() as int;
                    if before.upcalls is Some && before.mode == Mode::Receiving {
                        assert(after.bus.received.take(start) =~= after.bus.received.take(
                            start + 2,
                        ).take(start));
                        assert(after.bus.received[start + 1] == polled.bus.received[start + 1]);
                    } else {
                        assert(after.bus.received == polled.bus.received);
                    }
                }
            },
            Some(event) => {
                self.diagnostics.push(Diagnostic::Raised(event));
            },
        }
    }

    /// Returns what has been recorded of interrupts, oldest first, and forgets it
    pub fn take_diagnostics(&mut self) -> (diagnostics: Vec<Diagnostic>)
        ensures
            final(self).spi() == old(self).spi(),
            final(self).select() == old(self).select(),
            final(self).off_the_bus_as(old(self)),
            diagnostics@ == old(self)@.diagnostics,
            final(self)@ == (RF230View { diagnostics: Seq::empty(), ..old(self)@ }),
    {
        let mut diagnostics: Vec<Diagnostic> = Vec::new();
        std::mem::swap(&mut self.diagnostics, &mut diagnostics);
        diagnostics
    }

    /// Returns where the transceiver stands
    pub fn mode(&self) -> (mode: Mode)
        ensures
            mode == self@.mode,
    {
        self.mode
    }

    /// The bus that the driver was made with, as it is after all that the driver has done
    /// on it.
    pub closed spec fn spec_spi(&self) -> &S {
        self.bus.device()
    }

    /// Returns the bus
    #[verifier::when_used_as_spec(spec_spi)]
    pub fn spi(&self) -> (spi: &S)
        ensures
            spi == self.spec_spi(),
    {
        self.bus.device()
    }

    /// The pin that selects the radio, as it is after all that the driver has done to it.
    pub closed spec fn spec_select(&self) -> &G {
        self.bus.select()
    }

    /// Returns the pin that selects the radio
    #[verifier::when_used_as_spec(spec_select)]
    pub fn select(&self) -> (select: &G)
        ensures
            select == self.spec_select(),
    {
        self.bus.select()
    }

    /// The multi-purpose control pin, as it is after all that the driver has done to it.
    pub closed spec fn spec_control(&self) -> &G {
        self.control.pin()
    }

    /// Returns the multi-purpose control pin
    #[verifier::when_used_as_spec(spec_control)]
    pub fn control(&self) -> (control: &G)
        ensures
            control == self.spec_control(),
    {
        self.control.pin()
    }

    /// The reset pin, as it is after all that the driver has done to it.
    pub closed spec fn spec_reset(&self) -> &G {
        self.reset.pin()
    }

    /// Returns the reset pin
    #[verifier::when_used_as_spec(spec_reset)]
    pub fn reset(&self) -> (reset: &G)
        ensures
            reset == self.spec_reset(),
    {
        self.reset.pin()
    }

    /// The client that the driver was last initialized with, as it is after all that it has
    /// been told, if the driver has been initialized.
    pub closed spec fn spec_client(&self) -> Option<&R> {
        match &self.client {
            Some(client) => Some(client.reader()),
            None => None,
        }
    }

    /// Returns the client, if there is one
    #[verifier::when_used_as_spec(spec_client)]
    pub fn client(&self) -> (client: Option<&R>)
        ensures
            client == self.spec_client(),
            client is Some <==> self@.upcalls is Some,
    {
        match &self.client {
            Some(client) => Some(client.reader()),
            None => None,
        }
    }

    /// Whether this driver holds the control pin, the reset pin and the client as `before`
    /// holds them: nothing has been done to them in between.
    pub open spec fn off_the_bus_as(&self, before: &Self) -> bool {
        &&& self.control() == before.control()
        &&& self.reset() == before.reset()
        &&& self.client() == before.client()
    }

    /// Returns the external interrupt that the radio raises
    pub fn irq(&self) -> (irq: Interrupt)
        ensures
            irq == self@.irq,
    {
        self.irq
    }
}

impl<S: SPI, G: GPIOPin, R: Reader> spi_master::Reader for RF230<S, G, R> {
    /// Nothing is done: the driver makes no asynchronous transfer.
    fn write_done(&mut self)
        ensures
            *final(self) == *old(self),
    {
    }

    /// Nothing is done: the driver makes no asynchronous transfer.
    fn read_done(&mut self)
        ensures
            *final(self) == *old(self),
    {
    }

    /// Nothing is done: the driver makes no asynchronous transfer.
    fn read_write_done(&mut self)
        ensures
            *final(self) == *old(self),
    {
    }
}

/// Whether the transceiver can be asked to send, or to enable or disable its receiver.
pub open spec fn is_ready(mode: Mode) -> bool {
    mode == Mode::Idle || mode == Mode::Receiving
}

/// What sending a frame does once its encoding `data` is at hand: the encoding is written
/// to the frame buffer, the radio is brought to `PLL_ON`, and, if it got there, the control
/// pin is pulsed and the transceiver is transmitting.
pub open spec fn frame_sent(before: RF230View, after: RF230View, data: Seq<u8>, result: Result<(), Error>) -> bool {
    let written = before.bus.received.len() as int + 2 + data.len();
    let run = run_toward(State::PLL_ON, before.poll_limit as nat, after.bus.received.skip(written));
    &&& result == run.result
    &&& extends_by(after.bus.received, before.bus.received, 2 + data.len() + run.bytes())
    &&& after == (RF230View {
        bus: before.bus.exchange(seq![FRAME_BUFFER_WRITE, data.len() as u8] + data).exchanges(
            run.exchanges,
        ).receiving(after.bus.received),
        control: if run.result is Ok {
            before.control.lowered(run.wakes).pulsed()
        } else {
            before.control.lowered(run.wakes)
        },
        mode: if run.result is Ok {
            Mode::Transmitting
        } else {
            before.mode
        },
        ..before
    })
}

impl<S: SPI, G: GPIOPin, R: Reader> Transceiver for RF230<S, G, R> {
    type Client = R;

    /// Prepares the transceiver for use: configures and enables the bus with the parameters
    /// that the radio asks for, makes the select, control and reset pins outputs, if they
    /// are none, drives them to their inactive levels (high, low and high), and registers
    /// the client. The transceiver is idle afterwards.
    fn init(&mut self, params: Params<R>)
        ensures
            final(self)@ == (RF230View {
                bus: (BusRecord {
                    configuration: Some(bus_params()),
                    enabled: true,
                    ..old(self)@.bus
                }).deselected(),
                control: old(self)@.control.driven(false),
                reset: old(self)@.reset.driven(true),
                upcalls: Some(Seq::empty()),
                mode: Mode::Idle,
                ..old(self)@
            }),
            final(self).client() == Some(&params.client),
    {
        // Set up SPI
        self.bus.init(
            SPIParams {
                baud_rate: BAUD_RATE,
                data_order: ORDERING,
                clock_polarity: POLARITY,
                clock_phase: PHASE,
            },
        );
        self.bus.enable();
        self.bus.deselect();

        // Enable pins
        self.control.make_output();
        self.control.clear();
        self.reset.make_output();
        self.reset.set();

        self.client = Some(RecordedClient::new(params.client));
        self.mode = Mode::Idle;
    }

    /// Enables receiving of frames: brings the radio to `RX_ON`. When enabled, the client's
    /// `frame_received()` method will be called when a frame is received.
    ///
    /// Returns `Error::NotReady`, and does nothing, unless the transceiver is idle or
    /// receiving.
    fn enable_rx(&mut self) -> (result: Result<(), Error>)
        ensures
            final(self).reset() == old(self).reset(),
            final(self).client() == old(self).client(),
            !is_ready(old(self)@.mode) ==> result == Err::<(), Error>(Error::NotReady)
                && *final(self) == *old(self),
            is_ready(old(self)@.mode) ==> state_changed(
                old(self)@,
                final(self)@,
                State::RX_ON,
                Mode::Receiving,
                result,
            ),
    {
        match self.mode {
            Mode::Idle | Mode::Receiving => {},
            _ => {
                return Err(Error::NotReady);
            },
        }
        let result = self.drive_to(State::RX_ON);
        if result.is_ok() {
            self.mode = Mode::Receiving;
        }
        result
    }

    /// Disables receiving of frames: brings the radio to `TRX_OFF`.
    ///
    /// Returns `Error::NotReady`, and does nothing, unless the transceiver is idle or
    /// receiving.
    fn disable_rx(&mut self) -> (result: Result<(), Error>)
        ensures
            final(self).reset() == old(self).reset(),
            final(self).client() == old(self).client(),
            !is_ready(old(self)@.mode) ==> result == Err::<(), Error>(Error::NotReady)
                && *final(self) == *old(self),
            is_ready(old(self)@.mode) ==> state_changed(
                old(self)@,
                final(self)@,
                State::TRX_OFF,
                Mode::Idle,
                result,
            ),
    {
        match self.mode {
            Mode::Idle | Mode::Receiving => {},
            _ => {
                return Err(Error::NotReady);
            },
        }
        let result = self.drive_to(State::TRX_OFF);
        if result.is_ok() {
            self.mode = Mode::Idle;
        }
        result
    }

    /// Sends the provided frame: writes its encoding to the frame buffer, brings the radio
    /// to `PLL_ON` and pulses the control pin. The client's `send_done()` method is called
    /// when the radio reports that the frame has been sent.
    ///
    /// Returns `Error::NotReady` unless the transceiver is idle or receiving, and
    /// `Error::OversizeFrame` if the protocol data unit would be longer than
    /// `MAX_MPDU_LENGTH` or its encoding longer than the frame buffer takes. In both cases
    /// nothing is done.
    fn send(&mut self, frame: Frame) -> (result: Result<(), Error>)
        ensures
            final(self).reset() == old(self).reset(),
            final(self).client() == old(self).client(),
            !is_ready(old(self)@.mode) ==> result == Err::<(), Error>(Error::NotReady)
                && *final(self) == *old(self),
            is_ready(old(self)@.mode) && frame.mpdu_bytes().len() > MAX_PAYLOAD_LENGTH ==> result
                == Err::<(), Error>(Error::OversizeFrame) && *final(self) == *old(self),
            is_ready(old(self)@.mode) && frame.mpdu_bytes().len() <= MAX_PAYLOAD_LENGTH
                ==> frame_sent(old(self)@, final(self)@, frame.mpdu_bytes(), result),
    {
        match self.mode {
            Mode::Idle | Mode::Receiving => {},
            _ => {
                return Err(Error::NotReady);
            },
        }
        let (bytes, length) = match frame.as_mpdu_bytes() {
            Ok(encoded) => encoded,
            Err(error) => {
                return Err(error);
            },
        };
        // The radio appends the frame check sequence: it is not handed over
        let data = vstd::slice::slice_subrange(bytes.as_slice(), 0, length - 2);
        proof {
            assert(data@ =~= frame.mpdu_bytes());
        }
        match self.write_frame_buffer(data) {
            Ok(()) => {},
            Err(error) => {
                return Err(error);
            },
        }
        let ghost written = self@;
        let result = self.drive_to(State::PLL_ON);
        if result.is_ok() {
            self.control.set();
            self.control.clear();
            self.mode = Mode::Transmitting;
        }
        proof {
            let before = old(self)@;
            let after = self@;
            let run = run_toward(
                State::PLL_ON,
                before.poll_limit as nat,
                after.bus.received.skip(written.bus.received.len() as int),
            );
            before.bus.exchange(
                seq![FRAME_BUFFER_WRITE, data@.len() as u8] + data@,
            ).lemma_exchanges_receiving(written.bus.received, run.exchanges);
            assert(after.bus.received.take(before.bus.received.len() as int)
                =~= after.bus.received.take(written.bus.received.len() as int).take(
                before.bus.received.len() as int,
            ));
        }
        result
    }
}

} // verus!
