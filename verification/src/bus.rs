//! The bus to the radio with its select line, and one framed exchange over it.

use vstd::prelude::*;

use crate::hil::gpio::GPIOPin;
use crate::hil::spi_master::{SPIParams, SPI};

verus! {

/// What is done toward the radio on the bus and on its select line.
#[derive(Clone, Copy, Debug, PartialEq, Eq, Structural)]
pub enum BusEvent {
    /// The select pin was configured as an output
    OutputEnabled,
    /// The select pin was taken low: the radio is selected
    Selected,
    /// The select pin was taken high: the radio is released
    Released,
    /// A byte was sent, and one received meanwhile
    Sent(u8),
}

/// The record of a bus and its select line: the parameters of the last configuration of
/// the bus, whether it was last enabled or disabled, whether the select pin has been made
/// an output, what has been done on the bus and the select line, oldest first, and the
/// bytes received, oldest first. Every byte sent brings one byte received. Which byte is
/// received is up to the radio.
pub struct BusRecord {
    /// The parameters of the last configuration, if there was one
    pub configuration: Option<SPIParams>,
    /// Whether the bus was enabled, and not disabled since
    pub enabled: bool,
    /// Whether the select pin has been made an output
    pub output: bool,
    /// What has been done on the bus and the select line
    pub events: Seq<BusEvent>,
    /// The bytes received
    pub received: Seq<u8>,
}

/// `count` zero bytes: what the driver sends while it only listens.
pub open spec fn idle_bytes(count: nat) -> Seq<u8> {
    Seq::new(count, |i: int| 0u8)
}

/// Whether `after` is `before` with `count` more bytes at its end.
pub open spec fn extends_by(after: Seq<u8>, before: Seq<u8>, count: nat) -> bool {
    &&& after.len() == before.len() + count
    &&& after.take(before.len() as int) =~= before
}

/// What sending `bytes` is on record as.
pub open spec fn sending(bytes: Seq<u8>) -> Seq<BusEvent> {
    Seq::new(bytes.len(), |i: int| BusEvent::Sent(bytes[i]))
}

impl BusRecord {
    /// The record of a bus on which nothing has been done.
    pub open spec fn untouched() -> BusRecord {
        BusRecord {
            configuration: None,
            enabled: false,
            output: false,
            events: Seq::empty(),
            received: Seq::empty(),
        }
    }

    /// This record after one more thing has been done.
    pub open spec fn after(self, event: BusEvent) -> BusRecord {
        BusRecord {
            events: self.events.push(event),
            output: self.output || event == BusEvent::OutputEnabled,
            ..self
        }
    }

    /// This record after the select pin has been made an output, if it was none.
    pub open spec fn as_output(self) -> BusRecord {
        if self.output {
            self
        } else {
            self.after(BusEvent::OutputEnabled)
        }
    }

    /// This record after the radio has been selected: the select pin has been made an
    /// output, if it was none, and taken low.
    pub open spec fn selected(self) -> BusRecord {
        self.as_output().after(BusEvent::Selected)
    }

    /// This record after the radio has been released without having been selected: the
    /// select pin has been made an output, if it was none, and taken high.
    pub open spec fn deselected(self) -> BusRecord {
        self.as_output().after(BusEvent::Released)
    }

    /// This record after `bytes` have been sent. What has been received meanwhile is not
    /// added.
    pub open spec fn sent(self, bytes: Seq<u8>) -> BusRecord {
        BusRecord { events: self.events + sending(bytes), ..self }
    }

    /// This record with `received` for all that has been received.
    pub open spec fn receiving(self, received: Seq<u8>) -> BusRecord {
        BusRecord { received, ..self }
    }

    /// This record after one transaction in which `bytes` have been sent: the radio has been
    /// selected, the bytes have been sent, and the radio has been released. What has been
    /// received meanwhile is not added.
    pub open spec fn exchange(self, bytes: Seq<u8>) -> BusRecord {
        self.selected().sent(bytes).after(BusEvent::Released)
    }

    /// This record after one transaction for each of `exchanges`, in order.
    pub open spec fn exchanges(self, exchanges: Seq<Seq<u8>>) -> BusRecord
        decreases exchanges.len(),
    {
        if exchanges.len() == 0 {
            self
        } else {
            self.exchanges(exchanges.drop_last()).exchange(exchanges.last())
        }
    }

    /// Bytes sent one stretch after another are on record as sent in one stretch, and what
    /// is noted as received in between does not matter once more is noted.
    pub proof fn lemma_sent_twice(self, first: Seq<u8>, between: Seq<u8>, second: Seq<u8>)
        ensures
            self.sent(first).receiving(between).sent(second) == self.sent(
                first + second,
            ).receiving(between),
            self.sent(first).sent(second) == self.sent(first + second),
            self.receiving(between).sent(second) == self.sent(second).receiving(between),
            self.sent(Seq::empty()) == self,
    {
        assert(self.events + sending(first) + sending(second) =~= self.events + sending(
            first + second,
        ));
        assert(self.events + sending(Seq::empty()) =~= self.events);
    }

    /// What is noted as received before transactions does not matter to what they put on
    /// record.
    pub proof fn lemma_exchanges_receiving(self, received: Seq<u8>, exchanges: Seq<Seq<u8>>)
        ensures
            self.receiving(received).exchanges(exchanges) == self.exchanges(exchanges).receiving(
                received,
            ),
        decreases exchanges.len(),
    {
        if exchanges.len() > 0 {
            self.lemma_exchanges_receiving(received, exchanges.drop_last());
        }
    }

    /// One more transaction after some is one transaction after them.
    pub proof fn lemma_exchanges_push(self, exchanges: Seq<Seq<u8>>, bytes: Seq<u8>)
        ensures
            self.exchanges(exchanges.push(bytes)) == self.exchanges(exchanges).exchange(bytes),
            self.exchanges(Seq::empty()) == self,
            self.exchanges(seq![bytes]) == self.exchange(bytes),
    {
        assert(exchanges.push(bytes).drop_last() =~= exchanges);
        assert(seq![bytes].drop_last() =~= Seq::<Seq<u8>>::empty());
        assert(self.exchanges(seq![bytes]) == self.exchanges(Seq::empty()).exchange(bytes));
    }
}

/// A bus and the pin that selects the radio on it, with their record.
pub struct RecordedBus<S: SPI, G: GPIOPin> {
    device: S,
    select: G,
    output: bool,
    configuration: Ghost<Option<SPIParams>>,
    enabled: Ghost<bool>,
    events: Ghost<Seq<BusEvent>>,
    received: Ghost<Seq<u8>>,
}

impl<S: SPI, G: GPIOPin> View for RecordedBus<S, G> {
    type V = BusRecord;

    closed spec fn view(&self) -> BusRecord {
        BusRecord {
            configuration: self.configuration@,
            enabled: self.enabled@,
            output: self.output,
            events: self.events@,
            received: self.received@,
        }
    }
}

impl<S: SPI, G: GPIOPin> RecordedBus<S, G> {
    /// The bus `device` with the select pin `select`, with nothing on record.
    pub fn new(device: S, select: G) -> (bus: Self)
        ensures
            bus@ == BusRecord::untouched(),
            *bus.device() == device,
            *bus.select() == select,
    {
        RecordedBus {
            device,
            select,
            output: false,
            configuration: Ghost(None),
            enabled: Ghost(false),
            events: Ghost(Seq::empty()),
            received: Ghost(Seq::empty()),
        }
    }

    /// The bus itself, as it is after all that has been done through it.
    pub closed spec fn spec_device(&self) -> &S {
        &self.device
    }

    /// Returns the bus itself
    #[verifier::when_used_as_spec(spec_device)]
    pub fn device(&self) -> (device: &S)
        ensures
            device == self.spec_device(),
    {
        &self.device
    }

    /// The select pin itself, as it is after all that has been done through it.
    pub closed spec fn spec_select(&self) -> &G {
        &self.select
    }

    /// Returns the select pin itself
    #[verifier::when_used_as_spec(spec_select)]
    pub fn select(&self) -> (select: &G)
        ensures
            select == self.spec_select(),
    {
        &self.select
    }

    /// Configures the bus for communication as an SPI master
    pub fn init(&mut self, params: SPIParams)
        ensures
            final(self).select() == old(self).select(),
            final(self)@ == (BusRecord { configuration: Some(params), ..old(self)@ }),
    {
        self.device.init(params);
        self.configuration = Ghost(Some(params));
    }

    /// Enables the bus
    pub fn enable(&mut self)
        ensures
            final(self).select() == old(self).select(),
            final(self)@ == (BusRecord { enabled: true, ..old(self)@ }),
    {
        self.device.enable();
        self.enabled = Ghost(true);
    }

    /// Disables the bus
    pub fn disable(&mut self)
        ensures
            final(self).select() == old(self).select(),
            final(self)@ == (BusRecord { enabled: false, ..old(self)@ }),
    {
        self.device.disable();
        self.enabled = Ghost(false);
    }

    /// Makes the select pin an output, if it is none
    fn make_output(&mut self)
        ensures
            final(self).device() == old(self).device(),
            final(self)@ == old(self)@.as_output(),
    {
        if !self.output {
            self.select.enable_output();
            self.output = true;
            self.events = Ghost(self.events@.push(BusEvent::OutputEnabled));
        }
    }

    /// Releases the radio without having selected it: makes the select pin an output, if it
    /// is none, and takes it high.
    pub fn deselect(&mut self)
        ensures
            final(self).device() == old(self).device(),
            final(self)@ == old(self)@.deselected(),
    {
        self.make_output();
        self.release();
    }

    /// Takes the select pin low
    fn assert_select(&mut self)
        ensures
            final(self).device() == old(self).device(),
            final(self)@ == old(self)@.after(BusEvent::Selected),
    {
        self.select.clear();
        self.events = Ghost(self.events@.push(BusEvent::Selected));
    }

    /// Takes the select pin high
    fn release(&mut self)
        ensures
            final(self).device() == old(self).device(),
            final(self)@ == old(self)@.after(BusEvent::Released),
    {
        self.select.set();
        self.events = Ghost(self.events@.push(BusEvent::Released));
    }

    /// Sends a byte and returns the byte received meanwhile
    fn exchange_byte(&mut self, out_byte: u8) -> (in_byte: u8)
        ensures
            final(self).select() == old(self).select(),
            final(self)@ == old(self)@.after(BusEvent::Sent(out_byte)).receiving(
                old(self)@.received.push(in_byte),
            ),
    {
        let in_byte = self.device.write_byte(out_byte);
        self.events = Ghost(self.events@.push(BusEvent::Sent(out_byte)));
        self.received = Ghost(self.received@.push(in_byte));
        in_byte
    }
}

/// Exclusive use of the bus for one exchange with the radio. The radio is selected from
/// `begin` to `end`, so that it sees the transfers in between as one operation. Bytes are
/// sent through a transaction only.
pub struct BusTransaction<'a, S: SPI, G: GPIOPin> {
    /// The bus, with the radio selected
    pub bus: &'a mut RecordedBus<S, G>,
}

impl<'a, S: SPI, G: GPIOPin> BusTransaction<'a, S, G> {
    /// Begins a transaction: makes the select pin an output, if it is none, and takes it low.
    pub fn begin(bus: &'a mut RecordedBus<S, G>) -> (transaction: Self)
        ensures
            transaction.bus.device() == old(bus).device(),
            transaction.bus@ == old(bus)@.selected(),
            *final(bus) == *final(transaction.bus),
    {
        bus.make_output();
        bus.assert_select();
        BusTransaction { bus }
    }

    /// Sends a byte and returns the byte received meanwhile.
    pub fn transfer(&mut self, out_byte: u8) -> (in_byte: u8)
        ensures
            final(self).bus.select() == old(self).bus.select(),
            final(self).bus@ == old(self).bus@.sent(seq![out_byte]).receiving(
                old(self).bus@.received.push(in_byte),
            ),
            *final(final(self).bus) == *final(old(self).bus),
    {
        let in_byte = self.bus.exchange_byte(out_byte);
        proof {
            assert(old(self).bus@.events + sending(seq![out_byte]) =~= old(self).bus@.events.push(
                BusEvent::Sent(out_byte),
            ));
        }
        in_byte
    }

    /// Sends the bytes of `data` in order and drops what is received meanwhile.
    pub fn write_all(&mut self, data: &[u8])
        ensures
            final(self).bus.select() == old(self).bus.select(),
            final(self).bus@ == old(self).bus@.sent(data@).receiving(final(self).bus@.received),
            extends_by(final(self).bus@.received, old(self).bus@.received, data@.len()),
            *final(final(self).bus) == *final(old(self).bus),
    {
        let mut index: usize = 0;
        proof {
            old(self).bus@.lemma_sent_twice(Seq::empty(), Seq::empty(), Seq::empty());
            assert(data@.take(0) =~= Seq::<u8>::empty());
        }
        while index < data.len()
            invariant
                index <= data@.len(),
                self.bus@ == old(self).bus@.sent(data@.take(index as int)).receiving(
                    self.bus@.received,
                ),
                extends_by(self.bus@.received, old(self).bus@.received, index as nat),
                self.bus.select() == old(self).bus.select(),
                *final(self.bus) == *final(old(self).bus),
            decreases data@.len() - index,
        {
            let ghost before = self.bus@;
            self.transfer(data[index]);
            index += 1;
            proof {
                assert(data@.take(index as int) =~= data@.take(index - 1) + seq![
                    data@[index - 1],
                ]);
                old(self).bus@.lemma_sent_twice(
                    data@.take(index - 1),
                    before.received,
                    seq![data@[index - 1]],
                );
                assert(self.bus@.received.take(old(self).bus@.received.len() as int)
                    =~= before.received.take(old(self).bus@.received.len() as int));
            }
        }
        proof {
            assert(data@.take(index as int) =~= data@);
        }
    }

    /// Fills the first `count` places of `data` with the bytes received while as many zero
    /// bytes are sent, and leaves the rest of `data` as it is.
    pub fn read_into(&mut self, data: &mut [u8], count: usize)
        requires
            count <= old(data)@.len(),
        ensures
            final(self).bus.select() == old(self).bus.select(),
            final(data)@.len() == old(data)@.len(),
            final(data)@.skip(count as int) == old(data)@.skip(count as int),
            final(self).bus@ == old(self).bus@.sent(idle_bytes(count as nat)).receiving(
                old(self).bus@.received + final(data)@.take(count as int),
            ),
            *final(final(self).bus) == *final(old(self).bus),
    {
        let mut index: usize = 0;
        proof {
            old(self).bus@.lemma_sent_twice(Seq::empty(), Seq::empty(), Seq::empty());
            assert(idle_bytes(0) =~= Seq::<u8>::empty());
            assert(old(self).bus@.received + data@.take(0) =~= old(self).bus@.received);
        }
        while index < count
            invariant
                data@.len() == old(data)@.len(),
                index <= count <= data@.len(),
                data@.skip(index as int) =~= old(data)@.skip(index as int),
                self.bus@ == old(self).bus@.sent(idle_bytes(index as nat)).receiving(
                    old(self).bus@.received + data@.take(index as int),
                ),
                self.bus.select() == old(self).bus.select(),
                *final(self.bus) == *final(old(self).bus),
            decreases count - index,
        {
            let ghost taken = data@.take(index as int);
            let ghost rest = data@.skip(index as int);
            let ghost before = self.bus@;
            let byte = self.transfer(0);
            data[index] = byte;
            index += 1;
            proof {
                assert(data@.take(index as int) =~= taken.push(byte));
                assert(data@.skip(index as int) =~= rest.skip(1));
                assert(old(data)@.skip(index as int) =~= old(data)@.skip(index - 1).skip(1));
                assert(idle_bytes(index as nat) =~= idle_bytes((index - 1) as nat) + seq![0u8]);
                old(self).bus@.lemma_sent_twice(
                    idle_bytes((index - 1) as nat),
                    before.received,
                    seq![0u8],
                );
                assert(old(self).bus@.received + data@.take(index as int)
                    =~= before.received.push(byte));
            }
        }
    }

    /// Ends the transaction: takes the select pin high.
    pub fn end(self)
        ensures
            final(self.bus).device() == old(self.bus).device(),
            final(self.bus)@ == old(self.bus)@.after(BusEvent::Released),
    {
        self.bus.release();
    }
}

} // verus!
