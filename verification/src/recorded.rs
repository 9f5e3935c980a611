//! Pins and clients that keep a record of what is done through them.
//!
//! The driver reaches its pins and its client through these, and its bus through the
//! recorded bus. What it is proved to do, it is proved to do in terms of their records.

use vstd::prelude::*;

use crate::frame::Frame;
use crate::hil::gpio::GPIOPin;
use crate::hil::ieee802154::Reader;

verus! {

/// What can be done to an output pin.
#[derive(Clone, Copy, Debug, PartialEq, Eq, Structural)]
pub enum PinEvent {
    /// The pin was configured as an output
    OutputEnabled,
    /// The pin was driven high
    DrivenHigh,
    /// The pin was driven low
    DrivenLow,
}

/// A notification to the client of a transceiver.
pub enum Upcall {
    /// A frame has been received
    FrameReceived(Frame),
    /// A frame has been sent
    SendDone,
}

/// The record of a pin: what has been done to it, oldest first, and whether it has been made
/// an output.
pub struct PinRecord {
    /// What has been done to the pin
    pub events: Seq<PinEvent>,
    /// Whether the pin has been made an output
    pub output: bool,
}

impl PinRecord {
    /// The record of a pin to which nothing has been done.
    pub open spec fn untouched() -> PinRecord {
        PinRecord { events: Seq::empty(), output: false }
    }

    /// This record after one more thing has been done to the pin.
    pub open spec fn after(self, event: PinEvent) -> PinRecord {
        PinRecord {
            events: self.events.push(event),
            output: self.output || event == PinEvent::OutputEnabled,
        }
    }

    /// This record after the pin has been made an output, if it was none.
    pub open spec fn as_output(self) -> PinRecord {
        if self.output {
            self
        } else {
            self.after(PinEvent::OutputEnabled)
        }
    }

    /// This record after the pin has been made an output, if it was none, and driven to a
    /// level.
    pub open spec fn driven(self, high: bool) -> PinRecord {
        self.as_output().after(
            if high {
                PinEvent::DrivenHigh
            } else {
                PinEvent::DrivenLow
            },
        )
    }

    /// This record after the pin has been taken low `count` times.
    pub open spec fn lowered(self, count: nat) -> PinRecord
        decreases count,
    {
        if count == 0 {
            self
        } else {
            self.lowered((count - 1) as nat).after(PinEvent::DrivenLow)
        }
    }

    /// This record after one pulse on the pin: it has been taken high, then low.
    pub open spec fn pulsed(self) -> PinRecord {
        self.after(PinEvent::DrivenHigh).after(PinEvent::DrivenLow)
    }
}

/// A pin with its record.
pub struct RecordedPin<G: GPIOPin> {
    pin: G,
    output: bool,
    events: Ghost<Seq<PinEvent>>,
}

impl<G: GPIOPin> View for RecordedPin<G> {
    type V = PinRecord;

    closed spec fn view(&self) -> PinRecord {
        PinRecord { events: self.events@, output: self.output }
    }
}

impl<G: GPIOPin> RecordedPin<G> {
    /// The pin `pin`, with nothing on record.
    pub fn new(pin: G) -> (recorded: Self)
        ensures
            recorded@ == PinRecord::untouched(),
            *recorded.pin() == pin,
    {
        RecordedPin { pin, output: false, events: Ghost(Seq::empty()) }
    }

    /// The pin itself, as it is after all that has been done through it.
    pub closed spec fn spec_pin(&self) -> &G {
        &self.pin
    }

    /// Returns the pin itself
    #[verifier::when_used_as_spec(spec_pin)]
    pub fn pin(&self) -> (pin: &G)
        ensures
            pin == self.spec_pin(),
    {
        &self.pin
    }

    /// Returns true if the pin has been made an output
    pub fn is_output(&self) -> (output: bool)
        ensures
            output == self@.output,
    {
        self.output
    }

    /// Configures the pin as an output
    pub fn enable_output(&mut self)
        ensures
            final(self)@ == old(self)@.after(PinEvent::OutputEnabled),
    {
        self.pin.enable_output();
        self.output = true;
        self.events = Ghost(self.events@.push(PinEvent::OutputEnabled));
    }

    /// Configures the pin as an output if it has not been
    pub fn make_output(&mut self)
        ensures
            final(self)@ == old(self)@.as_output(),
            old(self)@.output ==> final(self).pin() == old(self).pin(),
    {
        if !self.output {
            self.enable_output();
        }
    }

    /// Drives the pin high
    pub fn set(&mut self)
        ensures
            final(self)@ == old(self)@.after(PinEvent::DrivenHigh),
    {
        self.pin.set();
        self.events = Ghost(self.events@.push(PinEvent::DrivenHigh));
    }

    /// Drives the pin low
    pub fn clear(&mut self)
        ensures
            final(self)@ == old(self)@.after(PinEvent::DrivenLow),
    {
        self.pin.clear();
        self.events = Ghost(self.events@.push(PinEvent::DrivenLow));
    }
}

/// A client with the record of the notifications that it has been given, oldest first.
pub struct RecordedClient<R: Reader> {
    reader: R,
    upcalls: Ghost<Seq<Upcall>>,
}

impl<R: Reader> RecordedClient<R> {
    /// The notifications given to this client so far.
    pub closed spec fn upcalls(&self) -> Seq<Upcall> {
        self.upcalls@
    }

    /// The client `reader`, with nothing on record.
    pub fn new(reader: R) -> (client: Self)
        ensures
            client.upcalls() == Seq::<Upcall>::empty(),
            *client.reader() == reader,
    {
        RecordedClient { reader, upcalls: Ghost(Seq::empty()) }
    }

    /// The client itself, as it is after all that it has been told.
    pub closed spec fn spec_reader(&self) -> &R {
        &self.reader
    }

    /// Returns the client itself
    #[verifier::when_used_as_spec(spec_reader)]
    pub fn reader(&self) -> (reader: &R)
        ensures
            reader == self.spec_reader(),
    {
        &self.reader
    }

    /// Tells the client that a frame has been received
    pub fn frame_received(&mut self, frame: Frame)
        ensures
            final(self).upcalls() == old(self).upcalls().push(Upcall::FrameReceived(frame)),
    {
        self.reader.frame_received(frame);
        self.upcalls = Ghost(self.upcalls@.push(Upcall::FrameReceived(frame)));
    }

    /// Tells the client that a frame has been sent
    pub fn send_done(&mut self)
        ensures
            final(self).upcalls() == old(self).upcalls().push(Upcall::SendDone),
    {
        self.reader.send_done();
        self.upcalls = Ghost(self.upcalls@.push(Upcall::SendDone));
    }
}

} // verus!
