//! The failures that the codec and the driver report.

use vstd::prelude::*;

verus! {

/// Why an operation was refused or given up.
#[derive(Clone, Copy, Debug, PartialEq, Eq, Structural)]
pub enum Error {
    /// A payload or a protocol data unit is longer than the radio can carry. Nothing was sent
    /// over the bus.
    OversizeFrame,
    /// The status register held an operating-state code that the chip does not define. The
    /// condition may be transient: the caller may try again.
    UnrecognizedHardwareState,
    /// The radio did not reach the requested operating state within the allowed number of
    /// polls.
    TransitionTimeout,
    /// A received frame was read at an index at or beyond its length.
    BufferIndexOutOfRange,
    /// A byte sequence is not the encoding of any frame.
    MalformedFrame,
    /// The transceiver is not in a mode in which the operation may start.
    NotReady,
}

} // verus!
