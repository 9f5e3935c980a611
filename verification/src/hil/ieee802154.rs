//! APIs for IEEE 802.15.4 communication

use vstd::prelude::*;

use crate::error::Error;
pub use crate::frame::{Address, Frame, FrameType};

verus! {

/// The client of a transceiver
pub trait Reader {
    /// Called when a frame has been received
    fn frame_received(&mut self, frame: Frame);

    /// Called when a frame has been successfully sent
    fn send_done(&mut self);
}

/// What a transceiver is initialized with
pub struct Params<R: Reader> {
    /// The client to notify of received and sent frames
    pub client: R,
}

/// A trait for transceivers that can send and receive 802.15.4 frames
pub trait Transceiver {
    /// The client that this transceiver notifies
    type Client: Reader;

    /// Prepares the transceiver for use and registers the client
    fn init(&mut self, params: Params<Self::Client>);

    /// Enables receiving of frames. When enabled, the client's `frame_received()` method
    /// will be called when a frame is received.
    fn enable_rx(&mut self) -> Result<(), Error>;

    /// Disables receiving of frames
    fn disable_rx(&mut self) -> Result<(), Error>;

    /// Sends the provided frame.
    /// Executes asynchronously and calls the client's `send_done()` method when done.
    fn send(&mut self, frame: Frame) -> Result<(), Error>;
}

} // verus!
