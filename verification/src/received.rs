//! What is read out of the radio's frame buffer.

use vstd::prelude::*;

use crate::error::Error;
use crate::frame::MAX_MPDU_LENGTH;

verus! {

/// The bytes read out of the frame buffer after a reception, with the link quality that the
/// radio measured meanwhile.
#[derive(Clone, Copy, Debug, PartialEq, Eq)]
pub struct ReceivedFrame {
    /// The buffer
    buffer: [u8; MAX_MPDU_LENGTH],
    /// The number of bytes of the buffer that were read from the radio
    length: usize,
    /// The link quality indication
    lqi: u8,
}

impl View for ReceivedFrame {
    type V = Seq<u8>;

    /// The bytes that were read from the radio.
    closed spec fn view(&self) -> Seq<u8> {
        self.buffer@.take(self.length as int)
    }
}

impl ReceivedFrame {
    /// The bytes read fit the buffer.
    #[verifier::type_invariant]
    pub closed spec fn wf(&self) -> bool {
        self.length <= MAX_MPDU_LENGTH
    }

    /// The link quality indication that came with the bytes.
    pub closed spec fn spec_link_quality(&self) -> u8 {
        self.lqi
    }

    /// What was read: the first `length` bytes of `buffer`, and the link quality `lqi`.
    pub fn new(buffer: [u8; MAX_MPDU_LENGTH], length: usize, lqi: u8) -> (frame: ReceivedFrame)
        requires
            length <= MAX_MPDU_LENGTH,
        ensures
            frame.wf(),
            frame@ == buffer@.take(length as int),
            frame.spec_link_quality() == lqi,
    {
        ReceivedFrame { buffer, length, lqi }
    }

    /// Returns the number of bytes that were read
    pub fn len(&self) -> (length: usize)
        ensures
            length == self@.len(),
            length <= MAX_MPDU_LENGTH,
    {
        proof {
            use_type_invariant(self);
        }
        self.length
    }

    /// Returns the byte at `index`, or `Error::BufferIndexOutOfRange` if fewer than
    /// `index + 1` bytes were read.
    pub fn get(&self, index: usize) -> (result: Result<u8, Error>)
        ensures
            index < self@.len() ==> result == Ok::<u8, Error>(self@[index as int]),
            index >= self@.len() ==> result == Err::<u8, Error>(Error::BufferIndexOutOfRange),
    {
        proof {
            use_type_invariant(self);
        }
        if index < self.length {
            Ok(self.buffer[index])
        } else {
            Err(Error::BufferIndexOutOfRange)
        }
    }

    /// Returns the bytes that were read
    pub fn as_slice(&self) -> (bytes: &[u8])
        ensures
            bytes@ == self@,
    {
        proof {
            use_type_invariant(self);
        }
        vstd::slice::slice_subrange(self.buffer.as_slice(), 0, self.length)
    }

    /// Returns the link quality indication that came with the bytes
    #[verifier::when_used_as_spec(spec_link_quality)]
    pub fn link_quality(&self) -> (lqi: u8)
        ensures
            lqi == self.spec_link_quality(),
    {
        self.lqi
    }
}

} // verus!
