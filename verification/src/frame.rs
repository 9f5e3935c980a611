//! The IEEE 802.15.4 frame model: frame types, addresses, the two addressing conventions, and
//! the wire encoding of a frame as a MAC protocol data unit.
//!
//! All multi-byte fields are encoded least significant byte first.

use vstd::prelude::*;

use crate::error::Error;

verus! {

/// The maximum length in bytes of a MAC protocol data unit, frame check sequence included
pub const MAX_MPDU_LENGTH: usize = 127;

/// The maximum length in bytes of the payload of a MAC protocol data unit.
/// A payload can have this size when the source and destination addresses are excluded.
pub const MAX_PAYLOAD_LENGTH: usize = MAX_MPDU_LENGTH - 5;

/// The two bytes of a 16-bit value, least significant first.
pub open spec fn le_bytes_u16(n: u16) -> Seq<u8> {
    seq![(n % 0x100) as u8, (n / 0x100) as u8]
}

/// The eight bytes of a 64-bit value, least significant first.
pub open spec fn le_bytes_u64(n: u64) -> Seq<u8> {
    seq![
        (n % 0x100) as u8,
        (n / 0x100 % 0x100) as u8,
        (n / 0x1_0000 % 0x100) as u8,
        (n / 0x100_0000 % 0x100) as u8,
        (n / 0x1_0000_0000 % 0x100) as u8,
        (n / 0x100_0000_0000 % 0x100) as u8,
        (n / 0x1_0000_0000_0000 % 0x100) as u8,
        (n / 0x100_0000_0000_0000 % 0x100) as u8,
    ]
}

/// `bytes` with the stretch that starts at `at` replaced by `part`.
pub open spec fn overwrite(bytes: Seq<u8>, at: int, part: Seq<u8>) -> Seq<u8> {
    bytes.take(at) + part + bytes.skip(at + part.len())
}

/// Frame types
#[derive(Clone, Copy, Debug, PartialEq, Eq, Structural)]
pub enum FrameType {
    Beacon,
    Data,
    Acknowledge,
    MACCommand,
    /// Indicates an unrecognized type
    Other(u8),
}

impl FrameType {
    /// The 3-bit code of this frame type. An unrecognized type keeps its three low bits.
    pub open spec fn spec_as_byte(&self) -> u8 {
        match *self {
            FrameType::Beacon => 0,
            FrameType::Data => 1,
            FrameType::Acknowledge => 2,
            FrameType::MACCommand => 3,
            FrameType::Other(value) => value % 8,
        }
    }

    /// Converts this frame type into a 3-bit value
    #[verifier::when_used_as_spec(spec_as_byte)]
    pub fn as_byte(&self) -> (code: u8)
        ensures
            code == self.spec_as_byte(),
            code < 8,
    {
        match *self {
            FrameType::Beacon => 0,
            FrameType::Data => 1,
            FrameType::Acknowledge => 2,
            FrameType::MACCommand => 3,
            FrameType::Other(value) => {
                assert(value & 0b111 == value % 8) by (bit_vector);
                value & 0b111
            },
        }
    }
}

/// Forms of addresses
#[derive(Clone, Copy, Debug, PartialEq, Eq, Structural)]
pub enum Address {
    /// Short 16-bit address
    Short(u16),
    /// Long 64-bit address
    Long(u64),
}

impl Address {
    /// The 2-bit addressing mode of this address.
    pub open spec fn spec_address_mode(&self) -> u8 {
        match *self {
            Address::Short(_) => 0b10,
            Address::Long(_) => 0b11,
        }
    }

    /// Returns the addressing mode of this address as a 2-bit value
    #[verifier::when_used_as_spec(spec_address_mode)]
    pub fn address_mode(&self) -> (mode: u8)
        ensures
            mode == self.spec_address_mode(),
            self is Short ==> mode == 0b10,
            self is Long ==> mode == 0b11,
    {
        match *self {
            Address::Short(_) => 0b10,
            Address::Long(_) => 0b11,
        }
    }

    /// The bytes of this address on the wire: two for a short address, eight for a long one.
    pub open spec fn wire_bytes(&self) -> Seq<u8> {
        match *self {
            Address::Short(n) => le_bytes_u16(n),
            Address::Long(n) => le_bytes_u64(n),
        }
    }
}

/// The addressing mode of an address that may be absent: `0b00` when it is.
pub open spec fn mode_of(address: Option<Address>) -> u8 {
    match address {
        Some(address) => address.address_mode(),
        None => 0b00,
    }
}

/// The bytes that an address contributes to the address block: none when it is absent.
pub open spec fn address_bytes(address: Option<Address>) -> Seq<u8> {
    match address {
        Some(address) => address.wire_bytes(),
        None => Seq::empty(),
    }
}

/// The bytes that a PAN ID contributes to the address block: none when it is absent.
pub open spec fn pan_id_bytes(pan_id: Option<u16>) -> Seq<u8> {
    match pan_id {
        Some(pan_id) => le_bytes_u16(pan_id),
        None => Seq::empty(),
    }
}

/// Contains a local address and a PAN ID
#[derive(Clone, Copy, Debug, PartialEq, Eq, Structural)]
pub struct FullAddress {
    /// Address
    pub address: Address,
    /// PAN ID
    pub pan_id: u16,
}

/// Valid address combinations
#[allow(inconsistent_fields)]
#[derive(Clone, Copy, Debug, PartialEq, Eq, Structural)]
pub enum Addresses {
    /// Within a PAN, both addresses included, origin PAN ID excluded
    Local {
        /// Origin address without PAN ID
        source_address: Address,
        /// Destination address and PAN ID
        destination: FullAddress,
    },
    /// Between PANs, both addresses optional, a PAN ID is required for each address
    Full { source: Option<FullAddress>, destination: Option<FullAddress> },
}

impl Addresses {
    /// Whether both ends share one PAN, so that the source PAN ID is left out.
    pub open spec fn spec_is_within_pan(&self) -> bool {
        *self is Local
    }

    /// Returns true if this set of addresses is for a transmission within a PAN that excludes
    /// the source PAN ID. Otherwise returns false.
    #[verifier::when_used_as_spec(spec_is_within_pan)]
    pub fn is_within_pan(&self) -> (within: bool)
        ensures
            within == self.spec_is_within_pan(),
            within <==> self is Local,
    {
        match *self {
            Addresses::Local { .. } => true,
            Addresses::Full { .. } => false,
        }
    }

    /// The source address, if there is one.
    pub open spec fn spec_source_address(&self) -> Option<Address> {
        match *self {
            Addresses::Local { source_address, destination } => Some(source_address),
            Addresses::Full { source: Some(source), destination } => Some(source.address),
            Addresses::Full { source: None, destination } => None,
        }
    }

    /// Returns the source address if this address block contains one
    #[verifier::when_used_as_spec(spec_source_address)]
    pub fn source_address(&self) -> (address: Option<Address>)
        ensures
            address == self.spec_source_address(),
    {
        match self {
            Addresses::Local { source_address, destination } => Some(*source_address),
            Addresses::Full { source, destination } => match source {
                Some(source_address) => Some(source_address.address),
                None => None,
            },
        }
    }

    /// The source PAN ID, if it is carried: never within a PAN.
    pub open spec fn spec_source_pan_id(&self) -> Option<u16> {
        match *self {
            Addresses::Local { source_address, destination } => None,
            Addresses::Full { source: Some(source), destination } => Some(source.pan_id),
            Addresses::Full { source: None, destination } => None,
        }
    }

    /// Returns the source PAN ID if this address block contains one
    #[verifier::when_used_as_spec(spec_source_pan_id)]
    pub fn source_pan_id(&self) -> (pan_id: Option<u16>)
        ensures
            pan_id == self.spec_source_pan_id(),
            self is Local ==> pan_id is None,
    {
        match self {
            Addresses::Local { source_address, destination } => None,
            Addresses::Full { source, destination } => match source {
                Some(source_address) => Some(source_address.pan_id),
                None => None,
            },
        }
    }

    /// The destination address, if there is one.
    pub open spec fn spec_destination_address(&self) -> Option<Address> {
        match *self {
            Addresses::Local { source_address, destination } => Some(destination.address),
            Addresses::Full { source, destination: Some(destination) } => Some(
                destination.address,
            ),
            Addresses::Full { source, destination: None } => None,
        }
    }

    /// Returns the destination address if this address block contains one
    #[verifier::when_used_as_spec(spec_destination_address)]
    pub fn destination_address(&self) -> (address: Option<Address>)
        ensures
            address == self.spec_destination_address(),
    {
        match self {
            Addresses::Local { source_address, destination } => Some(destination.address),
            Addresses::Full { source, destination } => match destination {
                Some(destination_address) => Some(destination_address.address),
                None => None,
            },
        }
    }

    /// The destination PAN ID, if there is a destination.
    pub open spec fn spec_destination_pan_id(&self) -> Option<u16> {
        match *self {
            Addresses::Local { source_address, destination } => Some(destination.pan_id),
            Addresses::Full { source, destination: Some(destination) } => Some(
                destination.pan_id,
            ),
            Addresses::Full { source, destination: None } => None,
        }
    }

    /// Returns the destination PAN ID if this address block contains one
    #[verifier::when_used_as_spec(spec_destination_pan_id)]
    pub fn destination_pan_id(&self) -> (pan_id: Option<u16>)
        ensures
            pan_id == self.spec_destination_pan_id(),
    {
        match self {
            Addresses::Local { source_address, destination } => Some(destination.pan_id),
            Addresses::Full { source, destination } => match destination {
                Some(destination_address) => Some(destination_address.pan_id),
                None => None,
            },
        }
    }

    /// The addressing mode of the source address.
    pub open spec fn spec_source_mode(&self) -> u8 {
        mode_of(self.source_address())
    }

    /// Returns the addressing mode of the source address as a 2-bit value
    #[verifier::when_used_as_spec(spec_source_mode)]
    pub fn source_mode(&self) -> (mode: u8)
        ensures
            mode == self.spec_source_mode(),
            mode == 0b00 || mode == 0b10 || mode == 0b11,
    {
        match self {
            Addresses::Local { source_address, destination } => source_address.address_mode(),
            Addresses::Full { source, destination } => match source {
                Some(source_address) => source_address.address.address_mode(),
                None => 0b00,
            },
        }
    }

    /// The addressing mode of the destination address.
    pub open spec fn spec_destination_mode(&self) -> u8 {
        mode_of(self.destination_address())
    }

    /// Returns the addressing mode of the destination address as a 2-bit value
    #[verifier::when_used_as_spec(spec_destination_mode)]
    pub fn destination_mode(&self) -> (mode: u8)
        ensures
            mode == self.spec_destination_mode(),
            mode == 0b00 || mode == 0b10 || mode == 0b11,
    {
        match self {
            Addresses::Local { source_address, destination } => match destination.address {
                Address::Short(_) => 0b10,
                Address::Long(_) => 0b11,
            },
            Addresses::Full { source, destination } => match destination {
                Some(destination_address) => destination_address.address.address_mode(),
                None => 0b00,
            },
        }
    }

    /// Addresses within a PAN say so, and carry no source PAN ID.
    pub proof fn lemma_local_shares_pan(self)
        requires
            self is Local,
        ensures
            self.is_within_pan(),
            self.source_pan_id() is None,
            self.source_address() is Some,
            self.destination_address() is Some,
            self.destination_pan_id() is Some,
    {
    }

    /// Addresses between PANs do not claim to be within one, and carry a PAN ID with each
    /// address that is present.
    pub proof fn lemma_full_carries_pans(self)
        requires
            self is Full,
        ensures
            !self.is_within_pan(),
            self.source_pan_id() is Some <==> self.source_address() is Some,
            self.destination_pan_id() is Some <==> self.destination_address() is Some,
    {
    }

    /// The address block takes from none to twenty bytes: for each address that is present
    /// two or eight bytes, and two more for each PAN ID.
    pub proof fn lemma_address_block_length(self)
        ensures
            self.address_block().len() == address_bytes(self.destination_address()).len()
                + pan_id_bytes(self.destination_pan_id()).len() + address_bytes(
                self.source_address(),
            ).len() + pan_id_bytes(self.source_pan_id()).len(),
            self.address_block().len() <= 20,
            self is Local ==> 6 <= self.address_block().len() <= 18,
    {
    }

    /// The address block on the wire: destination address, destination PAN ID, source
    /// address, source PAN ID, each left out where these addresses do not carry it.
    pub open spec fn address_block(&self) -> Seq<u8> {
        address_bytes(self.destination_address()) + pan_id_bytes(self.destination_pan_id())
            + address_bytes(self.source_address()) + pan_id_bytes(self.source_pan_id())
    }

    /// Returns the number of bytes that these addresses take on the wire
    pub fn address_block_length(&self) -> (length: usize)
        ensures
            length == self.address_block().len(),
            length <= 20,
    {
        let destination: usize = match self.destination_address() {
            Some(Address::Short(_)) => 4,
            Some(Address::Long(_)) => 10,
            None => 0,
        };
        let source: usize = match self.source_address() {
            Some(Address::Short(_)) => 2,
            Some(Address::Long(_)) => 8,
            None => 0,
        };
        let source_pan: usize = match self.source_pan_id() {
            Some(_) => 2,
            None => 0,
        };
        destination + source + source_pan
    }
}

/// A frame's payload: a buffer of `MAX_PAYLOAD_LENGTH` bytes of which the first `len()` are in
/// use.
#[derive(Clone, Copy, Debug, PartialEq, Eq)]
pub struct Payload {
    /// The buffer. The bytes beyond the length in use are zero.
    bytes: [u8; MAX_PAYLOAD_LENGTH],
    /// The number of bytes in use
    length: usize,
}

impl View for Payload {
    type V = Seq<u8>;

    /// The bytes in use.
    closed spec fn view(&self) -> Seq<u8> {
        self.bytes@.take(self.length as int)
    }
}

impl Payload {
    /// The length in use fits the buffer, and the rest of the buffer is zero.
    #[verifier::type_invariant]
    pub closed spec fn wf(&self) -> bool {
        &&& self.length <= MAX_PAYLOAD_LENGTH
        &&& forall|i: int| self.length <= i < MAX_PAYLOAD_LENGTH ==> self.bytes[i] == 0
    }

    /// A well-formed payload holds at most `MAX_PAYLOAD_LENGTH` bytes.
    pub proof fn lemma_length_bounded(self)
        requires
            self.wf(),
        ensures
            self@.len() <= MAX_PAYLOAD_LENGTH,
    {
    }

    /// Two well-formed payloads that hold the same bytes are the same value.
    pub proof fn lemma_equal_by_view(self, other: Payload)
        requires
            self.wf(),
            other.wf(),
            self@ == other@,
        ensures
            self == other,
    {
        assert(self.length == self@.len());
        assert(other.length == other@.len());
        assert forall|i: int| 0 <= i < MAX_PAYLOAD_LENGTH implies self.bytes[i] == other.bytes[i] by {
            if i < self.length {
                assert(self.bytes[i] == self@[i]);
                assert(other.bytes[i] == other@[i]);
            }
        }
        assert(self.bytes =~= other.bytes);
    }

    /// The payload of no bytes.
    pub fn empty() -> (payload: Payload)
        ensures
            payload.wf(),
            payload@ == Seq::<u8>::empty(),
    {
        Payload { bytes: [0; MAX_PAYLOAD_LENGTH], length: 0 }
    }

    /// The payload that holds the bytes of `data`, or `Error::OversizeFrame` if they are more
    /// than `MAX_PAYLOAD_LENGTH`.
    pub fn from_slice(data: &[u8]) -> (result: Result<Payload, Error>)
        ensures
            data@.len() <= MAX_PAYLOAD_LENGTH ==> result is Ok && result->Ok_0.wf()
                && result->Ok_0@ == data@,
            data@.len() > MAX_PAYLOAD_LENGTH ==> result == Err::<Payload, Error>(
                Error::OversizeFrame,
            ),
    {
        if data.len() > MAX_PAYLOAD_LENGTH {
            return Err(Error::OversizeFrame);
        }
        let mut bytes: [u8; MAX_PAYLOAD_LENGTH] = [0; MAX_PAYLOAD_LENGTH];
        let mut i: usize = 0;
        while i < data.len()
            invariant
                i <= data@.len() <= MAX_PAYLOAD_LENGTH,
                forall|j: int| 0 <= j < i ==> bytes[j] == data@[j],
                forall|j: int| i <= j < MAX_PAYLOAD_LENGTH ==> bytes[j] == 0,
            decreases data@.len() - i,
        {
            bytes[i] = data[i];
            i += 1;
        }
        let payload = Payload { bytes, length: data.len() };
        assert(payload@ =~= data@);
        Ok(payload)
    }

    /// Returns the number of bytes in use
    pub fn len(&self) -> (length: usize)
        ensures
            length == self@.len(),
            length <= MAX_PAYLOAD_LENGTH,
    {
        proof {
            use_type_invariant(self);
        }
        self.length
    }

    /// Returns the bytes in use
    pub fn as_slice(&self) -> (bytes: &[u8])
        ensures
            bytes@ == self@,
    {
        proof {
            use_type_invariant(self);
        }
        vstd::slice::slice_subrange(self.bytes.as_slice(), 0, self.length)
    }
}

/// The value of a flag as one bit.
pub open spec fn bit_of(flag: bool) -> int {
    if flag {
        1
    } else {
        0
    }
}

/// `n` zero bytes.
pub open spec fn zeros(n: nat) -> Seq<u8> {
    Seq::new(n, |i: int| 0u8)
}

/// Writing `part` at the end of what has been written into a zeroed buffer extends what has
/// been written by `part` and leaves the rest zero.
proof fn lemma_overwrite_zeros(written: Seq<u8>, room: nat, part: Seq<u8>)
    requires
        part.len() <= room,
    ensures
        overwrite(written + zeros(room), written.len() as int, part) == (written + part) + zeros(
            (room - part.len()) as nat,
        ),
{
    assert(overwrite(written + zeros(room), written.len() as int, part) =~= (written + part)
        + zeros((room - part.len()) as nat));
}

/// Returns the value of a flag as one bit
fn flag_bit(flag: bool) -> (bit: u8)
    ensures
        bit == bit_of(flag),
{
    if flag {
        1
    } else {
        0
    }
}

/// Represents an IEEE 802.15.4 MAC Protocol Data Unit
#[derive(Clone, Copy, Debug, PartialEq, Eq)]
pub struct Frame {
    /// The type of this frame
    pub frame_type: FrameType,
    /// If security processing is enabled for this frame
    pub security_enabled: bool,
    /// If the transmitter has more frames to send in the near future
    pub frame_pending: bool,
    /// If the node receiving the frame should send an acknowledgment
    pub acknowledgment_request: bool,
    /// The number of this frame in a sequence.
    /// Used to detect duplicate or dropped frames
    pub sequence_number: u8,
    /// Source and/or destination addresses
    pub addresses: Addresses,
    /// The payload
    pub payload: Payload,
}

impl Frame {
    /// The low byte of the frame control field: the frame type in bits 0 to 2, then one bit
    /// each for security, frame pending, acknowledgment request and transmission within a PAN.
    pub open spec fn control_low(&self) -> u8 {
        (self.frame_type.as_byte() + 8 * bit_of(self.security_enabled) + 16 * bit_of(
            self.frame_pending,
        ) + 32 * bit_of(self.acknowledgment_request) + 64 * bit_of(
            self.addresses.is_within_pan(),
        )) as u8
    }

    /// The high byte of the frame control field: the destination addressing mode in bits 2
    /// and 3, the source addressing mode in bits 6 and 7.
    pub open spec fn control_high(&self) -> u8 {
        (4 * self.addresses.destination_mode() + 64 * self.addresses.source_mode()) as u8
    }

    /// The header on the wire: frame control, sequence number, address block.
    pub open spec fn header(&self) -> Seq<u8> {
        seq![self.control_low(), self.control_high(), self.sequence_number]
            + self.addresses.address_block()
    }

    /// The protocol data unit on the wire, without the frame check sequence that the radio
    /// appends: the header, then the payload.
    pub open spec fn mpdu_bytes(&self) -> Seq<u8> {
        self.header() + self.payload@
    }

    /// The length of the protocol data unit: two bytes of frame control, the sequence
    /// number, the address block, the payload, and two bytes of frame check sequence.
    pub open spec fn spec_mpdu_length(&self) -> nat {
        2 + 1 + self.addresses.address_block().len() + self.payload@.len() + 2
    }

    /// The length of the protocol data unit is that of its encoding and of the frame check
    /// sequence; with a well-formed payload it is between 5 and 147, and the encoding fits
    /// the radio if it is at most `MAX_MPDU_LENGTH`.
    pub proof fn lemma_mpdu_length(self)
        requires
            self.payload.wf(),
        ensures
            self.spec_mpdu_length() == 2 + 1 + self.addresses.address_block().len()
                + self.payload@.len() + 2,
            self.spec_mpdu_length() == self.mpdu_bytes().len() + 2,
            5 <= self.spec_mpdu_length() <= 5 + 20 + MAX_PAYLOAD_LENGTH,
    {
        self.addresses.lemma_address_block_length();
        self.payload.lemma_length_bounded();
    }

    /// Returns the length in bytes of the protocol data unit of this frame, frame check
    /// sequence included
    pub fn mpdu_length(&self) -> (length: usize)
        ensures
            length == self.spec_mpdu_length(),
            length == self.mpdu_bytes().len() + 2,
    {
        2 + 1 + self.addresses.address_block_length() + self.payload.len() + 2
    }

    /// Converts this frame into an array of bytes representing a MAC protocol data unit
    /// according to the IEEE 802.15.4 protocol, but excluding the frame check sequence, which
    /// the radio appends.
    ///
    /// Byte 0 in the returned array should be sent first.
    ///
    /// Returns an array of bytes and the length of the protocol data unit. The length counts
    /// the two bytes of the frame check sequence, which are not written: the array holds the
    /// encoding in all but the last two bytes of that length, and zero from there on.
    /// Returns `Error::OversizeFrame`, and no bytes, if the protocol data unit would be longer
    /// than `MAX_MPDU_LENGTH`.
    pub fn as_mpdu_bytes(&self) -> (result: Result<([u8; MAX_MPDU_LENGTH], usize), Error>)
        ensures
            self.spec_mpdu_length() <= MAX_MPDU_LENGTH ==> result is Ok && result->Ok_0.1
                == self.spec_mpdu_length() && result->Ok_0.0@ == self.mpdu_bytes() + zeros(
                (MAX_MPDU_LENGTH - self.mpdu_bytes().len()) as nat,
            ),
            self.spec_mpdu_length() > MAX_MPDU_LENGTH ==> result == Err::<
                ([u8; MAX_MPDU_LENGTH], usize),
                Error,
            >(Error::OversizeFrame),
    {
        if self.mpdu_length() > MAX_MPDU_LENGTH {
            return Err(Error::OversizeFrame);
        }
        let mut bytes: [u8; MAX_MPDU_LENGTH] = [0; MAX_MPDU_LENGTH];
        proof {
            assert(bytes@ =~= zeros(MAX_MPDU_LENGTH as nat));
        }
        let header_length = self.write_header(&mut bytes);

        // Payload
        let payload = self.payload.as_slice();
        let ghost mut written: Seq<u8> = self.header();
        let mut index: usize = header_length;
        let mut payload_index: usize = 0;
        proof {
            assert(written =~= self.header() + payload@.take(0));
        }
        while payload_index < payload.len()
            invariant
                payload@ == self.payload@,
                self.header().len() + payload@.len() + 2 <= MAX_MPDU_LENGTH,
                payload_index <= payload@.len(),
                index == self.header().len() + payload_index,
                written == self.header() + payload@.take(payload_index as int),
                bytes@ == written + zeros((MAX_MPDU_LENGTH - index) as nat),
            decreases payload@.len() - payload_index,
        {
            proof {
                lemma_overwrite_zeros(
                    written,
                    (MAX_MPDU_LENGTH - index) as nat,
                    seq![payload@[payload_index as int]],
                );
                assert(overwrite(bytes@, index as int, seq![payload@[payload_index as int]])
                    =~= bytes@.update(index as int, payload@[payload_index as int]));
                assert(self.header() + payload@.take(payload_index + 1) =~= written
                    + seq![payload@[payload_index as int]]);
                written = written + seq![payload@[payload_index as int]];
            }
            bytes[index] = payload[payload_index];
            index = index + 1;
            payload_index = payload_index + 1;
        }
        proof {
            assert(payload@.take(payload_index as int) =~= payload@);
        }

        // The frame check sequence is counted, not written
        Ok((bytes, index + 2))
    }

    /// Returns the two bytes of the frame control field
    fn control_bytes(&self) -> (control: (u8, u8))
        ensures
            control.0 == self.control_low(),
            control.1 == self.control_high(),
    {
        let frame_type: u8 = self.frame_type.as_byte();
        let security: u8 = flag_bit(self.security_enabled);
        let pending: u8 = flag_bit(self.frame_pending);
        let acknowledgment: u8 = flag_bit(self.acknowledgment_request);
        let intra_pan: u8 = flag_bit(self.addresses.is_within_pan());
        let destination_mode: u8 = self.addresses.destination_mode();
        let source_mode: u8 = self.addresses.source_mode();
        assert(frame_type | (security << 3) | (pending << 4) | (acknowledgment << 5) | (intra_pan
            << 6) == frame_type + 8 * security + 16 * pending + 32 * acknowledgment + 64
            * intra_pan) by (bit_vector)
            requires
                frame_type < 8,
                security <= 1,
                pending <= 1,
                acknowledgment <= 1,
                intra_pan <= 1,
        ;
        assert((destination_mode << 2) | (source_mode << 6) == 4 * destination_mode + 64
            * source_mode) by (bit_vector)
            requires
                destination_mode < 4,
                source_mode < 4,
        ;
        (
            frame_type | (security << 3) | (pending << 4) | (acknowledgment << 5) | (intra_pan
                << 6),
            (destination_mode << 2) | (source_mode << 6),
        )
    }

    /// Writes the header of this frame at the start of a zeroed buffer and returns its
    /// length
    fn write_header(&self, bytes: &mut [u8]) -> (length: usize)
        requires
            old(bytes)@ == zeros(MAX_MPDU_LENGTH as nat),
        ensures
            length == self.header().len(),
            final(bytes)@ == self.header() + zeros((MAX_MPDU_LENGTH - length) as nat),
    {
        let (low, high) = self.control_bytes();
        bytes[0] = low;
        bytes[1] = high;
        bytes[2] = self.sequence_number;
        let ghost mut written: Seq<u8> = seq![
            self.control_low(),
            self.control_high(),
            self.sequence_number,
        ];
        proof {
            assert(bytes@ =~= written + zeros((MAX_MPDU_LENGTH - 3) as nat));
        }

        // Stores the index in bytes where the next value will be put
        let mut index: usize = 3;
        let destination_address = self.addresses.destination_address();
        let destination_pan_id = self.addresses.destination_pan_id();
        let source_address = self.addresses.source_address();
        let source_pan_id = self.addresses.source_pan_id();
        proof {
            lemma_overwrite_zeros(
                written,
                (MAX_MPDU_LENGTH - index) as nat,
                address_bytes(destination_address),
            );
            written = written + address_bytes(destination_address);
        }
        Frame::append_address(bytes, &mut index, &destination_address);
        proof {
            lemma_overwrite_zeros(
                written,
                (MAX_MPDU_LENGTH - index) as nat,
                pan_id_bytes(destination_pan_id),
            );
            written = written + pan_id_bytes(destination_pan_id);
        }
        Frame::append_pan_id(bytes, &mut index, &destination_pan_id);
        proof {
            lemma_overwrite_zeros(
                written,
                (MAX_MPDU_LENGTH - index) as nat,
                address_bytes(source_address),
            );
            written = written + address_bytes(source_address);
        }
        Frame::append_address(bytes, &mut index, &source_address);
        proof {
            lemma_overwrite_zeros(
                written,
                (MAX_MPDU_LENGTH - index) as nat,
                pan_id_bytes(source_pan_id),
            );
            written = written + pan_id_bytes(source_pan_id);
        }
        Frame::append_pan_id(bytes, &mut index, &source_pan_id);
        proof {
            assert(written =~= self.header());
        }
        index
    }

    /// Appends an address to an array of bytes.
    /// The least significant byte is placed at the initial value of index.
    /// The index parameter is incremented to be one greater than the index of the most
    /// significant byte of the address.
    pub fn append_address(bytes: &mut [u8], index: &mut usize, address_option: &Option<Address>)
        requires
            *old(index) + address_bytes(*address_option).len() <= old(bytes)@.len(),
        ensures
            final(bytes)@ == overwrite(
                old(bytes)@,
                *old(index) as int,
                address_bytes(*address_option),
            ),
            *final(index) == *old(index) + address_bytes(*address_option).len(),
    {
        match *address_option {
            Some(address) => {
                match address {
                    Address::Short(n) => {
                        assert(n & 0xFF == n % 0x100 && (n >> 8) & 0xFF == n / 0x100)
                            by (bit_vector);
                        bytes[*index] = (n & 0xFF) as u8;
                        bytes[*index + 1] = ((n >> 8) & 0xFF) as u8;
                        *index += 2;
                    },
                    Address::Long(n) => {
                        assert(n & 0xFF == n % 0x100 && (n >> 8) & 0xFF == n / 0x100 % 0x100 && (n
                            >> 16) & 0xFF == n / 0x1_0000 % 0x100 && (n >> 24) & 0xFF == n
                            / 0x100_0000 % 0x100 && (n >> 32) & 0xFF == n / 0x1_0000_0000 % 0x100
                            && (n >> 40) & 0xFF == n / 0x100_0000_0000 % 0x100 && (n >> 48) & 0xFF
                            == n / 0x1_0000_0000_0000 % 0x100 && (n >> 56) & 0xFF == n
                            / 0x100_0000_0000_0000 % 0x100) by (bit_vector);
                        bytes[*index] = (n & 0xFF) as u8;
                        bytes[*index + 1] = ((n >> 8) & 0xFF) as u8;
                        bytes[*index + 2] = ((n >> 16) & 0xFF) as u8;
                        bytes[*index + 3] = ((n >> 24) & 0xFF) as u8;
                        bytes[*index + 4] = ((n >> 32) & 0xFF) as u8;
                        bytes[*index + 5] = ((n >> 40) & 0xFF) as u8;
                        bytes[*index + 6] = ((n >> 48) & 0xFF) as u8;
                        bytes[*index + 7] = ((n >> 56) & 0xFF) as u8;
                        *index += 8;
                    },
                }
            },
            None => {},
        }
        assert(bytes@ =~= overwrite(
            old(bytes)@,
            *old(index) as int,
            address_bytes(*address_option),
        ));
    }

    /// Appends a PAN ID to an array of bytes.
    /// The least significant byte is placed at the initial value of index.
    /// The index parameter is incremented to be one greater than the index of the most
    /// significant byte of the PAN ID.
    pub fn append_pan_id(bytes: &mut [u8], index: &mut usize, pan_id_option: &Option<u16>)
        requires
            *old(index) + pan_id_bytes(*pan_id_option).len() <= old(bytes)@.len(),
        ensures
            final(bytes)@ == overwrite(
                old(bytes)@,
                *old(index) as int,
                pan_id_bytes(*pan_id_option),
            ),
            *final(index) == *old(index) + pan_id_bytes(*pan_id_option).len(),
    {
        match *pan_id_option {
            Some(pan_id) => {
                assert(pan_id & 0xFF == pan_id % 0x100 && (pan_id >> 8) & 0xFF == pan_id / 0x100)
                    by (bit_vector);
                bytes[*index] = (pan_id & 0xFF) as u8;
                bytes[*index + 1] = ((pan_id >> 8) & 0xFF) as u8;
                *index += 2;
            },
            None => {},
        }
        assert(bytes@ =~= overwrite(old(bytes)@, *old(index) as int, pan_id_bytes(*pan_id_option)));
    }
}

} // verus!
