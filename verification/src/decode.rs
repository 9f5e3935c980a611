//! The way back from the wire: the frame that a MAC protocol data unit encodes.

use vstd::prelude::*;

use crate::error::Error;
use crate::frame::{
    address_bytes, bit_of, le_bytes_u16, le_bytes_u64, pan_id_bytes, Address, Addresses, Frame,
    FrameType, FullAddress, Payload, MAX_PAYLOAD_LENGTH,
};

verus! {

/// The number of bytes that an address of the given addressing mode takes on the wire.
pub open spec fn address_length(mode: u8) -> nat {
    if mode == 0b10 {
        2
    } else if mode == 0b11 {
        8
    } else {
        0
    }
}

/// The number of bytes of the address block of a frame with the given PAN compression and
/// addressing modes: for each address that is present, the address and its PAN ID, but for
/// the source PAN ID within a PAN.
pub open spec fn address_block_length_for(within_pan: bool, destination_mode: u8, source_mode: u8) -> nat {
    (if destination_mode == 0 {
        0nat
    } else {
        address_length(destination_mode) + 2
    }) + (if source_mode == 0 {
        0nat
    } else if within_pan {
        address_length(source_mode)
    } else {
        address_length(source_mode) + 2
    })
}

impl FrameType {
    /// Whether this is the one value that stands for its code: an unrecognized type is, if it
    /// holds a 3-bit code that no other frame type has.
    pub open spec fn is_canonical(&self) -> bool {
        match *self {
            FrameType::Other(value) => 4 <= value < 8,
            _ => true,
        }
    }

    /// The frame type of a code: of the 3-bit codes, the first four have names; any other
    /// code is kept as it is.
    pub open spec fn spec_from_code(code: u8) -> FrameType {
        if code == 0 {
            FrameType::Beacon
        } else if code == 1 {
            FrameType::Data
        } else if code == 2 {
            FrameType::Acknowledge
        } else if code == 3 {
            FrameType::MACCommand
        } else {
            FrameType::Other(code)
        }
    }

    /// Returns the frame type of a code
    #[verifier::when_used_as_spec(spec_from_code)]
    pub fn from_code(code: u8) -> (frame_type: FrameType)
        ensures
            frame_type == FrameType::spec_from_code(code),
            frame_type.as_byte() == code % 8,
            code < 8 ==> frame_type.is_canonical(),
    {
        match code {
            0 => FrameType::Beacon,
            1 => FrameType::Data,
            2 => FrameType::Acknowledge,
            3 => FrameType::MACCommand,
            _ => FrameType::Other(code),
        }
    }

    /// A canonical frame type is the frame type of its own code.
    pub proof fn lemma_from_code_of_as_byte(self)
        requires
            self.is_canonical(),
        ensures
            FrameType::from_code(self.as_byte()) == self,
    {
    }
}

/// A 16-bit value is known by its two bytes.
pub proof fn lemma_le_bytes_u16_injective(a: u16, b: u16)
    requires
        le_bytes_u16(a) == le_bytes_u16(b),
    ensures
        a == b,
{
    assert(le_bytes_u16(a)[0] == le_bytes_u16(b)[0]);
    assert(le_bytes_u16(a)[1] == le_bytes_u16(b)[1]);
}

/// A 64-bit value is known by its eight bytes.
pub proof fn lemma_le_bytes_u64_injective(a: u64, b: u64)
    requires
        le_bytes_u64(a) == le_bytes_u64(b),
    ensures
        a == b,
{
    let x = le_bytes_u64(a);
    let y = le_bytes_u64(b);
    assert(x[0] == y[0] && x[1] == y[1] && x[2] == y[2] && x[3] == y[3] && x[4] == y[4] && x[5]
        == y[5] && x[6] == y[6] && x[7] == y[7]);
    assert((a % 0x100) as u8 == (b % 0x100) as u8 && (a / 0x100 % 0x100) as u8 == (b / 0x100
        % 0x100) as u8 && (a / 0x1_0000 % 0x100) as u8 == (b / 0x1_0000 % 0x100) as u8 && (a
        / 0x100_0000 % 0x100) as u8 == (b / 0x100_0000 % 0x100) as u8 && (a / 0x1_0000_0000
        % 0x100) as u8 == (b / 0x1_0000_0000 % 0x100) as u8 && (a / 0x100_0000_0000 % 0x100) as u8
        == (b / 0x100_0000_0000 % 0x100) as u8 && (a / 0x1_0000_0000_0000 % 0x100) as u8 == (b
        / 0x1_0000_0000_0000 % 0x100) as u8 && (a / 0x100_0000_0000_0000 % 0x100) as u8 == (b
        / 0x100_0000_0000_0000 % 0x100) as u8 ==> a == b) by (bit_vector);
}

impl Address {
    /// The bytes of an address have the length that goes with its addressing mode.
    pub proof fn lemma_wire_length(self)
        ensures
            self.wire_bytes().len() == address_length(self.address_mode()),
    {
    }

    /// An address is known by its bytes on the wire.
    pub proof fn lemma_wire_bytes_injective(self, other: Address)
        requires
            self.wire_bytes() == other.wire_bytes(),
        ensures
            self == other,
    {
        match (self, other) {
            (Address::Short(a), Address::Short(b)) => {
                lemma_le_bytes_u16_injective(a, b);
            },
            (Address::Long(a), Address::Long(b)) => {
                lemma_le_bytes_u64_injective(a, b);
            },
            _ => {
                self.lemma_wire_length();
                other.lemma_wire_length();
            },
        }
    }
}

impl Addresses {
    /// The addressing modes are `0b00`, `0b10` or `0b11`; within a PAN both addresses are
    /// present; and the address block has the length that goes with the modes.
    pub proof fn lemma_shape(self)
        ensures
            self.destination_mode() == 0 || self.destination_mode() == 0b10
                || self.destination_mode() == 0b11,
            self.source_mode() == 0 || self.source_mode() == 0b10 || self.source_mode() == 0b11,
            self.is_within_pan() ==> self.destination_mode() != 0 && self.source_mode() != 0,
            self.address_block().len() == address_block_length_for(
                self.is_within_pan(),
                self.destination_mode(),
                self.source_mode(),
            ),
    {
    }
}

impl Frame {
    /// Whether this frame is the one value that stands for its encoding: its frame type is
    /// canonical and its payload is well formed.
    pub open spec fn is_canonical(&self) -> bool {
        self.frame_type.is_canonical() && self.payload.wf()
    }

    /// The offset of the destination PAN ID in the encoding of this frame.
    pub open spec fn destination_pan_offset(&self) -> int {
        3int + address_bytes(self.addresses.destination_address()).len()
    }

    /// The offset of the source address in the encoding of this frame.
    pub open spec fn source_offset(&self) -> int {
        self.destination_pan_offset() + pan_id_bytes(self.addresses.destination_pan_id()).len()
    }

    /// The offset of the source PAN ID in the encoding of this frame.
    pub open spec fn source_pan_offset(&self) -> int {
        self.source_offset() + address_bytes(self.addresses.source_address()).len()
    }

    /// The offset of the payload in the encoding of this frame.
    pub open spec fn payload_offset(&self) -> int {
        self.source_pan_offset() + pan_id_bytes(self.addresses.source_pan_id()).len()
    }

    /// What each bit of the frame control field holds.
    pub proof fn lemma_control_fields(self)
        ensures
            self.control_low() < 128,
            self.control_low() % 8 == self.frame_type.as_byte(),
            self.control_low() / 8 % 2 == bit_of(self.security_enabled),
            self.control_low() / 16 % 2 == bit_of(self.frame_pending),
            self.control_low() / 32 % 2 == bit_of(self.acknowledgment_request),
            self.control_low() / 64 % 2 == bit_of(self.addresses.is_within_pan()),
            self.control_high() % 4 == 0,
            self.control_high() / 4 % 4 == self.addresses.destination_mode(),
            self.control_high() / 16 % 4 == 0,
            self.control_high() / 64 == self.addresses.source_mode(),
    {
        self.addresses.lemma_shape();
    }

    /// Where each field stands in the encoding of a frame.
    pub proof fn lemma_layout(self)
        ensures
            self.payload_offset() == 3 + self.addresses.address_block().len(),
            self.mpdu_bytes().len() == self.payload_offset() + self.payload@.len(),
            self.mpdu_bytes()[0] == self.control_low(),
            self.mpdu_bytes()[1] == self.control_high(),
            self.mpdu_bytes()[2] == self.sequence_number,
            self.mpdu_bytes().subrange(3, self.destination_pan_offset()) == address_bytes(
                self.addresses.destination_address(),
            ),
            self.mpdu_bytes().subrange(self.destination_pan_offset(), self.source_offset())
                == pan_id_bytes(self.addresses.destination_pan_id()),
            self.mpdu_bytes().subrange(self.source_offset(), self.source_pan_offset())
                == address_bytes(self.addresses.source_address()),
            self.mpdu_bytes().subrange(self.source_pan_offset(), self.payload_offset())
                == pan_id_bytes(self.addresses.source_pan_id()),
            self.mpdu_bytes().skip(self.payload_offset()) == self.payload@,
    {
        let bytes = self.mpdu_bytes();
        assert(bytes.subrange(3, self.destination_pan_offset()) =~= address_bytes(
            self.addresses.destination_address(),
        ));
        assert(bytes.subrange(self.destination_pan_offset(), self.source_offset())
            =~= pan_id_bytes(self.addresses.destination_pan_id()));
        assert(bytes.subrange(self.source_offset(), self.source_pan_offset()) =~= address_bytes(
            self.addresses.source_address(),
        ));
        assert(bytes.subrange(self.source_pan_offset(), self.payload_offset()) =~= pan_id_bytes(
            self.addresses.source_pan_id(),
        ));
        assert(bytes.skip(self.payload_offset()) =~= self.payload@);
    }

    /// Two frames with the same frame control field have the same flags, the same frame type
    /// code, the same addressing convention and the same addressing modes.
    pub proof fn lemma_control_known(self, other: Frame)
        requires
            self.control_low() == other.control_low(),
            self.control_high() == other.control_high(),
        ensures
            self.frame_type.as_byte() == other.frame_type.as_byte(),
            self.security_enabled == other.security_enabled,
            self.frame_pending == other.frame_pending,
            self.acknowledgment_request == other.acknowledgment_request,
            self.addresses.is_within_pan() == other.addresses.is_within_pan(),
            self.addresses.destination_mode() == other.addresses.destination_mode(),
            self.addresses.source_mode() == other.addresses.source_mode(),
    {
        self.lemma_control_fields();
        other.lemma_control_fields();
    }

    /// Two frames with the same addressing convention and modes have their fields at the
    /// same offsets.
    pub proof fn lemma_offsets_known(self, other: Frame)
        requires
            self.addresses.is_within_pan() == other.addresses.is_within_pan(),
            self.addresses.destination_mode() == other.addresses.destination_mode(),
            self.addresses.source_mode() == other.addresses.source_mode(),
        ensures
            self.destination_pan_offset() == other.destination_pan_offset(),
            self.source_offset() == other.source_offset(),
            self.source_pan_offset() == other.source_pan_offset(),
            self.payload_offset() == other.payload_offset(),
    {
    }

    /// A canonical frame is known by its encoding.
    pub proof fn lemma_mpdu_bytes_injective(self, other: Frame)
        requires
            self.is_canonical(),
            other.is_canonical(),
            self.mpdu_bytes() == other.mpdu_bytes(),
        ensures
            self == other,
    {
        self.lemma_layout();
        other.lemma_layout();
        self.lemma_control_known(other);
        self.lemma_offsets_known(other);
        self.frame_type.lemma_from_code_of_as_byte();
        other.frame_type.lemma_from_code_of_as_byte();
        lemma_addresses_known_by_parts(self.addresses, other.addresses);
        self.payload.lemma_equal_by_view(other.payload);
    }
}

/// Two sets of addresses of the same convention are the same if the addresses and PAN IDs
/// that they carry have the same bytes.
proof fn lemma_addresses_known_by_parts(a: Addresses, b: Addresses)
    requires
        a.is_within_pan() == b.is_within_pan(),
        address_bytes(a.destination_address()) == address_bytes(b.destination_address()),
        pan_id_bytes(a.destination_pan_id()) == pan_id_bytes(b.destination_pan_id()),
        address_bytes(a.source_address()) == address_bytes(b.source_address()),
        pan_id_bytes(a.source_pan_id()) == pan_id_bytes(b.source_pan_id()),
    ensures
        a == b,
{
    lemma_address_known_by_bytes(a.destination_address(), b.destination_address());
    lemma_address_known_by_bytes(a.source_address(), b.source_address());
    lemma_pan_id_known_by_bytes(a.destination_pan_id(), b.destination_pan_id());
    lemma_pan_id_known_by_bytes(a.source_pan_id(), b.source_pan_id());
}

/// An address that may be absent is known by the bytes that it contributes.
proof fn lemma_address_known_by_bytes(a: Option<Address>, b: Option<Address>)
    requires
        address_bytes(a) == address_bytes(b),
    ensures
        a == b,
{
    match (a, b) {
        (Some(x), Some(y)) => {
            x.lemma_wire_bytes_injective(y);
        },
        (Some(x), None) => {
            x.lemma_wire_length();
        },
        (None, Some(y)) => {
            y.lemma_wire_length();
        },
        (None, None) => {},
    }
}

/// A PAN ID that may be absent is known by the bytes that it contributes.
proof fn lemma_pan_id_known_by_bytes(a: Option<u16>, b: Option<u16>)
    requires
        pan_id_bytes(a) == pan_id_bytes(b),
    ensures
        a == b,
{
    match (a, b) {
        (Some(x), Some(y)) => {
            lemma_le_bytes_u16_injective(x, y);
        },
        (Some(x), None) => {
            assert(le_bytes_u16(x).len() == 2);
        },
        (None, Some(y)) => {
            assert(le_bytes_u16(y).len() == 2);
        },
        (None, None) => {},
    }
}

/// Whether `bytes` have the shape of an encoding: they hold a frame control field and a
/// sequence number; the bits of the frame control field that no frame sets are clear; no
/// addressing mode is the reserved `0b01`; both addresses are present if the PAN ID is
/// compressed; and after the address block that the frame control field announces there is
/// room for a payload, and no more than a payload.
pub open spec fn is_well_shaped(bytes: Seq<u8>) -> bool {
    let within_pan = bytes[0] / 64 % 2 == 1;
    let destination_mode = (bytes[1] / 4 % 4) as u8;
    let source_mode = (bytes[1] / 64) as u8;
    let header = 3 + address_block_length_for(within_pan, destination_mode, source_mode);
    &&& bytes.len() >= 3
    &&& bytes[0] < 128
    &&& bytes[1] % 4 == 0
    &&& bytes[1] / 16 % 4 == 0
    &&& destination_mode != 1
    &&& source_mode != 1
    &&& within_pan ==> destination_mode != 0 && source_mode != 0
    &&& header <= bytes.len() <= header + MAX_PAYLOAD_LENGTH
}

/// Every encoding of a canonical frame is well shaped.
pub proof fn lemma_encoding_shape(frame: Frame)
    requires
        frame.is_canonical(),
    ensures
        is_well_shaped(frame.mpdu_bytes()),
{
    frame.lemma_layout();
    frame.lemma_control_fields();
    frame.addresses.lemma_shape();
    frame.payload.lemma_length_bounded();
}

/// No canonical frame has an encoding that is not well shaped.
proof fn lemma_no_frame_for(bytes: Seq<u8>)
    requires
        !is_well_shaped(bytes),
    ensures
        forall|frame: Frame| frame.is_canonical() ==> #[trigger] frame.mpdu_bytes() != bytes,
{
    assert forall|frame: Frame| frame.is_canonical() implies #[trigger] frame.mpdu_bytes()
        != bytes by {
        lemma_encoding_shape(frame);
    }
}

/// Returns the 16-bit value whose two bytes, least significant first, stand at `index`
fn read_u16(bytes: &[u8], index: usize) -> (n: u16)
    requires
        index + 2 <= bytes@.len(),
    ensures
        le_bytes_u16(n) == bytes@.subrange(index as int, index + 2),
{
    let low: u16 = bytes[index] as u16;
    let high: u16 = bytes[index + 1] as u16;
    assert((low | (high << 8)) % 0x100 == low && (low | (high << 8)) / 0x100 == high)
        by (bit_vector)
        requires
            low < 0x100,
            high < 0x100,
    ;
    let n: u16 = low | (high << 8);
    assert(le_bytes_u16(n) =~= bytes@.subrange(index as int, index + 2));
    n
}

/// Returns the 64-bit value whose eight bytes, least significant first, stand at `index`
fn read_u64(bytes: &[u8], index: usize) -> (n: u64)
    requires
        index + 8 <= bytes@.len(),
    ensures
        le_bytes_u64(n) == bytes@.subrange(index as int, index + 8),
{
    let b0: u64 = bytes[index] as u64;
    let b1: u64 = bytes[index + 1] as u64;
    let b2: u64 = bytes[index + 2] as u64;
    let b3: u64 = bytes[index + 3] as u64;
    let b4: u64 = bytes[index + 4] as u64;
    let b5: u64 = bytes[index + 5] as u64;
    let b6: u64 = bytes[index + 6] as u64;
    let b7: u64 = bytes[index + 7] as u64;
    let n: u64 = b0 | (b1 << 8) | (b2 << 16) | (b3 << 24) | (b4 << 32) | (b5 << 40) | (b6 << 48) | (
    b7 << 56);
    assert(n % 0x100 == b0 && n / 0x100 % 0x100 == b1 && n / 0x1_0000 % 0x100 == b2 && n
        / 0x100_0000 % 0x100 == b3 && n / 0x1_0000_0000 % 0x100 == b4 && n / 0x100_0000_0000
        % 0x100 == b5 && n / 0x1_0000_0000_0000 % 0x100 == b6 && n / 0x100_0000_0000_0000 % 0x100
        == b7) by (bit_vector)
        requires
            n == b0 | (b1 << 8) | (b2 << 16) | (b3 << 24) | (b4 << 32) | (b5 << 40) | (b6 << 48) | (
            b7 << 56),
            b0 < 0x100,
            b1 < 0x100,
            b2 < 0x100,
            b3 < 0x100,
            b4 < 0x100,
            b5 < 0x100,
            b6 < 0x100,
            b7 < 0x100,
    ;
    assert(le_bytes_u64(n) =~= bytes@.subrange(index as int, index + 8));
    n
}

/// Returns the address of the given addressing mode whose bytes stand at `index`
fn read_address(bytes: &[u8], index: usize, mode: u8) -> (address: Address)
    requires
        mode == 0b10 || mode == 0b11,
        index + address_length(mode) <= bytes@.len(),
    ensures
        address.address_mode() == mode,
        address.wire_bytes() == bytes@.subrange(index as int, index + address_length(mode)),
{
    if mode == 0b10 {
        Address::Short(read_u16(bytes, index))
    } else {
        Address::Long(read_u64(bytes, index))
    }
}

/// The fields of a frame control field.
struct Control {
    frame_type: FrameType,
    security_enabled: bool,
    frame_pending: bool,
    acknowledgment_request: bool,
    within_pan: bool,
    destination_mode: u8,
    source_mode: u8,
}

/// Returns the fields of the two bytes of a frame control field
fn read_control(low: u8, high: u8) -> (control: Control)
    ensures
        control.frame_type == FrameType::from_code(low % 8),
        control.frame_type.is_canonical(),
        control.frame_type.as_byte() == low % 8,
        bit_of(control.security_enabled) == low / 8 % 2,
        bit_of(control.frame_pending) == low / 16 % 2,
        bit_of(control.acknowledgment_request) == low / 32 % 2,
        bit_of(control.within_pan) == low / 64 % 2,
        control.destination_mode == high / 4 % 4,
        control.source_mode == high / 64,
{
    assert(low & 0b111 == low % 8 && (low >> 3) & 1 == low / 8 % 2 && (low >> 4) & 1 == low / 16
        % 2 && (low >> 5) & 1 == low / 32 % 2 && (low >> 6) & 1 == low / 64 % 2) by (bit_vector);
    assert((high >> 2) & 0b11 == high / 4 % 4 && (high >> 6) & 0b11 == high / 64)
        by (bit_vector);
    Control {
        frame_type: FrameType::from_code(low & 0b111),
        security_enabled: (low >> 3) & 1 == 1,
        frame_pending: (low >> 4) & 1 == 1,
        acknowledgment_request: (low >> 5) & 1 == 1,
        within_pan: (low >> 6) & 1 == 1,
        destination_mode: (high >> 2) & 0b11,
        source_mode: (high >> 6) & 0b11,
    }
}

/// Returns the addresses whose address block stands in `bytes` after the frame control
/// field and the sequence number
fn read_addresses(bytes: &[u8], within_pan: bool, destination_mode: u8, source_mode: u8) -> (addresses:
    Addresses)
    requires
        destination_mode == 0 || destination_mode == 0b10 || destination_mode == 0b11,
        source_mode == 0 || source_mode == 0b10 || source_mode == 0b11,
        within_pan ==> destination_mode != 0 && source_mode != 0,
        3 + address_block_length_for(within_pan, destination_mode, source_mode) <= bytes@.len(),
    ensures
        addresses.is_within_pan() == within_pan,
        addresses.destination_mode() == destination_mode,
        addresses.source_mode() == source_mode,
        addresses.address_block() == bytes@.subrange(
            3,
            3int + address_block_length_for(within_pan, destination_mode, source_mode),
        ),
{
    let destination_length: usize = if destination_mode == 0 {
        0
    } else if destination_mode == 0b10 {
        4
    } else {
        10
    };
    let source_length: usize = if source_mode == 0 {
        0
    } else if source_mode == 0b10 {
        2
    } else {
        8
    };
    let source_offset: usize = 3 + destination_length;
    let destination: Option<FullAddress> = if destination_mode == 0 {
        None
    } else {
        let address = read_address(bytes, 3, destination_mode);
        let pan_id = read_u16(bytes, source_offset - 2);
        Some(FullAddress { address, pan_id })
    };
    let source: Option<FullAddress> = if source_mode == 0 {
        None
    } else {
        let address = read_address(bytes, source_offset, source_mode);
        let pan_id = if within_pan {
            0
        } else {
            read_u16(bytes, source_offset + source_length)
        };
        Some(FullAddress { address, pan_id })
    };
    let addresses = match (within_pan, source, destination) {
        (true, Some(source), Some(destination)) => Addresses::Local {
            source_address: source.address,
            destination,
        },
        _ => Addresses::Full { source, destination },
    };
    proof {
        let end = 3int + address_block_length_for(within_pan, destination_mode, source_mode);
        assert(addresses.address_block() =~= bytes@.subrange(3, end));
    }
    addresses
}

/// Returns the fields of the frame control field of `bytes` and the length of the header
/// that it announces, if `bytes` are well shaped
fn read_shape(bytes: &[u8]) -> (shape: Option<(Control, usize)>)
    ensures
        shape is Some <==> is_well_shaped(bytes@),
        shape is Some ==> ({
            let control = shape->Some_0.0;
            let low = bytes@[0];
            let high = bytes@[1];
            &&& control.frame_type.is_canonical()
            &&& control.frame_type.as_byte() == low % 8
            &&& bit_of(control.security_enabled) == low / 8 % 2
            &&& bit_of(control.frame_pending) == low / 16 % 2
            &&& bit_of(control.acknowledgment_request) == low / 32 % 2
            &&& bit_of(control.within_pan) == low / 64 % 2
            &&& control.destination_mode == high / 4 % 4
            &&& control.source_mode == high / 64
            &&& shape->Some_0.1 == 3 + address_block_length_for(
                control.within_pan,
                control.destination_mode,
                control.source_mode,
            )
        }),
{
    if bytes.len() < 3 {
        return None;
    }
    let low: u8 = bytes[0];
    let high: u8 = bytes[1];
    assert((low & 0x80 == 0 <==> low < 128) && (high & 0x33 == 0 <==> high % 4 == 0 && high / 16
        % 4 == 0)) by (bit_vector);
    if low & 0x80 != 0 || high & 0x33 != 0 {
        return None;
    }
    let control = read_control(low, high);
    if control.destination_mode == 1 || control.source_mode == 1 || (control.within_pan && (
    control.destination_mode == 0 || control.source_mode == 0)) {
        return None;
    }
    let destination_length: usize = if control.destination_mode == 0 {
        0
    } else if control.destination_mode == 0b10 {
        4
    } else {
        10
    };
    let source_length: usize = if control.source_mode == 0 {
        0
    } else if control.source_mode == 0b10 {
        2
    } else {
        8
    };
    let source_pan_length: usize = if control.source_mode == 0 || control.within_pan {
        0
    } else {
        2
    };
    let header_length: usize = 3 + destination_length + source_length + source_pan_length;
    if bytes.len() < header_length || bytes.len() - header_length > MAX_PAYLOAD_LENGTH {
        return None;
    }
    Some((control, header_length))
}

/// A frame built from the fields of a frame control field has that frame control field.
proof fn lemma_control_rebuilt(frame: Frame, low: u8, high: u8)
    requires
        low < 128,
        high % 4 == 0,
        high / 16 % 4 == 0,
        frame.frame_type.as_byte() == low % 8,
        bit_of(frame.security_enabled) == low / 8 % 2,
        bit_of(frame.frame_pending) == low / 16 % 2,
        bit_of(frame.acknowledgment_request) == low / 32 % 2,
        bit_of(frame.addresses.is_within_pan()) == low / 64 % 2,
        frame.addresses.destination_mode() == high / 4 % 4,
        frame.addresses.source_mode() == high / 64,
    ensures
        frame.control_low() == low,
        frame.control_high() == high,
{
}

/// A canonical frame is the only canonical frame with its encoding.
proof fn lemma_only_frame_for(frame: Frame)
    requires
        frame.is_canonical(),
    ensures
        forall|other: Frame|
            other.is_canonical() && #[trigger] other.mpdu_bytes() == frame.mpdu_bytes() ==> other
                == frame,
{
    assert forall|other: Frame|
        other.is_canonical() && #[trigger] other.mpdu_bytes() == frame.mpdu_bytes() implies other
        == frame by {
        other.lemma_mpdu_bytes_injective(frame);
    }
}

impl Frame {
    /// The canonical frame that `bytes` encode, or `Error::MalformedFrame` if they encode
    /// none.
    pub open spec fn spec_from_mpdu_bytes(bytes: Seq<u8>) -> Result<Frame, Error> {
        if exists|frame: Frame| frame.is_canonical() && #[trigger] frame.mpdu_bytes() == bytes {
            Ok(choose|frame: Frame| frame.is_canonical() && #[trigger] frame.mpdu_bytes() == bytes)
        } else {
            Err(Error::MalformedFrame)
        }
    }

    /// Decoding is the inverse of encoding: every canonical frame is read back from its
    /// encoding.
    pub proof fn lemma_decode_of_encode(self)
        requires
            self.is_canonical(),
        ensures
            Frame::spec_from_mpdu_bytes(self.mpdu_bytes()) == Ok::<Frame, Error>(self),
    {
        let found = choose|frame: Frame|
            frame.is_canonical() && #[trigger] frame.mpdu_bytes() == self.mpdu_bytes();
        found.lemma_mpdu_bytes_injective(self);
    }

    /// Returns the frame that `bytes` encode, or `Error::MalformedFrame` if they encode none.
    ///
    /// The bytes are a MAC protocol data unit without its frame check sequence: what
    /// `as_mpdu_bytes` writes. Which fields are present is read from the frame control
    /// field, as it is written there when a frame is encoded. The frame returned is
    /// canonical, and it is the only canonical frame with this encoding.
    pub fn from_mpdu_bytes(bytes: &[u8]) -> (result: Result<Frame, Error>)
        ensures
            result == Frame::spec_from_mpdu_bytes(bytes@),
            result is Ok ==> result->Ok_0.is_canonical() && result->Ok_0.mpdu_bytes() == bytes@,
            result is Err ==> result->Err_0 == Error::MalformedFrame,
            forall|frame: Frame|
                frame.is_canonical() && #[trigger] frame.mpdu_bytes() == bytes@ ==> result == Ok::<
                    Frame,
                    Error,
                >(frame),
    {
        let (control, header_length) = match read_shape(bytes) {
            Some(shape) => shape,
            None => {
                proof {
                    lemma_no_frame_for(bytes@);
                }
                return Err(Error::MalformedFrame);
            },
        };
        let addresses = read_addresses(
            bytes,
            control.within_pan,
            control.destination_mode,
            control.source_mode,
        );
        let rest = vstd::slice::slice_subrange(bytes, header_length, bytes.len());
        let payload = match Payload::from_slice(rest) {
            Ok(payload) => payload,
            Err(_) => {
                return Err(Error::MalformedFrame);
            },
        };
        let frame = Frame {
            frame_type: control.frame_type,
            security_enabled: control.security_enabled,
            frame_pending: control.frame_pending,
            acknowledgment_request: control.acknowledgment_request,
            sequence_number: bytes[2],
            addresses,
            payload,
        };
        proof {
            lemma_control_rebuilt(frame, bytes@[0], bytes@[1]);
            assert(frame.mpdu_bytes() =~= bytes@);
            lemma_only_frame_for(frame);
        }
        Ok(frame)
    }
}

} // verus!
