//! Wire codec: the packed header and the packet built on it.

use vstd::prelude::*;
use vstd::slice::{slice_subrange, slice_to_vec};
use vstd::string::StringSliceAdditionalSpecFns;
use vstd::utf8::{decode_utf8, valid_utf8};

verus! {

/// Version written into every header this crate produces.
pub const PROTOCOL_VERSION: u8 = 1;

/// Message kind of a standard message.
pub const PACKET_TYPE_MESSAGE: u8 = 1;

/// Number of bytes of an encoded header.
pub const HEADER_LEN: usize = 6;

/// Urgency of a packet; selects the behaviour that handles it.
#[derive(Debug, Clone, Copy, PartialEq, Eq, Structural)]
pub enum Urgency {
    /// Routine traffic.
    Green,
    /// Time-sensitive traffic.
    Yellow,
    /// Traffic that needs immediate action.
    Red,
}

impl Urgency {
    /// The two-bit code of this urgency on the wire.
    pub open spec fn code(self) -> u8 {
        match self {
            Urgency::Green => 0,
            Urgency::Yellow => 1,
            Urgency::Red => 2,
        }
    }

    /// The urgency that a code decodes to; codes outside 0..=2 fall back to `Green`.
    pub open spec fn from_code(v: u8) -> Urgency {
        if v == 1 {
            Urgency::Yellow
        } else if v == 2 {
            Urgency::Red
        } else {
            Urgency::Green
        }
    }

    pub open spec fn label(self) -> Seq<char> {
        match self {
            Urgency::Green => "NORMAL"@,
            Urgency::Yellow => "ELEVATED"@,
            Urgency::Red => "CRITICAL"@,
        }
    }

    pub fn to_code(&self) -> (r: u8)
        ensures
            r == self.code(),
    {
        match self {
            Urgency::Green => 0,
            Urgency::Yellow => 1,
            Urgency::Red => 2,
        }
    }

    /// Name of the urgency in inspection output.
    pub fn as_str(&self) -> (r: &'static str)
        ensures
            r@ == self.label(),
    {
        proof {
            reveal_strlit("NORMAL");
            reveal_strlit("ELEVATED");
            reveal_strlit("CRITICAL");
        }
        match self {
            Urgency::Green => "NORMAL",
            Urgency::Yellow => "ELEVATED",
            Urgency::Red => "CRITICAL",
        }
    }
}

impl From<u8> for Urgency {
    fn from(value: u8) -> (r: Urgency)
        ensures
            r == Urgency::from_code(value),
    {
        if value == 1 {
            Urgency::Yellow
        } else if value == 2 {
            Urgency::Red
        } else {
            Urgency::Green
        }
    }
}

impl vstd::std_specs::convert::FromSpecImpl<u8> for Urgency {
    open spec fn obeys_from_spec() -> bool {
        true
    }

    open spec fn from_spec(v: u8) -> Urgency {
        Urgency::from_code(v)
    }
}

/// Packed header: version and kind share byte 0 (low and high nibble),
/// the urgency takes the low two bits of byte 1 (the other six are reserved
/// and zero), and bytes 2..6 hold the payload length, big-endian.
#[derive(Debug, Clone, Copy, PartialEq, Eq, Structural)]
pub struct PacketHeader {
    pub version: u8,
    pub packet_type: u8,
    pub urgency: Urgency,
    pub length: u32,
}

/// The four bytes of `n`, most significant first.
pub open spec fn be_bytes(n: u32) -> Seq<u8> {
    seq![(n >> 24u32) as u8, (n >> 16u32) as u8, (n >> 8u32) as u8, n as u8]
}

/// The integer whose big-endian bytes are `b0 b1 b2 b3`.
pub open spec fn be_value(b0: u8, b1: u8, b2: u8, b3: u8) -> u32 {
    ((b0 as u32) << 24u32) | ((b1 as u32) << 16u32) | ((b2 as u32) << 8u32) | (b3 as u32)
}

impl PacketHeader {
    /// A header whose nibbles survive encoding.
    pub open spec fn wf(self) -> bool {
        self.version < 16 && self.packet_type < 16
    }

    /// The six bytes that encode this header.
    pub open spec fn encoding(self) -> Seq<u8> {
        seq![
            (self.version & 0x0f) | ((self.packet_type & 0x0f) << 4u8),
            self.urgency.code() & 0x03,
        ] + be_bytes(self.length)
    }

    /// The header that six bytes decode to; every six bytes decode.
    pub open spec fn decoding(b: Seq<u8>) -> PacketHeader
        recommends
            b.len() == 6,
    {
        PacketHeader {
            version: b[0] & 0x0f,
            packet_type: (b[0] >> 4u8) & 0x0f,
            urgency: Urgency::from_code(b[1] & 0x03),
            length: be_value(b[2], b[3], b[4], b[5]),
        }
    }

    pub open spec fn spec_new(urgency: Urgency, length: u32) -> PacketHeader {
        PacketHeader { version: PROTOCOL_VERSION, packet_type: PACKET_TYPE_MESSAGE, urgency, length }
    }

    /// Create a header of the current version for a standard message.
    pub fn new(urgency: Urgency, length: u32) -> (r: Self)
        ensures
            r == PacketHeader::spec_new(urgency, length),
            r.wf(),
    {
        PacketHeader { version: PROTOCOL_VERSION, packet_type: PACKET_TYPE_MESSAGE, urgency, length }
    }

    /// Encode into the six wire bytes.
    pub fn to_bytes(&self) -> (r: [u8; 6])
        ensures
            r@ == self.encoding(),
    {
        let byte0 = (self.version & 0x0f) | ((self.packet_type & 0x0f) << 4u8);
        let byte1 = self.urgency.to_code() & 0x03;
        let n = self.length;
        let r = [byte0, byte1, (n >> 24u32) as u8, (n >> 16u32) as u8, (n >> 8u32) as u8, n as u8];
        assert(r@ =~= self.encoding());
        r
    }

    /// Decode six wire bytes; never fails.
    pub fn from_bytes(bytes: &[u8; 6]) -> (r: Self)
        ensures
            r == PacketHeader::decoding(bytes@),
            r.wf(),
    {
        let b0 = bytes[0];
        let version = b0 & 0x0f;
        let packet_type = (b0 >> 4u8) & 0x0f;
        let urgency = Urgency::from(bytes[1] & 0x03);
        let length = ((bytes[2] as u32) << 24u32) | ((bytes[3] as u32) << 16u32) | ((bytes[4] as u32) << 8u32)
            | (bytes[5] as u32);
        assert(version < 16 && packet_type < 16) by (bit_vector)
            requires
                version == b0 & 0x0f,
                packet_type == (b0 >> 4u8) & 0x0f,
        ;
        PacketHeader { version, packet_type, urgency, length }
    }
}

/// Decoding the encoding of a header gives the header back, as long as its
/// version and kind fit their nibbles.
pub proof fn lemma_header_round_trip(h: PacketHeader)
    requires
        h.wf(),
    ensures
        PacketHeader::decoding(h.encoding()) == h,
{
    let v = h.version;
    let k = h.packet_type;
    let c = h.urgency.code();
    let n = h.length;
    assert(((v & 0x0f) | ((k & 0x0f) << 4u8)) & 0x0f == v && ((((v & 0x0f) | ((k & 0x0f) << 4u8)) >> 4u8)
        & 0x0f) == k) by (bit_vector)
        requires
            v < 16,
            k < 16,
    ;
    assert(c <= 2 ==> c & 0x03 & 0x03 == c) by (bit_vector);
    assert(be_value((n >> 24u32) as u8, (n >> 16u32) as u8, (n >> 8u32) as u8, n as u8) == n) by (bit_vector);
}

/// A header followed by its payload. Packets built by [`Packet::new`] or
/// decoded by [`Packet::from_bytes`] satisfy [`Packet::wf`].
#[derive(Debug, Clone, PartialEq, Eq)]
pub struct Packet {
    pub header: PacketHeader,
    pub payload: Vec<u8>,
}

/// Why a buffer or a frame could not become a packet.
#[derive(Debug, Clone, PartialEq, Eq)]
pub enum ProtocolError {
    /// The buffer is shorter than the packet it announces.
    InsufficientData { expected: u64, actual: u64 },
    /// The input cannot be described by a header.
    InvalidFormat(String),
}

/// Bytes a buffer must hold to carry a whole packet: the header alone while
/// fewer than six bytes are there, else the header and the payload it announces.
pub open spec fn needed_len(b: Seq<u8>) -> int {
    if b.len() < HEADER_LEN {
        HEADER_LEN as int
    } else {
        HEADER_LEN + PacketHeader::decoding(b.subrange(0, HEADER_LEN as int)).length
    }
}

/// Text of `b` with each invalid sequence replaced by U+FFFD.
pub uninterp spec fn lossy_text(b: Seq<u8>) -> Seq<char>;

/// Relies on `std::str::Utf8Error`, carried opaquely.
#[verifier::external_type_specification]
#[verifier::external_body]
pub struct ExUtf8Error(core::str::Utf8Error);

/// Relies on `std::str::from_utf8`: `Ok` exactly when the bytes are valid
/// UTF-8, and then the text they encode.
#[verifier::external_body]
fn strict_text(b: &[u8]) -> (r: Result<&str, core::str::Utf8Error>)
    ensures
        r is Ok <==> valid_utf8(b@),
        r is Ok ==> r->Ok_0@ == decode_utf8(b@),
{
    core::str::from_utf8(b)
}

/// Relies on `String::from_utf8_lossy`: valid UTF-8 is decoded unchanged.
#[verifier::external_body]
fn lossy_string(b: &[u8]) -> (r: String)
    ensures
        r@ == lossy_text(b@),
        valid_utf8(b@) ==> r@ == decode_utf8(b@),
{
    String::from_utf8_lossy(b).into_owned()
}

impl Packet {
    pub open spec fn wf(&self) -> bool {
        self.header.wf() && self.header.length == self.payload@.len()
    }

    /// The wire bytes of this packet.
    pub open spec fn encoding(&self) -> Seq<u8> {
        self.header.encoding() + self.payload@
    }

    /// A packet of the current version whose payload is the UTF-8 of `message`.
    pub fn new(message: &str, urgency: Urgency) -> (r: Self)
        requires
            message.spec_bytes().len() <= u32::MAX,
        ensures
            r.wf(),
            r.header == PacketHeader::spec_new(urgency, message.spec_bytes().len() as u32),
            r.payload@ == message.spec_bytes(),
    {
        let payload = slice_to_vec(message.as_bytes());
        let header = PacketHeader::new(urgency, payload.len() as u32);
        Packet { header, payload }
    }

    /// A `Green` packet.
    pub fn green(message: &str) -> (r: Self)
        requires
            message.spec_bytes().len() <= u32::MAX,
        ensures
            r.wf(),
            r.header == PacketHeader::spec_new(Urgency::Green, message.spec_bytes().len() as u32),
            r.payload@ == message.spec_bytes(),
    {
        Packet::new(message, Urgency::Green)
    }

    /// A `Yellow` packet.
    pub fn yellow(message: &str) -> (r: Self)
        requires
            message.spec_bytes().len() <= u32::MAX,
        ensures
            r.wf(),
            r.header == PacketHeader::spec_new(Urgency::Yellow, message.spec_bytes().len() as u32),
            r.payload@ == message.spec_bytes(),
    {
        Packet::new(message, Urgency::Yellow)
    }

    /// A `Red` packet.
    pub fn red(message: &str) -> (r: Self)
        requires
            message.spec_bytes().len() <= u32::MAX,
        ensures
            r.wf(),
            r.header == PacketHeader::spec_new(Urgency::Red, message.spec_bytes().len() as u32),
            r.payload@ == message.spec_bytes(),
    {
        Packet::new(message, Urgency::Red)
    }

    /// The payload as text; fails when it is not valid UTF-8.
    pub fn payload_str(&self) -> (r: Result<&str, core::str::Utf8Error>)
        ensures
            r is Ok <==> valid_utf8(self.payload@),
            r is Ok ==> r->Ok_0@ == decode_utf8(self.payload@),
    {
        strict_text(self.payload.as_slice())
    }

    /// The payload as text, invalid sequences replaced; never fails.
    pub fn payload_string_lossy(&self) -> (r: String)
        ensures
            r@ == lossy_text(self.payload@),
            valid_utf8(self.payload@) ==> r@ == decode_utf8(self.payload@),
    {
        lossy_string(self.payload.as_slice())
    }

    /// Encode header and payload, back to back.
    pub fn to_bytes(&self) -> (r: Vec<u8>)
        ensures
            r@ == self.encoding(),
    {
        let head = self.header.to_bytes();
        let mut bytes: Vec<u8> = Vec::with_capacity(self.payload.len().saturating_add(HEADER_LEN));
        let mut i: usize = 0;
        while i < HEADER_LEN
            invariant
                i <= HEADER_LEN,
                head@ == self.header.encoding(),
                bytes@ == head@.subrange(0, i as int),
            decreases HEADER_LEN - i,
        {
            bytes.push(head[i]);
            i = i + 1;
        }
        let mut j: usize = 0;
        while j < self.payload.len()
            invariant
                j <= self.payload@.len(),
                bytes@ == head@ + self.payload@.subrange(0, j as int),
            decreases self.payload@.len() - j,
        {
            bytes.push(self.payload[j]);
            j = j + 1;
        }
        assert(bytes@ =~= self.encoding());
        bytes
    }

    /// Decode one packet from the front of `bytes`; bytes after it are ignored.
    pub fn from_bytes(bytes: &[u8]) -> (r: Result<Self, ProtocolError>)
        ensures
            r is Ok <==> bytes@.len() >= needed_len(bytes@),
            r is Err ==> r == Err::<Packet, ProtocolError>(
                ProtocolError::InsufficientData {
                    expected: needed_len(bytes@) as u64,
                    actual: bytes@.len() as u64,
                },
            ),
            r is Ok ==> {
                &&& r->Ok_0.wf()
                &&& r->Ok_0.header == PacketHeader::decoding(bytes@.subrange(0, HEADER_LEN as int))
                &&& r->Ok_0.payload@ == bytes@.subrange(HEADER_LEN as int, needed_len(bytes@))
            },
    {
        if bytes.len() < HEADER_LEN {
            return Err(ProtocolError::InsufficientData { expected: HEADER_LEN as u64, actual: bytes.len() as u64 });
        }
        let head: [u8; 6] = [bytes[0], bytes[1], bytes[2], bytes[3], bytes[4], bytes[5]];
        assert(head@ =~= bytes@.subrange(0, HEADER_LEN as int));
        let header = PacketHeader::from_bytes(&head);
        let expected: u64 = HEADER_LEN as u64 + header.length as u64;
        if (bytes.len() as u64) < expected {
            return Err(ProtocolError::InsufficientData { expected, actual: bytes.len() as u64 });
        }
        let payload = slice_to_vec(slice_subrange(bytes, HEADER_LEN, expected as usize));
        Ok(Packet { header, payload })
    }
}

/// Decoding the encoding of a well-formed packet, of any urgency and any
/// payload length, gives back its header and its payload, and reads exactly
/// the bytes that were written.
pub proof fn lemma_packet_round_trip(p: Packet)
    requires
        p.wf(),
    ensures
        needed_len(p.encoding()) == p.encoding().len(),
        PacketHeader::decoding(p.encoding().subrange(0, HEADER_LEN as int)) == p.header,
        p.encoding().subrange(HEADER_LEN as int, needed_len(p.encoding())) == p.payload@,
{
    let b = p.encoding();
    assert(b.subrange(0, HEADER_LEN as int) =~= p.header.encoding());
    lemma_header_round_trip(p.header);
    assert(b.subrange(HEADER_LEN as int, b.len() as int) =~= p.payload@);
}

/// The reserved code 3 decodes to `Green`.
pub proof fn lemma_reserved_code_is_green(b: Seq<u8>)
    requires
        b.len() == HEADER_LEN,
        b[1] & 0x03 == 3,
    ensures
        PacketHeader::decoding(b).urgency == Urgency::Green,
{
}

} // verus!
