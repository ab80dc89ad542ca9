//! The packet entity: construction, decoding from bytes, encoding to bytes.

use vstd::prelude::*;

verus! {

use crate::errors::BufferParseError;
use crate::wire::le_bytes_of_i32;
use crate::wire::lemma_le_bytes_of_i32;
use crate::wire::push_i32_le;
use crate::wire::read_i32_le;
use crate::wire::wire_i32;
use vstd::slice::slice_subrange;
use vstd::slice::slice_to_vec;
use vstd::string::StrSliceExecFns;

/// A decoded packet: the declared payload size, a caller-assigned correlation
/// id, a semantic kind, and the payload bytes.
#[derive(Clone, Debug)]
pub struct Packet {
    pub size: i32,
    pub id: i32,
    pub packet_type: PacketType,
    pub body: Vec<u8>,
}

/// The semantic kind of a packet.
///
/// The wire mapping is asymmetric: `AuthResponse` and `ExecCommand` both
/// encode to code 2, and code 2 always decodes to `AuthResponse`, so no
/// buffer ever decodes to `ExecCommand`. This is a quirk of the modeled
/// protocol, kept on purpose.
#[derive(Clone, Copy, Debug, PartialEq, Eq, Structural)]
pub enum PacketType {
    Auth,
    AuthResponse,
    ExecCommand,
    ResponseValue,
}

/// The wire code a packet type encodes to.
pub open spec fn outbound_code(t: PacketType) -> i32 {
    match t {
        PacketType::Auth => 3,
        PacketType::AuthResponse => 2,
        PacketType::ExecCommand => 2,
        PacketType::ResponseValue => 0,
    }
}

/// The packet type an inbound wire code decodes to; `None` outside {0, 2, 3}.
pub open spec fn inbound_type(code: int) -> Option<PacketType> {
    if code == 3 {
        Some(PacketType::Auth)
    } else if code == 2 {
        Some(PacketType::AuthResponse)
    } else if code == 0 {
        Some(PacketType::ResponseValue)
    } else {
        None
    }
}

/// The byte a character contributes to a text-built body: its code point
/// truncated to the lowest 8 bits. Lossy for any code point above 255.
pub open spec fn byte_of_char(c: char) -> u8 {
    (c as u32 % 256) as u8
}

/// The frame a packet encodes to: little-endian `size`, `id` and type code,
/// then the body, then two zero padding bytes.
pub open spec fn spec_encode(p: Packet) -> Seq<u8> {
    le_bytes_of_i32(p.size) + le_bytes_of_i32(p.id) + le_bytes_of_i32(outbound_code(p.packet_type))
        + p.body@ + seq![0u8, 0u8]
}

/// The declared size held by a buffer's first four bytes.
pub open spec fn wire_size(b: Seq<u8>) -> int {
    wire_i32(b.subrange(0, 4))
}

/// The id held by a buffer's bytes 4 to 8.
pub open spec fn wire_id(b: Seq<u8>) -> int {
    wire_i32(b.subrange(4, 8))
}

/// The raw type code held by a buffer's bytes 8 to 12.
pub open spec fn wire_code(b: Seq<u8>) -> int {
    wire_i32(b.subrange(8, 12))
}

/// The body a buffer declares: bytes 12 up to `size + 2`, leaving the two
/// trailing padding bytes out.
pub open spec fn wire_body(b: Seq<u8>) -> Seq<u8> {
    b.subrange(12, wire_size(b) + 2)
}

/// When a buffer decodes successfully: it holds the size field, the declared
/// frame fits, the declared size covers the 10 header-and-padding bytes that
/// follow it, and the type code has an inbound mapping.
pub open spec fn decode_ok(b: Seq<u8>) -> bool {
    &&& b.len() >= 4
    &&& 10 <= wire_size(b)
    &&& wire_size(b) + 4 <= b.len()
    &&& inbound_type(wire_code(b)) is Some
}

/// Description of the error raised when the buffer cannot hold a size field.
pub open spec fn msg_size_unreadable() -> Seq<char> {
    "Failed to obtain packet size. Packet is smaller than 4 bytes"@
}

/// Description of the error raised when the buffer is shorter than the
/// declared frame, or the declared size is negative.
pub open spec fn msg_buffer_short() -> Seq<char> {
    "Buffer size is lower than the packet size"@
}

/// Description of the error raised when the type code has no inbound mapping,
/// or the declared size cannot cover the header and padding.
pub open spec fn msg_invalid_type() -> Seq<char> {
    "Invalid packet type"@
}

/// The description of the error a failing decode returns.
pub open spec fn decode_err_msg(b: Seq<u8>) -> Seq<char> {
    if b.len() < 4 {
        msg_size_unreadable()
    } else if wire_size(b) < 0 || b.len() < wire_size(b) + 4 {
        msg_buffer_short()
    } else {
        msg_invalid_type()
    }
}

impl Packet {
    /// Builds a packet with `size = 10 + body.len()` and the default id 1.
    pub fn new(packet_type: PacketType, body: Vec<u8>) -> (r: Packet)
        requires
            body@.len() + 10 <= i32::MAX,
        ensures
            r.size as int == 10 + body@.len(),
            r.id == 1,
            r.packet_type == packet_type,
            r.body@ == body@,
    {
        let size: i32 = 10 + (body.len() as i32);
        Packet { size, id: 1, packet_type, body }
    }

    /// Builds a packet whose body is the text reinterpreted as raw bytes, one
    /// byte per character, each code point truncated to its lowest 8 bits;
    /// the type defaults to `ExecCommand` and the id to 1. Callers should
    /// only hand it text whose characters all fit in one byte.
    pub fn from_text(text: &str) -> (r: Packet)
        requires
            text@.len() + 10 <= i32::MAX,
        ensures
            r.size as int == 10 + text@.len(),
            r.id == 1,
            r.packet_type == PacketType::ExecCommand,
            r.body@.len() == text@.len(),
            forall|i: int| 0 <= i < text@.len() ==> r.body@[i] == byte_of_char(text@[i]),
    {
        let n = text.unicode_len();
        let mut body: Vec<u8> = Vec::new();
        let mut i: usize = 0;
        while i < n
            invariant
                n == text@.len(),
                i <= n,
                n + 10 <= i32::MAX,
                body@.len() == i,
                forall|j: int| 0 <= j < i ==> body@[j] == byte_of_char(text@[j]),
            decreases n - i,
        {
            let c = text.get_char(i);
            body.push(((c as u32) % 256) as u8);
            i = i + 1;
        }
        let size: i32 = 10 + (body.len() as i32);
        Packet { size, id: 1, packet_type: PacketType::ExecCommand, body }
    }

    /// Decodes a raw byte buffer of untrusted origin into a packet, or
    /// returns a descriptive error; it never panics, however malformed the
    /// input. The wire-supplied `size` is kept as decoded.
    pub fn decode(buffer: &Vec<u8>) -> (r: Result<Packet, BufferParseError>)
        ensures
            r is Ok <==> decode_ok(buffer@),
            r matches Ok(p) ==> {
                &&& p.size as int == wire_size(buffer@)
                &&& p.id as int == wire_id(buffer@)
                &&& Some(p.packet_type) == inbound_type(wire_code(buffer@))
                &&& p.body@ == wire_body(buffer@)
            },
            r matches Err(e) ==> e.description@ == decode_err_msg(buffer@),
    {
        if buffer.len() < 4 {
            return Err(
                BufferParseError::new("Failed to obtain packet size. Packet is smaller than 4 bytes"),
            );
        }
        let size = read_i32_le(buffer, 0);
        if size < 0 || buffer.len() < (size as usize) + 4 {
            return Err(BufferParseError::new("Buffer size is lower than the packet size"));
        }
        if size < 10 {
            // The declared size cannot cover the id, type and padding that
            // follow it; slicing the body would underflow. Rejected with the
            // invalid-type class of error.
            return Err(BufferParseError::new("Invalid packet type"));
        }
        let id = read_i32_le(buffer, 4);
        let code = read_i32_le(buffer, 8);
        let packet_type = match code {
            3 => PacketType::Auth,
            2 => PacketType::AuthResponse,
            0 => PacketType::ResponseValue,
            _ => {
                return Err(BufferParseError::new("Invalid packet type"));
            },
        };
        let end = (size as usize) + 2;
        let body = slice_to_vec(slice_subrange(buffer.as_slice(), 12, end));
        Ok(Packet { size, id, packet_type, body })
    }

    /// Encodes the packet to its wire frame: the stored `size`, the id, the
    /// outbound type code, the body, and two zero padding bytes. Total, never
    /// fails.
    pub fn encode(self) -> (r: Vec<u8>)
        ensures
            r@ == spec_encode(self),
    {
        let ghost g = self;
        let mut buffer: Vec<u8> = Vec::new();
        push_i32_le(&mut buffer, self.size);
        push_i32_le(&mut buffer, self.id);
        let code: i32 = match self.packet_type {
            PacketType::Auth => 3,
            PacketType::AuthResponse => 2,
            PacketType::ExecCommand => 2,
            PacketType::ResponseValue => 0,
        };
        push_i32_le(&mut buffer, code);
        let mut body = self.body;
        buffer.append(&mut body);
        buffer.push(0);
        buffer.push(0);
        proof {
            assert(buffer@ =~= spec_encode(g));
        }
        buffer
    }
}

impl Default for Packet {
    /// The default packet: empty body, `size = 10`, id 1, `ExecCommand`.
    fn default() -> (r: Self)
        ensures
            r.size == 10,
            r.id == 1,
            r.packet_type == PacketType::ExecCommand,
            r.body@ == Seq::<u8>::empty(),
    {
        Packet { size: 10, id: 1, packet_type: PacketType::ExecCommand, body: Vec::new() }
    }
}

/// Law: every packet encodes to a frame of `14 + body.len()` bytes, whatever
/// its stored `size` field holds.
pub proof fn lemma_encode_frame_len(p: Packet)
    ensures
        spec_encode(p).len() == 14 + p.body@.len(),
{
    lemma_le_bytes_of_i32(p.size);
    lemma_le_bytes_of_i32(p.id);
    lemma_le_bytes_of_i32(outbound_code(p.packet_type));
}

/// Law: no inbound wire code maps to `ExecCommand`; a decoded packet never
/// has that type.
pub proof fn lemma_no_inbound_exec_command(code: int)
    ensures
        inbound_type(code) != Some(PacketType::ExecCommand),
{
}

/// Law: a freshly constructed packet (one whose stored `size` is
/// `10 + body.len()`) encodes to a frame of `size + 4` bytes, and the first
/// four frame bytes hold that same `size` as a little-endian signed 32-bit
/// integer.
pub proof fn lemma_encode_length(p: Packet)
    requires
        p.size as int == 10 + p.body@.len(),
    ensures
        spec_encode(p).len() == 14 + p.body@.len(),
        wire_size(spec_encode(p)) == 10 + p.body@.len(),
{
    lemma_le_bytes_of_i32(p.size);
    lemma_le_bytes_of_i32(p.id);
    lemma_le_bytes_of_i32(outbound_code(p.packet_type));
    assert(spec_encode(p).subrange(0, 4) =~= le_bytes_of_i32(p.size));
}

/// Law: a freshly constructed packet whose type is `Auth` or `ResponseValue`
/// round-trips: its frame decodes successfully, and the decoded size, id,
/// type and body equal the packet's own. Not claimed for `AuthResponse` or
/// `ExecCommand`, whose shared outbound code 2 always decodes to
/// `AuthResponse`.
pub proof fn lemma_round_trip(p: Packet)
    requires
        p.size as int == 10 + p.body@.len(),
        p.packet_type == PacketType::Auth || p.packet_type == PacketType::ResponseValue,
    ensures
        decode_ok(spec_encode(p)),
        wire_size(spec_encode(p)) == p.size as int,
        wire_id(spec_encode(p)) == p.id as int,
        inbound_type(wire_code(spec_encode(p))) == Some(p.packet_type),
        wire_body(spec_encode(p)) == p.body@,
{
    let e = spec_encode(p);
    lemma_le_bytes_of_i32(p.size);
    lemma_le_bytes_of_i32(p.id);
    lemma_le_bytes_of_i32(outbound_code(p.packet_type));
    assert(e.subrange(0, 4) =~= le_bytes_of_i32(p.size));
    assert(e.subrange(4, 8) =~= le_bytes_of_i32(p.id));
    assert(e.subrange(8, 12) =~= le_bytes_of_i32(outbound_code(p.packet_type)));
    assert(wire_body(e) =~= p.body@);
}

} // verus!
