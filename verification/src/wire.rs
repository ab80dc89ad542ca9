//! Reading and writing signed 32-bit integers as little-endian wire bytes.

use vstd::prelude::*;

verus! {

use vstd::bytes::lemma_auto_spec_u32_to_from_le_bytes;
use vstd::bytes::spec_u32_from_le_bytes;
use vstd::bytes::spec_u32_to_le_bytes;
use vstd::bytes::u32_from_le_bytes;
use vstd::bytes::u32_to_le_bytes;
use vstd::slice::slice_subrange;

/// The signed value that a 32-bit wire word stands for (two's complement).
pub open spec fn as_signed(u: u32) -> int {
    if u < 0x8000_0000 {
        u as int
    } else {
        u as int - 0x1_0000_0000
    }
}

/// The 32-bit wire word that a signed value is stored as (two's complement).
pub open spec fn as_unsigned(v: i32) -> u32 {
    if v >= 0 {
        v as u32
    } else {
        (v + 0x1_0000_0000) as u32
    }
}

/// The signed 32-bit integer held by four little-endian bytes.
pub open spec fn wire_i32(b: Seq<u8>) -> int
    recommends
        b.len() == 4,
{
    as_signed(spec_u32_from_le_bytes(b))
}

/// The four little-endian bytes of a signed 32-bit integer.
pub open spec fn le_bytes_of_i32(v: i32) -> Seq<u8> {
    spec_u32_to_le_bytes(as_unsigned(v))
}

/// The two signed/unsigned reinterpretations invert each other.
pub proof fn lemma_as_signed_as_unsigned(v: i32)
    ensures
        as_signed(as_unsigned(v)) == v as int,
{
}

/// Law: writing a signed 32-bit integer as little-endian bytes and reading
/// them back yields the same integer.
pub proof fn lemma_le_bytes_of_i32(v: i32)
    ensures
        le_bytes_of_i32(v).len() == 4,
        wire_i32(le_bytes_of_i32(v)) == v as int,
{
    lemma_auto_spec_u32_to_from_le_bytes();
    assert(spec_u32_to_le_bytes(as_unsigned(v)).len() == 4);
    assert(spec_u32_from_le_bytes(spec_u32_to_le_bytes(as_unsigned(v))) == as_unsigned(v));
    lemma_as_signed_as_unsigned(v);
}

/// Reads the signed little-endian 32-bit integer stored at `offset`.
pub fn read_i32_le(buffer: &Vec<u8>, offset: usize) -> (r: i32)
    requires
        offset + 4 <= buffer@.len(),
    ensures
        r as int == wire_i32(buffer@.subrange(offset as int, offset as int + 4)),
{
    let n = buffer.len();
    assert(offset + 4 <= n);
    let chunk = slice_subrange(buffer.as_slice(), offset, offset + 4);
    let u = u32_from_le_bytes(chunk);
    if u < 0x8000_0000 {
        u as i32
    } else {
        let d = 0xFFFF_FFFFu32 - u;
        -(d as i32) - 1
    }
}

/// Appends the four little-endian bytes of `v` to `out`.
pub fn push_i32_le(out: &mut Vec<u8>, v: i32)
    ensures
        final(out)@ == old(out)@ + le_bytes_of_i32(v),
{
    let u: u32 = if v >= 0 {
        v as u32
    } else {
        let w = -(v + 1);
        0xFFFF_FFFFu32 - (w as u32)
    };
    let mut bytes = u32_to_le_bytes(u);
    out.append(&mut bytes);
}

} // verus!
