//! Little-endian integer fields at byte offsets of a buffer.

use vstd::prelude::*;
use byteorder::ByteOrder;
use byteorder::LittleEndian;

verus! {

/// The unsigned value of the two bytes at `at`, least significant first.
pub open spec fn le_u16(b: Seq<u8>, at: int) -> int {
    b[at] as int + 256 * (b[at + 1] as int)
}

/// The unsigned value of the four bytes at `at`, least significant first.
pub open spec fn le_u32(b: Seq<u8>, at: int) -> int {
    le_u16(b, at) + 65536 * le_u16(b, at + 2)
}

/// The unsigned value of the eight bytes at `at`, least significant first.
pub open spec fn le_u64(b: Seq<u8>, at: int) -> int {
    le_u32(b, at) + 4294967296 * le_u32(b, at + 4)
}

/// Relies on byteorder's `LittleEndian::read_u16`: the first two bytes, least
/// significant first (it panics on fewer than two).
#[verifier::external_body]
fn decode_u16(b: &[u8]) -> (r: u16)
    requires
        b@.len() >= 2,
    ensures
        r as int == le_u16(b@, 0),
{
    LittleEndian::read_u16(b)
}

/// Relies on byteorder's `LittleEndian::read_u32`: the first four bytes, least
/// significant first (it panics on fewer than four).
#[verifier::external_body]
fn decode_u32(b: &[u8]) -> (r: u32)
    requires
        b@.len() >= 4,
    ensures
        r as int == le_u32(b@, 0),
{
    LittleEndian::read_u32(b)
}

/// Relies on byteorder's `LittleEndian::read_u64`: the first eight bytes, least
/// significant first (it panics on fewer than eight).
#[verifier::external_body]
fn decode_u64(b: &[u8]) -> (r: u64)
    requires
        b@.len() >= 8,
    ensures
        r as int == le_u64(b@, 0),
{
    LittleEndian::read_u64(b)
}

/// The 16-bit field at offset `pos`, or `None` where the buffer ends first.
pub fn u16_at(data: &[u8], pos: u64) -> (r: Option<u16>)
    ensures
        r is Some <==> pos + 2 <= data@.len(),
        r matches Some(v) ==> v as int == le_u16(data@, pos as int),
{
    let len = data.len() as u64;
    if pos > len || len - pos < 2 {
        return None;
    }
    let p = pos as usize;
    let field = vstd::slice::slice_subrange(data, p, p + 2);
    Some(decode_u16(field))
}

/// The 32-bit field at offset `pos`, or `None` where the buffer ends first.
pub fn u32_at(data: &[u8], pos: u64) -> (r: Option<u32>)
    ensures
        r is Some <==> pos + 4 <= data@.len(),
        r matches Some(v) ==> v as int == le_u32(data@, pos as int),
{
    let len = data.len() as u64;
    if pos > len || len - pos < 4 {
        return None;
    }
    let p = pos as usize;
    let field = vstd::slice::slice_subrange(data, p, p + 4);
    Some(decode_u32(field))
}

/// The 64-bit field at offset `pos`, or `None` where the buffer ends first.
pub fn u64_at(data: &[u8], pos: u64) -> (r: Option<u64>)
    ensures
        r is Some <==> pos + 8 <= data@.len(),
        r matches Some(v) ==> v as int == le_u64(data@, pos as int),
{
    let len = data.len() as u64;
    if pos > len || len - pos < 8 {
        return None;
    }
    let p = pos as usize;
    let field = vstd::slice::slice_subrange(data, p, p + 8);
    Some(decode_u64(field))
}

} // verus!
