//! Little-endian field primitives over byte buffers.
//!
//! Every multi-byte field in the capture container, the network envelope,
//! the transport header and the market-data messages is little-endian.
//! The spec functions here name the value of such a field at a given byte
//! offset; the exec functions read it and are proved to return exactly that
//! value.

use vstd::prelude::*;
use vstd::bytes::{
    spec_u16_from_le_bytes, spec_u32_from_le_bytes, spec_u64_from_le_bytes, u16_from_le_bytes,
    u32_from_le_bytes, u64_from_le_bytes,
};
use vstd::slice::{slice_subrange, slice_to_vec};

verus! {

/// The little-endian `u16` held in the two bytes of `s` at offset `off`.
pub open spec fn le16_at(s: Seq<u8>, off: int) -> u16 {
    spec_u16_from_le_bytes(s.subrange(off, off + 2))
}

/// The little-endian `u32` held in the four bytes of `s` at offset `off`.
pub open spec fn le32_at(s: Seq<u8>, off: int) -> u32 {
    spec_u32_from_le_bytes(s.subrange(off, off + 4))
}

/// The little-endian `u64` held in the eight bytes of `s` at offset `off`.
pub open spec fn le64_at(s: Seq<u8>, off: int) -> u64 {
    spec_u64_from_le_bytes(s.subrange(off, off + 8))
}

/// The little-endian `i64` held in the eight bytes of `s` at offset `off`:
/// the `u64` value reinterpreted as a signed integer.
pub open spec fn le64_signed_at(s: Seq<u8>, off: int) -> i64 {
    le64_at(s, off) as i64
}

pub fn read_u16_at(b: &[u8], off: usize) -> (r: u16)
    requires
        off + 2 <= b@.len(),
    ensures
        r == le16_at(b@, off as int),
{
    let _n: usize = b.len();
    u16_from_le_bytes(slice_subrange(b, off, off + 2))
}

pub fn read_u32_at(b: &[u8], off: usize) -> (r: u32)
    requires
        off + 4 <= b@.len(),
    ensures
        r == le32_at(b@, off as int),
{
    let _n: usize = b.len();
    u32_from_le_bytes(slice_subrange(b, off, off + 4))
}

pub fn read_u64_at(b: &[u8], off: usize) -> (r: u64)
    requires
        off + 8 <= b@.len(),
    ensures
        r == le64_at(b@, off as int),
{
    let _n: usize = b.len();
    u64_from_le_bytes(slice_subrange(b, off, off + 8))
}

pub fn read_i64_at(b: &[u8], off: usize) -> (r: i64)
    requires
        off + 8 <= b@.len(),
    ensures
        r == le64_signed_at(b@, off as int),
{
    read_u64_at(b, off) as i64
}

/// Copy the `len` bytes of `b` that start at `start`.
pub fn copy_range(b: &[u8], start: usize, len: usize) -> (r: Vec<u8>)
    requires
        start + len <= b@.len(),
    ensures
        r@ == b@.subrange(start as int, start + len),
{
    let _n: usize = b.len();
    slice_to_vec(slice_subrange(b, start, start + len))
}

} // verus!
