//! Trusted boundary to the `bytes` crate: `BytesMut` is the byte buffer the
//! element codec writes into and reads from. Each wrapper states, over the
//! buffer's byte sequence `bytes_view`, what the `bytes` documentation
//! promises of the call: `put_*` appends big-endian bytes, `get_*` consumes
//! them from the front.
use vstd::prelude::*;
use bytes::{Buf, BufMut, BytesMut};
use crate::codec::{be_bytes, from_be};

verus! {

#[verifier::external_type_specification]
#[verifier::external_body]
pub struct ExBytesMut(BytesMut);

/// The bytes a `BytesMut` currently holds, front first.
pub uninterp spec fn bytes_view(b: BytesMut) -> Seq<u8>;

/// Relies on `BytesMut::with_capacity`: a new, empty buffer.
#[verifier::external_body]
pub fn bm_with_capacity(capacity: usize) -> (r: BytesMut)
    ensures
        bytes_view(r) == Seq::<u8>::empty(),
{
    BytesMut::with_capacity(capacity)
}

/// Relies on `BytesMut::len`: the number of bytes held.
#[verifier::external_body]
pub fn bm_len(b: &BytesMut) -> (r: usize)
    ensures
        r == bytes_view(*b).len(),
{
    b.len()
}

/// Relies on `BufMut::put_u8`: appends one byte.
#[verifier::external_body]
pub fn bm_put_u8(b: &mut BytesMut, v: u8)
    ensures
        bytes_view(*final(b)) == bytes_view(*old(b)).push(v),
{
    b.put_u8(v)
}

/// Relies on `BufMut::put_u16`: appends 2 bytes, big-endian.
#[verifier::external_body]
pub fn bm_put_u16(b: &mut BytesMut, v: u16)
    ensures
        bytes_view(*final(b)) == bytes_view(*old(b)) + be_bytes(v as int, 2),
{
    b.put_u16(v)
}

/// Relies on `BufMut::put_u32`: appends 4 bytes, big-endian.
#[verifier::external_body]
pub fn bm_put_u32(b: &mut BytesMut, v: u32)
    ensures
        bytes_view(*final(b)) == bytes_view(*old(b)) + be_bytes(v as int, 4),
{
    b.put_u32(v)
}

/// Relies on `BufMut::put_u64`: appends 8 bytes, big-endian.
#[verifier::external_body]
pub fn bm_put_u64(b: &mut BytesMut, v: u64)
    ensures
        bytes_view(*final(b)) == bytes_view(*old(b)) + be_bytes(v as int, 8),
{
    b.put_u64(v)
}

/// Relies on `BufMut::put_slice`: appends the slice's bytes.
#[verifier::external_body]
pub fn bm_put_slice(b: &mut BytesMut, s: &[u8])
    ensures
        bytes_view(*final(b)) == bytes_view(*old(b)) + s@,
{
    b.put_slice(s)
}

/// Relies on `Buf::get_u8` for `BytesMut`: consumes and returns the first
/// byte; panics when empty, so that case is excluded.
#[verifier::external_body]
pub fn bm_get_u8(b: &mut BytesMut) -> (r: u8)
    requires
        bytes_view(*old(b)).len() >= 1,
    ensures
        r == bytes_view(*old(b))[0],
        bytes_view(*final(b)) == bytes_view(*old(b)).skip(1),
{
    b.get_u8()
}

/// Relies on `Buf::get_u16`: consumes the first 2 bytes and returns them
/// read big-endian; panics when fewer remain, so that case is excluded.
#[verifier::external_body]
pub fn bm_get_u16(b: &mut BytesMut) -> (r: u16)
    requires
        bytes_view(*old(b)).len() >= 2,
    ensures
        r as int == from_be(bytes_view(*old(b)).take(2)),
        bytes_view(*final(b)) == bytes_view(*old(b)).skip(2),
{
    b.get_u16()
}

/// Relies on `Buf::get_u32`: consumes the first 4 bytes and returns them
/// read big-endian; panics when fewer remain, so that case is excluded.
#[verifier::external_body]
pub fn bm_get_u32(b: &mut BytesMut) -> (r: u32)
    requires
        bytes_view(*old(b)).len() >= 4,
    ensures
        r as int == from_be(bytes_view(*old(b)).take(4)),
        bytes_view(*final(b)) == bytes_view(*old(b)).skip(4),
{
    b.get_u32()
}

/// Relies on `Buf::get_u64`: consumes the first 8 bytes and returns them
/// read big-endian; panics when fewer remain, so that case is excluded.
#[verifier::external_body]
pub fn bm_get_u64(b: &mut BytesMut) -> (r: u64)
    requires
        bytes_view(*old(b)).len() >= 8,
    ensures
        r as int == from_be(bytes_view(*old(b)).take(8)),
        bytes_view(*final(b)) == bytes_view(*old(b)).skip(8),
{
    b.get_u64()
}

/// Relies on `BytesMut::split_to`: splits off and returns the first `at`
/// bytes; panics when `at` exceeds the length, so that case is excluded.
#[verifier::external_body]
pub fn bm_split_to(b: &mut BytesMut, at: usize) -> (r: BytesMut)
    requires
        at <= bytes_view(*old(b)).len(),
    ensures
        bytes_view(r) == bytes_view(*old(b)).take(at as int),
        bytes_view(*final(b)) == bytes_view(*old(b)).skip(at as int),
{
    b.split_to(at)
}

/// Relies on `BytesMut`'s `AsRef<[u8]>`: the bytes held, as a slice.
#[verifier::external_body]
pub fn bm_as_slice(b: &BytesMut) -> (r: &[u8])
    ensures
        r@ == bytes_view(*b),
{
    b.as_ref()
}

/// Relies on `BytesMut`'s `Deref` to `[u8]`: reads the first byte without
/// consuming it; indexing an empty buffer panics, so that case is excluded.
#[verifier::external_body]
pub fn bm_first(b: &BytesMut) -> (r: u8)
    requires
        bytes_view(*b).len() >= 1,
    ensures
        r == bytes_view(*b)[0],
{
    b[0]
}

} // verus!
