//! The growable byte buffer that frames travel in, as the `bytes` crate
//! provides it, with what this library relies on of its methods.

use vstd::prelude::*;
use bytes::{Buf, BufMut, BytesMut};

verus! {

#[verifier::external_type_specification]
#[verifier::external_body]
pub struct ExBytesMut(bytes::BytesMut);

/// The bytes that a `BytesMut` holds, first to last.
pub uninterp spec fn buffer_bytes(b: BytesMut) -> Seq<u8>;

/// `BytesMut::new`: an empty buffer.
#[verifier::external_body]
pub(crate) fn buffer_new() -> (b: BytesMut)
    ensures
        buffer_bytes(b) == Seq::<u8>::empty(),
{
    BytesMut::new()
}

/// `BytesMut::from(&[u8])`: a buffer holding a copy of the slice.
#[verifier::external_body]
pub(crate) fn buffer_from_slice(s: &[u8]) -> (b: BytesMut)
    ensures
        buffer_bytes(b) == s@,
{
    BytesMut::from(s)
}

/// `BytesMut::len`: the number of bytes held.
#[verifier::external_body]
pub(crate) fn buffer_len(b: &BytesMut) -> (n: usize)
    ensures
        n == buffer_bytes(*b).len(),
{
    b.len()
}

/// Indexing through `Deref<Target = [u8]>`: the byte at position `i`.
#[verifier::external_body]
pub(crate) fn buffer_byte(b: &BytesMut, i: usize) -> (v: u8)
    requires
        i < buffer_bytes(*b).len(),
    ensures
        v == buffer_bytes(*b)[i as int],
{
    b[i]
}

/// `<[u8]>::to_vec` through `Deref`: a vector copy of the bytes held.
#[verifier::external_body]
pub(crate) fn buffer_to_vec(b: &BytesMut) -> (v: Vec<u8>)
    ensures
        v@ == buffer_bytes(*b),
{
    b.to_vec()
}

/// `Buf::advance` on `BytesMut`: drops the first `cnt` bytes (it panics when
/// `cnt` exceeds the length, which `requires` rules out).
#[verifier::external_body]
pub(crate) fn buffer_advance(b: &mut BytesMut, cnt: usize)
    requires
        cnt <= buffer_bytes(*old(b)).len(),
    ensures
        buffer_bytes(*final(b)) == buffer_bytes(*old(b)).skip(cnt as int),
{
    b.advance(cnt)
}

/// `Buf::get_u8` on `BytesMut`: removes and returns the first byte (it panics
/// on an empty buffer, which `requires` rules out).
#[verifier::external_body]
pub(crate) fn buffer_get_u8(b: &mut BytesMut) -> (v: u8)
    requires
        buffer_bytes(*old(b)).len() > 0,
    ensures
        v == buffer_bytes(*old(b))[0],
        buffer_bytes(*final(b)) == buffer_bytes(*old(b)).skip(1),
{
    b.get_u8()
}

/// `BytesMut::split_to`: the first `at` bytes move to the returned buffer and
/// the rest stay (it panics when `at` exceeds the length).
#[verifier::external_body]
pub(crate) fn buffer_split_to(b: &mut BytesMut, at: usize) -> (front: BytesMut)
    requires
        at <= buffer_bytes(*old(b)).len(),
    ensures
        buffer_bytes(front) == buffer_bytes(*old(b)).take(at as int),
        buffer_bytes(*final(b)) == buffer_bytes(*old(b)).skip(at as int),
{
    b.split_to(at)
}

/// `BytesMut::reserve`: makes room for `additional` more bytes and leaves the
/// bytes held as they were (it panics when the new capacity overflows).
#[verifier::external_body]
pub(crate) fn buffer_reserve(b: &mut BytesMut, additional: usize)
    requires
        buffer_bytes(*old(b)).len() + additional <= isize::MAX,
    ensures
        buffer_bytes(*final(b)) == buffer_bytes(*old(b)),
{
    b.reserve(additional)
}

/// `BytesMut::extend_from_slice`: appends a copy of the slice.
#[verifier::external_body]
pub(crate) fn buffer_extend_from_slice(b: &mut BytesMut, s: &[u8])
    requires
        buffer_bytes(*old(b)).len() + s@.len() <= isize::MAX,
    ensures
        buffer_bytes(*final(b)) == buffer_bytes(*old(b)) + s@,
{
    b.extend_from_slice(s)
}

/// `BufMut::put_u8` on `BytesMut`: appends one byte.
#[verifier::external_body]
pub(crate) fn buffer_put_u8(b: &mut BytesMut, v: u8)
    requires
        buffer_bytes(*old(b)).len() + 1 <= isize::MAX,
    ensures
        buffer_bytes(*final(b)) == buffer_bytes(*old(b)).push(v),
{
    b.put_u8(v)
}

} // verus!
