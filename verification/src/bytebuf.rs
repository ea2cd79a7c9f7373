//! Trusted boundary to `bytes::BytesMut`, the growable byte accumulator that
//! the codec parses from and serializes into. Each wrapper states, over the
//! buffer's contents, what one `bytes` operation does; nothing else in the
//! crate touches the outside buffer directly.

use vstd::prelude::*;
use bytes::{Buf, BufMut, BytesMut};
use crate::frame::be_bytes_of;

verus! {

/// `bytes::BytesMut`, declared so verified code can hold and pass one.
#[verifier::external_type_specification]
#[verifier::external_body]
pub struct ExBytesMut(BytesMut);

/// The bytes a `BytesMut` currently holds, in order.
pub uninterp spec fn buf_bytes(b: BytesMut) -> Seq<u8>;

/// Relies on `BytesMut::new`: a buffer holding no bytes.
#[verifier::external_body]
pub fn buf_new() -> (b: BytesMut)
    ensures
        buf_bytes(b) == Seq::<u8>::empty(),
{
    BytesMut::new()
}

/// Relies on `BytesMut::len`: the number of bytes the buffer holds.
#[verifier::external_body]
pub fn buf_len(b: &BytesMut) -> (n: usize)
    ensures
        n == buf_bytes(*b).len(),
{
    b.len()
}

/// Relies on the `Deref<Target = [u8]>` impl of `BytesMut`: the byte at one
/// position.
#[verifier::external_body]
pub fn buf_get(b: &BytesMut, i: usize) -> (v: u8)
    requires
        i < buf_bytes(*b).len(),
    ensures
        v == buf_bytes(*b)[i as int],
{
    b[i]
}

/// Relies on `bytes::BufMut::put_u32` on `BytesMut`: appends a 32-bit
/// integer in big-endian byte order. `BytesMut` can grow to `isize::MAX`
/// bytes, no further.
#[verifier::external_body]
pub fn buf_put_u32(b: &mut BytesMut, v: u32)
    requires
        buf_bytes(*old(b)).len() + 4 <= isize::MAX,
    ensures
        buf_bytes(*final(b)) == buf_bytes(*old(b)) + be_bytes_of(v),
{
    b.put_u32(v)
}

/// Relies on `bytes::BufMut::put_u8` on `BytesMut`: appends one byte.
#[verifier::external_body]
pub fn buf_put_u8(b: &mut BytesMut, v: u8)
    requires
        buf_bytes(*old(b)).len() + 1 <= isize::MAX,
    ensures
        buf_bytes(*final(b)) == buf_bytes(*old(b)).push(v),
{
    b.put_u8(v)
}

/// Relies on `bytes::BufMut::put_slice` on `BytesMut`: appends a slice of
/// bytes verbatim.
#[verifier::external_body]
pub fn buf_put_slice(b: &mut BytesMut, s: &[u8])
    requires
        buf_bytes(*old(b)).len() + s@.len() <= isize::MAX,
    ensures
        buf_bytes(*final(b)) == buf_bytes(*old(b)) + s@,
{
    b.put_slice(s)
}

/// Relies on `bytes::Buf::advance` on `BytesMut`: discards a consumed
/// prefix; the rest of the buffer moves to the front.
#[verifier::external_body]
pub fn buf_advance(b: &mut BytesMut, cnt: usize)
    requires
        cnt <= buf_bytes(*old(b)).len(),
    ensures
        buf_bytes(*final(b)) == buf_bytes(*old(b)).skip(cnt as int),
{
    b.advance(cnt)
}

/// Relies on `BytesMut::reserve`: grows the capacity; the contents stay.
#[verifier::external_body]
pub fn buf_reserve(b: &mut BytesMut, additional: usize)
    requires
        buf_bytes(*old(b)).len() + additional <= isize::MAX,
    ensures
        buf_bytes(*final(b)) == buf_bytes(*old(b)),
{
    b.reserve(additional)
}

} // verus!
