//! The byte buffer that frames are decoded from and commands are encoded
//! into: `bytes::BytesMut`, a growable, exclusively-owned byte container.
//!
//! The buffer is opaque to the verifier. `buf_bytes` names the byte
//! sequence a buffer holds, and each operation the codec needs is a small
//! trusted wrapper whose contract states, over `buf_bytes`, what the
//! `bytes` crate documents for that operation.

use bytes::BytesMut;
use vstd::prelude::*;

verus! {

#[verifier::external_type_specification]
#[verifier::external_body]
pub struct ExBytesMut(BytesMut);

/// The bytes currently held by a buffer, in order.
pub uninterp spec fn buf_bytes(b: BytesMut) -> Seq<u8>;

/// Relies on `BytesMut::new`: creates a buffer holding no bytes.
#[verifier::external_body]
pub(crate) fn buf_new() -> (b: BytesMut)
    ensures
        buf_bytes(b) == Seq::<u8>::empty(),
{
    BytesMut::new()
}

/// Relies on `BytesMut::len`: the number of bytes held.
#[verifier::external_body]
pub(crate) fn buf_len(b: &BytesMut) -> (n: usize)
    ensures
        n == buf_bytes(*b).len(),
{
    b.len()
}

/// Relies on `BytesMut::as_ref`: a view of exactly the bytes held.
#[verifier::external_body]
pub(crate) fn buf_contents(b: &BytesMut) -> (v: Vec<u8>)
    ensures
        v@ == buf_bytes(*b),
{
    b.as_ref().to_vec()
}

/// Relies on `BytesMut::extend_from_slice`: appends the slice, growing
/// the buffer as needed.
#[verifier::external_body]
pub(crate) fn buf_extend(b: &mut BytesMut, s: &[u8])
    ensures
        buf_bytes(*final(b)) == buf_bytes(*old(b)) + s@,
{
    b.extend_from_slice(s);
}

/// Relies on `BytesMut::advance`: drops the first `cnt` bytes and keeps
/// the rest. It panics when `cnt` exceeds the length, so that case is
/// excluded here.
#[verifier::external_body]
pub(crate) fn buf_advance(b: &mut BytesMut, cnt: usize)
    requires
        cnt <= buf_bytes(*old(b)).len(),
    ensures
        buf_bytes(*final(b)) == buf_bytes(*old(b)).skip(cnt as int),
{
    b.advance(cnt);
}

/// Relies on `BytesMut::reserve`: ensures capacity for `additional` more
/// bytes without changing the bytes held.
#[verifier::external_body]
pub(crate) fn buf_reserve(b: &mut BytesMut, additional: usize)
    ensures
        buf_bytes(*final(b)) == buf_bytes(*old(b)),
{
    b.reserve(additional);
}

} // verus!
