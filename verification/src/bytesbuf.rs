use vstd::prelude::*;

use bytes::BytesMut;

verus! {

#[verifier::external_type_specification]
#[verifier::external_body]
pub struct ExBytesMut(BytesMut);

/// The bytes held by a `bytes::BytesMut`, in order.
pub uninterp spec fn byte_contents(b: BytesMut) -> Seq<u8>;

/// Relies on `bytes::BytesMut::new`: creates a buffer that holds no bytes.
#[verifier::external_body]
pub(crate) fn bytes_new() -> (r: BytesMut)
    ensures
        byte_contents(r) == Seq::<u8>::empty(),
{
    BytesMut::new()
}

/// Relies on `bytes::BytesMut::len`: the number of bytes held.
#[verifier::external_body]
pub(crate) fn bytes_len(b: &BytesMut) -> (r: usize)
    ensures
        r == byte_contents(*b).len(),
{
    b.len()
}

/// Relies on `bytes::BytesMut`'s `AsRef<[u8]>` impl: a read-only view of the
/// bytes held.
#[verifier::external_body]
pub(crate) fn bytes_slice(b: &BytesMut) -> (r: &[u8])
    ensures
        r@ == byte_contents(*b),
{
    b.as_ref()
}

/// Relies on `bytes::BytesMut::split_to`: removes the first `at` bytes from
/// the buffer and returns them. `split_to` panics when `at` exceeds the
/// length, so that case is excluded here.
#[verifier::external_body]
pub(crate) fn bytes_split_to(b: &mut BytesMut, at: usize) -> (r: BytesMut)
    requires
        at <= byte_contents(*old(b)).len(),
    ensures
        byte_contents(r) == byte_contents(*old(b)).take(at as int),
        byte_contents(*final(b)) == byte_contents(*old(b)).skip(at as int),
{
    b.split_to(at)
}

/// Relies on `bytes::BytesMut::extend_from_slice`: appends the slice's bytes
/// at the end of the buffer.
#[verifier::external_body]
pub(crate) fn bytes_extend(b: &mut BytesMut, data: &[u8])
    ensures
        byte_contents(*final(b)) == byte_contents(*old(b)) + data@,
{
    b.extend_from_slice(data)
}

} // verus!
