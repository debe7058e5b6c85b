//! The byte buffer in which the content of a form field is gathered.

use vstd::prelude::*;
use bytes::{BufMut, BytesMut};

verus! {

/// `bytes::BytesMut`, a growable buffer of bytes.
#[verifier::external_type_specification]
#[verifier::external_body]
pub struct ExBytesMut(BytesMut);

/// The bytes that a buffer holds, first written first.
pub uninterp spec fn buffered(buffer: BytesMut) -> Seq<u8>;

/// `BytesMut::with_capacity`: a buffer that holds nothing yet.
#[verifier::external_body]
pub(crate) fn buffer_with_capacity(capacity: usize) -> (buffer: BytesMut)
    ensures
        buffered(buffer) == Seq::<u8>::empty(),
{
    BytesMut::with_capacity(capacity)
}

/// `BufMut::put` on a `BytesMut`, given a slice: the slice's bytes are added behind what
/// the buffer holds. The buffer grows as needed, but not beyond `isize::MAX` bytes.
#[verifier::external_body]
pub(crate) fn buffer_put(buffer: &mut BytesMut, chunk: &[u8])
    requires
        buffered(*old(buffer)).len() + chunk@.len() <= isize::MAX,
    ensures
        buffered(*final(buffer)) == buffered(*old(buffer)) + chunk@,
{
    buffer.put(chunk)
}

/// The `Deref` of `BytesMut`: the bytes that the buffer holds, as a slice.
#[verifier::external_body]
pub(crate) fn buffer_slice(buffer: &BytesMut) -> (bytes: &[u8])
    ensures
        bytes@ == buffered(*buffer),
{
    buffer
}

} // verus!
