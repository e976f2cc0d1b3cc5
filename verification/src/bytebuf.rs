use vstd::prelude::*;

verus! {

/// `bytes::BytesMut` is the rolling byte buffer the codec reads from and
/// writes to.  Verus treats it as opaque; `byte_content` names the byte
/// sequence such a buffer holds, and the wrappers below state how each
/// operation of the `bytes` crate changes that sequence.
#[verifier::external_type_specification]
#[verifier::external_body]
pub struct ExBytesMut(bytes::BytesMut);

/// The sequence of bytes a `bytes::BytesMut` currently holds.
pub uninterp spec fn byte_content(b: bytes::BytesMut) -> Seq<u8>;

/// Relies on bytes::BytesMut::new: creates an empty buffer.
#[verifier::external_body]
pub(crate) fn buf_new() -> (r: bytes::BytesMut)
    ensures
        byte_content(r) == Seq::<u8>::empty(),
{
    bytes::BytesMut::new()
}

/// Relies on bytes::BytesMut::len: the number of bytes the buffer holds.
#[verifier::external_body]
pub(crate) fn buf_len(b: &bytes::BytesMut) -> (r: usize)
    ensures
        r == byte_content(*b).len(),
{
    b.len()
}

/// Relies on bytes::Buf::get_u8 for BytesMut: removes and returns the first
/// byte; panics on an empty buffer, which the precondition rules out.
#[verifier::external_body]
pub(crate) fn buf_get_u8(b: &mut bytes::BytesMut) -> (r: u8)
    requires
        byte_content(*old(b)).len() > 0,
    ensures
        r == byte_content(*old(b))[0],
        byte_content(*final(b)) == byte_content(*old(b)).skip(1),
{
    bytes::Buf::get_u8(b)
}

/// Relies on bytes::BufMut::put_u8 for BytesMut: appends one byte.  The
/// method panics only when the length would pass `isize::MAX`, which the
/// precondition rules out.
#[verifier::external_body]
pub(crate) fn buf_put_u8(b: &mut bytes::BytesMut, byte: u8)
    requires
        byte_content(*old(b)).len() + 1 <= usize::MAX / 2,
    ensures
        byte_content(*final(b)) == byte_content(*old(b)).push(byte),
{
    bytes::BufMut::put_u8(b, byte)
}

/// Relies on bytes::BytesMut::clear: empties the buffer.
#[verifier::external_body]
pub(crate) fn buf_clear(b: &mut bytes::BytesMut)
    ensures
        byte_content(*final(b)) == Seq::<u8>::empty(),
{
    b.clear()
}

/// Relies on bytes::BytesMut's AsRef<[u8]>: a view of all bytes held, copied
/// out into a plain vector.
#[verifier::external_body]
pub(crate) fn buf_to_vec(b: &bytes::BytesMut) -> (r: Vec<u8>)
    ensures
        r@ == byte_content(*b),
{
    b.as_ref().to_vec()
}

} // verus!
