//! The byte buffers through which a gauge connection passes its frames.
//!
//! The buffers are `bytes::BytesMut` values. Nothing here is proved: each
//! function states what the buffer type is documented to do, over the bytes
//! that the buffer holds.
use vstd::prelude::*;

verus! {

#[verifier::external_type_specification]
#[verifier::external_body]
pub struct ExBytesMut(bytes::BytesMut);

/// The bytes that a buffer holds, the oldest first.
pub uninterp spec fn buffered(buf: bytes::BytesMut) -> Seq<u8>;

/// `BytesMut::len`. Claimed: the result is the number of bytes held.
#[verifier::external_body]
pub(crate) fn buffer_len(buf: &bytes::BytesMut) -> (n: usize)
    ensures
        n == buffered(*buf).len(),
{
    buf.len()
}

/// Indexing a `BytesMut` through its `Deref` to a byte slice. Claimed: the
/// result is the byte held at position `at`. The index must be in bounds,
/// where the slice would panic otherwise.
#[verifier::external_body]
pub(crate) fn buffer_byte(buf: &bytes::BytesMut, at: usize) -> (b: u8)
    requires
        at < buffered(*buf).len(),
    ensures
        b == buffered(*buf)[at as int],
{
    buf[at]
}

/// `BytesMut::split_to`, with the part split off copied into a vector.
/// Claimed: the result holds the first `at` bytes, and the buffer keeps the
/// bytes from `at` on. `at` must not exceed the length, where `split_to`
/// would panic otherwise.
#[verifier::external_body]
pub(crate) fn buffer_split_to(buf: &mut bytes::BytesMut, at: usize) -> (head: Vec<u8>)
    requires
        at <= buffered(*old(buf)).len(),
    ensures
        head@ == buffered(*old(buf)).subrange(0, at as int),
        buffered(*final(buf)) == buffered(*old(buf)).subrange(
            at as int,
            buffered(*old(buf)).len() as int,
        ),
{
    buf.split_to(at).to_vec()
}

/// `BytesMut::extend_from_slice`. Claimed: the given bytes are appended to
/// what the buffer holds. The combined length must fit in `usize`, where the
/// buffer's growth would panic otherwise.
#[verifier::external_body]
pub(crate) fn buffer_extend(buf: &mut bytes::BytesMut, item: &[u8])
    requires
        buffered(*old(buf)).len() + item@.len() <= usize::MAX,
    ensures
        buffered(*final(buf)) == buffered(*old(buf)) + item@,
{
    buf.extend_from_slice(item)
}

} // verus!
