//! Byte chunks as they arrive from the transport.

use vstd::prelude::*;

verus! {

/// `bytes::Bytes`, taken as it is: a chunk is known only by the bytes it
/// holds.
#[verifier::external_type_specification]
#[verifier::external_body]
pub struct ExBytes(bytes::Bytes);

/// The bytes that a chunk holds, in order.
pub uninterp spec fn chunk_bytes(chunk: bytes::Bytes) -> Seq<u8>;

/// Borrows the contents of a chunk (`Bytes` as `AsRef<[u8]>`): the slice holds
/// exactly the chunk's bytes, and the chunk is left as it was.
#[verifier::external_body]
pub(crate) fn chunk_slice(chunk: &bytes::Bytes) -> (slice: &[u8])
    ensures
        slice@ == chunk_bytes(*chunk),
{
    chunk.as_ref()
}

} // verus!
