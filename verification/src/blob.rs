//! The payload of a BLOB: a `bytes::Bytes` buffer, which the verifier sees
//! only through the sequence of bytes that it holds.

use vstd::prelude::*;
use bytes::Bytes;

verus! {

/// Makes `bytes::Bytes` known as a type whose inside is not looked into.
#[verifier::external_type_specification]
#[verifier::external_body]
pub struct ExBytes(Bytes);

/// The bytes that a buffer holds, first to last.
pub uninterp spec fn blob_bytes(b: Bytes) -> Seq<u8>;

/// Calls `Bytes::from` on a `Vec<u8>`: the buffer takes the vector over and
/// holds its bytes in the same order.
#[verifier::external_body]
pub(crate) fn blob_from_vec(v: Vec<u8>) -> (b: Bytes)
    ensures
        blob_bytes(b) == v@,
{
    Bytes::from(v)
}

/// Calls `to_vec` on the slice that a `Bytes` dereferences to: a fresh
/// vector with the buffer's bytes in the same order.
#[verifier::external_body]
pub(crate) fn blob_to_vec(b: &Bytes) -> (v: Vec<u8>)
    ensures
        v@ == blob_bytes(*b),
{
    b.to_vec()
}

} // verus!
