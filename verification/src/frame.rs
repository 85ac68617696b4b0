//! In-flight frames: the immutable byte buffers that the transfer loop
//! broadcasts.  A frame read once from a source is shared, not copied, by
//! every delivery fanned out from it.

use vstd::prelude::*;

verus! {

#[verifier::external_type_specification]
#[verifier::external_body]
pub struct ExBytes(bytes::Bytes);

/// The bytes that a `bytes::Bytes` buffer holds.
pub uninterp spec fn frame_bytes(b: bytes::Bytes) -> Seq<u8>;

/// Relies on `<bytes::Bytes as Clone>::clone`: the clone holds the same
/// bytes, shared by reference count rather than copied.
#[verifier::external_body]
pub(crate) fn frame_clone(b: &bytes::Bytes) -> (r: bytes::Bytes)
    ensures
        frame_bytes(r) == frame_bytes(*b),
{
    b.clone()
}

} // verus!
