//! Shared byte buffers: `bytes::Bytes` and `bytes::BytesMut`, seen as sequences
//! of bytes.

use bytes::{Bytes, BytesMut};
use vstd::prelude::*;

verus! {

/// Declares `bytes::Bytes`, an immutable buffer that is cheap to clone.
#[verifier::external_type_specification]
#[verifier::external_body]
pub struct ExBytes(bytes::Bytes);

/// Declares `bytes::BytesMut`, a growable buffer that can be frozen.
#[verifier::external_type_specification]
#[verifier::external_body]
pub struct ExBytesMut(bytes::BytesMut);

/// The bytes that a `Bytes` holds.
pub uninterp spec fn bytes_of(b: bytes::Bytes) -> Seq<u8>;

/// The bytes that a `BytesMut` holds.
pub uninterp spec fn bytes_mut_of(b: bytes::BytesMut) -> Seq<u8>;

/// The bytes of an optional buffer.
pub open spec fn opt_bytes(b: Option<Bytes>) -> Option<Seq<u8>> {
    match b {
        Some(x) => Some(bytes_of(x)),
        None => None,
    }
}

/// `bytes::Bytes::new` makes an empty buffer.
pub assume_specification[ bytes::Bytes::new ]() -> (b: bytes::Bytes)
    ensures
        bytes_of(b) == Seq::<u8>::empty(),
;

/// `bytes::Bytes::copy_from_slice` makes a buffer that holds the slice's bytes.
pub assume_specification[ bytes::Bytes::copy_from_slice ](data: &[u8]) -> (b: bytes::Bytes)
    ensures
        bytes_of(b) == data@,
;

/// `Clone::clone` on a `bytes::Bytes` gives a buffer with the same bytes.
pub assume_specification[ <bytes::Bytes as Clone>::clone ](b: &bytes::Bytes) -> (r: bytes::Bytes)
    ensures
        bytes_of(r) == bytes_of(*b),
;

/// `bytes::Bytes::from(Vec<u8>)` takes over the vector's bytes.
#[verifier::external_body]
pub(crate) fn from_vec(v: Vec<u8>) -> (b: Bytes)
    ensures
        bytes_of(b) == v@,
{
    Bytes::from(v)
}

/// `AsRef::<[u8]>::as_ref` on a `bytes::Bytes` lends its bytes.
#[verifier::external_body]
pub(crate) fn as_slice(b: &Bytes) -> (s: &[u8])
    ensures
        s@ == bytes_of(*b),
{
    b.as_ref()
}

/// `bytes::BytesMut::new` makes an empty buffer.
pub assume_specification[ bytes::BytesMut::new ]() -> (b: bytes::BytesMut)
    ensures
        bytes_mut_of(b) == Seq::<u8>::empty(),
;

/// `bytes::BytesMut::extend_from_slice` appends the slice's bytes.
pub assume_specification[ bytes::BytesMut::extend_from_slice ](b: &mut bytes::BytesMut, extend: &[u8])
    ensures
        bytes_mut_of(*final(b)) == bytes_mut_of(*old(b)) + extend@,
;

/// `bytes::BytesMut::freeze` turns the buffer into a `Bytes` with the same bytes.
pub assume_specification[ bytes::BytesMut::freeze ](b: bytes::BytesMut) -> (r: bytes::Bytes)
    ensures
        bytes_of(r) == bytes_mut_of(b),
;

/// Whether two slices hold the same bytes.
pub(crate) fn same_bytes(a: &[u8], b: &[u8]) -> (r: bool)
    ensures
        r == (a@ == b@),
{
    if a.len() != b.len() {
        return false;
    }
    for i in 0..a.len()
        invariant
            a@.len() == b@.len(),
            forall|k: int| 0 <= k < i ==> a@[k] == b@[k],
    {
        if a[i] != b[i] {
            return false;
        }
    }
    assert(a@ =~= b@);
    true
}

/// An optional buffer holds bytes if and only if it is there, and then its own.
pub proof fn opt_bytes_are_kept(b: Option<Bytes>)
    ensures
        opt_bytes(b) is Some <==> b is Some,
        b matches Some(x) ==> opt_bytes(b) == Some(bytes_of(x)),
{
}

} // verus!
