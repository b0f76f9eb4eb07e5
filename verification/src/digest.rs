//! SHA-256 as the quest generator sees it: a fixed function from bytes to 32 bytes.

use sha2::Digest;
use sha2::Sha256;
use vstd::prelude::*;

verus! {

/// The SHA-256 digest of `data`, as `sha2` computes it.
pub uninterp spec fn sha256_digest(data: Seq<u8>) -> Seq<u8>;

/// Calls `sha2::Sha256::digest`, the one-shot form of `new`, `update`, `finalize`.
///
/// Trusted: the result is the SHA-256 digest of `data`, which depends on the
/// bytes of `data` alone. That it is 32 bytes long is carried by the type.
#[verifier::external_body]
pub(crate) fn sha256(data: &[u8]) -> (out: [u8; 32])
    ensures
        out@ == sha256_digest(data@),
{
    Sha256::digest(data).into()
}

} // verus!
