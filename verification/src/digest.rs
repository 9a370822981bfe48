//! SHA-256, computed by the `sha2` crate.
use sha2::{Digest, Sha256};
use vstd::prelude::*;

verus! {

/// The SHA-256 digest of `data`.
pub uninterp spec fn sha256(data: Seq<u8>) -> Seq<u8>;

/// `Sha256::digest` from `sha2`: its result is the SHA-256 digest `sha256`
/// of the bytes handed to it, 32 bytes long. Which bytes those are is not
/// stated; `sha256` names them.
#[verifier::external_body]
pub(crate) fn sha256_digest(data: &[u8]) -> (r: [u8; 32])
    ensures
        r@ == sha256(data@),
{
    Sha256::digest(data).into()
}

} // verus!
