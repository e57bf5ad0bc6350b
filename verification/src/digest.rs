//! SHA-256, by which orders and trades are named.
use vstd::prelude::*;

verus! {

/// The SHA-256 digest of `message`, as `solana_program::hash::hash` computes
/// it.
pub uninterp spec fn sha256(message: Seq<u8>) -> Seq<u8>;

/// Calls `solana_program::hash::hash` on `message` and returns the 32 bytes
/// of the digest. All that is claimed of the result is that it depends on
/// the bytes of `message` alone.
#[verifier::external_body]
pub(crate) fn sha256_digest(message: &Vec<u8>) -> (digest: [u8; 32])
    ensures
        digest@ == sha256(message@),
{
    solana_program::hash::hash(message.as_slice()).to_bytes()
}

} // verus!
