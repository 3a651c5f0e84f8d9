use vstd::prelude::*;
use crate::pubkey::bytes_equal;

verus! {

/// The SHA-256 digest of a byte string: one round over the raw bytes, with
/// no salt and no domain separation.
pub uninterp spec fn sha256(data: Seq<u8>) -> Seq<u8>;

/// Hashes a preimage with `anchor_lang::solana_program::hash::hashv`, given
/// the preimage as its only slice, and returns the bytes of the `Hash`.
///
/// Trusted, not proved: the 32 bytes that come back are the SHA-256 digest
/// of the 32 bytes of the preimage.
#[verifier::external_body]
pub(crate) fn sha256_digest(preimage: &[u8; 32]) -> (digest: [u8; 32])
    ensures
        digest@ == sha256(preimage@),
{
    anchor_lang::solana_program::hash::hashv(&[preimage.as_slice()]).to_bytes()
}

/// A digest opens a hashlock when the two are the same 32 bytes.
pub open spec fn opens(hashlock: [u8; 32], digest: Seq<u8>) -> bool {
    digest == hashlock@
}

/// Tells whether `digest`, the hash of a candidate preimage, opens
/// `hashlock`.
pub fn digest_opens(hashlock: &[u8; 32], digest: &[u8; 32]) -> (open: bool)
    ensures
        open == opens(*hashlock, digest@),
{
    bytes_equal(digest, hashlock)
}

} // verus!
