//! Keccak-256 and recoverable ECDSA signing, provided by `alloy`.
use alloy::primitives::{keccak256, B256};
use alloy::signers::local::PrivateKeySigner;
use alloy::signers::SignerSync;
use vstd::prelude::*;

verus! {

/// The Keccak-256 digest of a byte string.
pub uninterp spec fn keccak_of(data: Seq<u8>) -> Seq<u8>;

/// Relies on `alloy_primitives::keccak256`: the 32-byte Keccak-256 digest
/// of the input, a function of the input alone.
#[verifier::external_body]
pub(crate) fn keccak(data: &[u8]) -> (r: Vec<u8>)
    ensures
        r@ == keccak_of(data@),
        r@.len() == 32,
{
    keccak256(data).to_vec()
}

/// The 65-byte recoverable signature `r ‖ s ‖ v` of a 32-byte hash under a
/// 32-byte secret key.
pub uninterp spec fn signature_of(key: Seq<u8>, hash: Seq<u8>) -> Seq<u8>;

/// Whether a 32-byte secret key signs a 32-byte hash: the key is a valid
/// secp256k1 scalar and the signer accepts the hash.
pub uninterp spec fn signs_ok(key: Seq<u8>, hash: Seq<u8>) -> bool;

/// Relies on `alloy`'s `PrivateKeySigner::from_slice` (the key as a
/// secp256k1 scalar; fails on an invalid scalar), `SignerSync::sign_hash_sync`
/// (deterministic RFC 6979 ECDSA over the prehash) and `Signature::as_bytes`
/// (r and s big-endian, then `27 + y_parity`).
#[verifier::external_body]
pub(crate) fn sign_prehash(key: &[u8], hash: &[u8]) -> (r: Option<Vec<u8>>)
    requires
        key@.len() == 32,
        hash@.len() == 32,
    ensures
        r is Some <==> signs_ok(key@, hash@),
        r is Some ==> r->0@ == signature_of(key@, hash@),
        r is Some ==> r->0@.len() == 65,
        r is Some ==> (r->0@[64] == 27 || r->0@[64] == 28),
{
    let signer = PrivateKeySigner::from_slice(key).ok()?;
    let signature = signer.sign_hash_sync(&B256::from_slice(hash)).ok()?;
    Some(signature.as_bytes().to_vec())
}

} // verus!
