//! Trusted boundary to the outside cryptography: SHA-256 hashing, secp256k1
//! ECDSA public-key recovery, and SEC1 public-key parsing.
//!
//! Each exec function here makes one outside call chain and is believed, not
//! verified; its contract names the result so that the callers' own contracts
//! can be exact. Every named result is a deterministic function of the bytes
//! given, so the names are sound.

use vstd::prelude::*;

verus! {

/// The SHA-256 digest of a byte sequence (32 bytes).
pub uninterp spec fn sha256_of(msg: Seq<u8>) -> Seq<u8>;

/// The compressed SEC1 encoding of the public key that secp256k1 ECDSA key
/// recovery yields for the given 32-byte digest, 64-byte `(r, s)` signature
/// and recovery id, or `None` when the signature scalars are out of range or
/// no key can be recovered.
pub uninterp spec fn recovered_key_of(digest: Seq<u8>, sig: Seq<u8>, recid: u8) -> Option<Seq<u8>>;

/// The compressed SEC1 encoding of the secp256k1 point that the given bytes
/// denote as a SEC1 public key, or `None` when they denote none. Compressed
/// SEC1 is canonical: two valid keys are equal exactly when these encodings
/// are.
pub uninterp spec fn parsed_key_of(pk: Seq<u8>) -> Option<Seq<u8>>;

/// Relies on sha2::Sha256 (the Digest trait's `digest`): the result is the
/// 32-byte SHA-256 digest, a function of the input bytes alone.
#[verifier::external_body]
pub fn sha256(msg: &[u8]) -> (r: Vec<u8>)
    ensures
        r@ == sha256_of(msg@),
        r@.len() == 32,
{
    <sha2::Sha256 as sha2::Digest>::digest(msg).to_vec()
}

/// Relies on k256::ecdsa::Signature::from_slice (succeeds exactly when the 64
/// bytes hold `r` and `s` in `1..n`), RecoveryId::from_byte,
/// VerifyingKey::recover_from_prehash and VerifyingKey::to_encoded_point: all
/// are deterministic, so the outcome is a function of digest, signature bytes
/// and recovery id alone.
#[verifier::external_body]
pub fn recover_pubkey(digest: &[u8], sig: &[u8], recid: u8) -> (r: Option<Vec<u8>>)
    requires
        digest@.len() == 32,
        sig@.len() == 64,
        recid == 0 || recid == 1,
    ensures
        r is Some <==> recovered_key_of(digest@, sig@, recid) is Some,
        r matches Some(k) ==> Some(k@) == recovered_key_of(digest@, sig@, recid),
{
    let parsed = match k256::ecdsa::Signature::from_slice(sig) {
        Ok(s) => s,
        Err(_) => return None,
    };
    let rid = match k256::ecdsa::RecoveryId::from_byte(recid) {
        Some(id) => id,
        None => return None,
    };
    match k256::ecdsa::VerifyingKey::recover_from_prehash(digest, &parsed, rid) {
        Ok(key) => Some(key.to_encoded_point(true).as_bytes().to_vec()),
        Err(_) => None,
    }
}

/// Relies on k256::ecdsa::VerifyingKey::from_sec1_bytes (succeeds exactly when
/// the bytes encode a point on the curve, compressed or uncompressed) and
/// VerifyingKey::to_encoded_point: parsing is a function of the bytes alone and
/// the compressed encoding of the parsed key is canonical.
#[verifier::external_body]
pub fn parse_pubkey(pk: &[u8]) -> (r: Option<Vec<u8>>)
    ensures
        r is Some <==> parsed_key_of(pk@) is Some,
        r matches Some(k) ==> Some(k@) == parsed_key_of(pk@),
{
    match k256::ecdsa::VerifyingKey::from_sec1_bytes(pk) {
        Ok(key) => Some(key.to_encoded_point(true).as_bytes().to_vec()),
        Err(_) => None,
    }
}

} // verus!
