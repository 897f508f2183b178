//! The signature verifier: checks that a hex-encoded recoverable ECDSA
//! signature over the SHA-256 digest of a message was made by the key a
//! hex-encoded SEC1 public key claims.
//!
//! Strategy: recover-and-compare. The signature must decode to exactly 65
//! bytes, 64 bytes of `(r, s)` followed by one recovery-id byte (0 or 1); the
//! public key recovered from the digest and the signature is compared, in its
//! canonical compressed SEC1 encoding, byte for byte against the claimed key.
//! Every failure collapses to `false`; nothing else is reported to the caller.

use vstd::prelude::*;
use vstd::slice::slice_subrange;
use vstd::utf8::encode_utf8;

use crate::crypto::parsed_key_of;
use crate::crypto::recovered_key_of;
use crate::crypto::sha256;
use crate::crypto::sha256_of;
use crate::crypto::parse_pubkey;
use crate::crypto::recover_pubkey;
use crate::hexcode::hex_bytes_of;
use crate::hexcode::hex_decode;
use crate::hexcode::is_hex_seq;

verus! {

/// What `verify_signature` decides: the signature hex must be well-formed and
/// decode to 65 bytes whose last byte is 0 or 1; key recovery over the SHA-256
/// digest of the message's UTF-8 bytes must succeed; the public-key hex must be
/// well-formed and denote a valid curve point; and the recovered key must equal
/// the claimed one in compressed SEC1 encoding.
pub open spec fn spec_verify(msg: Seq<char>, sig_hex: Seq<char>, pk_hex: Seq<char>) -> bool {
    is_hex_seq(sig_hex) && {
        let sig = hex_bytes_of(sig_hex);
        sig.len() == 65 && (sig[64] == 0 || sig[64] == 1) && {
            match recovered_key_of(sha256_of(encode_utf8(msg)), sig.take(64), sig[64]) {
                Some(rk) => is_hex_seq(pk_hex) && {
                    match parsed_key_of(hex_bytes_of(pk_hex)) {
                        Some(pk) => rk == pk,
                        None => false,
                    }
                },
                None => false,
            }
        }
    }
}

/// Byte-for-byte equality of two byte strings.
fn bytes_equal(a: &[u8], b: &[u8]) -> (r: bool)
    ensures
        r == (a@ == b@),
{
    if a.len() != b.len() {
        return false;
    }
    let n = a.len();
    let mut i: usize = 0;
    while i < n
        invariant
            n == a@.len(),
            n == b@.len(),
            i <= n,
            forall|j: int| 0 <= j < i ==> a@[j] == b@[j],
        decreases n - i,
    {
        if a[i] != b[i] {
            return false;
        }
        i = i + 1;
    }
    proof {
        assert(a@ =~= b@);
    }
    true
}

/// Verifies a signature over a message against a claimed public key. Returns
/// `true` exactly when every decode step succeeds and the key recovered from
/// the signature equals the claimed key; every failure is folded into `false`.
pub fn verify_signature(message: String, signature_hex: String, pubkey_hex: String) -> (r: bool)
    ensures
        r == spec_verify(message@, signature_hex@, pubkey_hex@),
{
    let digest = sha256(message.as_str().as_bytes());
    let sig = match hex_decode(signature_hex.as_str()) {
        Some(v) => v,
        None => {
            return false;
        },
    };
    if sig.len() != 65 {
        return false;
    }
    let recid = sig[64];
    if recid != 0 && recid != 1 {
        return false;
    }
    let sig64 = slice_subrange(sig.as_slice(), 0, 64);
    let recovered = match recover_pubkey(digest.as_slice(), sig64, recid) {
        Some(k) => k,
        None => {
            return false;
        },
    };
    let pk_bytes = match hex_decode(pubkey_hex.as_str()) {
        Some(v) => v,
        None => {
            return false;
        },
    };
    let claimed = match parse_pubkey(pk_bytes.as_slice()) {
        Some(k) => k,
        None => {
            return false;
        },
    };
    bytes_equal(recovered.as_slice(), claimed.as_slice())
}

/// Law: malformed input is rejected. Whatever the message, verification is
/// `false` whenever the signature hex is not well-formed hex, decodes to a
/// length other than 65 bytes, carries a recovery-id byte other than 0 or 1,
/// or whenever the public-key hex is not well-formed hex or denotes no valid
/// curve point; in particular an empty signature string is rejected.
pub proof fn lemma_rejects_malformed(msg: Seq<char>, sig_hex: Seq<char>, pk_hex: Seq<char>)
    ensures
        !is_hex_seq(sig_hex) ==> !spec_verify(msg, sig_hex, pk_hex),
        hex_bytes_of(sig_hex).len() != 65 ==> !spec_verify(msg, sig_hex, pk_hex),
        hex_bytes_of(sig_hex).len() == 65 && hex_bytes_of(sig_hex)[64] != 0 && hex_bytes_of(
            sig_hex,
        )[64] != 1 ==> !spec_verify(msg, sig_hex, pk_hex),
        !is_hex_seq(pk_hex) ==> !spec_verify(msg, sig_hex, pk_hex),
        parsed_key_of(hex_bytes_of(pk_hex)) is None ==> !spec_verify(msg, sig_hex, pk_hex),
        sig_hex.len() == 0 ==> !spec_verify(msg, sig_hex, pk_hex),
{
    if sig_hex.len() == 0 {
        assert(hex_bytes_of(sig_hex).len() == 0);
    }
}

} // verus!
