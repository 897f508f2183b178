//! The challenge generator: 16 bytes from a secure entropy source, rendered
//! as 32 lowercase hex characters for the client's wallet to sign.

use vstd::prelude::*;
use vstd::slice::slice_subrange;

use crate::hexcode::hex_bytes_of;
use crate::hexcode::hex_of;
use crate::hexcode::is_hex_seq;
use crate::hexcode::lemma_hex_round_trip;
use crate::hexcode::hex_encode;

verus! {

/// How many entropy bytes a challenge consumes.
pub const CHALLENGE_BYTES: usize = 16;

/// The challenge a given entropy buffer yields: the lowercase hex rendering
/// of its first 16 bytes.
pub open spec fn challenge_of(entropy: Seq<u8>) -> Seq<char>
    recommends
        entropy.len() >= CHALLENGE_BYTES,
{
    hex_of(entropy.take(CHALLENGE_BYTES as int))
}

/// Relies on getrandom::getrandom: fills the buffer from the operating
/// system's secure entropy source. The buffer keeps its length; nothing is
/// promised of its contents, and the flag reports whether the source
/// succeeded.
#[verifier::external_body]
fn fill_random(dest: &mut Vec<u8>) -> (ok: bool)
    ensures
        final(dest)@.len() == old(dest)@.len(),
{
    getrandom::getrandom(dest.as_mut_slice()).is_ok()
}

/// Derives a challenge from an entropy buffer: the hex rendering of its first
/// 16 bytes. An entropy buffer of fewer than 16 bytes is a fatal error for
/// the call, answered with `None`.
pub fn challenge_from_entropy(entropy: &[u8]) -> (r: Option<String>)
    ensures
        r is Some <==> entropy@.len() >= CHALLENGE_BYTES,
        r matches Some(s) ==> s@ == challenge_of(entropy@) && s@.len() == 32,
{
    if entropy.len() < CHALLENGE_BYTES {
        return None;
    }
    let first = slice_subrange(entropy, 0, CHALLENGE_BYTES);
    proof {
        assert(entropy@.subrange(0, CHALLENGE_BYTES as int) =~= entropy@.take(
            CHALLENGE_BYTES as int,
        ));
    }
    Some(hex_encode(first))
}

/// Generates a fresh challenge: 16 bytes drawn from the secure entropy
/// source, hex-encoded. Returns `None` when the entropy source fails; no
/// weaker source is ever substituted.
pub fn generate_challenge() -> (r: Option<String>)
    ensures
        r matches Some(s) ==> {
            &&& s@.len() == 32
            &&& is_hex_seq(s@)
            &&& hex_bytes_of(s@).len() == CHALLENGE_BYTES
            &&& exists|e: Seq<u8>| e.len() == CHALLENGE_BYTES && s@ == hex_of(e)
        },
{
    let mut buf: Vec<u8> = Vec::new();
    let mut i: usize = 0;
    while i < CHALLENGE_BYTES
        invariant
            i <= CHALLENGE_BYTES,
            buf@.len() == i,
        decreases CHALLENGE_BYTES - i,
    {
        buf.push(0u8);
        i = i + 1;
    }
    if !fill_random(&mut buf) {
        return None;
    }
    let r = challenge_from_entropy(buf.as_slice());
    proof {
        assert(buf@.take(CHALLENGE_BYTES as int) =~= buf@);
        lemma_challenge_round_trip(buf@);
    }
    r
}

/// Law: a challenge is well-formed hex and decodes back to exactly the 16
/// entropy bytes it renders.
pub proof fn lemma_challenge_round_trip(entropy: Seq<u8>)
    requires
        entropy.len() >= CHALLENGE_BYTES,
    ensures
        challenge_of(entropy).len() == 32,
        is_hex_seq(challenge_of(entropy)),
        hex_bytes_of(challenge_of(entropy)) == entropy.take(CHALLENGE_BYTES as int),
{
    lemma_hex_round_trip(entropy.take(CHALLENGE_BYTES as int));
}

} // verus!
