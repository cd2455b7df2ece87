//! Verification of a client's signature.

use crate::now_as_secs;
use crate::tunnel::{auth_signature, generate_auth_signature};
use vstd::prelude::*;
use vstd::string::StringSliceAdditionalSpecFns;

verus! {

/// Seconds by which the timestamp of a signature may differ, either way,
/// from the clock of the server that checks it.
pub const MAX_CLOCK_SKEW: u64 = 120;

/// Whether `timestamp` is within the allowed skew of `now`.
pub open spec fn within_skew(now: u64, timestamp: u64) -> bool {
    now - timestamp <= MAX_CLOCK_SKEW && timestamp - now <= MAX_CLOCK_SKEW
}

/// Whether a signature presented at `now` authenticates `client_id`: the
/// timestamp is recent, and the signature is the one that the secret gives
/// for this client and timestamp.
pub open spec fn signature_accepted(
    now: u64,
    client_id: Seq<char>,
    timestamp: u64,
    signature: Seq<char>,
    secret: Seq<char>,
) -> bool {
    within_skew(now, timestamp) && signature == auth_signature(client_id, timestamp, secret)
}

/// Whether two byte strings are equal. The lengths are compared first; then
/// every pair of bytes is looked at, whatever the earlier ones were.
fn same_bytes(a: &[u8], b: &[u8]) -> (same: bool)
    ensures
        same == (a@ == b@),
{
    if a.len() != b.len() {
        return false;
    }
    let mut same = true;
    let mut i: usize = 0;
    assert(a@.take(0) =~= b@.take(0));
    while i < a.len()
        invariant
            i <= a.len(),
            a.len() == b.len(),
            same == (a@.take(i as int) == b@.take(i as int)),
        decreases a.len() - i,
    {
        let equal_here = a[i] == b[i];
        proof {
            let x = a@.take(i as int);
            let y = b@.take(i as int);
            let x1 = a@.take(i + 1);
            let y1 = b@.take(i + 1);
            assert(x1.take(i as int) =~= x);
            assert(y1.take(i as int) =~= y);
            assert(x1[i as int] == a@[i as int]);
            assert(y1[i as int] == b@[i as int]);
            if x == y && equal_here {
                assert(x1 =~= y1);
            }
        }
        same = same && equal_here;
        i = i + 1;
    }
    proof {
        assert(a@.take(i as int) =~= a@);
        assert(b@.take(i as int) =~= b@);
    }
    same
}

/// Checks at time `now` the signature that a client presented.
pub fn verify_auth_signature_at(
    now: u64,
    client_id: &str,
    timestamp: u64,
    signature: &str,
    secret: &str,
) -> (accepted: bool)
    ensures
        accepted == signature_accepted(now, client_id@, timestamp, signature@, secret@),
        accepted ==> signature@.len() == 64,
{
    let skew = if now >= timestamp {
        now - timestamp
    } else {
        timestamp - now
    };
    if skew > MAX_CLOCK_SKEW {
        return false;
    }
    let expected = generate_auth_signature(client_id, timestamp, secret);
    proof {
        vstd::utf8::encode_utf8_decode_utf8(expected@);
        vstd::utf8::encode_utf8_decode_utf8(signature@);
    }
    same_bytes(expected.as_str().as_bytes(), signature.as_bytes())
}

/// Checks against the system clock the signature that a client presented.
/// Whatever the clock says, a signature that is accepted is the one that the
/// secret gives for this client and timestamp.
pub fn verify_auth_signature(client_id: &str, timestamp: u64, signature: &str, secret: &str) -> (accepted:
    bool)
    ensures
        accepted ==> signature@ == auth_signature(client_id@, timestamp, secret@),
        accepted ==> signature@.len() == 64,
{
    verify_auth_signature_at(now_as_secs(), client_id, timestamp, signature, secret)
}

/// A signature whose timestamp is more than the allowed skew away from the
/// clock is never accepted.
pub proof fn lemma_stale_signature_rejected(
    now: u64,
    client_id: Seq<char>,
    timestamp: u64,
    signature: Seq<char>,
    secret: Seq<char>,
)
    requires
        now - timestamp > MAX_CLOCK_SKEW || timestamp - now > MAX_CLOCK_SKEW,
    ensures
        !signature_accepted(now, client_id, timestamp, signature, secret),
{
}

/// The right signature is accepted exactly up to the allowed skew: at a
/// difference of `MAX_CLOCK_SKEW` seconds it passes, one second later it
/// does not.
pub proof fn lemma_skew_boundary(now: u64, client_id: Seq<char>, timestamp: u64, secret: Seq<char>)
    ensures
        now - timestamp == MAX_CLOCK_SKEW ==> signature_accepted(
            now,
            client_id,
            timestamp,
            auth_signature(client_id, timestamp, secret),
            secret,
        ),
        now - timestamp == MAX_CLOCK_SKEW + 1 ==> !signature_accepted(
            now,
            client_id,
            timestamp,
            auth_signature(client_id, timestamp, secret),
            secret,
        ),
{
}

} // verus!
