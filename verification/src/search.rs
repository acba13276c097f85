//! The proof-of-work search: the first nonce whose candidate hash starts
//! with the required number of `'0'` characters wins.

use vstd::prelude::*;
use crate::hashing::{
    ascii_to_string, calculate_hash_bytes, job_prev_bytes, lemma_hex_bytes_ascii, pow_digest_hex,
    pow_hash_chars, pow_message, sha256_of,
};
use crate::job::MiningJob;

verus! {

/// Whether the candidate hash for `(prev, nonce)` starts with `difficulty`
/// ASCII `'0'` bytes. A difficulty longer than the hash matches nothing.
pub open spec fn pow_matches(prev: Seq<u8>, nonce: u64, difficulty: int) -> bool {
    &&& difficulty <= pow_digest_hex(prev, nonce).len()
    &&& forall|i: int| 0 <= i < difficulty ==> pow_digest_hex(prev, nonce)[i] == 48u8
}

/// What the search may report for a previous hash and a difficulty: either
/// the least matching nonce, or that no nonce matches at all.
pub open spec fn search_outcome(prev: Seq<u8>, difficulty: int, outcome: Option<u64>) -> bool {
    match outcome {
        Some(n) => pow_matches(prev, n, difficulty) && (forall|m: u64|
            m < n ==> !pow_matches(prev, m, difficulty)),
        None => forall|n: u64| !pow_matches(prev, n, difficulty),
    }
}

/// The nonce of a search result, with the rendered hash stripped off.
pub open spec fn result_nonce(r: Option<(u64, String)>) -> Option<u64> {
    match r {
        Some(p) => Some(p.0),
        None => None,
    }
}

/// Whether `h` starts with `difficulty` ASCII `'0'` bytes.
pub fn has_zero_prefix(h: &Vec<u8>, difficulty: usize) -> (r: bool)
    ensures
        r == (difficulty <= h@.len() && (forall|i: int| 0 <= i < difficulty ==> h@[i] == 48u8)),
{
    if difficulty > h.len() {
        return false;
    }
    let mut i: usize = 0;
    while i < difficulty
        invariant
            i <= difficulty <= h@.len(),
            forall|j: int| 0 <= j < i ==> h@[j] == 48u8,
        decreases difficulty - i,
    {
        if h[i] != 48 {
            return false;
        }
        i = i + 1;
    }
    true
}

/// Enumerates nonces from zero and returns the first whose candidate hash
/// starts with `difficulty` zero characters, together with that hash as a
/// lowercase hex string. Every smaller nonce fails the prefix test. `None`
/// comes back only when no nonce at all matches; at difficulty zero the empty
/// prefix matches at once, so nonce zero wins.
pub fn search(job: &MiningJob, difficulty: usize) -> (r: Option<(u64, String)>)
    ensures
        search_outcome(job_prev_bytes(*job), difficulty as int, result_nonce(r)),
        r matches Some(p) ==> p.1@ == pow_hash_chars(job_prev_bytes(*job), p.0),
        r matches Some(p) ==> p.1@.len() == 64 && (forall|i: int|
            0 <= i < difficulty ==> p.1@[i] == '0'),
        difficulty == 0 ==> result_nonce(r) == Some(0u64),
{
    let ghost prev = job_prev_bytes(*job);
    let mut nonce: u64 = 0;
    loop
        invariant
            prev == job_prev_bytes(*job),
            forall|m: u64| m < nonce ==> !pow_matches(prev, m, difficulty as int),
        decreases u64::MAX - nonce,
    {
        let h = calculate_hash_bytes(job, nonce);
        if has_zero_prefix(&h, difficulty) {
            proof {
                assert(pow_matches(prev, nonce, difficulty as int));
                if difficulty == 0 && nonce != 0 {
                    assert(pow_matches(prev, 0u64, 0));
                    assert(false);
                }
                lemma_hex_bytes_ascii(sha256_of(pow_message(prev, nonce)));
            }
            let hash = ascii_to_string(h);
            proof {
                assert forall|i: int| 0 <= i < difficulty implies hash@[i] == '0' by {
                    assert(pow_digest_hex(prev, nonce)[i] == 48u8);
                    assert(hash@[i] == 48u8 as char);
                }
            }
            return Some((nonce, hash));
        }
        if nonce == u64::MAX {
            proof {
                assert forall|n: u64| !pow_matches(prev, n, difficulty as int) by {
                    if n < u64::MAX {
                        assert(!pow_matches(prev, n, difficulty as int));
                    } else {
                        assert(!pow_matches(prev, u64::MAX, difficulty as int));
                    }
                }
            }
            return None;
        }
        nonce = nonce + 1;
    }
}

/// The search outcome is a function of the previous hash and the difficulty
/// alone: any two outcomes that both satisfy `search_outcome` are equal.
/// Together with the hash clause of `search`, which pins the rendered hash to
/// `pow_hash_chars` of the winning nonce, two runs of `search` on identical
/// inputs return the identical `(nonce, hash)` pair.
pub proof fn lemma_search_deterministic(
    prev: Seq<u8>,
    difficulty: int,
    o1: Option<u64>,
    o2: Option<u64>,
)
    requires
        search_outcome(prev, difficulty, o1),
        search_outcome(prev, difficulty, o2),
    ensures
        o1 == o2,
{
    match (o1, o2) {
        (Some(n1), Some(n2)) => {
            if n1 < n2 {
                assert(!pow_matches(prev, n1, difficulty));
            }
            if n2 < n1 {
                assert(!pow_matches(prev, n2, difficulty));
            }
        },
        (Some(n1), None) => {
            assert(!pow_matches(prev, n1, difficulty));
        },
        (None, Some(n2)) => {
            assert(!pow_matches(prev, n2, difficulty));
        },
        (None, None) => {},
    }
}

/// Two complete search results for the same previous hash and difficulty are
/// identical in both components: the winning nonce is unique, and the
/// rendered hash is a function of that nonce. So two runs of `search` on
/// identical inputs return the identical `(nonce, hash)` pair.
pub proof fn lemma_search_pair_deterministic(
    prev: Seq<u8>,
    difficulty: int,
    n1: u64,
    h1: Seq<char>,
    n2: u64,
    h2: Seq<char>,
)
    requires
        search_outcome(prev, difficulty, Some(n1)),
        h1 == pow_hash_chars(prev, n1),
        search_outcome(prev, difficulty, Some(n2)),
        h2 == pow_hash_chars(prev, n2),
    ensures
        n1 == n2,
        h1 == h2,
{
    lemma_search_deterministic(prev, difficulty, Some(n1), Some(n2));
}

} // verus!
