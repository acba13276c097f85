//! The solution payload sent back to the pool: job identifier, winning
//! nonce and claimant address, joined by colons.

use vstd::prelude::*;
use vstd::string::StringExecFns;
use crate::hashing::{ascii_chars, ascii_to_string, dec_digits, lemma_dec_digits_ascii, u64_to_dec};
use crate::job::MiningJob;

verus! {

/// The decimal rendering of `n` as characters.
pub open spec fn dec_chars(n: u64) -> Seq<char> {
    ascii_chars(dec_digits(n as nat))
}

/// The exact characters of a submitted payload:
/// `<job_id>:<nonce>:<mining_address>`, with single colons and nothing else.
pub open spec fn payload_chars(job_id: Seq<char>, nonce: u64, address: Seq<char>) -> Seq<char> {
    job_id + seq![':'] + dec_chars(nonce) + seq![':'] + address
}

/// Builds the payload string for a found nonce:
/// `<job_id>:<nonce>:<mining_address>`, with no extra whitespace or
/// separators.
pub fn solution_payload(job: &MiningJob, nonce: u64, mining_address: &str) -> (r: String)
    ensures
        r@ == payload_chars(job.job_id@, nonce, mining_address@),
{
    let mut s = String::new();
    s.append(job.job_id.as_str());
    s.append(":");
    proof {
        lemma_dec_digits_ascii(nonce as nat);
    }
    let dec = ascii_to_string(u64_to_dec(nonce));
    s.append(dec.as_str());
    s.append(":");
    s.append(mining_address);
    proof {
        reveal_strlit(":");
        assert(s@ =~= payload_chars(job.job_id@, nonce, mining_address@));
    }
    s
}

} // verus!
