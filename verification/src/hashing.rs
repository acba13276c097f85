//! The candidate-hash computation: SHA-256 over the job's previous hash
//! followed by the decimal rendering of the nonce, shown as lowercase hex.

use vstd::prelude::*;
use vstd::string::StrSliceExecFns;
use vstd::utf8::encode_utf8;
use crate::job::MiningJob;

verus! {

/// The decimal digits of `n`, as ASCII bytes, most significant first.
pub open spec fn dec_digits(n: nat) -> Seq<u8>
    decreases n,
{
    if n < 10 {
        seq![(48 + n) as u8]
    } else {
        dec_digits(n / 10).push((48 + n % 10) as u8)
    }
}

/// Every byte of a decimal rendering is an ASCII digit.
pub proof fn lemma_dec_digits_ascii(n: nat)
    ensures
        forall|i: int| 0 <= i < dec_digits(n).len() ==> 48 <= #[trigger] dec_digits(n)[i] <= 57,
    decreases n,
{
    if n >= 10 {
        lemma_dec_digits_ascii(n / 10);
        let prefix = dec_digits(n / 10);
        assert forall|i: int| 0 <= i < dec_digits(n).len() implies 48 <= #[trigger] dec_digits(
            n,
        )[i] <= 57 by {
            if i < prefix.len() {
                assert(dec_digits(n)[i] == prefix[i]);
            } else {
                assert(dec_digits(n)[i] == (48 + n % 10) as u8);
            }
        }
    }
}

/// Renders `n` in base 10 as ASCII bytes.
pub fn u64_to_dec(n: u64) -> (r: Vec<u8>)
    ensures
        r@ == dec_digits(n as nat),
    decreases n,
{
    if n < 10 {
        let mut r: Vec<u8> = Vec::new();
        r.push(48 + (n as u8));
        proof {
            assert(r@ =~= dec_digits(n as nat));
        }
        r
    } else {
        let mut r = u64_to_dec(n / 10);
        r.push(48 + ((n % 10) as u8));
        proof {
            assert(r@ =~= dec_digits(n as nat));
        }
        r
    }
}

/// The characters that a sequence of ASCII bytes spells.
pub open spec fn ascii_chars(s: Seq<u8>) -> Seq<char> {
    s.map_values(|b: u8| b as char)
}

/// Turns ASCII bytes into the string spelling exactly those characters.
///
/// Relies on `String::from_utf8`: bytes below 0x80 are valid UTF-8 and
/// decode one-to-one to the code points with the same values.
#[verifier::external_body]
pub(crate) fn ascii_to_string(bytes: Vec<u8>) -> (r: String)
    requires
        forall|i: int| 0 <= i < bytes@.len() ==> bytes@[i] < 128,
    ensures
        r@ == ascii_chars(bytes@),
{
    match String::from_utf8(bytes) {
        Ok(s) => s,
        Err(_) => String::new(),
    }
}

/// The SHA-256 digest of `data`; opaque here, computed by the `sha2` crate.
pub uninterp spec fn sha256_of(data: Seq<u8>) -> Seq<u8>;

/// Computes the SHA-256 digest of `data`.
///
/// Relies on `sha2::Sha256` through `Digest::digest`: the digest is a
/// function of the input bytes alone and is always 32 bytes long.
#[verifier::external_body]
pub(crate) fn sha256(data: &Vec<u8>) -> (r: Vec<u8>)
    ensures
        r@ == sha256_of(data@),
        r@.len() == 32,
{
    let digest = <sha2::Sha256 as sha2::Digest>::digest(data.as_slice());
    digest.to_vec()
}

/// The lowercase hex digit for a nibble.
pub open spec fn hex_digit(d: u8) -> u8
    recommends
        d < 16,
{
    if d < 10 {
        (48 + d) as u8
    } else {
        (87 + d) as u8
    }
}

/// Lowercase hex rendering of bytes: two digits per byte, high nibble first.
pub open spec fn hex_bytes(s: Seq<u8>) -> Seq<u8> {
    Seq::new(
        2 * s.len(),
        |i: int|
            if i % 2 == 0 {
                hex_digit(s[i / 2] / 16)
            } else {
                hex_digit(s[i / 2] % 16)
            },
    )
}

/// Whether `b` is the ASCII code of a lowercase hex digit.
pub open spec fn is_hex_digit_byte(b: u8) -> bool {
    (48 <= b <= 57) || (97 <= b <= 102)
}

/// Every byte of a hex rendering is a lowercase hex digit (so in particular
/// ASCII).
pub proof fn lemma_hex_bytes_ascii(s: Seq<u8>)
    ensures
        forall|i: int| 0 <= i < hex_bytes(s).len() ==> is_hex_digit_byte(#[trigger] hex_bytes(s)[i]),
{
    assert forall|i: int| 0 <= i < hex_bytes(s).len() implies is_hex_digit_byte(
        #[trigger] hex_bytes(s)[i],
    ) by {
        let b = s[i / 2];
        assert(b / 16 < 16);
        assert(b % 16 < 16);
    }
}

/// Renders bytes as lowercase hex.
pub fn to_hex(s: &Vec<u8>) -> (r: Vec<u8>)
    ensures
        r@ == hex_bytes(s@),
{
    let mut r: Vec<u8> = Vec::new();
    let mut i: usize = 0;
    while i < s.len()
        invariant
            i <= s@.len(),
            r@ == hex_bytes(s@.subrange(0, i as int)),
        decreases s@.len() - i,
    {
        let b = s[i];
        let hi = b / 16;
        let lo = b % 16;
        r.push(if hi < 10 { 48 + hi } else { 87 + hi });
        r.push(if lo < 10 { 48 + lo } else { 87 + lo });
        i = i + 1;
        proof {
            assert(r@ =~= hex_bytes(s@.subrange(0, i as int)));
        }
    }
    proof {
        assert(s@.subrange(0, s@.len() as int) =~= s@);
    }
    r
}

/// The bytes whose digest decides whether a nonce wins: the UTF-8 bytes of
/// the previous hash followed by the decimal digits of the nonce, with no
/// separator.
pub open spec fn pow_message(prev: Seq<u8>, nonce: u64) -> Seq<u8> {
    prev + dec_digits(nonce as nat)
}

/// The candidate hash for `(prev, nonce)`: the SHA-256 digest of the
/// proof-of-work message, rendered as lowercase hex bytes.
pub open spec fn pow_digest_hex(prev: Seq<u8>, nonce: u64) -> Seq<u8> {
    hex_bytes(sha256_of(pow_message(prev, nonce)))
}

/// The candidate hash as the characters of the rendered string.
pub open spec fn pow_hash_chars(prev: Seq<u8>, nonce: u64) -> Seq<char> {
    ascii_chars(pow_digest_hex(prev, nonce))
}

/// The UTF-8 bytes of the job's previous hash: the part of the job that the
/// search hashes.
pub open spec fn job_prev_bytes(job: MiningJob) -> Seq<u8> {
    encode_utf8(job.prev_hash@)
}

/// The candidate hash for `job` and `nonce`, as lowercase hex bytes.
pub fn calculate_hash_bytes(job: &MiningJob, nonce: u64) -> (r: Vec<u8>)
    ensures
        r@ == pow_digest_hex(job_prev_bytes(*job), nonce),
        r@.len() == 64,
{
    let mut msg: Vec<u8> = job.prev_hash.as_str().as_bytes_vec();
    let mut dec = u64_to_dec(nonce);
    msg.append(&mut dec);
    proof {
        assert(msg@ == pow_message(job_prev_bytes(*job), nonce));
    }
    let digest = sha256(&msg);
    to_hex(&digest)
}

/// The candidate hash for `job` and `nonce`, rendered as a lowercase hex
/// string of 64 characters. Computing it twice for the same pair gives the
/// identical string: the result is pinned to `pow_hash_chars`.
pub fn calculate_hash(job: &MiningJob, nonce: u64) -> (r: String)
    ensures
        r@ == pow_hash_chars(job_prev_bytes(*job), nonce),
        r@.len() == 64,
{
    let bytes = calculate_hash_bytes(job, nonce);
    proof {
        lemma_hex_bytes_ascii(sha256_of(pow_message(job_prev_bytes(*job), nonce)));
    }
    ascii_to_string(bytes)
}

/// The candidate hash is a function of the previous hash and the nonce
/// alone: two values that both equal it are byte-identical.
pub proof fn lemma_hash_idempotent(prev: Seq<u8>, nonce: u64, h1: Seq<u8>, h2: Seq<u8>)
    requires
        h1 == pow_digest_hex(prev, nonce),
        h2 == pow_digest_hex(prev, nonce),
    ensures
        h1 == h2,
{
}

} // verus!
