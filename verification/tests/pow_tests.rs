use pow_miner::hashing::{calculate_hash, calculate_hash_bytes, to_hex, u64_to_dec};
use pow_miner::job::{job_from_fields, JobDecodeError, MiningJob};
use pow_miner::search::{has_zero_prefix, search};
use pow_miner::solution::solution_payload;
use sha2::Digest;

fn make_job(job_id: &str, prev_hash: &str) -> MiningJob {
    MiningJob {
        job_id: job_id.to_string(),
        prev_hash: prev_hash.to_string(),
        coinb1: "c1".to_string(),
        coinb2: "c2".to_string(),
        merkle_branch: vec!["m0".to_string(), "m1".to_string()],
        version: "1".to_string(),
        nbits: "1d00ffff".to_string(),
        ntime: "0".to_string(),
        clean_jobs: true,
    }
}

#[test]
fn decimal_rendering() {
    assert_eq!(u64_to_dec(0), b"0".to_vec());
    assert_eq!(u64_to_dec(7), b"7".to_vec());
    assert_eq!(u64_to_dec(10), b"10".to_vec());
    assert_eq!(u64_to_dec(93803), b"93803".to_vec());
    assert_eq!(u64_to_dec(u64::MAX), b"18446744073709551615".to_vec());
}

#[test]
fn hex_rendering() {
    assert_eq!(to_hex(&vec![]), b"".to_vec());
    assert_eq!(to_hex(&vec![0x00, 0xff, 0x1a]), b"00ff1a".to_vec());
    assert_eq!(to_hex(&vec![0xab, 0xcd, 0xef, 0x09]), b"abcdef09".to_vec());
}

#[test]
fn zero_prefix_check() {
    assert!(has_zero_prefix(&b"00abc".to_vec(), 0));
    assert!(has_zero_prefix(&b"00abc".to_vec(), 2));
    assert!(!has_zero_prefix(&b"00abc".to_vec(), 3));
    assert!(!has_zero_prefix(&b"0".to_vec(), 2));
    assert!(has_zero_prefix(&b"".to_vec(), 0));
    assert!(!has_zero_prefix(&b"".to_vec(), 1));
}

#[test]
fn hash_known_value() {
    // SHA-256 of b"abc0", as lowercase hex.
    let job = make_job("j", "abc");
    assert_eq!(
        calculate_hash(&job, 0),
        "56abfbd7d2ea606e667945422de5a368b8b0272b8f29081cb058b594dd7e3249"
    );
    assert_eq!(
        calculate_hash(&job, 1),
        "dbfcfd0d87220f629339bd3adcf452d083fde3246625fb3a93e314f833e20d37"
    );
}

#[test]
fn hash_agrees_with_sha2() {
    // The library's digest must agree with sha2 called directly on the
    // composed message; this fails if the digest step handed its input back.
    let job = make_job("j", "xyz");
    let direct = format!("{:x}", sha2::Sha256::digest(b"xyz41"));
    assert_eq!(calculate_hash(&job, 41), direct);
    assert_ne!(calculate_hash(&job, 41).as_bytes(), b"xyz41");
}

#[test]
fn hash_idempotent() {
    let job = make_job("j", "abc");
    assert_eq!(calculate_hash(&job, 123), calculate_hash(&job, 123));
    assert_eq!(calculate_hash_bytes(&job, 123), calculate_hash_bytes(&job, 123));
}

#[test]
fn difficulty_zero_returns_nonce_zero() {
    let job = make_job("j", "abc");
    let (nonce, hash) = search(&job, 0).expect("empty prefix always matches");
    assert_eq!(nonce, 0);
    assert_eq!(hash, calculate_hash(&job, 0));
    assert_eq!(hash.len(), 64);
}

#[test]
fn search_abc_difficulty_one() {
    // The smallest n with sha256("abc" ++ decimal n) starting in "0".
    let job = make_job("j", "abc");
    let (nonce, hash) = search(&job, 1).expect("a match exists");
    assert_eq!(nonce, 26);
    assert_eq!(
        hash,
        "0d56d5ce616422904a584cf3735a45ae611817d96c4717b17369ef6778025848"
    );
    // Brute-force confirmation that 26 is the least match.
    for m in 0..26 {
        assert!(!calculate_hash(&job, m).starts_with("0"));
    }
    assert!(calculate_hash(&job, 26).starts_with("0"));
}

#[test]
fn search_abc_difficulty_four() {
    // The reference difficulty: four leading zero characters.
    let job = make_job("j", "abc");
    let (nonce, hash) = search(&job, 4).expect("a match exists");
    assert_eq!(nonce, 93803);
    assert_eq!(
        hash,
        "00007e6516048fbcbdc5b9e74f8de7f539cba9503fba4c2b418ff2fc4e55d141"
    );
    assert!(hash.starts_with("0000"));
}

#[test]
fn earlier_nonces_all_fail() {
    let job = make_job("j", "prevhash");
    let (nonce, hash) = search(&job, 2).expect("a match exists");
    for m in 0..nonce {
        assert!(!calculate_hash(&job, m).starts_with("00"));
    }
    assert!(hash.starts_with("00"));
    assert_eq!(hash, calculate_hash(&job, nonce));
}

#[test]
fn search_deterministic() {
    let job = make_job("j", "determinism");
    assert_eq!(search(&job, 2), search(&job, 2));
}

#[test]
fn job_from_complete_fields() {
    let job = job_from_fields(
        Some("j1".to_string()),
        Some("ph".to_string()),
        Some("c1".to_string()),
        Some("c2".to_string()),
        Some(vec!["m0".to_string()]),
        Some("v".to_string()),
        Some("nb".to_string()),
        Some("nt".to_string()),
        Some(false),
    )
    .expect("all fields present");
    assert_eq!(job.job_id, "j1");
    assert_eq!(job.prev_hash, "ph");
    assert_eq!(job.coinb1, "c1");
    assert_eq!(job.coinb2, "c2");
    assert_eq!(job.merkle_branch, vec!["m0".to_string()]);
    assert_eq!(job.version, "v");
    assert_eq!(job.nbits, "nb");
    assert_eq!(job.ntime, "nt");
    assert!(!job.clean_jobs);
}

#[test]
fn job_missing_field_is_rejected() {
    // A response without its previous hash cannot become a job.
    let r = job_from_fields(
        Some("j1".to_string()),
        None,
        Some("c1".to_string()),
        Some("c2".to_string()),
        Some(vec![]),
        Some("v".to_string()),
        Some("nb".to_string()),
        Some("nt".to_string()),
        Some(true),
    );
    assert_eq!(r.unwrap_err(), JobDecodeError::MissingField);
}

#[test]
fn payload_exact() {
    let job = make_job("job1", "abc");
    assert_eq!(solution_payload(&job, 26, "addr"), "job1:26:addr");
    assert_eq!(solution_payload(&job, 0, ""), "job1:0:");
    let job2 = make_job("", "abc");
    assert_eq!(solution_payload(&job2, 18446744073709551615, "a b"), ":18446744073709551615:a b");
}
