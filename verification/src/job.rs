//! The mining job descriptor, as the pool hands it out.

use vstd::prelude::*;

verus! {

/// A mining job. All fields are opaque pass-through data except
/// `prev_hash`, which the proof-of-work search hashes together with the
/// candidate nonce, and `job_id`, which names the job in the submitted
/// solution.
#[derive(Debug)]
pub struct MiningJob {
    pub job_id: String,
    pub prev_hash: String,
    pub coinb1: String,
    pub coinb2: String,
    pub merkle_branch: Vec<String>,
    pub version: String,
    pub nbits: String,
    pub ntime: String,
    pub clean_jobs: bool,
}

/// Why a job could not be built from a pool response.
#[derive(Debug, PartialEq, Eq, Structural)]
pub enum JobDecodeError {
    /// A required field was absent from the response.
    MissingField,
}

/// Builds a job from the fields of a decoded pool response. Every field is
/// required: the job comes back exactly as handed in when all fields are
/// present, and `MissingField` when any is absent.
pub fn job_from_fields(
    job_id: Option<String>,
    prev_hash: Option<String>,
    coinb1: Option<String>,
    coinb2: Option<String>,
    merkle_branch: Option<Vec<String>>,
    version: Option<String>,
    nbits: Option<String>,
    ntime: Option<String>,
    clean_jobs: Option<bool>,
) -> (r: Result<MiningJob, JobDecodeError>)
    ensures
        r is Ok <==> (job_id is Some && prev_hash is Some && coinb1 is Some && coinb2 is Some
            && merkle_branch is Some && version is Some && nbits is Some && ntime is Some
            && clean_jobs is Some),
        r matches Ok(j) ==> {
            &&& j.job_id == job_id.unwrap()
            &&& j.prev_hash == prev_hash.unwrap()
            &&& j.coinb1 == coinb1.unwrap()
            &&& j.coinb2 == coinb2.unwrap()
            &&& j.merkle_branch == merkle_branch.unwrap()
            &&& j.version == version.unwrap()
            &&& j.nbits == nbits.unwrap()
            &&& j.ntime == ntime.unwrap()
            &&& j.clean_jobs == clean_jobs.unwrap()
        },
        r is Err ==> r == Err::<MiningJob, JobDecodeError>(JobDecodeError::MissingField),
{
    match (job_id, prev_hash, coinb1, coinb2, merkle_branch, version, nbits, ntime, clean_jobs) {
        (
            Some(job_id),
            Some(prev_hash),
            Some(coinb1),
            Some(coinb2),
            Some(merkle_branch),
            Some(version),
            Some(nbits),
            Some(ntime),
            Some(clean_jobs),
        ) => Ok(
            MiningJob {
                job_id,
                prev_hash,
                coinb1,
                coinb2,
                merkle_branch,
                version,
                nbits,
                ntime,
                clean_jobs,
            },
        ),
        _ => Err(JobDecodeError::MissingField),
    }
}

} // verus!
