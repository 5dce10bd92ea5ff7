//! The one outside call the core's logic makes: the wall clock, read once
//! per job to build a staged output name unlikely to collide within a batch.
use vstd::prelude::*;
use crate::candidate::FileCandidate;
use crate::job::{make_job, spec_staged_input_path, spec_staged_output_path, TranscodeJob};

verus! {

/// Relies on time::OffsetDateTime::now_utc and unix_timestamp: the current
/// wall-clock time as whole seconds since the Unix epoch. Nothing can be
/// promised of a clock reading, so nothing is.
#[verifier::external_body]
pub fn now_unix_seconds() -> i64 {
    time::OffsetDateTime::now_utc().unix_timestamp()
}

/// Builds the job for one candidate, naming the staged output after the
/// clock: whatever second the clock returned, the three paths have exactly
/// the shapes the job machine relies on.
pub fn make_job_now(c: &FileCandidate, staging_dir: &Vec<u8>) -> (j: TranscodeJob)
    ensures
        j.source@ == c.path@,
        j.staged_input@ == spec_staged_input_path(staging_dir@, c.stem@, c.extension@),
        exists|ts: int| j.staged_output@ == #[trigger] spec_staged_output_path(
            staging_dir@,
            c.stem@,
            ts,
        ),
        j.staged_input@ != j.staged_output@,
{
    let ts = now_unix_seconds();
    let j = make_job(c, staging_dir, ts);
    proof {
        assert(j.staged_output@ == spec_staged_output_path(staging_dir@, c.stem@, ts as int));
    }
    j
}

} // verus!
