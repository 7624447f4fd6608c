//! The download-and-verify pipeline: a bounded-retry fetch decision,
//! the checksum gate that every artifact must pass before anything is
//! promoted to an installed state, and the verdict a whole fetch trace
//! yields.

use vstd::prelude::*;

use crate::error::SnmError;

verus! {

/// The fixed retry budget of the fetch step.
pub const FETCH_ATTEMPT_BUDGET: u64 = 3;

/// What one fetch attempt reported.
#[derive(Clone, Copy, PartialEq, Eq, Structural, Debug)]
pub enum FetchAttemptOutcome {
    /// The artifact arrived.
    Success,
    /// A transient network failure: worth retrying while budget lasts.
    TransientFailure,
    /// A non-success response: terminal, the resource is not there.
    HttpFailure,
}

/// What the fetch loop does after one attempt.
#[derive(Debug, PartialEq)]
pub enum FetchDecision {
    /// The artifact is on disk; move on to verification.
    Proceed,
    /// Try again, with this attempt number.
    Retry { next_attempt: u64 },
    /// Give up with this error.
    Fail(SnmError),
}

/// The decision after attempt number `attempt` (1-based) came back
/// with `outcome`: success proceeds, a transient failure is retried
/// until the budget is spent and then reported as a failed download,
/// and a non-success response fails at once as a missing resource.
pub fn fetch_step(attempt: u64, outcome: FetchAttemptOutcome, url: &str) -> (r: FetchDecision)
    requires
        1 <= attempt,
    ensures
        outcome == FetchAttemptOutcome::Success ==> r == FetchDecision::Proceed,
        outcome == FetchAttemptOutcome::TransientFailure && attempt < FETCH_ATTEMPT_BUDGET ==> r
            == (FetchDecision::Retry { next_attempt: (attempt + 1) as u64 }),
        outcome == FetchAttemptOutcome::TransientFailure && attempt >= FETCH_ATTEMPT_BUDGET ==> (r
            matches FetchDecision::Fail(e) && e matches SnmError::DownloadFailed { download_url }
            && download_url@ == url@),
        outcome == FetchAttemptOutcome::HttpFailure ==> (r matches FetchDecision::Fail(e) && e
            matches SnmError::ResourceNotFound { download_url } && download_url@ == url@),
{
    match outcome {
        FetchAttemptOutcome::Success => FetchDecision::Proceed,
        FetchAttemptOutcome::TransientFailure => {
            if attempt < FETCH_ATTEMPT_BUDGET {
                FetchDecision::Retry { next_attempt: attempt + 1 }
            } else {
                FetchDecision::Fail(SnmError::DownloadFailed { download_url: url.to_owned() })
            }
        },
        FetchAttemptOutcome::HttpFailure => FetchDecision::Fail(
            SnmError::ResourceNotFound { download_url: url.to_owned() },
        ),
    }
}

/// What a whole fetch trace comes to.
#[derive(Clone, Copy, PartialEq, Eq, Structural, Debug)]
pub enum FetchVerdict {
    /// Some attempt within the budget succeeded.
    Fetched,
    /// An attempt answered with a non-success response.
    NotFound,
    /// The budget was spent on transient failures.
    Exhausted,
}

/// The verdict of an attempt trace under a remaining budget: the
/// first terminal attempt within the budget decides; a trace that
/// runs out, like a budget that does, counts as exhausted.
pub open spec fn spec_fetch_verdict_from(t: Seq<FetchAttemptOutcome>, budget: nat) -> FetchVerdict
    decreases budget,
{
    if budget == 0 || t.len() == 0 {
        FetchVerdict::Exhausted
    } else {
        match t[0] {
            FetchAttemptOutcome::Success => FetchVerdict::Fetched,
            FetchAttemptOutcome::HttpFailure => FetchVerdict::NotFound,
            FetchAttemptOutcome::TransientFailure => spec_fetch_verdict_from(
                t.drop_first(),
                (budget - 1) as nat,
            ),
        }
    }
}

pub open spec fn spec_fetch_verdict(t: Seq<FetchAttemptOutcome>) -> FetchVerdict {
    spec_fetch_verdict_from(t, FETCH_ATTEMPT_BUDGET as nat)
}

/// Replays a fetch trace against the budget.
pub fn fetch_verdict(trace: &Vec<FetchAttemptOutcome>) -> (r: FetchVerdict)
    ensures
        r == spec_fetch_verdict(trace@),
{
    let n = trace.len();
    let mut i: usize = 0;
    proof {
        assert(trace@.skip(0) =~= trace@);
    }
    loop
        invariant
            i <= n,
            n == trace@.len(),
            i <= FETCH_ATTEMPT_BUDGET,
            spec_fetch_verdict(trace@) == spec_fetch_verdict_from(
                trace@.skip(i as int),
                (FETCH_ATTEMPT_BUDGET - i) as nat,
            ),
        ensures
            spec_fetch_verdict(trace@) == (if i < n && i < FETCH_ATTEMPT_BUDGET {
                match trace@[i as int] {
                    FetchAttemptOutcome::Success => FetchVerdict::Fetched,
                    FetchAttemptOutcome::HttpFailure => FetchVerdict::NotFound,
                    FetchAttemptOutcome::TransientFailure => FetchVerdict::Exhausted,
                }
            } else {
                FetchVerdict::Exhausted
            }),
            i <= n,
        decreases n - i,
    {
        if i >= n || i >= FETCH_ATTEMPT_BUDGET as usize {
            break;
        }
        match trace[i] {
            FetchAttemptOutcome::Success => {
                break;
            },
            FetchAttemptOutcome::HttpFailure => {
                break;
            },
            FetchAttemptOutcome::TransientFailure => {
                proof {
                    assert(trace@.skip(i as int).drop_first() =~= trace@.skip(i + 1));
                }
                i = i + 1;
            },
        }
    }
    if i < n && i < FETCH_ATTEMPT_BUDGET as usize {
        match trace[i] {
            FetchAttemptOutcome::Success => FetchVerdict::Fetched,
            FetchAttemptOutcome::HttpFailure => FetchVerdict::NotFound,
            FetchAttemptOutcome::TransientFailure => FetchVerdict::Exhausted,
        }
    } else {
        FetchVerdict::Exhausted
    }
}

/// The integrity gate: the fetched artifact's checksum must equal the
/// published one, else the hard verification failure naming the file
/// and both sums.
pub fn verify_integrity(file_path: &str, expect: &str, actual: &str) -> (r: Result<(), SnmError>)
    ensures
        expect@ == actual@ ==> r is Ok,
        expect@ != actual@ ==> (r matches Result::Err(e) && e matches
            SnmError::Sha256VerificationFailed { file_path: f, expect: x, actual: a } && f@
            == file_path@ && x@ == expect@ && a@ == actual@),
{
    if crate::strings::str_eq(expect, actual) {
        Ok(())
    } else {
        Err(
            SnmError::Sha256VerificationFailed {
                file_path: file_path.to_owned(),
                expect: expect.to_owned(),
                actual: actual.to_owned(),
            },
        )
    }
}

} // verus!
