//! The supervisor's decisions for one case: mapping the child's exit to a
//! verdict, picking the single winner of the observer race, filling the
//! case record, and deciding whether the process group must be killed.
//!
//! The OS work around these decisions — spawning, waiting, sleeping,
//! sampling and signalling — happens outside the library; each outcome is
//! handed in here as a plain value.

use vstd::prelude::*;
use crate::record::{TestResult, result_wf};
use crate::verdict::{Verdict, is_final_verdict};

verus! {

/// The verdict of the observer that waits for the child to exit.
/// `Some(true)` is a successful exit, `Some(false)` a non-success exit,
/// `None` an exit that could not be observed. Only a clean success is
/// accepted; the rest is a runtime error.
pub fn completion_verdict(exit_success: Option<bool>) -> (v: Verdict)
    ensures
        v == (if exit_success == Some(true) {
            Verdict::Accepted
        } else {
            Verdict::RuntimeError
        }),
{
    match exit_success {
        Some(true) => Verdict::Accepted,
        _ => Verdict::RuntimeError,
    }
}

/// Winner selection for the observer race. `first` is the verdict of the
/// first observer to finish. Only when it is the memory observer's sentinel
/// does the race continue; `second`, the verdict of the first of the two
/// remaining observers, then decides. Exactly one verdict comes out, it is
/// one of the two, and it is never the sentinel.
pub fn select_winner(first: Verdict, second: Verdict) -> (w: Verdict)
    requires
        is_final_verdict(second),
    ensures
        w == (if first == Verdict::ProcessVanished {
            second
        } else {
            first
        }),
        is_final_verdict(w),
{
    if first == Verdict::ProcessVanished {
        second
    } else {
        first
    }
}

/// Cleanup policy: the child's process group is signalled exactly when the
/// verdict is not an accepting one. On success the child has already exited
/// and signalling would be racy.
pub fn needs_kill(v: Verdict) -> (r: bool)
    ensures
        r == (v != Verdict::Accepted),
{
    match v {
        Verdict::Accepted => false,
        _ => true,
    }
}

/// Fills the record for a case that was spawned and judged: the elapsed
/// wall-clock span between the two timestamps and the quiesced peak memory.
pub fn finish_case(case_id: u32, status: Verdict, start: u128, end: u128, peak: u64) -> (r:
    TestResult)
    requires
        case_id >= 1,
        is_final_verdict(status),
        start <= end,
        end - start <= u64::MAX,
    ensures
        r == (TestResult { case_id, status, time_used: (end - start) as u64, space_used: peak }),
        result_wf(r),
{
    TestResult { case_id, status, time_used: (end - start) as u64, space_used: peak }
}

/// The record for a case whose child could not even be spawned: a runtime
/// error with no time and no memory charged, since no observer ever ran.
pub fn spawn_failure(case_id: u32) -> (r: TestResult)
    requires
        case_id >= 1,
    ensures
        r == (TestResult {
            case_id,
            status: Verdict::RuntimeError,
            time_used: 0,
            space_used: 0,
        }),
        result_wf(r),
{
    TestResult { case_id, status: Verdict::RuntimeError, time_used: 0, space_used: 0 }
}

/// Resolves one spawned case: selects the single winning verdict of the
/// race, fills the record from the timestamps and the peak memory, and says
/// whether the process group must still be killed. Exactly one verdict is
/// assigned, and it is never the internal sentinel.
pub fn resolve_case(case_id: u32, first: Verdict, second: Verdict, start: u128, end: u128, peak: u64)
    -> (out: (TestResult, bool))
    requires
        case_id >= 1,
        is_final_verdict(second),
        start <= end,
        end - start <= u64::MAX,
    ensures
        out.0.case_id == case_id,
        out.0.status == (if first == Verdict::ProcessVanished {
            second
        } else {
            first
        }),
        is_final_verdict(out.0.status),
        out.0.time_used == end - start,
        out.0.space_used == peak,
        result_wf(out.0),
        out.1 == (out.0.status != Verdict::Accepted),
{
    let status = select_winner(first, second);
    let record = finish_case(case_id, status, start, end, peak);
    let kill = needs_kill(status);
    (record, kill)
}

} // verus!
