//! The record produced for one judged case.

use vstd::prelude::*;
use crate::verdict::{Verdict, is_final_verdict};

verus! {

/// One case's outcome: its identifier, the verdict, the wall-clock
/// milliseconds spent, and the peak resident memory observed (bytes).
#[derive(Clone, Copy, Debug, PartialEq, Eq, Structural)]
pub struct TestResult {
    pub case_id: u32,
    pub status: Verdict,
    pub time_used: u64,
    pub space_used: u64,
}

/// A record fit to be emitted: a positive case identifier and a verdict
/// that is not the internal sentinel.
pub open spec fn result_wf(r: TestResult) -> bool {
    r.case_id >= 1 && is_final_verdict(r.status)
}

/// Accounting law: no record charges negative time or memory. Both counters
/// are unsigned by construction, so this holds of every record.
pub proof fn lemma_usage_nonnegative(r: TestResult)
    ensures
        r.time_used >= 0,
        r.space_used >= 0,
{
}

} // verus!
