//! The sequential loop over cases: case identifiers are handed out in order
//! `1..=N`, one record is taken per case, and the finished vector carries
//! exactly one record per case, in that order.

use vstd::prelude::*;
use crate::record::{TestResult, result_wf};

verus! {

/// Accumulates one record per case, for cases `1..=case_count`, in order.
pub struct CaseDriver {
    pub case_count: u32,
    pub results: Vec<TestResult>,
}

impl CaseDriver {
    /// At most one record per case is held, the `i`-th record is for case
    /// `i + 1`, and every record is fit to emit.
    pub open spec fn wf(self) -> bool {
        &&& self.case_count >= 1
        &&& self.results@.len() <= self.case_count
        &&& forall|i: int|
            0 <= i < self.results@.len() ==> (#[trigger] self.results@[i]).case_id == i + 1
        &&& forall|i: int| 0 <= i < self.results@.len() ==> result_wf(#[trigger] self.results@[i])
    }

    /// A fresh driver with no case judged yet.
    pub fn new(case_count: u32) -> (d: CaseDriver)
        requires
            case_count >= 1,
        ensures
            d.wf(),
            d.case_count == case_count,
            d.results@ == Seq::<TestResult>::empty(),
    {
        CaseDriver { case_count, results: Vec::new() }
    }

    /// The identifier of the next case to judge, or `None` when every case
    /// has its record.
    pub fn next_case(&self) -> (c: Option<u32>)
        requires
            self.wf(),
        ensures
            c == (if self.results@.len() < self.case_count {
                Some((self.results@.len() + 1) as u32)
            } else {
                None::<u32>
            }),
    {
        let done = self.results.len();
        if done < self.case_count as usize {
            Some(done as u32 + 1)
        } else {
            None
        }
    }

    /// Takes the one record for the next case in order.
    pub fn record_case(&mut self, r: TestResult)
        requires
            old(self).wf(),
            old(self).results@.len() < old(self).case_count,
            r.case_id == old(self).results@.len() + 1,
            result_wf(r),
        ensures
            final(self).wf(),
            final(self).case_count == old(self).case_count,
            final(self).results@ == old(self).results@.push(r),
    {
        self.results.push(r);
    }

    /// Whether every case has its record.
    pub fn is_done(&self) -> (b: bool)
        requires
            self.wf(),
        ensures
            b == (self.results@.len() == self.case_count),
    {
        self.results.len() == self.case_count as usize
    }

    /// Hands the finished vector out: exactly one record per case, with
    /// `case_id` running `1, 2, …, case_count` in order.
    pub fn into_results(self) -> (v: Vec<TestResult>)
        requires
            self.wf(),
            self.results@.len() == self.case_count,
        ensures
            v@.len() == self.case_count,
            forall|i: int| 0 <= i < v@.len() ==> (#[trigger] v@[i]).case_id == i + 1,
            forall|i: int| 0 <= i < v@.len() ==> result_wf(#[trigger] v@[i]),
            v@ == self.results@,
    {
        self.results
    }
}

/// Winner-uniqueness law, at the level of the run: the records a
/// well-formed driver holds carry pairwise distinct case identifiers, so no
/// case is ever assigned two verdicts.
pub proof fn lemma_case_ids_unique(d: CaseDriver)
    requires
        d.wf(),
    ensures
        forall|i: int, j: int|
            0 <= i < d.results@.len() && 0 <= j < d.results@.len() && i != j
                ==> (#[trigger] d.results@[i]).case_id != (#[trigger] d.results@[j]).case_id,
{
}

} // verus!
