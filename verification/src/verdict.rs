//! The closed set of outcomes a case can have, and the label each one
//! carries in the result file.

use vstd::prelude::*;

verus! {

/// Outcome of judging one case.
///
/// `ProcessVanished` is an internal sentinel: the memory observer reports it
/// when the child disappears between samples, deferring the decision to the
/// completion observer. It never stands in a final result.
#[derive(Clone, Copy, Debug, PartialEq, Eq, Structural)]
pub enum Verdict {
    /// The child exited with success status within the limits.
    Accepted,
    /// The child could not be spawned, exited with non-success status,
    /// or its exit could not be observed.
    RuntimeError,
    /// Wall-clock time passed the configured bound before completion.
    TimeLimit,
    /// A sample of resident memory strictly exceeded the configured bound.
    MemoryLimit,
    /// The memory observer found no such process; another observer decides.
    ProcessVanished,
}

/// The label a verdict carries in the result file.
pub open spec fn label_spec(v: Verdict) -> Seq<char> {
    match v {
        Verdict::Accepted => "OK"@,
        Verdict::RuntimeError => "RE"@,
        Verdict::TimeLimit => "TLE"@,
        Verdict::MemoryLimit => "MLE"@,
        Verdict::ProcessVanished => "CONTINUE"@,
    }
}

/// True of the verdicts that may stand in a final result.
pub open spec fn is_final_verdict(v: Verdict) -> bool {
    v != Verdict::ProcessVanished
}

impl Verdict {
    /// The status string written to the result file for this verdict.
    pub fn label(self) -> (s: &'static str)
        ensures
            s@ == label_spec(self),
    {
        match self {
            Verdict::Accepted => "OK",
            Verdict::RuntimeError => "RE",
            Verdict::TimeLimit => "TLE",
            Verdict::MemoryLimit => "MLE",
            Verdict::ProcessVanished => "CONTINUE",
        }
    }
}

} // verus!
