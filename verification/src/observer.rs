//! The memory observer's state machine: it folds a stream of resident-memory
//! samples into a running peak and raises the memory verdict the moment a
//! sample passes the limit. The sampling cadence and the probe that takes
//! each sample live outside the library; each reading is handed in here.

use vstd::prelude::*;
use crate::verdict::Verdict;

verus! {

/// The larger of two readings.
pub open spec fn max64(a: u64, b: u64) -> u64 {
    if a >= b {
        a
    } else {
        b
    }
}

/// The peak after folding `samples` into an initial peak of `init`.
pub open spec fn peak_after(init: u64, samples: Seq<u64>) -> u64
    decreases samples.len(),
{
    if samples.len() == 0 {
        init
    } else {
        max64(peak_after(init, samples.drop_last()), samples.last())
    }
}

/// One case's memory watch: the configured limit, the peak observed so far,
/// and (as ghost state) the trace of samples folded in.
pub struct MemoryObserver {
    pub limit: u64,
    pub peak: u64,
    pub trace: Ghost<Seq<u64>>,
}

impl MemoryObserver {
    /// The peak is exactly the fold of the recorded trace.
    pub open spec fn wf(self) -> bool {
        self.peak == peak_after(0, self.trace@)
    }

    /// A fresh observer for one case: nothing sampled, peak zero.
    pub fn new(limit: u64) -> (o: MemoryObserver)
        ensures
            o.limit == limit,
            o.peak == 0,
            o.trace@ == Seq::<u64>::empty(),
            o.wf(),
    {
        MemoryObserver { limit, peak: 0, trace: Ghost(Seq::empty()) }
    }

    /// Folds one probe reading in. A present reading raises the peak to at
    /// least the reading and yields the memory verdict exactly when the
    /// reading is strictly over the limit; an absent reading changes nothing
    /// and yields the sentinel that defers to the completion observer.
    pub fn step(&mut self, sample: Option<u64>) -> (v: Option<Verdict>)
        requires
            old(self).wf(),
        ensures
            final(self).wf(),
            final(self).limit == old(self).limit,
            match sample {
                Some(m) => {
                    &&& final(self).trace@ == old(self).trace@.push(m)
                    &&& final(self).peak == max64(old(self).peak, m)
                    &&& v == (if m > old(self).limit {
                        Some(Verdict::MemoryLimit)
                    } else {
                        None::<Verdict>
                    })
                },
                None => {
                    &&& final(self).trace@ == old(self).trace@
                    &&& final(self).peak == old(self).peak
                    &&& v == Some(Verdict::ProcessVanished)
                },
            },
    {
        match sample {
            Some(m) => {
                proof {
                    let t = self.trace@.push(m);
                    assert(t.drop_last() =~= self.trace@);
                    assert(t.last() == m);
                }
                self.trace = Ghost(self.trace@.push(m));
                if m > self.peak {
                    self.peak = m;
                }
                if m > self.limit {
                    Some(Verdict::MemoryLimit)
                } else {
                    None
                }
            },
            None => Some(Verdict::ProcessVanished),
        }
    }
}

/// Peak-memory law: the folded peak is the maximum of the trace — every
/// sample is at most the peak, an empty trace leaves the peak at zero, and a
/// non-empty trace attains its peak at some sample.
pub proof fn lemma_peak_is_trace_max(samples: Seq<u64>)
    ensures
        forall|i: int| 0 <= i < samples.len() ==> #[trigger] samples[i] <= peak_after(0, samples),
        samples.len() == 0 ==> peak_after(0, samples) == 0,
        samples.len() > 0 ==> samples.contains(peak_after(0, samples)),
    decreases samples.len(),
{
    if samples.len() > 0 {
        lemma_peak_is_trace_max(samples.drop_last());
        let rest = samples.drop_last();
        assert(forall|i: int| 0 <= i < rest.len() ==> #[trigger] rest[i] == samples[i]);
        assert forall|i: int| 0 <= i < samples.len() implies #[trigger] samples[i] <= peak_after(
            0,
            samples,
        ) by {
            if i < samples.len() - 1 {
                assert(samples[i] == rest[i]);
                assert(rest[i] <= peak_after(0, rest));
            } else {
                assert(samples[i] == samples.last());
            }
        }
        if samples.len() == 1 {
            assert(peak_after(0, samples) == max64(0, samples.last()));
            assert(samples.contains(samples.last()));
        } else {
            if samples.last() >= peak_after(0, rest) {
                assert(samples.contains(samples.last()));
            } else {
                let j = choose|j: int| 0 <= j < rest.len() && rest[j] == peak_after(0, rest);
                assert(samples[j] == peak_after(0, samples));
                assert(samples.contains(samples[j]));
            }
        }
    }
}

} // verus!
