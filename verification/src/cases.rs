//! The up-front sanity check on the case inputs: there must be at least one
//! case, and every case's input file must be present before the first case
//! runs. Whether each file exists is established outside the library and
//! handed in as one flag per case.

use vstd::prelude::*;

verus! {

/// Why the run cannot start.
#[derive(Clone, Copy, Debug, PartialEq, Eq, Structural)]
pub enum CaseCheckError {
    /// The configured case count is zero.
    NoCases,
    /// The named case's input file is missing.
    MissingCase(u32),
}

/// Checks the case count and the case inputs. `present[i]` says whether the
/// input file for case `i + 1` exists. Passes exactly when there is at
/// least one case and every input is present; otherwise names the first
/// missing case.
pub fn count(case_count: u32, present: &Vec<bool>) -> (r: Result<(), CaseCheckError>)
    requires
        present@.len() == case_count,
    ensures
        match r {
            Ok(_) => {
                &&& case_count >= 1
                &&& forall|i: int| 0 <= i < present@.len() ==> #[trigger] present@[i]
            },
            Err(e) => match e {
                CaseCheckError::NoCases => case_count == 0,
                CaseCheckError::MissingCase(id) => {
                    &&& 1 <= id <= case_count
                    &&& !present@[id - 1]
                    &&& forall|i: int| 0 <= i < id - 1 ==> #[trigger] present@[i]
                },
            },
        },
{
    if case_count == 0 {
        return Err(CaseCheckError::NoCases);
    }
    let n = present.len();
    let mut i: usize = 0;
    while i < n
        invariant
            0 <= i <= n,
            n == present@.len(),
            n == case_count,
            forall|k: int| 0 <= k < i ==> #[trigger] present@[k],
        decreases n - i,
    {
        if !present[i] {
            return Err(CaseCheckError::MissingCase(i as u32 + 1));
        }
        i = i + 1;
    }
    Ok(())
}

} // verus!
