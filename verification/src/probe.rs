//! The one-shot memory probe: the current resident memory of one process,
//! or absent when no such process exists. Each call refreshes the reading;
//! nothing is cached between samples.

use vstd::prelude::*;

verus! {

/// Relies on sysinfo's `System`: refreshes the one process's memory
/// information and reads its resident set size in bytes; `None` when the
/// process does not exist. The reading is the host's view of the moment, so
/// nothing more is promised of it; the memory observer takes each reading
/// as a plain value and is verified for every value.
#[verifier::external_body]
pub fn process(pid: i32) -> (r: Option<u64>)
    requires
        pid >= 0,
{
    let pid = sysinfo::Pid::from_u32(pid as u32);
    let mut system = sysinfo::System::new();
    system.refresh_processes_specifics(
        sysinfo::ProcessesToUpdate::Some(&[pid]),
        true,
        sysinfo::ProcessRefreshKind::nothing().with_memory(),
    );
    match system.process(pid) {
        Some(p) => Some(p.memory()),
        None => None,
    }
}

} // verus!
