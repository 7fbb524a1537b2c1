//! Timing hooks around hostcalls and system calls. This build records
//! nothing: the hooks are no-ops.
use vstd::prelude::*;

verus! {

/// Starts a measurement; gives the start time (always 0 here).
pub fn start_timer() -> (r: u64)
    ensures
        r == 0,
{
    0
}

/// Ends a measurement; gives the end time (always 0 here).
pub fn stop_timer() -> (r: u64)
    ensures
        r == 0,
{
    0
}

/// Records the duration of a hostcall (nothing is recorded here).
pub fn push_hostcall_result(name: &str, start: u64, end: u64) {
}

/// Records the duration of a system call (nothing is recorded here).
pub fn push_syscall_result(name: &str, start: u64, end: u64) {
}

/// Prints the recorded hostcall durations (there are none here).
pub fn output_hostcall_perf_results() {
}

/// Prints the recorded system-call durations (there are none here).
pub fn output_syscall_perf_results() {
}

} // verus!
