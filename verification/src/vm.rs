//! The virtual machine's exit-status latch: set once by the first vCPU
//! that decides to exit, read by the run loop. A status of -1 means the
//! machine is still running.
use vstd::prelude::*;

verus! {

/// The process exit status; -1 while the machine runs.
pub struct ExitStatus {
    pub status: i32,
}

impl Default for ExitStatus {
    /// A machine that has not exited.
    fn default() -> (r: ExitStatus)
        ensures
            r.status == -1,
    {
        ExitStatus { status: -1 }
    }
}

/// The machine runs while no exit status has been posted.
pub fn IsRunning(s: &ExitStatus) -> (r: bool)
    ensures
        r == (s.status == -1),
{
    s.status == -1
}

pub fn SetExitStatus(s: &mut ExitStatus, status: i32)
    ensures
        final(s).status == status,
{
    s.status = status;
}

pub fn GetExitStatus(s: &ExitStatus) -> (r: i32)
    ensures
        r == s.status,
{
    s.status
}

} // verus!
