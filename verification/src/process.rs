//! Decisions about stopping a running program instance. Delivering the
//! signal is the embedding program's business; this module decides whether a
//! process id can be signalled at all, and as what.

use vstd::prelude::*;

verus! {

/// Why a process-control request is refused.
#[derive(Clone, Copy, PartialEq, Eq, Debug, Structural)]
pub enum ProcessError {
    /// The process id does not fit the platform's signed process id type.
    InvalidPid,
}

/// Decides the stop request for the process `pid`: the raw signed id that an
/// interrupt signal must be sent to, or a refusal when `pid` cannot be
/// represented. The embedding program delivers the signal.
pub fn stop(pid: u32) -> (r: Result<i32, ProcessError>)
    ensures
        pid <= i32::MAX as u32 ==> r == Ok::<i32, ProcessError>(pid as i32),
        pid > i32::MAX as u32 ==> r == Err::<i32, ProcessError>(ProcessError::InvalidPid),
{
    if pid <= 0x7fff_ffff {
        Ok(pid as i32)
    } else {
        Err(ProcessError::InvalidPid)
    }
}

} // verus!
