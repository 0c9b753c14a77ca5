use vstd::prelude::*;
use crate::error::LaunchError;

verus! {

/// The kernel namespaces that the isolated process receives.
#[derive(Debug, Clone, Copy, PartialEq, Eq, Structural)]
pub struct Namespaces {
    pub uts: bool,
    pub pid: bool,
    pub mount: bool,
}

/// How the waited-for process was reported to have changed state.
#[derive(Debug, Clone, Copy, PartialEq, Eq, Structural)]
pub enum WaitReport {
    Exited(i32),
    Signaled,
    Stopped,
    Continued,
    Other,
}

/// The namespace set of every launch: new UTS, PID and mount namespaces.
pub fn isolation_namespaces() -> (r: Namespaces)
    ensures
        r.uts && r.pid && r.mount,
{
    Namespaces { uts: true, pid: true, mount: true }
}

/// Interprets the wait for the isolated process (`None` when no report could
/// be had): a clean exit is success whatever its code; anything else is a
/// launch failure.
pub fn launch_result(report: Option<WaitReport>) -> (r: Result<(), LaunchError>)
    ensures
        r is Ok <==> (report matches Some(WaitReport::Exited(_))),
        r is Err ==> r == Err::<(), LaunchError>(LaunchError::Wait),
{
    match report {
        Some(WaitReport::Exited(_)) => Ok(()),
        _ => Err(LaunchError::Wait),
    }
}

/// The launcher's own exit status: 0 on success, 1 on failure.
pub fn exit_status(r: Result<(), LaunchError>) -> (code: i32)
    ensures
        r is Ok ==> code == 0,
        r is Err ==> code == 1,
{
    match r {
        Ok(()) => 0,
        Err(_) => 1,
    }
}

} // verus!
