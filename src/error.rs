use vstd::prelude::*;

verus! {

/// Why a launch could not go on.
#[derive(Debug, Clone, Copy, PartialEq, Eq, Structural)]
pub enum LaunchError {
    /// The invoking user, or that user's home directory, could not be resolved.
    Identity,
    /// A mount or an unmount was refused.
    Mount,
    /// The control group could not be created or written.
    ResourceSetup,
    /// A namespace request, the hostname change or the root change failed.
    Isolation,
    /// The target command could not be determined, found or started.
    Exec,
    /// The isolated process did not end with a clean exit report.
    Wait,
}

impl LaunchError {
    /// A short description of the failure, for diagnostics.
    pub fn describe(&self) -> (r: &'static str) {
        match self {
            LaunchError::Identity => "cannot resolve the invoking user's home directory",
            LaunchError::Mount => "mount or unmount failed",
            LaunchError::ResourceSetup => "failed to set up the control group",
            LaunchError::Isolation => "failed to isolate the process",
            LaunchError::Exec => "command invocation failed",
            LaunchError::Wait => "failed to exit cleanly",
        }
    }
}

} // verus!
