//! The failures a mount lifecycle can surface, each carrying what a caller
//! needs to diagnose it. Failure text may quote the tool's raw standard
//! error, but never the configured secret.

use vstd::prelude::*;

verus! {

/// Failure to build a handler from configuration values.
#[derive(Debug)]
pub enum ProtocolError {
    /// A required configuration value was absent; carries the key that names
    /// it.
    MissingConfigurationOption(String),
}

/// Failure of the mount operation.
#[derive(Debug)]
pub enum MountError {
    /// One or more required external binaries were not resolvable on the
    /// search path; carries their names. Raised before any subprocess runs.
    DependencyMissing(Vec<String>),
    /// The shell interpreter itself was not resolvable.
    ShellNotFound,
    /// The subprocess could not be spawned or awaited at all; carries the
    /// operating-system error text.
    ExecutionError(String),
    /// The mount tool ran but reported failure; carries its raw standard
    /// error text.
    MountFailed(String),
    /// Mount was requested on a handle that is already mounted. The
    /// state-typed handles make this unreachable; the variant remains for
    /// handlers that track their state with a run-time flag.
    AlreadyMounted,
}

/// Failure of the unmount operation, mirroring `MountError`.
#[derive(Debug)]
pub enum UnmountError {
    /// One or more required external binaries were not resolvable on the
    /// search path; carries their names. Raised before any subprocess runs.
    DependencyMissing(Vec<String>),
    /// The shell interpreter itself was not resolvable.
    ShellNotFound,
    /// The subprocess could not be spawned or awaited at all; carries the
    /// operating-system error text.
    ExecutionError(String),
    /// The unmount tool ran but reported failure; carries its raw standard
    /// error text.
    UnmountFailed(String),
    /// Unmount was requested on a handle that is not mounted. The state-typed
    /// handles make this unreachable; the variant remains for handlers that
    /// track their state with a run-time flag.
    NotMounted,
}

} // verus!
