use vstd::prelude::*;

verus! {

/// Why a backup run stopped.
#[derive(Clone, Copy, Debug, PartialEq, Eq, Structural)]
pub enum BackupError {
    /// A configuration value is missing or malformed.
    Config,
    /// The database server could not be reached or refused the login.
    Connection,
    /// The catalog of databases could not be read.
    Discovery,
    /// The dump utility could not be started.
    DumpSpawn,
    /// The dump utility started but failed or was killed.
    DumpExecution,
    /// The compressed archive could not be finished.
    Compression,
    /// The object store did not accept the archive.
    Upload,
}

/// How a dump attempt failed.
#[derive(Clone, Copy, Debug, PartialEq, Eq, Structural)]
pub enum DumpFailure {
    /// The utility could not be started.
    Spawn,
    /// The utility exited with a failure status or was killed.
    Execution,
}

/// The error that ends a run on a dump failure.
pub open spec fn dump_error_spec(f: DumpFailure) -> BackupError {
    match f {
        DumpFailure::Spawn => BackupError::DumpSpawn,
        DumpFailure::Execution => BackupError::DumpExecution,
    }
}

impl DumpFailure {
    /// The error that ends a run on this failure.
    pub fn to_error(self) -> (r: BackupError)
        ensures
            r == dump_error_spec(self),
    {
        match self {
            DumpFailure::Spawn => BackupError::DumpSpawn,
            DumpFailure::Execution => BackupError::DumpExecution,
        }
    }
}

} // verus!
