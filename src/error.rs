//! What can end an attempt to start the backend.
use vstd::prelude::*;
use crate::paths::LocalPath;

verus! {

/// The reasons a start attempt fails. Each is final for that attempt.
#[derive(Clone, Debug, PartialEq, Eq)]
pub enum StartError {
    /// The platform named no data directory for the application.
    AppDataDirUnavailable,
    /// No backend directory exists at any location tried; each tried location is named.
    PathResolution { resource: Option<LocalPath>, executable: Option<LocalPath> },
    /// The runtime that runs the backend is not on the search path.
    RuntimeNotFound { development: bool },
    /// The backend directory holds no entry file.
    BackendEntryMissing { entry: LocalPath, backend_dir: LocalPath },
    /// The backend's dependencies are not installed.
    DependenciesMissing { marker: LocalPath },
    /// A directory or the log file could not be made or opened.
    Io { detail: String },
    /// The operating system refused to start the process.
    Spawn { detail: String },
    /// The backend did not answer its health check in time.
    HealthCheckTimeout { attempts: u32, elapsed_ms: u64, port: u16, log_file: LocalPath },
}

} // verus!
