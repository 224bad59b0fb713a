//! Finding the runtime, checking the backend's layout, and what to spawn.
use vstd::prelude::*;
use crate::error::StartError;
use crate::paths::{
    dependencies_marker, deps_under, entry_file, entry_under, log_file, log_file_under, LocalPath,
    PathView,
};
use crate::text::{decimal, decimal_text, strip_extended_prefix, without_extended_prefix};

verus! {

/// The executable name of the runtime that runs the backend.
pub open spec fn runtime_name_of(windows: bool) -> Seq<char> {
    if windows {
        "node.exe"@
    } else {
        "node"@
    }
}

/// The executable name of the runtime on the host platform.
pub fn runtime_name(windows: bool) -> (r: &'static str)
    ensures
        r@ == runtime_name_of(windows),
{
    if windows {
        "node.exe"
    } else {
        "node"
    }
}

/// Relies on which::which: the first executable of this name in the directories
/// of the search path, if any. What it finds depends on the environment and the disk.
#[verifier::external_body]
fn search_path(name: &str) -> (r: Option<String>) {
    which::which(name).ok().map(|p| p.to_string_lossy().into_owned())
}

/// Looks the runtime up on the search path, and only there.
pub fn lookup_runtime(windows: bool) -> (r: Option<String>) {
    search_path(runtime_name(windows))
}

/// Checks, in order, what must hold before the backend is spawned: the runtime
/// was found, the entry file exists, and (outside development) the dependencies
/// are installed. Returns the runtime's path when all hold.
pub fn preflight(
    runtime: Option<String>,
    backend_dir: &LocalPath,
    entry_exists: bool,
    deps_exists: bool,
    development: bool,
) -> (r: Result<String, StartError>)
    ensures
        runtime is None ==> r == Err::<String, StartError>(
            StartError::RuntimeNotFound { development },
        ),
        runtime is Some && !entry_exists ==> (r matches Err(
            StartError::BackendEntryMissing { entry, backend_dir: b },
        ) && entry@ == entry_under(backend_dir@) && b@ == backend_dir@),
        runtime is Some && entry_exists && !development && !deps_exists ==> (r matches Err(
            StartError::DependenciesMissing { marker },
        ) && marker@ == deps_under(backend_dir@)),
        runtime is Some && entry_exists && (development || deps_exists) ==> r == Ok::<
            String,
            StartError,
        >(runtime->0),
{
    match runtime {
        None => Err(StartError::RuntimeNotFound { development }),
        Some(p) => {
            if !entry_exists {
                Err(
                    StartError::BackendEntryMissing {
                        entry: entry_file(backend_dir),
                        backend_dir: backend_dir.copy(),
                    },
                )
            } else if !development && !deps_exists {
                Err(StartError::DependenciesMissing { marker: dependencies_marker(backend_dir) })
            } else {
                Ok(p)
            }
        },
    }
}

/// Where the backend's standard output and error go.
#[derive(Clone, Debug, PartialEq, Eq)]
pub enum OutputTarget {
    /// To the supervisor's own console.
    Inherit,
    /// Appended to this file, created if absent.
    AppendTo(LocalPath),
}

/// Everything needed to spawn the backend.
#[derive(Clone, Debug, PartialEq, Eq)]
pub struct LaunchPlan {
    pub program: String,
    pub entry: String,
    pub working_dir: String,
    pub env: Vec<(String, String)>,
    pub output: OutputTarget,
}

/// The texts of a list of environment entries.
pub open spec fn env_view(v: Seq<(String, String)>) -> Seq<(Seq<char>, Seq<char>)> {
    v.map_values(|e: (String, String)| (e.0@, e.1@))
}

/// The variables set for the backend, on top of the inherited environment.
pub open spec fn env_overrides(port: u16, app_data_dir: Seq<char>) -> Seq<(Seq<char>, Seq<char>)> {
    seq![
        ("MAX_ENV"@, "desktop"@),
        ("MAX_PORT"@, decimal(port as nat)),
        ("MAX_APP_DATA_DIR"@, app_data_dir),
    ]
}

fn env_entry(key: &str, value: String) -> (r: (String, String))
    ensures
        r.0@ == key@,
        r.1@ == value@,
{
    (String::from_str(key), value)
}

/// The environment overrides for a backend on `port` that keeps its data in
/// the directory whose text is `app_data_dir`.
pub fn backend_env(port: u16, app_data_dir: &str) -> (r: Vec<(String, String)>)
    ensures
        env_view(r@) == env_overrides(port, app_data_dir@),
{
    let mut env: Vec<(String, String)> = Vec::new();
    env.push(env_entry("MAX_ENV", String::from_str("desktop")));
    env.push(env_entry("MAX_PORT", decimal_text(port)));
    env.push(env_entry("MAX_APP_DATA_DIR", String::from_str(app_data_dir)));
    assert(env_view(env@) =~= env_overrides(port, app_data_dir@));
    env
}

/// The plan to run `runtime` on the entry file, from the backend directory,
/// with the overrides in its environment. The canonical path texts lose their
/// extended-length marker. Output is inherited in development and appended to
/// the log file otherwise.
pub fn launch_plan(
    runtime: String,
    canonical_entry: &str,
    canonical_backend_dir: &str,
    app_data_dir: &LocalPath,
    app_data_text: &str,
    port: u16,
    development: bool,
) -> (r: LaunchPlan)
    ensures
        r.program@ == runtime@,
        r.entry@ == without_extended_prefix(canonical_entry@),
        r.working_dir@ == without_extended_prefix(canonical_backend_dir@),
        env_view(r.env@) == env_overrides(port, app_data_text@),
        development ==> r.output is Inherit,
        !development ==> (r.output matches OutputTarget::AppendTo(f) && f@ == log_file_under(
            app_data_dir@,
        )),
{
    let output = if development {
        OutputTarget::Inherit
    } else {
        OutputTarget::AppendTo(log_file(app_data_dir))
    };
    LaunchPlan {
        program: runtime,
        entry: strip_extended_prefix(canonical_entry),
        working_dir: strip_extended_prefix(canonical_backend_dir),
        env: backend_env(port, app_data_text),
        output,
    }
}

} // verus!
