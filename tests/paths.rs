use backend_supervisor::error::StartError;
use backend_supervisor::paths::{
    backend_candidate, dependencies_marker, development_paths, entry_file, log_file,
    production_app_data_dir, project_root, select_backend_dir, LocalPath,
};

fn path(root: &str, parts: &[&str]) -> LocalPath {
    LocalPath { root: root.to_string(), parts: parts.iter().map(|p| p.to_string()).collect() }
}

#[test]
fn join_adds_one_component() {
    let p = path("/", &["home", "me"]).join("backend");
    assert_eq!(p, path("/", &["home", "me", "backend"]));
}

#[test]
fn parent_removes_last_component() {
    assert_eq!(path("/", &["a", "b"]).parent(), Some(path("/", &["a"])));
    assert_eq!(path("/", &[]).parent(), None);
}

#[test]
fn project_root_goes_up_from_shell_directory() {
    let cwd = path("/", &["work", "app", "src-tauri"]);
    assert_eq!(project_root(&cwd), path("/", &["work", "app"]));
}

#[test]
fn project_root_stays_elsewhere() {
    let cwd = path("/", &["work", "app"]);
    assert_eq!(project_root(&cwd), cwd);
    let near = path("/", &["work", "src-tauri-old"]);
    assert_eq!(project_root(&near), near);
}

#[test]
fn development_paths_from_shell_directory() {
    let r = development_paths(&path("/", &["work", "app", "src-tauri"]));
    assert_eq!(r.backend_dir, path("/", &["work", "app", "backend"]));
    assert_eq!(r.app_data_dir, path("/", &["work", "app", "backend", "storage"]));
}

#[test]
fn development_paths_from_project_root() {
    let r = development_paths(&path("/", &["work", "app"]));
    assert_eq!(r.backend_dir, path("/", &["work", "app", "backend"]));
    assert_eq!(r.app_data_dir, path("/", &["work", "app", "backend", "storage"]));
}

#[test]
fn development_paths_at_filesystem_root() {
    let r = development_paths(&path("/", &[]));
    assert_eq!(r.backend_dir, path("/", &["backend"]));
}

#[test]
fn production_data_dir_is_under_platform_dir() {
    let platform = path("/", &["home", "me", ".local", "share", "app"]);
    let r = production_app_data_dir(Some(&platform));
    assert_eq!(r, Ok(path("/", &["home", "me", ".local", "share", "app", "data"])));
}

#[test]
fn production_data_dir_needs_platform_dir() {
    assert_eq!(production_app_data_dir(None), Err(StartError::AppDataDirUnavailable));
}

#[test]
fn resource_backend_preferred_when_present() {
    let res = backend_candidate(&path("/", &["opt", "app", "resources"]));
    let exe = backend_candidate(&path("/", &["opt", "app", "bin"]));
    let r = select_backend_dir(Some(res.clone()), true, Some(exe), true);
    assert_eq!(r, Ok(res));
}

#[test]
fn executable_backend_used_when_resource_missing() {
    let res = backend_candidate(&path("/", &["opt", "app", "resources"]));
    let exe = backend_candidate(&path("/", &["opt", "app", "bin"]));
    let r = select_backend_dir(Some(res), false, Some(exe.clone()), true);
    assert_eq!(r, Ok(exe));
}

#[test]
fn missing_everywhere_names_both_locations() {
    let res = backend_candidate(&path("/", &["opt", "app", "resources"]));
    let exe = backend_candidate(&path("/", &["opt", "app", "bin"]));
    let r = select_backend_dir(Some(res.clone()), false, Some(exe.clone()), false);
    assert_eq!(r, Err(StartError::PathResolution { resource: Some(res), executable: Some(exe) }));
}

#[test]
fn no_candidates_is_a_resolution_error() {
    let r = select_backend_dir(None, false, None, false);
    assert_eq!(r, Err(StartError::PathResolution { resource: None, executable: None }));
}

#[test]
fn layout_files() {
    let b = path("C:\\", &["app", "backend"]);
    assert_eq!(entry_file(&b), path("C:\\", &["app", "backend", "server.js"]));
    assert_eq!(dependencies_marker(&b), path("C:\\", &["app", "backend", "node_modules"]));
    let d = path("/", &["data"]);
    assert_eq!(log_file(&d), path("/", &["data", "logs", "backend.log"]));
}
