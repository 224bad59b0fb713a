//! Filesystem paths as plain values, and where the backend and its data live.
use vstd::prelude::*;

verus! {

/// A path: a root (such as `/` or a drive) followed by named components.
#[derive(Clone, Debug, PartialEq, Eq)]
pub struct LocalPath {
    pub root: String,
    pub parts: Vec<String>,
}

/// What a path denotes: its root and the sequence of its component names.
pub type PathView = (Seq<char>, Seq<Seq<char>>);

impl View for LocalPath {
    type V = PathView;

    open spec fn view(&self) -> PathView {
        (self.root@, names(self.parts@))
    }
}

/// The texts of a sequence of strings.
pub open spec fn names(v: Seq<String>) -> Seq<Seq<char>> {
    v.map_values(|p: String| p@)
}

/// `p` extended by one component.
pub open spec fn joined(p: PathView, name: Seq<char>) -> PathView {
    (p.0, p.1.push(name))
}

/// The name of the directory that holds the desktop shell's own sources.
pub open spec fn shell_dir_name() -> Seq<char> {
    "src-tauri"@
}

/// The project root seen from `cwd`: one level up where `cwd` is the shell's
/// own directory, `cwd` itself otherwise.
pub open spec fn project_root_of(cwd: PathView) -> PathView {
    if cwd.1.len() > 0 && cwd.1.last() == shell_dir_name() {
        (cwd.0, cwd.1.drop_last())
    } else {
        cwd
    }
}

/// The backend directory under a project root or an installation directory.
pub open spec fn backend_under(dir: PathView) -> PathView {
    joined(dir, "backend"@)
}

/// The development data directory under a project root.
pub open spec fn storage_under(root: PathView) -> PathView {
    joined(joined(root, "backend"@), "storage"@)
}

/// The production data directory under the platform's data directory.
pub open spec fn data_under(platform: PathView) -> PathView {
    joined(platform, "data"@)
}

/// Development layout seen from a working directory `cwd`: from the shell's
/// own directory the backend and its data sit one level up, from any other
/// directory they sit under `cwd` itself.
pub proof fn lemma_development_layout(cwd: PathView)
    ensures
        cwd.1.len() > 0 && cwd.1.last() == shell_dir_name() ==> {
            &&& backend_under(project_root_of(cwd)) == (cwd.0, cwd.1.drop_last().push("backend"@))
            &&& storage_under(project_root_of(cwd)) == (
                cwd.0,
                cwd.1.drop_last().push("backend"@).push("storage"@),
            )
        },
        !(cwd.1.len() > 0 && cwd.1.last() == shell_dir_name()) ==> {
            &&& backend_under(project_root_of(cwd)) == (cwd.0, cwd.1.push("backend"@))
            &&& storage_under(project_root_of(cwd)) == (
                cwd.0,
                cwd.1.push("backend"@).push("storage"@),
            )
        },
{
}

/// The entry file of the backend.
pub open spec fn entry_under(backend: PathView) -> PathView {
    joined(backend, "server.js"@)
}

/// The directory whose presence shows that the backend's dependencies are installed.
pub open spec fn deps_under(backend: PathView) -> PathView {
    joined(backend, "node_modules"@)
}

/// The file that receives the backend's output in production.
pub open spec fn log_file_under(app_data: PathView) -> PathView {
    joined(joined(app_data, "logs"@), "backend.log"@)
}

impl LocalPath {
    /// A path equal to this one.
    pub fn copy(&self) -> (r: LocalPath)
        ensures
            r@ == self@,
    {
        let mut parts: Vec<String> = Vec::new();
        let mut i: usize = 0;
        while i < self.parts.len()
            invariant
                i <= self.parts@.len(),
                parts@.len() == i,
                names(parts@) == names(self.parts@.take(i as int)),
            decreases self.parts.len() - i,
        {
            let ghost before = parts@;
            let part = self.parts[i].clone();
            parts.push(part);
            proof {
                assert forall|j: int| 0 <= j < i + 1 implies names(parts@)[j] == names(
                    self.parts@.take(i + 1),
                )[j] by {
                    if j < i {
                        assert(names(before)[j] == names(self.parts@.take(i as int))[j]);
                    }
                }
                assert(self.parts@.take(i + 1) == self.parts@.take(i as int).push(self.parts@[i as int]));
                assert(names(parts@) =~= names(self.parts@.take(i + 1)));
            }
            i = i + 1;
        }
        assert(self.parts@.take(i as int) == self.parts@);
        LocalPath { root: self.root.clone(), parts }
    }

    /// This path extended by the component `name`.
    pub fn join(&self, name: &str) -> (r: LocalPath)
        ensures
            r@ == joined(self@, name@),
    {
        let mut r = self.copy();
        r.parts.push(String::from_str(name));
        assert(r@.1 == self@.1.push(name@));
        r
    }

    /// The path one level up, if this one has a component to remove.
    pub fn parent(&self) -> (r: Option<LocalPath>)
        ensures
            self@.1.len() == 0 <==> r is None,
            r matches Some(p) ==> p@ == (self@.0, self@.1.drop_last()),
    {
        if self.parts.len() == 0 {
            None
        } else {
            let mut p = self.copy();
            p.parts.pop();
            assert(p@.1 == self@.1.drop_last());
            Some(p)
        }
    }
}

/// Where the backend lives and where its data goes.
#[derive(Clone, Debug, PartialEq, Eq)]
pub struct BackendPaths {
    pub backend_dir: LocalPath,
    pub app_data_dir: LocalPath,
}

/// The project root seen from the working directory `cwd`.
pub fn project_root(cwd: &LocalPath) -> (r: LocalPath)
    ensures
        r@ == project_root_of(cwd@),
{
    let n = cwd.parts.len();
    if n > 0 {
        let shell = String::from_str("src-tauri");
        if cwd.parts[n - 1] == shell {
            let p = cwd.parent();
            match p {
                Some(p) => return p,
                None => {},
            }
        }
    }
    cwd.copy()
}

/// The development layout: the backend sits in `backend` under the project
/// root, and its data in `backend/storage`.
pub fn development_paths(cwd: &LocalPath) -> (r: BackendPaths)
    ensures
        r.backend_dir@ == backend_under(project_root_of(cwd@)),
        r.app_data_dir@ == storage_under(project_root_of(cwd@)),
{
    let root = project_root(cwd);
    let backend_dir = root.join("backend");
    let app_data_dir = backend_dir.join("storage");
    BackendPaths { backend_dir, app_data_dir }
}

/// The backend directory that an installation directory would hold.
pub fn backend_candidate(dir: &LocalPath) -> (r: LocalPath)
    ensures
        r@ == backend_under(dir@),
{
    dir.join("backend")
}

/// The production data directory under the platform's data directory, which the
/// platform may fail to name.
pub fn production_app_data_dir(platform: Option<&LocalPath>) -> (r: Result<
    LocalPath,
    crate::error::StartError,
>)
    ensures
        platform is None ==> r == Err::<LocalPath, crate::error::StartError>(
            crate::error::StartError::AppDataDirUnavailable,
        ),
        platform matches Some(d) ==> (r matches Ok(p) && p@ == data_under(d@)),
{
    match platform {
        Some(d) => Ok(d.join("data")),
        None => Err(crate::error::StartError::AppDataDirUnavailable),
    }
}

/// The fallback chain of the packaged layout: the backend beside the bundled
/// resources if it exists there, else the one beside the executable if it exists
/// there, else an error that names every location tried.
pub open spec fn select_backend(
    resource: Option<PathView>,
    resource_exists: bool,
    executable: Option<PathView>,
    executable_exists: bool,
) -> Option<PathView> {
    if resource is Some && resource_exists {
        resource
    } else if executable is Some && executable_exists {
        executable
    } else {
        None
    }
}

/// The packaged layout's fallback: a missing resource backend gives way to an
/// existing one beside the executable, and where neither exists none is chosen.
pub proof fn lemma_backend_fallback(resource: PathView, executable: PathView, resource_exists: bool)
    ensures
        select_backend(Some(resource), false, Some(executable), true) == Some(executable),
        select_backend(Some(resource), false, Some(executable), false) is None,
        select_backend(Some(resource), true, Some(executable), resource_exists) == Some(resource),
{
}

/// Picks the backend directory of a packaged installation. `resource` and
/// `executable` are the candidates (`backend` under the bundled resources and
/// beside the executable), each with whether it exists on disk.
pub fn select_backend_dir(
    resource: Option<LocalPath>,
    resource_exists: bool,
    executable: Option<LocalPath>,
    executable_exists: bool,
) -> (r: Result<LocalPath, crate::error::StartError>)
    ensures
        select_backend(
            view_of(resource),
            resource_exists,
            view_of(executable),
            executable_exists,
        ) matches Some(p) ==> (r matches Ok(d) && d@ == p),
        select_backend(view_of(resource), resource_exists, view_of(executable), executable_exists)
            is None ==> r == Err::<LocalPath, crate::error::StartError>(
            crate::error::StartError::PathResolution { resource, executable },
        ),
{
    if resource.is_some() && resource_exists {
        match resource {
            Some(p) => Ok(p),
            None => Err(crate::error::StartError::PathResolution { resource, executable }),
        }
    } else if executable.is_some() && executable_exists {
        match executable {
            Some(p) => Ok(p),
            None => Err(crate::error::StartError::PathResolution { resource, executable }),
        }
    } else {
        Err(crate::error::StartError::PathResolution { resource, executable })
    }
}

/// The view of an optional path.
pub open spec fn view_of(p: Option<LocalPath>) -> Option<PathView> {
    match p {
        Some(q) => Some(q@),
        None => None,
    }
}

/// The backend's entry file.
pub fn entry_file(backend_dir: &LocalPath) -> (r: LocalPath)
    ensures
        r@ == entry_under(backend_dir@),
{
    backend_dir.join("server.js")
}

/// The marker directory of the backend's installed dependencies.
pub fn dependencies_marker(backend_dir: &LocalPath) -> (r: LocalPath)
    ensures
        r@ == deps_under(backend_dir@),
{
    backend_dir.join("node_modules")
}

/// The directory that holds the backend's log.
pub fn log_dir(app_data_dir: &LocalPath) -> (r: LocalPath)
    ensures
        r@ == joined(app_data_dir@, "logs"@),
{
    app_data_dir.join("logs")
}

/// The file that receives the backend's output in production.
pub fn log_file(app_data_dir: &LocalPath) -> (r: LocalPath)
    ensures
        r@ == log_file_under(app_data_dir@),
{
    log_dir(app_data_dir).join("backend.log")
}

} // verus!
