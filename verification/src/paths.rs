//! File-system paths as the library sees them: plain strings, combined and
//! inspected through `std::path`, plus the per-user directories that the
//! `directories` crate reports and the launch directories that the
//! application hands in.

use std::path::Path;

use directories::ProjectDirs;
use vstd::prelude::*;

verus! {

/// What `Path::new(base).join(rel)` renders as (`PathBuf::push` semantics of
/// the target platform: `rel` is appended after a separator, or replaces
/// `base` when it is absolute).
pub uninterp spec fn spec_path_join(base: Seq<char>, rel: Seq<char>) -> Seq<char>;

/// Whether `Path::new(p).is_absolute()` holds on the target platform.
pub uninterp spec fn spec_path_is_absolute(p: Seq<char>) -> bool;

/// Whether `Path::new(a) == Path::new(b)`: the two paths have the same
/// components.
pub uninterp spec fn spec_path_eq(a: Seq<char>, b: Seq<char>) -> bool;

/// What `Path::new(p).file_stem()` renders as.
pub uninterp spec fn spec_path_file_stem(p: Seq<char>) -> Option<Seq<char>>;

/// What `Path::new(p).with_extension(ext)` renders as.
pub uninterp spec fn spec_path_with_extension(p: Seq<char>, ext: Seq<char>) -> Seq<char>;

/// What `Path::new(p).parent()` renders as.
pub uninterp spec fn spec_path_parent(p: Seq<char>) -> Option<Seq<char>>;

/// A single plain path component: non-empty, with no separator (`/` or
/// `\`), no drive colon, and neither `.` nor `..`.
pub open spec fn is_plain_name(s: Seq<char>) -> bool {
    &&& s.len() > 0
    &&& !s.contains('/')
    &&& !s.contains('\\')
    &&& !s.contains(':')
    &&& s != seq!['.']
    &&& s != seq!['.', '.']
}

/// `std::path::Path::join`: `base` followed by `rel` as one path
/// (`PathBuf::push` rules). The result is named; the separator and the
/// platform's handling of roots and prefixes are not restated. Two facts that
/// std documents are stated: joining two plain names gives a path of two
/// normal components, which never equals the one-component path `rel`
/// (`Path` equality compares components); and when `base` is absolute the
/// result is absolute or carries its own drive prefix, so joining it onto
/// `base` again gives it back (an absolute path, or a prefix without a root,
/// replaces what it is pushed onto).
#[verifier::external_body]
pub(crate) fn path_join(base: &str, rel: &str) -> (r: String)
    ensures
        r@ == spec_path_join(base@, rel@),
        is_plain_name(base@) && is_plain_name(rel@) ==> !spec_path_eq(r@, rel@),
        spec_path_is_absolute(base@) ==> spec_path_join(base@, r@) == r@,
{
    Path::new(base).join(rel).to_string_lossy().into_owned()
}


/// `std::path::Path::is_absolute`, named by its result.
#[verifier::external_body]
pub(crate) fn path_is_absolute(p: &str) -> (r: bool)
    ensures
        r == spec_path_is_absolute(p@),
{
    Path::new(p).is_absolute()
}


/// `Path == Path` (`std::path::Path::eq`, which compares components). Two
/// identical strings name identical paths; what else counts as equal is left
/// to the name.
#[verifier::external_body]
pub(crate) fn path_eq(a: &str, b: &str) -> (r: bool)
    ensures
        r == spec_path_eq(a@, b@),
        a@ == b@ ==> r,
{
    Path::new(a) == Path::new(b)
}


/// `std::path::Path::file_stem`, converted to a string.
#[verifier::external_body]
pub(crate) fn path_file_stem(p: &str) -> (r: Option<String>)
    ensures
        r matches Some(s) ==> spec_path_file_stem(p@) == Some(s@),
        r is None ==> spec_path_file_stem(p@) is None,
{
    Path::new(p).file_stem().map(|s| s.to_string_lossy().into_owned())
}


/// `std::path::Path::with_extension`, converted to a string. It panics when
/// the extension holds a path separator, so `ext` must hold neither a slash
/// nor a backslash.
#[verifier::external_body]
pub(crate) fn path_with_extension(p: &str, ext: &str) -> (r: String)
    requires
        !ext@.contains('/'),
        !ext@.contains('\\'),
    ensures
        r@ == spec_path_with_extension(p@, ext@),
{
    Path::new(p).with_extension(ext).to_string_lossy().into_owned()
}


/// `std::path::Path::parent`, converted to a string.
#[verifier::external_body]
pub(crate) fn path_parent(p: &str) -> (r: Option<String>)
    ensures
        r matches Some(s) ==> spec_path_parent(p@) == Some(s@),
        r is None ==> spec_path_parent(p@) is None,
{
    Path::new(p).parent().map(|d| d.to_string_lossy().into_owned())
}


/// Whether a path string is empty (`Path::as_os_str().is_empty()`).
pub fn path_is_empty(p: &str) -> (r: bool)
    ensures
        r == (p@.len() == 0),
{
    p.is_empty()
}

/// The per-user directories of the application.
#[derive(Clone, Debug)]
pub struct AppDirs {
    /// The configuration directory (where `config.toml` lives).
    pub config_dir: String,
    /// The local data directory (models, logs, scratch files).
    pub data_local_dir: String,
}

/// What `ProjectDirs::project_path()` renders as after
/// `ProjectDirs::from(qualifier, organization, application)`: the project's
/// path fragment as the target platform forms it (`organization` /
/// `application` on Windows, the lower-cased application name without spaces
/// on Linux, a reverse-domain name on macOS).
pub uninterp spec fn spec_project_path(
    qualifier: Seq<char>,
    organization: Seq<char>,
    application: Seq<char>,
) -> Seq<char>;

/// Whether `dir` is the project fragment `project` placed under some per-user
/// base directory, possibly followed by `leaf` (Windows appends `config` or
/// `data`; Linux and macOS append nothing).
pub open spec fn under_project(dir: Seq<char>, project: Seq<char>, leaf: Seq<char>) -> bool {
    exists|base: Seq<char>|
        #![trigger spec_path_join(base, project)]
        dir == spec_path_join(base, project) || dir == spec_path_join(
            spec_path_join(base, project),
            leaf,
        )
}

/// `directories::ProjectDirs::from(qualifier, organization, application)`,
/// keeping the project path fragment and the configuration and local data
/// directories. Whether it is `Some`, and the base directories, depend on the
/// user's environment (home directory, known folders, `XDG_*` variables) and
/// are not stated. What the crate documents of every `Some` outcome is: the
/// fragment is the one the arguments give, the configuration directory is the
/// fragment under a base directory (followed by `config` on Windows), and the
/// local data directory likewise (followed by `data` on Windows).
#[verifier::external_body]
fn project_dirs_from_os(qualifier: &str, organization: &str, application: &str) -> (r: Option<
    (String, AppDirs),
>)
    ensures
        r matches Some((p, d)) ==> {
            &&& p@ == spec_project_path(qualifier@, organization@, application@)
            &&& under_project(d.config_dir@, p@, "config"@)
            &&& under_project(d.data_local_dir@, p@, "data"@)
        },
{
    ProjectDirs::from(qualifier, organization, application).map(
        |d| (
            d.project_path().to_string_lossy().into_owned(),
            AppDirs {
                config_dir: d.config_dir().to_string_lossy().into_owned(),
                data_local_dir: d.data_local_dir().to_string_lossy().into_owned(),
            },
        ),
    )
}

/// The project fragment of the `dev` / `Hermes` / `Hermes` project.
pub open spec fn hermes_project_path() -> Seq<char> {
    spec_project_path("dev"@, "Hermes"@, "Hermes"@)
}

/// Whether `d` can be the directories of the `dev` / `Hermes` / `Hermes`
/// project for some user: each is the project fragment under a base
/// directory, the configuration one possibly followed by `config`, the data
/// one by `data`.
pub open spec fn is_project_dirs(d: AppDirs) -> bool {
    &&& under_project(d.config_dir@, hermes_project_path(), "config"@)
    &&& under_project(d.data_local_dir@, hermes_project_path(), "data"@)
}

impl AppDirs {
    /// The directories of the `dev` / `Hermes` / `Hermes` project for the
    /// current user, if the operating system reports a home directory. Which
    /// base directories they sit under depends on the environment.
    pub fn locate() -> (r: Option<AppDirs>)
        ensures
            r matches Some(d) ==> is_project_dirs(d),
    {
        match project_dirs_from_os("dev", "Hermes", "Hermes") {
            Some((_project, dirs)) => Some(dirs),
            None => None,
        }
    }
}

/// The directories a relative path may be resolved against: the directory of
/// the running executable and the process's working directory, each when the
/// environment reports it.
#[derive(Clone, Debug)]
pub struct LaunchDirs {
    /// The directory that holds the running executable.
    pub exe_dir: Option<String>,
    /// The working directory of the process.
    pub current_dir: Option<String>,
}

/// The views of the launch directories.
pub open spec fn opt_view(o: Option<String>) -> Option<Seq<char>> {
    match o {
        Some(s) => Some(s@),
        None => None,
    }
}

/// Where a configured path points: an absolute path as it is; a relative path
/// under the executable's directory, else under the working directory, else
/// as written.
pub open spec fn spec_resolve_app_relative(
    path: Seq<char>,
    exe_dir: Option<Seq<char>>,
    current_dir: Option<Seq<char>>,
) -> Seq<char> {
    if spec_path_is_absolute(path) {
        path
    } else if exe_dir is Some {
        spec_path_join(exe_dir->0, path)
    } else if current_dir is Some {
        spec_path_join(current_dir->0, path)
    } else {
        path
    }
}

/// Whether the launch directory that relative paths resolve against (the
/// executable's, else the working one) is absolute; trivially so when there
/// is none.
pub open spec fn launch_dirs_absolute(exe_dir: Option<Seq<char>>, current_dir: Option<Seq<char>>) -> bool {
    match exe_dir {
        Some(d) => spec_path_is_absolute(d),
        None => match current_dir {
            Some(c) => spec_path_is_absolute(c),
            None => true,
        },
    }
}

/// `path` resolved relative to the application's launch directories. When
/// the directory it resolves against is absolute, resolving the result again
/// gives it back.
pub fn resolve_app_relative_path(path: &str, launch: &LaunchDirs) -> (r: String)
    ensures
        r@ == spec_resolve_app_relative(
            path@,
            opt_view(launch.exe_dir),
            opt_view(launch.current_dir),
        ),
        launch_dirs_absolute(opt_view(launch.exe_dir), opt_view(launch.current_dir))
            ==> spec_resolve_app_relative(
            r@,
            opt_view(launch.exe_dir),
            opt_view(launch.current_dir),
        ) == r@,
{
    if path_is_absolute(path) {
        return String::from_str(path);
    }
    match &launch.exe_dir {
        Some(dir) => path_join(dir.as_str(), path),
        None => match &launch.current_dir {
            Some(cwd) => path_join(cwd.as_str(), path),
            None => String::from_str(path),
        },
    }
}


} // verus!
