//! The path resolver: where the backend bundle lies and how it is launched.
//!
//! Resolving takes two steps, because the answer depends on what is on
//! disk and this crate does not look there. [`locate`] names the paths
//! in question; the caller finds out which of them exist;
//! [`Candidates::resolve`] decides.

use crate::paths::{
    is_segment, join, join_path, last_segment, last_segment_of, lemma_join_then_split, parent,
    parent_of, same_text,
};
use crate::platform::PathStyle;
use crate::text::optional_text;
use vstd::prelude::*;

verus! {

/// How the shell was started.
#[derive(Clone, Copy, Debug, PartialEq, Eq, Structural)]
pub enum ExecutionMode {
    /// From a source checkout; the backend lies beside the shell's sources.
    Development,
    /// From an installed bundle; the backend lies among its resources.
    Packaged,
}

/// Why no backend location could be resolved.
#[derive(Clone, Debug, PartialEq, Eq)]
pub enum PathError {
    /// The directory that should hold the backend does not exist.
    BackendDirectoryMissing { path: String },
    /// The shell runs packaged, and the host named no resource directory.
    ResourceDirectoryUnavailable,
}

/// A path error, with its path as a sequence of characters.
pub enum PathErrorView {
    BackendDirectoryMissing { path: Seq<char> },
    ResourceDirectoryUnavailable,
}

/// The paths whose presence decides the resolution.
#[derive(Clone, Debug, PartialEq, Eq)]
pub struct Candidates {
    /// The directory that should hold the backend.
    pub backend_dir: String,
    /// The script runner in the backend's own dependency cache.
    pub script_runner: String,
    /// The file the launcher is to run.
    pub entry_point: String,
}

/// Candidates, with their paths as sequences of characters.
pub struct CandidatesView {
    pub backend_dir: Seq<char>,
    pub script_runner: Seq<char>,
    pub entry_point: Seq<char>,
}

/// Where the backend lies and what launches it.
#[derive(Clone, Debug, PartialEq, Eq)]
pub struct BackendLocation {
    pub backend_dir: String,
    /// The script runner's path, or the name of the interpreter to fall
    /// back on.
    pub launcher: String,
    pub entry_point: String,
}

/// A backend location, with its paths as sequences of characters.
pub struct BackendLocationView {
    pub backend_dir: Seq<char>,
    pub launcher: Seq<char>,
    pub entry_point: Seq<char>,
}

impl View for PathError {
    type V = PathErrorView;

    open spec fn view(&self) -> PathErrorView {
        match self {
            PathError::BackendDirectoryMissing { path } => PathErrorView::BackendDirectoryMissing {
                path: path@,
            },
            PathError::ResourceDirectoryUnavailable => PathErrorView::ResourceDirectoryUnavailable,
        }
    }
}

impl View for Candidates {
    type V = CandidatesView;

    open spec fn view(&self) -> CandidatesView {
        CandidatesView {
            backend_dir: self.backend_dir@,
            script_runner: self.script_runner@,
            entry_point: self.entry_point@,
        }
    }
}

impl View for BackendLocation {
    type V = BackendLocationView;

    open spec fn view(&self) -> BackendLocationView {
        BackendLocationView {
            backend_dir: self.backend_dir@,
            launcher: self.launcher@,
            entry_point: self.entry_point@,
        }
    }
}

/// The name of the directory that holds the backend.
pub open spec fn backend_dir_name() -> Seq<char> {
    "backend-bun"@
}

/// The name of the directory that holds the shell's own sources. A shell
/// started from there looks for the backend one level up.
pub open spec fn shell_dir_name() -> Seq<char> {
    "src-tauri"@
}

/// The interpreter that launches the backend where it brings no script
/// runner of its own.
pub open spec fn fallback_launcher() -> Seq<char> {
    "node"@
}

/// The directory beside which the backend lies in development: the working
/// directory, or the one above it if the shell was started from the
/// directory of its own sources.
pub open spec fn project_root(cwd: Seq<char>, style: PathStyle) -> Seq<char> {
    if last_segment(cwd, style) == shell_dir_name() {
        parent(cwd, style)
    } else {
        cwd
    }
}

/// The directory that should hold the backend.
pub open spec fn backend_dir(
    mode: ExecutionMode,
    resource_dir: Option<Seq<char>>,
    cwd: Seq<char>,
    style: PathStyle,
) -> Result<Seq<char>, PathErrorView> {
    match mode {
        ExecutionMode::Development => Ok(join(project_root(cwd, style), backend_dir_name(), style)),
        ExecutionMode::Packaged => match resource_dir {
            Some(dir) => Ok(join(dir, backend_dir_name(), style)),
            None => Err(PathErrorView::ResourceDirectoryUnavailable),
        },
    }
}

/// The script runner that a backend directory may bring with it.
pub open spec fn script_runner_in(dir: Seq<char>, style: PathStyle) -> Seq<char> {
    join(
        join(join(dir, "node_modules"@, style), ".bin"@, style),
        "bun"@ + style.executable_suffix(),
        style,
    )
}

/// The file that starts the backend in a backend directory.
pub open spec fn entry_point_in(dir: Seq<char>, style: PathStyle) -> Seq<char> {
    join(join(dir, "src"@, style), "index.ts"@, style)
}

/// The candidates around a backend directory.
pub open spec fn candidates_in(dir: Seq<char>, style: PathStyle) -> CandidatesView {
    CandidatesView {
        backend_dir: dir,
        script_runner: script_runner_in(dir, style),
        entry_point: entry_point_in(dir, style),
    }
}

/// The paths whose presence decides the resolution.
pub open spec fn candidates(
    mode: ExecutionMode,
    resource_dir: Option<Seq<char>>,
    cwd: Seq<char>,
    style: PathStyle,
) -> Result<CandidatesView, PathErrorView> {
    match backend_dir(mode, resource_dir, cwd, style) {
        Ok(dir) => Ok(candidates_in(dir, style)),
        Err(error) => Err(error),
    }
}

impl CandidatesView {
    /// The resolution, given what exists. A missing backend directory is
    /// an error that carries the path tried. The script runner is the
    /// launcher if it exists, the fallback interpreter if not.
    pub open spec fn resolve(
        self,
        backend_dir_present: bool,
        script_runner_present: bool,
    ) -> Result<BackendLocationView, PathErrorView> {
        if !backend_dir_present {
            Err(PathErrorView::BackendDirectoryMissing { path: self.backend_dir })
        } else {
            Ok(
                BackendLocationView {
                    backend_dir: self.backend_dir,
                    launcher: if script_runner_present {
                        self.script_runner
                    } else {
                        fallback_launcher()
                    },
                    entry_point: self.entry_point,
                },
            )
        }
    }
}

impl PathErrorView {
    /// The text that reports the error.
    pub open spec fn message(self) -> Seq<char> {
        match self {
            PathErrorView::BackendDirectoryMissing { path } => "Backend directory not found: "@
                + path,
            PathErrorView::ResourceDirectoryUnavailable => "Resource directory is not available"@,
        }
    }
}

/// Candidates or an error, with their paths as sequences of characters.
pub open spec fn candidates_view(outcome: Result<Candidates, PathError>) -> Result<
    CandidatesView,
    PathErrorView,
> {
    match outcome {
        Ok(found) => Ok(found@),
        Err(error) => Err(error@),
    }
}

/// A location or an error, with their paths as sequences of characters.
pub open spec fn location_view(outcome: Result<BackendLocation, PathError>) -> Result<
    BackendLocationView,
    PathErrorView,
> {
    match outcome {
        Ok(location) => Ok(location@),
        Err(error) => Err(error@),
    }
}

/// The directory beside which the backend lies in development.
pub fn project_root_of(cwd: &str, style: PathStyle) -> (root: String)
    ensures
        root@ == project_root(cwd@, style),
{
    let segment = last_segment_of(cwd, style);
    if same_text(segment.as_str(), "src-tauri") {
        parent_of(cwd, style)
    } else {
        String::from_str(cwd)
    }
}

/// The paths whose presence decides the resolution. `resource_dir` is
/// taken as the host gave it and is read in packaged mode only; `cwd` is
/// read in development mode only.
pub fn locate(
    mode: ExecutionMode,
    resource_dir: Option<String>,
    cwd: &str,
    style: PathStyle,
) -> (outcome: Result<Candidates, PathError>)
    ensures
        candidates_view(outcome) == candidates(mode, optional_text(resource_dir), cwd@, style),
{
    let base = match mode {
        ExecutionMode::Development => project_root_of(cwd, style),
        ExecutionMode::Packaged => match resource_dir {
            Some(dir) => dir,
            None => {
                return Err(PathError::ResourceDirectoryUnavailable);
            },
        },
    };
    let backend_dir = join_path(base.as_str(), "backend-bun", style);
    let modules = join_path(backend_dir.as_str(), "node_modules", style);
    let cache = join_path(modules.as_str(), ".bin", style);
    let runner_name = String::from_str("bun").concat(style.executable_suffix_text());
    let script_runner = join_path(cache.as_str(), runner_name.as_str(), style);
    let sources = join_path(backend_dir.as_str(), "src", style);
    let entry_point = join_path(sources.as_str(), "index.ts", style);
    Ok(Candidates { backend_dir, script_runner, entry_point })
}

impl Candidates {
    /// Decides the resolution from what exists on disk. Both answers are
    /// taken once, as given; nothing is tried again.
    pub fn resolve(self, backend_dir_present: bool, script_runner_present: bool) -> (outcome: Result<
        BackendLocation,
        PathError,
    >)
        ensures
            location_view(outcome) == self@.resolve(backend_dir_present, script_runner_present),
    {
        if !backend_dir_present {
            Err(PathError::BackendDirectoryMissing { path: self.backend_dir })
        } else {
            let launcher = if script_runner_present {
                self.script_runner
            } else {
                String::from_str("node")
            };
            Ok(
                BackendLocation {
                    backend_dir: self.backend_dir,
                    launcher,
                    entry_point: self.entry_point,
                },
            )
        }
    }
}

impl PathError {
    /// The text that reports the error.
    pub fn message(&self) -> (message: String)
        ensures
            message@ == self@.message(),
    {
        match self {
            PathError::BackendDirectoryMissing { path } => String::from_str(
                "Backend directory not found: ",
            ).concat(path.as_str()),
            PathError::ResourceDirectoryUnavailable => String::from_str(
                "Resource directory is not available",
            ),
        }
    }
}

/// The names this module joins to paths are segments under both styles.
pub proof fn lemma_names_are_segments(style: PathStyle)
    ensures
        is_segment(backend_dir_name(), style),
        is_segment(shell_dir_name(), style),
        backend_dir_name().len() > 0,
        shell_dir_name().len() > 0,
{
    reveal_strlit("backend-bun");
    reveal_strlit("src-tauri");
}

/// A backend directory always ends in the backend's directory name.
pub proof fn lemma_backend_dir_is_named(
    mode: ExecutionMode,
    resource_dir: Option<Seq<char>>,
    cwd: Seq<char>,
    style: PathStyle,
)
    ensures
        backend_dir(mode, resource_dir, cwd, style) matches Ok(dir) ==> last_segment(dir, style)
            == backend_dir_name(),
{
    lemma_names_are_segments(style);
    match mode {
        ExecutionMode::Development => {
            lemma_join_then_split(project_root(cwd, style), backend_dir_name(), style);
        },
        ExecutionMode::Packaged => {
            if let Some(dir) = resource_dir {
                lemma_join_then_split(dir, backend_dir_name(), style);
            }
        },
    }
}

/// A shell started from the directory of its own sources finds the same
/// backend directory as one started from the directory above.
pub proof fn lemma_started_from_shell_dir(root: Seq<char>, style: PathStyle)
    requires
        last_segment(root, style) != shell_dir_name(),
    ensures
        backend_dir(
            ExecutionMode::Development,
            None,
            join(root, shell_dir_name(), style),
            style,
        ) == backend_dir(ExecutionMode::Development, None, root, style),
{
    lemma_names_are_segments(style);
    lemma_join_then_split(root, shell_dir_name(), style);
    let nested = join(root, shell_dir_name(), style);
    let above = parent(nested, style);
    assert(project_root(nested, style) == above);
    assert(project_root(root, style) == root);
    assert(join(above, backend_dir_name(), style) =~= join(root, backend_dir_name(), style));
}

} // verus!
