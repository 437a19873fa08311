use vstd::prelude::*;
use crate::path::FsPath;

verus! {

/// Windows process-creation flag that starts a console program without a console window.
pub const CREATE_NO_WINDOW: u32 = 0x0800_0000;

/// Where the shell's files sit relative to its own executable.
#[derive(Clone, Copy, PartialEq, Eq, Structural, Debug)]
pub enum Layout {
    /// An installed build: everything sits beside the executable, and the
    /// runtimes are the bundled copies.
    Packaged,
    /// A development build: the project root lies `levels_up` directories above
    /// the build output directory, and the runtimes come from the search path.
    Development { levels_up: usize },
}

/// What the target platform asks of a spawned child.
#[derive(Clone, Copy, PartialEq, Eq, Structural, Debug)]
pub struct Platform {
    /// The platform would open a visible console window for the child unless told not to.
    pub hide_console: bool,
}

/// How a program to run is found.
pub enum Program {
    /// A program file at a known path.
    Bundled { path: FsPath },
    /// A program name looked up on the system search path.
    OnSearchPath { name: String },
}

/// A program as a mathematical value.
pub enum ProgramView {
    Bundled(Seq<Seq<char>>),
    OnSearchPath(Seq<char>),
}

impl View for Program {
    type V = ProgramView;

    open spec fn view(&self) -> ProgramView {
        match self {
            Program::Bundled { path } => ProgramView::Bundled(path@),
            Program::OnSearchPath { name } => ProgramView::OnSearchPath(name@),
        }
    }
}

/// Everything needed to start the backend.
pub struct LaunchPlan {
    /// The runtime executable that runs the backend.
    pub runtime: Program,
    /// The backend's entry-point file, the runtime's only argument.
    pub entry: FsPath,
    /// The directory the backend runs in.
    pub working_dir: FsPath,
    /// The log file that takes the backend's standard output and standard error.
    pub log_file: FsPath,
    /// Process-creation flags for the spawn (zero where the platform needs none).
    pub creation_flags: u32,
}

/// Why the paths could not be resolved.
#[derive(Clone, Copy, PartialEq, Eq, Structural, Debug)]
pub enum ResolveError {
    /// The executable's path has no directory part.
    NoExecutableDir,
    /// The executable's directory has fewer ancestors than the layout ascends.
    TooFewAncestors,
}

pub open spec fn backend_dir_name() -> Seq<char> {
    "backend"@
}

pub open spec fn entry_file_name() -> Seq<char> {
    "server.js"@
}

pub open spec fn log_file_name() -> Seq<char> {
    "backend.log"@
}

pub open spec fn runtime_name() -> Seq<char> {
    "node"@
}

pub open spec fn bundled_runtime_rel() -> Seq<Seq<char>> {
    seq!["redistributable"@, "node"@, "node.exe"@]
}

pub open spec fn interpreter_name() -> Seq<char> {
    "python"@
}

pub open spec fn bundled_interpreter_file() -> Seq<char> {
    "python.exe"@
}

/// The directory that holds the executable.
pub open spec fn exe_dir(exe: Seq<Seq<char>>) -> Seq<Seq<char>> {
    exe.drop_last()
}

/// Whether the paths of `layout` can be resolved from the executable path `exe`.
pub open spec fn resolvable(exe: Seq<Seq<char>>, layout: Layout) -> bool {
    exe.len() > 0 && match layout {
        Layout::Packaged => true,
        Layout::Development { levels_up } => levels_up <= exe.len() - 1,
    }
}

/// The error that resolution of `layout` from `exe` gives, where it fails.
pub open spec fn resolve_error(exe: Seq<Seq<char>>, layout: Layout) -> ResolveError {
    if exe.len() == 0 {
        ResolveError::NoExecutableDir
    } else {
        ResolveError::TooFewAncestors
    }
}

/// The directory the backend's files sit under.
pub open spec fn project_root(exe: Seq<Seq<char>>, layout: Layout) -> Seq<Seq<char>> {
    match layout {
        Layout::Packaged => exe_dir(exe),
        Layout::Development { levels_up } => exe_dir(exe).take(
            exe_dir(exe).len() - levels_up,
        ),
    }
}

/// The runtime that runs the backend.
pub open spec fn runtime_of(exe: Seq<Seq<char>>, layout: Layout) -> ProgramView {
    match layout {
        Layout::Packaged => ProgramView::Bundled(exe_dir(exe) + bundled_runtime_rel()),
        Layout::Development { .. } => ProgramView::OnSearchPath(runtime_name()),
    }
}

/// The interpreter that runs scripts.
pub open spec fn interpreter_of(exe: Seq<Seq<char>>, layout: Layout) -> ProgramView {
    match layout {
        Layout::Packaged => ProgramView::Bundled(exe_dir(exe).push(bundled_interpreter_file())),
        Layout::Development { .. } => ProgramView::OnSearchPath(interpreter_name()),
    }
}

pub open spec fn flags_for(platform: Platform) -> u32 {
    if platform.hide_console {
        CREATE_NO_WINDOW
    } else {
        0
    }
}

/// The process-creation flags that `platform` asks for.
pub fn creation_flags(platform: Platform) -> (r: u32)
    ensures
        r == flags_for(platform),
{
    if platform.hide_console {
        CREATE_NO_WINDOW
    } else {
        0
    }
}

fn check_resolvable(exe: &FsPath, layout: Layout) -> (r: Result<(), ResolveError>)
    ensures
        r is Ok <==> resolvable(exe@, layout),
        r is Err ==> r == Err::<(), ResolveError>(resolve_error(exe@, layout)),
{
    if exe.len() == 0 {
        return Err(ResolveError::NoExecutableDir);
    }
    match layout {
        Layout::Packaged => Ok(()),
        Layout::Development { levels_up } => {
            if levels_up <= exe.len() - 1 {
                Ok(())
            } else {
                Err(ResolveError::TooFewAncestors)
            }
        },
    }
}

fn root_dir(exe: &FsPath, layout: Layout) -> (r: FsPath)
    requires
        resolvable(exe@, layout),
    ensures
        r@ == project_root(exe@, layout),
{
    let dir_len = exe.len() - 1;
    match layout {
        Layout::Packaged => exe.prefix(dir_len),
        Layout::Development { levels_up } => {
            let r = exe.prefix(dir_len - levels_up);
            assert(exe@.take(dir_len - levels_up) =~= exe_dir(exe@).take(
                exe_dir(exe@).len() - levels_up,
            ));
            r
        },
    }
}

/// Resolves, from the path of the running executable, the runtime, entry point,
/// working directory and log file of the backend.
pub fn resolve_paths(exe: &FsPath, layout: Layout, platform: Platform) -> (r: Result<
    LaunchPlan,
    ResolveError,
>)
    ensures
        r is Ok <==> resolvable(exe@, layout),
        r is Err ==> r->Err_0 == resolve_error(exe@, layout),
        r matches Ok(plan) ==> {
            &&& plan.runtime@ == runtime_of(exe@, layout)
            &&& plan.entry@ == project_root(exe@, layout).push(backend_dir_name()).push(
                entry_file_name(),
            )
            &&& plan.working_dir@ == project_root(exe@, layout)
            &&& plan.log_file@ == exe_dir(exe@).push(log_file_name())
            &&& plan.creation_flags == flags_for(platform)
        },
{
    match check_resolvable(exe, layout) {
        Err(e) => {
            return Err(e);
        },
        Ok(()) => {},
    }
    let dir = exe.prefix(exe.len() - 1);
    let root = root_dir(exe, layout);
    let runtime = match layout {
        Layout::Packaged => {
            let p = dir.join("redistributable").join("node").join("node.exe");
            assert(p@ =~= exe_dir(exe@) + bundled_runtime_rel());
            Program::Bundled { path: p }
        },
        Layout::Development { .. } => Program::OnSearchPath { name: "node".to_owned() },
    };
    let entry = root.join("backend").join("server.js");
    let log_file = dir.join("backend.log");
    let working_dir = root;
    Ok(LaunchPlan { runtime, entry, working_dir, log_file, creation_flags: creation_flags(platform) })
}

/// Resolves, from the path of the running executable, the interpreter that runs scripts.
pub fn script_interpreter(exe: &FsPath, layout: Layout) -> (r: Result<Program, ResolveError>)
    ensures
        r is Ok <==> exe@.len() > 0,
        r is Err ==> r->Err_0 == ResolveError::NoExecutableDir,
        r matches Ok(p) ==> p@ == interpreter_of(exe@, layout),
{
    if exe.len() == 0 {
        return Err(ResolveError::NoExecutableDir);
    }
    match layout {
        Layout::Packaged => {
            let dir = exe.prefix(exe.len() - 1);
            Ok(Program::Bundled { path: dir.join("python.exe") })
        },
        Layout::Development { .. } => Ok(Program::OnSearchPath { name: "python".to_owned() }),
    }
}

} // verus!
