use backend_shell::layout::{
    creation_flags, resolve_paths, script_interpreter, Layout, Platform, Program, ResolveError,
    CREATE_NO_WINDOW,
};
use backend_shell::path::FsPath;

fn path(parts: &[&str]) -> FsPath {
    FsPath::from_parts(parts.iter().map(|p| p.to_string()).collect())
}

fn parts(p: &FsPath) -> Vec<String> {
    p.parts.clone()
}

fn strings(parts: &[&str]) -> Vec<String> {
    parts.iter().map(|p| p.to_string()).collect()
}

#[test]
fn packaged_layout_uses_bundled_runtime_beside_executable() {
    let exe = path(&["C:\\", "Apps", "Shell", "shell.exe"]);
    let plan = resolve_paths(&exe, Layout::Packaged, Platform { hide_console: true }).unwrap();
    match &plan.runtime {
        Program::Bundled { path } => assert_eq!(
            parts(path),
            strings(&["C:\\", "Apps", "Shell", "redistributable", "node", "node.exe"])
        ),
        Program::OnSearchPath { .. } => panic!("packaged runtime must be bundled"),
    }
    assert_eq!(parts(&plan.entry), strings(&["C:\\", "Apps", "Shell", "backend", "server.js"]));
    assert_eq!(parts(&plan.working_dir), strings(&["C:\\", "Apps", "Shell"]));
    assert_eq!(parts(&plan.log_file), strings(&["C:\\", "Apps", "Shell", "backend.log"]));
    assert_eq!(plan.creation_flags, 0x0800_0000);
}

#[test]
fn development_layout_ascends_to_project_root() {
    let exe = path(&["/", "home", "dev", "proj", "src-tauri", "target", "debug", "shell"]);
    let plan = resolve_paths(
        &exe,
        Layout::Development { levels_up: 3 },
        Platform { hide_console: false },
    )
    .unwrap();
    match &plan.runtime {
        Program::OnSearchPath { name } => assert_eq!(name, "node"),
        Program::Bundled { .. } => panic!("development runtime comes from the search path"),
    }
    assert_eq!(parts(&plan.entry), strings(&["/", "home", "dev", "proj", "backend", "server.js"]));
    assert_eq!(parts(&plan.working_dir), strings(&["/", "home", "dev", "proj"]));
    assert_eq!(
        parts(&plan.log_file),
        strings(&["/", "home", "dev", "proj", "src-tauri", "target", "debug", "backend.log"])
    );
    assert_eq!(plan.creation_flags, 0);
}

#[test]
fn development_layout_may_ascend_to_the_top() {
    let exe = path(&["a", "b", "shell"]);
    let plan = resolve_paths(&exe, Layout::Development { levels_up: 2 }, Platform { hide_console: false })
        .unwrap();
    assert!(plan.working_dir.parts.is_empty());
    assert_eq!(parts(&plan.entry), strings(&["backend", "server.js"]));
}

#[test]
fn too_few_ancestors_fails() {
    let exe = path(&["a", "b", "shell"]);
    let r = resolve_paths(&exe, Layout::Development { levels_up: 3 }, Platform { hide_console: false });
    assert_eq!(r.err(), Some(ResolveError::TooFewAncestors));
}

#[test]
fn empty_executable_path_fails() {
    let exe = path(&[]);
    let r = resolve_paths(&exe, Layout::Packaged, Platform { hide_console: true });
    assert_eq!(r.err(), Some(ResolveError::NoExecutableDir));
    let r = resolve_paths(&exe, Layout::Development { levels_up: 0 }, Platform { hide_console: true });
    assert_eq!(r.err(), Some(ResolveError::NoExecutableDir));
    assert_eq!(script_interpreter(&exe, Layout::Packaged).err(), Some(ResolveError::NoExecutableDir));
}

#[test]
fn executable_in_current_directory_resolves() {
    let exe = path(&["shell.exe"]);
    let plan = resolve_paths(&exe, Layout::Packaged, Platform { hide_console: true }).unwrap();
    assert!(plan.working_dir.parts.is_empty());
    assert_eq!(parts(&plan.log_file), strings(&["backend.log"]));
}

#[test]
fn creation_flags_follow_platform() {
    assert_eq!(creation_flags(Platform { hide_console: true }), CREATE_NO_WINDOW);
    assert_eq!(creation_flags(Platform { hide_console: false }), 0);
}

#[test]
fn script_interpreter_by_layout() {
    let exe = path(&["opt", "shell", "shell.exe"]);
    match script_interpreter(&exe, Layout::Packaged).unwrap() {
        Program::Bundled { path } => assert_eq!(parts(&path), strings(&["opt", "shell", "python.exe"])),
        Program::OnSearchPath { .. } => panic!("packaged interpreter must be bundled"),
    }
    match script_interpreter(&exe, Layout::Development { levels_up: 9 }).unwrap() {
        Program::OnSearchPath { name } => assert_eq!(name, "python"),
        Program::Bundled { .. } => panic!("development interpreter comes from the search path"),
    }
}

#[test]
fn path_operations() {
    let p = path(&["x", "y", "z"]);
    assert_eq!(p.len(), 3);
    assert_eq!(p.component(1), "y");
    assert_eq!(parts(&p.prefix(1)), strings(&["x"]));
    assert_eq!(parts(&p.join("w")), strings(&["x", "y", "z", "w"]));
    assert_eq!(FsPath::new().len(), 0);
}
