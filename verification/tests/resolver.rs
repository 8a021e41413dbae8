use backend_supervisor::platform::PathStyle;
use backend_supervisor::resolver::{
    locate, project_root_of, BackendLocation, Candidates, ExecutionMode, PathError,
};

#[test]
fn project_root_is_the_working_directory() {
    assert_eq!(project_root_of("/home/u/app", PathStyle::Posix), "/home/u/app");
    assert_eq!(project_root_of("/home/u/app/", PathStyle::Posix), "/home/u/app/");
    assert_eq!(project_root_of("/home/u/src-tauri/app", PathStyle::Posix), "/home/u/src-tauri/app");
    assert_eq!(project_root_of("/home/u/my-src-tauri", PathStyle::Posix), "/home/u/my-src-tauri");
    assert_eq!(project_root_of("", PathStyle::Posix), "");
}

#[test]
fn project_root_steps_out_of_the_shell_directory() {
    assert_eq!(project_root_of("/home/u/app/src-tauri", PathStyle::Posix), "/home/u/app/");
    assert_eq!(project_root_of("/home/u/app/src-tauri/", PathStyle::Posix), "/home/u/app/");
    assert_eq!(project_root_of("/src-tauri", PathStyle::Posix), "/");
    assert_eq!(project_root_of("src-tauri", PathStyle::Posix), "");
    assert_eq!(project_root_of("C:\\app\\src-tauri", PathStyle::Windows), "C:\\app\\");
    assert_eq!(project_root_of("C:\\app\\src-tauri", PathStyle::Posix), "C:\\app\\src-tauri");
}

#[test]
fn development_candidates_posix() {
    let found = locate(ExecutionMode::Development, None, "/home/u/app", PathStyle::Posix);
    assert_eq!(
        found,
        Ok(Candidates {
            backend_dir: "/home/u/app/backend-bun".to_string(),
            script_runner: "/home/u/app/backend-bun/node_modules/.bin/bun".to_string(),
            entry_point: "/home/u/app/backend-bun/src/index.ts".to_string(),
        })
    );
}

#[test]
fn development_candidates_from_the_shell_directory() {
    let nested =
        locate(ExecutionMode::Development, None, "/home/u/app/src-tauri", PathStyle::Posix);
    let above = locate(ExecutionMode::Development, None, "/home/u/app", PathStyle::Posix);
    assert_eq!(nested, above);
    assert_eq!(nested.unwrap().backend_dir, "/home/u/app/backend-bun");
}

#[test]
fn development_ignores_the_resource_dir() {
    let with = locate(
        ExecutionMode::Development,
        Some("/opt/shell/resources".to_string()),
        "/home/u/app",
        PathStyle::Posix,
    );
    let without = locate(ExecutionMode::Development, None, "/home/u/app", PathStyle::Posix);
    assert_eq!(with, without);
}

#[test]
fn development_candidates_windows() {
    let found =
        locate(ExecutionMode::Development, None, "C:\\dev\\app\\src-tauri", PathStyle::Windows);
    assert_eq!(
        found,
        Ok(Candidates {
            backend_dir: "C:\\dev\\app\\backend-bun".to_string(),
            script_runner: "C:\\dev\\app\\backend-bun\\node_modules\\.bin\\bun.exe".to_string(),
            entry_point: "C:\\dev\\app\\backend-bun\\src\\index.ts".to_string(),
        })
    );
}

#[test]
fn packaged_candidates_lie_in_the_resource_dir() {
    let found = locate(
        ExecutionMode::Packaged,
        Some("/opt/shell/resources".to_string()),
        "/home/u/app/src-tauri",
        PathStyle::Posix,
    );
    assert_eq!(
        found,
        Ok(Candidates {
            backend_dir: "/opt/shell/resources/backend-bun".to_string(),
            script_runner: "/opt/shell/resources/backend-bun/node_modules/.bin/bun".to_string(),
            entry_point: "/opt/shell/resources/backend-bun/src/index.ts".to_string(),
        })
    );
}

#[test]
fn packaged_resource_dir_is_taken_as_given() {
    let found = locate(
        ExecutionMode::Packaged,
        Some("C:\\Program Files\\Shell\\src-tauri\\".to_string()),
        "C:\\",
        PathStyle::Windows,
    );
    assert_eq!(
        found.unwrap().backend_dir,
        "C:\\Program Files\\Shell\\src-tauri\\backend-bun"
    );
}

#[test]
fn packaged_without_resource_dir_fails() {
    let found = locate(ExecutionMode::Packaged, None, "/home/u/app", PathStyle::Posix);
    assert_eq!(found, Err(PathError::ResourceDirectoryUnavailable));
}

fn sample() -> Candidates {
    Candidates {
        backend_dir: "/app/backend-bun".to_string(),
        script_runner: "/app/backend-bun/node_modules/.bin/bun".to_string(),
        entry_point: "/app/backend-bun/src/index.ts".to_string(),
    }
}

#[test]
fn resolve_prefers_the_script_runner() {
    assert_eq!(
        sample().resolve(true, true),
        Ok(BackendLocation {
            backend_dir: "/app/backend-bun".to_string(),
            launcher: "/app/backend-bun/node_modules/.bin/bun".to_string(),
            entry_point: "/app/backend-bun/src/index.ts".to_string(),
        })
    );
}

#[test]
fn resolve_falls_back_to_the_interpreter() {
    assert_eq!(
        sample().resolve(true, false),
        Ok(BackendLocation {
            backend_dir: "/app/backend-bun".to_string(),
            launcher: "node".to_string(),
            entry_point: "/app/backend-bun/src/index.ts".to_string(),
        })
    );
}

#[test]
fn resolve_fails_without_the_backend_directory() {
    let missing = PathError::BackendDirectoryMissing { path: "/app/backend-bun".to_string() };
    assert_eq!(sample().resolve(false, false), Err(missing.clone()));
    assert_eq!(sample().resolve(false, true), Err(missing));
}

#[test]
fn path_error_messages() {
    assert_eq!(
        PathError::BackendDirectoryMissing { path: "/app/backend-bun".to_string() }.message(),
        "Backend directory not found: /app/backend-bun"
    );
    assert_eq!(
        PathError::ResourceDirectoryUnavailable.message(),
        "Resource directory is not available"
    );
}
