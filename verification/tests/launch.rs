use backend_supervisor::launch::{launch_command_for, provisioning_command_for, CommandLine};
use backend_supervisor::platform::PathStyle;
use backend_supervisor::resolver::BackendLocation;

fn location() -> BackendLocation {
    BackendLocation {
        backend_dir: "/app/backend-bun".to_string(),
        launcher: "/app/backend-bun/node_modules/.bin/bun".to_string(),
        entry_point: "/app/backend-bun/src/index.ts".to_string(),
    }
}

#[test]
fn launch_command_runs_the_entry_point_in_the_backend_directory() {
    assert_eq!(
        launch_command_for(&location()),
        CommandLine {
            program: "/app/backend-bun/node_modules/.bin/bun".to_string(),
            args: vec!["/app/backend-bun/src/index.ts".to_string()],
            working_dir: "/app/backend-bun".to_string(),
            env: vec![
                ("PORT".to_string(), "3000".to_string()),
                ("NODE_ENV".to_string(), "production".to_string()),
            ],
            capture_output: true,
        }
    );
}

#[test]
fn launch_command_uses_the_fallback_launcher_as_given() {
    let mut fallback = location();
    fallback.launcher = "node".to_string();
    let command = launch_command_for(&fallback);
    assert_eq!(command.program, "node");
    assert_eq!(command.args, vec!["/app/backend-bun/src/index.ts".to_string()]);
}

#[test]
fn child_listens_where_the_forwarder_calls() {
    let command = launch_command_for(&location());
    let port = &command.env.iter().find(|(name, _)| name == "PORT").unwrap().1;
    let base = backend_supervisor::forwarder::BackendEndpoint::local().base_url();
    assert_eq!(base, format!("http://127.0.0.1:{}", port));
}

#[test]
fn provisioning_command_posix() {
    assert_eq!(
        provisioning_command_for(&location(), PathStyle::Posix),
        CommandLine {
            program: "npx".to_string(),
            args: vec!["playwright".to_string(), "install".to_string(), "chromium".to_string()],
            working_dir: "/app/backend-bun".to_string(),
            env: vec![],
            capture_output: true,
        }
    );
}

#[test]
fn provisioning_command_windows() {
    let command = provisioning_command_for(&location(), PathStyle::Windows);
    assert_eq!(command.program, "npx.cmd");
    assert_eq!(command.working_dir, "/app/backend-bun");
}
