use anything_runtime::Captured;
use anything_runtime::EngineError;
use anything_runtime::ExitStatus;
use anything_runtime::Plugin;
use anything_runtime::ShellAction;
use anything_runtime::ShellEngine;

fn action(command: &str) -> ShellAction {
    ShellAction {
        executor: None,
        command: command.to_string(),
        args: vec![],
        cwd: None,
    }
}

#[test]
fn test_shell_errors_with_no_command() {
    let mut engine = ShellEngine::new(action(""));

    let res = engine.validate();
    assert!(res.is_err());

    // Planning a run fails the same way, before any resource is named.
    let res = engine.plan_run("/tmp".to_string());
    assert!(res.is_err());
    assert!(matches!(res, Err(EngineError::ShellError(m)) if m == "command is empty"));

    // Nothing was recorded, so there is nothing to read back or clean.
    assert!(engine.process.is_none());
    assert_eq!(
        engine.read_status(String::new(), String::new()),
        Err(EngineError::ShellProcessHasNotRunError)
    );
    assert_eq!(
        engine.clean().unwrap_err(),
        EngineError::ShellProcessHasNotRunError
    );
}

#[test]
fn validate_accepts_non_empty_command() {
    let engine = ShellEngine::new(action("echo 'ducks'"));
    assert_eq!(engine.validate(), Ok(true));
}

#[test]
fn plan_resolves_interpreter_and_capture_files() {
    let engine = ShellEngine::new(action("echo 'ducks'"));
    let plan = engine.plan_run("/tmp/scratch".to_string()).unwrap();

    assert_eq!(plan.interpreter, "/bin/sh");
    assert_eq!(plan.scratch_dir, "/tmp/scratch");
    assert_eq!(plan.command, "echo 'ducks'");
    assert!(plan.args.is_empty());
    assert!(plan.copy_from.is_none());
    assert_eq!(plan.uuid.len(), 36);
    assert_eq!(plan.stdout_path, format!("/tmp/scratch/{}_stdout", plan.uuid));
    assert_eq!(plan.stderr_path, format!("/tmp/scratch/{}_stderr", plan.uuid));
}

#[test]
fn plan_honors_executor_override_and_cwd() {
    let engine = ShellEngine::new(ShellAction {
        executor: Some("/bin/bash".to_string()),
        command: "pwd".to_string(),
        args: vec!["extra".to_string()],
        cwd: Some("/srv/inputs".to_string()),
    });
    let plan = engine.plan_run("/tmp".to_string()).unwrap();

    assert_eq!(plan.interpreter, "/bin/bash");
    assert_eq!(plan.copy_from, Some("/srv/inputs".to_string()));
    assert_eq!(plan.args, vec!["extra".to_string()]);
}

#[test]
fn identity_is_fresh_per_run() {
    let engine = ShellEngine::new(action("true"));
    let first = engine.plan_run("/tmp".to_string()).unwrap();
    let second = engine.plan_run("/tmp".to_string()).unwrap();
    assert_ne!(first.uuid, second.uuid);
}

#[test]
fn recorded_run_moves_from_pending_to_ready() {
    let mut engine = ShellEngine::new(action("echo 'ducks'"));
    let plan = engine.plan_run("/tmp".to_string()).unwrap();

    engine.record_spawn(&plan, 4242, ExitStatus::Success);
    let process = engine.process.clone().unwrap();
    assert_eq!(process.uuid, plan.uuid);
    assert_eq!(process.env.directory, "/tmp");
    assert!(!process.env.attached);
    assert_eq!(process.env.pid, Some(4242));
    assert_eq!(process.state.status, ExitStatus::Success);
    assert_eq!(
        process.state.stdout,
        Some(Captured::Pending(plan.stdout_path.clone()))
    );
    assert_eq!(
        process.state.stderr,
        Some(Captured::Pending(plan.stderr_path.clone()))
    );

    engine
        .read_status("ducks\n".to_string(), String::new())
        .unwrap();
    let process = engine.process.clone().unwrap();
    assert_eq!(
        process.state.stdout,
        Some(Captured::Ready("ducks\n".to_string()))
    );
    assert_eq!(
        process.state.stderr,
        Some(Captured::Ready(String::new()))
    );
    assert_eq!(process.state.status, ExitStatus::Success);

    let (stdout_path, stderr_path) = engine.clean().unwrap();
    assert_eq!(stdout_path, plan.stdout_path);
    assert_eq!(stderr_path, plan.stderr_path);
}

#[test]
fn non_zero_exit_code_is_recorded_not_raised() {
    let mut engine = ShellEngine::new(action("false"));
    let plan = engine.plan_run("/tmp".to_string()).unwrap();
    engine.record_spawn(&plan, 7, ExitStatus::Failure(1));
    let process = engine.process.clone().unwrap();
    assert_eq!(process.state.status, ExitStatus::Failure(1));
}

#[test]
fn shell_engine_declares_its_name() {
    let engine = ShellEngine::new(action("true"));
    assert_eq!(engine.name(), "shell");
}
