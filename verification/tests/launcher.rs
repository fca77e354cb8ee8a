use rrun::command::cargo_command;
use rrun::command::compile_command;
use rrun::command::target_command;
use rrun::launch::on_process_done;
use rrun::launch::on_source_checked;
use rrun::launch::on_spawn_failed;
use rrun::launch::plan_invocation;
use rrun::launch::Action;
use rrun::launch::Args;
use rrun::launch::LaunchState;
use rrun::mode::select_run_type;
use rrun::mode::RunType;
use rrun::paths::normalize_source_path;
use rrun::paths::staged_binary;

#[test]
fn normalize_appends_extension() {
    assert_eq!(normalize_source_path("foo".to_string()), "foo.rs");
    assert_eq!(normalize_source_path("a.b".to_string()), "a.b.rs");
    assert_eq!(normalize_source_path("".to_string()), ".rs");
}

#[test]
fn normalize_is_identity_on_extension() {
    assert_eq!(normalize_source_path("foo.rs".to_string()), "foo.rs");
    assert_eq!(normalize_source_path("dir/bar.rs".to_string()), "dir/bar.rs");
    assert_eq!(normalize_source_path(".rs".to_string()), ".rs");
}

#[test]
fn staged_binary_uses_stem_and_marker() {
    assert_eq!(staged_binary("/tmp", "dir/foo.rs"), "/tmp/foo.rrun");
    assert_eq!(staged_binary("/tmp", "foo"), "/tmp/foo.rrun");
    assert_eq!(staged_binary("/var/tmp", ".bashrc"), "/var/tmp/.bashrc.rrun");
}

#[test]
fn select_inside_project_names_binary() {
    match select_run_type(true, Some("abc".to_string())) {
        Some(RunType::CargoMultiBin(b)) => assert_eq!(b, "abc"),
        _ => panic!("expected the named-binary mode"),
    }
}

#[test]
fn select_inside_project_default() {
    assert!(matches!(select_run_type(true, None), Some(RunType::CargoRun)));
}

#[test]
fn select_outside_project_normalizes() {
    match select_run_type(false, Some("foo".to_string())) {
        Some(RunType::SingleFile(f)) => assert_eq!(f, "foo.rs"),
        _ => panic!("expected the single-file mode"),
    }
}

#[test]
fn select_outside_project_without_input() {
    assert!(select_run_type(false, None).is_none());
}

#[test]
fn cargo_default_has_no_bin_flag() {
    let c = cargo_command("", &None);
    assert_eq!(c.program, "cargo");
    assert_eq!(c.args, vec!["run".to_string()]);
}

#[test]
fn cargo_named_carries_bin_flag() {
    let c = cargo_command("srv", &None);
    assert_eq!(c.program, "cargo");
    assert_eq!(
        c.args,
        vec!["run".to_string(), "--bin".to_string(), "srv".to_string()]
    );
}

#[test]
fn cargo_forwards_args_in_order() {
    let carried = Some(vec!["a".to_string(), "b".to_string()]);
    let c = cargo_command("", &carried);
    assert_eq!(
        c.args,
        vec![
            "run".to_string(),
            "--".to_string(),
            "a".to_string(),
            "b".to_string()
        ]
    );
    let c = cargo_command("srv", &carried);
    assert_eq!(
        c.args,
        vec![
            "run".to_string(),
            "--bin".to_string(),
            "srv".to_string(),
            "--".to_string(),
            "a".to_string(),
            "b".to_string()
        ]
    );
}

#[test]
fn compile_names_output_then_source() {
    let c = compile_command("/tmp/foo.rrun", "foo.rs");
    assert_eq!(c.program, "rustc");
    assert_eq!(
        c.args,
        vec![
            "-o".to_string(),
            "/tmp/foo.rrun".to_string(),
            "foo.rs".to_string()
        ]
    );
}

#[test]
fn target_forwards_args_verbatim() {
    let c = target_command("/tmp/foo.rrun", &None);
    assert_eq!(c.program, "/tmp/foo.rrun");
    assert!(c.args.is_empty());
    let c = target_command("/tmp/foo.rrun", &Some(vec!["x".to_string(), "y".to_string()]));
    assert_eq!(c.args, vec!["x".to_string(), "y".to_string()]);
}

#[test]
fn single_file_compile_and_run() {
    let args = Args {
        input: Some("foo".to_string()),
        carried_args: None,
    };
    let (state, action) = plan_invocation(false, args, "/tmpdir");
    let path = match action {
        Action::StatFile { path } => path,
        _ => panic!("expected a file check"),
    };
    assert_eq!(path, "foo.rs");
    let (state, action) = on_source_checked(state, true);
    let command = match action {
        Action::Spawn { command } => command,
        _ => panic!("expected the compiler spawn"),
    };
    assert_eq!(command.program, "rustc");
    assert_eq!(
        command.args,
        vec![
            "-o".to_string(),
            "/tmpdir/foo.rrun".to_string(),
            "foo.rs".to_string()
        ]
    );
    let (state, action) = on_process_done(state, true);
    let command = match action {
        Action::Spawn { command } => command,
        _ => panic!("expected the staged binary spawn"),
    };
    assert_eq!(command.program, "/tmpdir/foo.rrun");
    assert!(command.args.is_empty());
    let (_state, action) = on_process_done(state, true);
    match action {
        Action::ExitWith { code, message } => {
            assert_eq!(code, 0);
            assert!(message.is_none());
        }
        _ => panic!("expected the final exit"),
    }
}

#[test]
fn project_default_run_maps_exit_code() {
    let args = Args {
        input: None,
        carried_args: None,
    };
    let (state, action) = plan_invocation(true, args, "/tmp");
    let command = match action {
        Action::Spawn { command } => command,
        _ => panic!("expected the build-tool spawn"),
    };
    assert_eq!(command.program, "cargo");
    assert_eq!(command.args, vec!["run".to_string()]);
    let (_state, action) = on_process_done(state, true);
    match action {
        Action::ExitWith { code, message } => {
            assert_eq!(code, 0);
            assert!(message.is_none());
        }
        _ => panic!("expected the final exit"),
    }
    let (_state, action) = on_process_done(LaunchState::RunningCargo, false);
    match action {
        Action::ExitWith { code, .. } => assert_eq!(code, 1),
        _ => panic!("expected the final exit"),
    }
}

#[test]
fn project_named_run_with_forwarded_args() {
    let args = Args {
        input: Some("srv".to_string()),
        carried_args: Some(vec!["--port".to_string(), "8080".to_string()]),
    };
    let (_state, action) = plan_invocation(true, args, "/tmp");
    let command = match action {
        Action::Spawn { command } => command,
        _ => panic!("expected the build-tool spawn"),
    };
    assert_eq!(
        command.args,
        vec![
            "run".to_string(),
            "--bin".to_string(),
            "srv".to_string(),
            "--".to_string(),
            "--port".to_string(),
            "8080".to_string()
        ]
    );
}

#[test]
fn missing_source_exits_two_without_spawn() {
    let args = Args {
        input: Some("foo".to_string()),
        carried_args: None,
    };
    let (state, _action) = plan_invocation(false, args, "/tmp");
    let (state, action) = on_source_checked(state, false);
    assert!(matches!(state, LaunchState::Finished { code: 2 }));
    match action {
        Action::ExitWith { code, message } => {
            assert_eq!(code, 2);
            assert_eq!(message.unwrap(), "'foo.rs' is not a file");
        }
        _ => panic!("expected an immediate exit"),
    }
}

#[test]
fn failed_compile_never_runs_binary() {
    let state = LaunchState::Compiling {
        out_path: "/tmp/foo.rrun".to_string(),
        carried: None,
    };
    let (state, action) = on_process_done(state, false);
    assert!(matches!(state, LaunchState::Finished { code: 1 }));
    match action {
        Action::ExitWith { code, message } => {
            assert_eq!(code, 1);
            assert!(message.is_none());
        }
        _ => panic!("a failed compile must not spawn anything"),
    }
}

#[test]
fn target_failure_exits_one() {
    let state = LaunchState::RunningTarget {
        target: "/tmp/foo.rrun".to_string(),
    };
    let (_state, action) = on_process_done(state, false);
    match action {
        Action::ExitWith { code, .. } => assert_eq!(code, 1),
        _ => panic!("expected the final exit"),
    }
}

#[test]
fn spawn_failures_name_the_tool() {
    let compiling = LaunchState::Compiling {
        out_path: "/tmp/foo.rrun".to_string(),
        carried: None,
    };
    let (_state, action) = on_spawn_failed(compiling, "boom");
    match action {
        Action::ExitWith { code, message } => {
            assert_eq!(code, 2);
            assert_eq!(message.unwrap(), "execute 'rustc' failed: boom");
        }
        _ => panic!("expected an immediate exit"),
    }
    let (_state, action) = on_spawn_failed(LaunchState::RunningCargo, "boom");
    match action {
        Action::ExitWith { message, .. } => {
            assert_eq!(message.unwrap(), "execute 'cargo run' failed: boom");
        }
        _ => panic!("expected an immediate exit"),
    }
    let target = LaunchState::RunningTarget {
        target: "/tmp/foo.rrun".to_string(),
    };
    let (_state, action) = on_spawn_failed(target, "boom");
    match action {
        Action::ExitWith { message, .. } => {
            assert_eq!(message.unwrap(), "execute '/tmp/foo.rrun' failed: boom");
        }
        _ => panic!("expected an immediate exit"),
    }
}

#[test]
fn nothing_to_run_exits_two() {
    let args = Args {
        input: None,
        carried_args: None,
    };
    let (state, action) = plan_invocation(false, args, "/tmp");
    assert!(matches!(state, LaunchState::Finished { code: 2 }));
    match action {
        Action::ExitWith { code, message } => {
            assert_eq!(code, 2);
            assert_eq!(message.unwrap(), "nothing to run");
        }
        _ => panic!("expected an immediate exit"),
    }
}
