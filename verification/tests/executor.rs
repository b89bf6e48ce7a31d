use gh_cli_rs::{ExecutionOutcome, GhError, GhExecutor};

fn args_of(tokens: &[&str]) -> Vec<String> {
    tokens.iter().map(|t| t.to_string()).collect()
}

fn outcome(code: Option<i32>, stdout: &[u8], stderr: &[u8]) -> ExecutionOutcome {
    ExecutionOutcome { code, stdout: stdout.to_vec(), stderr: stderr.to_vec() }
}

#[test]
fn test_executor_creation() {
    let executor = GhExecutor::default();
    assert_eq!(executor.gh_path, "gh");

    let custom_executor = GhExecutor::new("/custom/path/gh".to_string());
    assert_eq!(custom_executor.gh_path, "/custom/path/gh");
}

#[test]
fn cloned_executor_keeps_the_path() {
    let executor = GhExecutor::new("/custom/path/gh".to_string());
    assert_eq!(executor.clone().gh_path, "/custom/path/gh");
}

#[test]
fn invocation_carries_program_and_tokens() {
    let executor = GhExecutor::new("/custom/path/gh".to_string());
    let inv = executor.invocation(&args_of(&["pr", "list", "--state", "open"]));
    assert_eq!(inv.program, "/custom/path/gh");
    assert_eq!(inv.args, args_of(&["pr", "list", "--state", "open"]));
}

#[test]
fn invocation_of_no_tokens_has_no_arguments() {
    let inv = GhExecutor::default().invocation(&[]);
    assert_eq!(inv.program, "gh");
    assert!(inv.args.is_empty());
}

#[test]
fn invocation_passes_values_through_verbatim() {
    let tokens = args_of(&["issue", "create", "--body", "a b\n$(rm -rf /) \u{7}; 'x' \"y\""]);
    let inv = GhExecutor::default().invocation(&tokens);
    assert_eq!(inv.args, tokens);
}

#[test]
fn version_probe_asks_for_the_version() {
    let inv = GhExecutor::new("./gh".to_string()).version_probe();
    assert_eq!(inv.program, "./gh");
    assert_eq!(inv.args, args_of(&["--version"]));
}

#[test]
fn success_decides_by_exit_code_zero() {
    assert!(outcome(Some(0), b"", b"").success());
    assert!(!outcome(Some(1), b"", b"").success());
    assert!(!outcome(Some(-1), b"", b"").success());
    assert!(!outcome(None, b"", b"").success());
}

#[test]
fn run_of_exit_zero_returns_stdout() {
    let executor = GhExecutor::default();
    let result = executor.execute(Ok(outcome(Some(0), b"cli/cli\ncli/go-gh\n", b"")));
    assert_eq!(result.unwrap(), "cli/cli\ncli/go-gh\n");
}

#[test]
fn run_of_exit_zero_ignores_stderr() {
    let executor = GhExecutor::default();
    let result = executor.execute(Ok(outcome(Some(0), b"done", b"warning: something")));
    assert_eq!(result.unwrap(), "done");
}

#[test]
fn run_of_exit_zero_with_empty_stdout_returns_empty_text() {
    let result = GhExecutor::default().execute(Ok(outcome(Some(0), b"", b"")));
    assert_eq!(result.unwrap(), "");
}

#[test]
fn run_decodes_multibyte_stdout() {
    let bytes = "h\u{e9}llo \u{1F600} \u{4e16}\u{754c}".as_bytes();
    let result = GhExecutor::default().execute(Ok(outcome(Some(0), bytes, b"")));
    assert_eq!(result.unwrap(), "h\u{e9}llo \u{1F600} \u{4e16}\u{754c}");
}

#[test]
fn run_of_exit_one_with_boom_is_command_failed() {
    let result = GhExecutor::default().execute(Ok(outcome(Some(1), b"", b"boom")));
    match result {
        Err(GhError::CommandFailed { code, stderr }) => {
            assert_eq!(code, 1);
            assert_eq!(stderr, "boom");
        }
        other => panic!("expected CommandFailed, got {:?}", other),
    }
}

#[test]
fn run_of_failure_ignores_stdout() {
    let result = GhExecutor::default().execute(Ok(outcome(Some(4), b"partial output", b"no auth")));
    match result {
        Err(GhError::CommandFailed { code, stderr }) => {
            assert_eq!(code, 4);
            assert_eq!(stderr, "no auth");
        }
        other => panic!("expected CommandFailed, got {:?}", other),
    }
}

#[test]
fn run_ended_by_signal_reports_minus_one() {
    let result = GhExecutor::default().execute(Ok(outcome(None, b"", b"killed")));
    match result {
        Err(GhError::CommandFailed { code, stderr }) => {
            assert_eq!(code, -1);
            assert_eq!(stderr, "killed");
        }
        other => panic!("expected CommandFailed, got {:?}", other),
    }
}

#[test]
fn run_of_failure_decodes_stderr_leniently() {
    let result = GhExecutor::default().execute(Ok(outcome(Some(2), b"", b"bad \xff byte")));
    match result {
        Err(GhError::CommandFailed { code, stderr }) => {
            assert_eq!(code, 2);
            assert_eq!(stderr, "bad \u{FFFD} byte");
        }
        other => panic!("expected CommandFailed, got {:?}", other),
    }
}

#[test]
fn run_of_exit_zero_with_invalid_stdout_is_utf8_error() {
    let result = GhExecutor::default().execute(Ok(outcome(Some(0), b"ok \xff\xfe", b"")));
    match result {
        Err(GhError::Utf8Error(e)) => assert_eq!(e.as_bytes(), b"ok \xff\xfe"),
        other => panic!("expected Utf8Error, got {:?}", other),
    }
}

#[test]
fn run_that_could_not_start_is_io_error() {
    let executor = GhExecutor::new("/no/such/gh".to_string());
    let missing = std::io::Error::new(std::io::ErrorKind::NotFound, "No such file or directory");
    match executor.execute(Err(missing)) {
        Err(GhError::IoError(e)) => {
            assert_eq!(e.kind(), std::io::ErrorKind::NotFound);
            assert_eq!(e.to_string(), "No such file or directory");
        }
        other => panic!("expected IoError, got {:?}", other),
    }
}

#[test]
fn run_without_permission_is_io_error() {
    let denied = std::io::Error::from(std::io::ErrorKind::PermissionDenied);
    match GhExecutor::default().execute(Err(denied)) {
        Err(GhError::IoError(e)) => assert_eq!(e.kind(), std::io::ErrorKind::PermissionDenied),
        other => panic!("expected IoError, got {:?}", other),
    }
}

#[test]
fn probe_of_exit_zero_returns_the_version_text() {
    let executor = GhExecutor::default();
    let result = executor.check_installation(Ok(outcome(Some(0), b"gh version 2.40.1\n", b"")));
    assert_eq!(result.unwrap(), "gh version 2.40.1\n");
}

#[test]
fn probe_decodes_stdout_leniently() {
    let executor = GhExecutor::default();
    let result = executor.check_installation(Ok(outcome(Some(0), b"gh \xff 2", b"")));
    assert_eq!(result.unwrap(), "gh \u{FFFD} 2");
}

#[test]
fn probe_of_nonzero_exit_is_not_found() {
    let executor = GhExecutor::default();
    let result = executor.check_installation(Ok(outcome(Some(1), b"gh version 2", b"boom")));
    assert!(matches!(result, Err(GhError::GhNotFound)));
}

#[test]
fn probe_ended_by_signal_is_not_found() {
    let result = GhExecutor::default().check_installation(Ok(outcome(None, b"", b"")));
    assert!(matches!(result, Err(GhError::GhNotFound)));
}

#[test]
fn probe_that_could_not_start_is_not_found() {
    let executor = GhExecutor::new("/no/such/gh".to_string());
    let missing = std::io::Error::new(std::io::ErrorKind::NotFound, "No such file or directory");
    assert!(matches!(executor.check_installation(Err(missing)), Err(GhError::GhNotFound)));
}

#[test]
fn missing_binary_is_never_command_failed() {
    let executor = GhExecutor::new("/no/such/gh".to_string());
    let missing = || std::io::Error::from(std::io::ErrorKind::NotFound);
    let run = executor.execute(Err(missing()));
    let probe = executor.check_installation(Err(missing()));
    assert!(!matches!(run, Err(GhError::CommandFailed { .. })));
    assert!(!matches!(probe, Err(GhError::CommandFailed { .. })));
    assert!(run.is_err());
    assert!(probe.is_err());
}
