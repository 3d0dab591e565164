use retry::task::{ExitStatus, TaskOutcome};

#[test]
fn exit_code_zero_is_success() {
    let outcome = TaskOutcome::from(Some(ExitStatus { code: Some(0) }));
    assert_eq!(outcome, TaskOutcome::Success);
}

#[test]
fn nonzero_exit_code_is_failure() {
    let outcome = TaskOutcome::from(Some(ExitStatus { code: Some(144) }));
    let code = match outcome {
        TaskOutcome::Failure(exit_status) => match exit_status.code() {
            Some(code) => code,
            None => panic!("Expected ExitStatus::code() to return Some(_)"),
        },
        _ => panic!("Expected TaskOutcome::Failure"),
    };
    assert_eq!(code, 144);
}

#[test]
fn no_exit_code_is_termination() {
    let status = ExitStatus { code: None };
    assert_eq!(TaskOutcome::from(Some(status)), TaskOutcome::Terminated(status));
}

#[test]
fn no_status_is_timeout() {
    assert_eq!(TaskOutcome::from(None), TaskOutcome::TimeoutExceeded);
}
