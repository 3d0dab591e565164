use retry::decider::{
    Decidable, Decider, Decision, FinishedReason, RetryOnExitCodesDecider, UnfinishedReason,
};
use retry::task::{ExitStatus, TaskOutcome};
use std::collections::HashSet;

#[test]
fn default_decider_success() {
    // Arrange
    let decider = Decider::new(None);

    // Act
    let conclusion = decider.decide(TaskOutcome::Success);

    // Assert
    assert_eq!(conclusion, Decision::Finished(FinishedReason::Success));
}

#[test]
fn default_decider_failure() {
    // Arrange
    // A status from signal 1: it has no exit code.
    let exit_code = ExitStatus { code: None };
    let task_outcome = TaskOutcome::Failure(exit_code.clone());
    let decider = Decider::new(None);

    // Act
    let conclusion = decider.decide(task_outcome);

    // Assert
    assert_eq!(
        conclusion,
        Decision::Unfinished(UnfinishedReason::Failure(exit_code))
    );
}

#[test]
fn default_decider_termination() {
    // Arrange
    let exit_code = ExitStatus { code: None };
    let task_outcome = TaskOutcome::Terminated(exit_code);
    let decider = Decider::new(None);

    // Act
    let conclusion = decider.decide(task_outcome);

    // Assert
    assert_eq!(
        conclusion,
        Decision::Finished(FinishedReason::Terminated(exit_code))
    );
}

#[test]
fn default_decider_timeout() {
    // Arrange
    let task_outcome = TaskOutcome::TimeoutExceeded;
    let decider = Decider::new(None);

    // Act
    let conclusion = decider.decide(task_outcome);

    // Assert
    assert_eq!(conclusion, Decision::Unfinished(UnfinishedReason::Timeout));
}

#[test]
fn retry_on_exit_codes_decider_success() {
    // explicit empty set means it will never retry
    let decider = Decider::new(Some(Vec::new()));
    let conclusion = decider.decide(TaskOutcome::Success);
    assert_eq!(conclusion, Decision::Finished(FinishedReason::Success));
}

#[test]
fn retry_on_exit_codes_decider_unfinished_failure() {
    // The outcome of a command that exited with code 2.
    let task_outcome = TaskOutcome::from(Some(ExitStatus { code: Some(2) }));
    let task_outcome_exit_status = match task_outcome {
        TaskOutcome::Failure(exit_status) => exit_status,
        _ => panic!("Expected TaskOutcome::Failure"),
    };
    let retry_on_exit_codes = Some(vec![1, 2, 3]);
    let decider = Decider::new(retry_on_exit_codes);

    let conclusion = decider.decide(task_outcome);

    assert_eq!(
        conclusion,
        Decision::Unfinished(UnfinishedReason::Failure(task_outcome_exit_status))
    );
}

#[test]
fn retry_on_exit_codes_decider_finished_failure() {
    // The outcome of a command that exited with code 4.
    let task_outcome = TaskOutcome::from(Some(ExitStatus { code: Some(4) }));
    let task_outcome_exit_status = match task_outcome {
        TaskOutcome::Failure(exit_status) => exit_status,
        _ => panic!("Expected TaskOutcome::Failure"),
    };
    let retry_on_exit_codes = Some(vec![1, 2, 3]);
    let decider = Decider::new(retry_on_exit_codes);

    let conclusion = decider.decide(task_outcome);

    assert_eq!(
        conclusion,
        Decision::Finished(FinishedReason::Failure(task_outcome_exit_status))
    );
}

#[test]
fn retry_on_exit_codes_decider_termination() {
    // explicit empty set means it will never retry
    let decider = Decider::new(Some(Vec::new()));
    let exit_code = ExitStatus { code: None };
    let task_outcome = TaskOutcome::Terminated(exit_code);
    let conclusion = decider.decide(task_outcome);
    assert_eq!(
        conclusion,
        Decision::Finished(FinishedReason::Terminated(exit_code))
    );
}

#[test]
fn retry_on_exit_codes_decider_timeout() {
    let retry_on_exit_codes: Vec<i32> = vec![]; // explicit empty set means it will never retry
    let decider = RetryOnExitCodesDecider::new(retry_on_exit_codes.into_iter().collect());
    let task_outcome = TaskOutcome::TimeoutExceeded;

    let conclusion = decider.decide(task_outcome);

    assert_eq!(conclusion, Decision::Unfinished(UnfinishedReason::Timeout));
}

#[test]
fn empty_exit_code_list_never_retries_a_failure() {
    let decider = Decider::new(Some(Vec::new()));
    let status = ExitStatus { code: Some(1) };
    assert_eq!(
        decider.decide(TaskOutcome::Failure(status)),
        Decision::Finished(FinishedReason::Failure(status))
    );
}

#[test]
fn listed_exit_codes_repeated_still_retry() {
    let decider = Decider::new(Some(vec![7, 7, 9]));
    for code in [7, 9] {
        let status = ExitStatus { code: Some(code) };
        assert_eq!(
            decider.decide(TaskOutcome::Failure(status)),
            Decision::Unfinished(UnfinishedReason::Failure(status))
        );
    }
    let status = ExitStatus { code: Some(8) };
    assert_eq!(
        decider.decide(TaskOutcome::Failure(status)),
        Decision::Finished(FinishedReason::Failure(status))
    );
}

#[test]
fn default_decider_retries_any_failure_code() {
    let decider = Decider::default();
    for code in [1, 2, 127, 255, -1] {
        let status = ExitStatus { code: Some(code) };
        assert_eq!(
            decider.decide(TaskOutcome::Failure(status)),
            Decision::Unfinished(UnfinishedReason::Failure(status))
        );
    }
}

#[test]
fn exit_code_set_decider_from_hash_set() {
    let codes: HashSet<i32> = [3].into_iter().collect();
    let decider = RetryOnExitCodesDecider::new(codes);
    let status = ExitStatus { code: Some(3) };
    assert_eq!(
        decider.decide(TaskOutcome::Failure(status)),
        Decision::Unfinished(UnfinishedReason::Failure(status))
    );
}

#[test]
fn terminated_status_with_exit_code_ends_the_attempts() {
    let status = ExitStatus { code: Some(3) };
    let outcome = TaskOutcome::Terminated(status);
    let expected = Decision::Finished(FinishedReason::Terminated(status));
    assert_eq!(Decider::new(None).decide(outcome), expected);
    assert_eq!(Decider::new(Some(vec![3])).decide(outcome), expected);
}
