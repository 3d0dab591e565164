use retry::cli::{Retry, TimeSpan};
use retry::decider::{Decidable, Decider, Decision, FinishedReason, UnfinishedReason};
use retry::executor::{
    Event, ExecuteError, ExecuteErrorKind, Executor, ExhaustionReason, Limit, Step,
};
use retry::task::{ExitStatus, TaskOutcome};

struct TestDecider(Decision);

impl Decidable for TestDecider {
    fn accepts(&self, _task_outcome: TaskOutcome) -> bool {
        true
    }

    fn decision_for(&self, _task_outcome: TaskOutcome) -> Decision {
        self.0
    }

    fn decide(&self, _task_outcome: TaskOutcome) -> Decision {
        self.0
    }
}

/// Plays the runner: every attempt succeeds as a process, and under a time
/// limit the time runs out once `attempts_in_time` attempts have run.
fn execute<D: Decidable>(
    decider: D,
    limit: Limit,
    attempts_in_time: usize,
) -> (Result<(), ExecuteError>, usize) {
    let mut executor = Executor::new(decider, limit);
    let mut step = executor.start();
    let mut runs = 0;
    loop {
        match step {
            Step::Finish(result) => return (result, runs),
            Step::RunTask => {
                let event = if matches!(limit, Limit::ForDuration(_)) && runs == attempts_in_time {
                    Event::TimeLimitReached
                } else {
                    runs += 1;
                    Event::Completed(TaskOutcome::Success)
                };
                step = executor.handle(event);
            }
        }
    }
}

fn ten_millis() -> Limit {
    Limit::ForDuration(TimeSpan { secs: 0, nanos: 10_000_000 })
}

#[test]
fn execute_retry_times_finished_success() {
    let decider = TestDecider(Decision::Finished(FinishedReason::Success));
    let (outcome, runs) = execute(decider, Limit::NumberOfTimes(3), 0);
    assert!(outcome.is_ok());
    assert_eq!(runs, 1);
}

#[test]
fn execute_retry_times_finished_failure() {
    let failure_exit_status = ExitStatus { code: None };
    let decider = TestDecider(Decision::Finished(FinishedReason::Failure(failure_exit_status)));
    let (outcome, _) = execute(decider, Limit::NumberOfTimes(3), 0);
    assert!(matches!(
        outcome,
        Err(ExecuteError { kind: ExecuteErrorKind::Failure(..), .. })
    ));
}

#[test]
fn execute_retry_times_finished_terminated() {
    let failure_exit_status = ExitStatus { code: None };
    let decider = TestDecider(Decision::Finished(FinishedReason::Terminated(failure_exit_status)));
    let (outcome, _) = execute(decider, Limit::NumberOfTimes(3), 0);
    assert!(matches!(
        outcome,
        Err(ExecuteError { kind: ExecuteErrorKind::Terminated(..), .. })
    ));
}

#[test]
fn execute_retry_times_unfinished_failure() {
    let failure_exit_status = ExitStatus { code: None };
    let decider = TestDecider(Decision::Unfinished(UnfinishedReason::Failure(failure_exit_status)));
    let (outcome, runs) = execute(decider, Limit::NumberOfTimes(3), 0);
    assert!(matches!(
        outcome,
        Err(ExecuteError {
            kind: ExecuteErrorKind::Exhausted(ExhaustionReason::RetryTimesExceeded(
                UnfinishedReason::Failure(_)
            )),
            ..
        })
    ));
    assert_eq!(runs, 3);
}

#[test]
fn execute_retry_times_unfinished_timeout() {
    let decider = TestDecider(Decision::Unfinished(UnfinishedReason::Timeout));
    let (outcome, runs) = execute(decider, Limit::NumberOfTimes(3), 0);
    assert!(matches!(
        outcome,
        Err(ExecuteError {
            kind: ExecuteErrorKind::Exhausted(ExhaustionReason::RetryTimesExceeded(
                UnfinishedReason::Timeout
            )),
            ..
        })
    ));
    assert_eq!(runs, 3);
}

#[test]
fn execute_retry_timeout_finished_success() {
    let decider = TestDecider(Decision::Finished(FinishedReason::Success));
    let (outcome, _) = execute(decider, ten_millis(), 5);
    assert!(outcome.is_ok());
}

#[test]
fn execute_retry_timeout_finished_failure() {
    let failure_exit_status = ExitStatus { code: None };
    let decider = TestDecider(Decision::Finished(FinishedReason::Failure(failure_exit_status)));
    let (outcome, _) = execute(decider, ten_millis(), 5);
    assert!(matches!(
        outcome,
        Err(ExecuteError { kind: ExecuteErrorKind::Failure(..), .. })
    ));
}

#[test]
fn execute_retry_timeout_finished_terminated() {
    let failure_exit_status = ExitStatus { code: None };
    let decider = TestDecider(Decision::Finished(FinishedReason::Terminated(failure_exit_status)));
    let (outcome, _) = execute(decider, ten_millis(), 5);
    assert!(matches!(
        outcome,
        Err(ExecuteError { kind: ExecuteErrorKind::Terminated(..), .. })
    ));
}

#[test]
fn execute_retry_timeout_unfinished_failure() {
    let failure_exit_status = ExitStatus { code: None };
    let decider = TestDecider(Decision::Unfinished(UnfinishedReason::Failure(failure_exit_status)));
    let (outcome, runs) = execute(decider, Limit::ForDuration(TimeSpan { secs: 0, nanos: 5_000_000 }), 4);
    assert!(matches!(
        outcome,
        Err(ExecuteError {
            kind: ExecuteErrorKind::Exhausted(ExhaustionReason::RetryTimeoutExceeded(
                UnfinishedReason::Timeout
            )),
            ..
        })
    ));
    // Because the task races with a duration, there is no way to return an
    // ExitStatus and so no way that it can ever be an UnfinishedReason::Failure
    assert!(!matches!(
        outcome,
        Err(ExecuteError {
            kind: ExecuteErrorKind::Exhausted(ExhaustionReason::RetryTimeoutExceeded(
                UnfinishedReason::Failure(_)
            )),
            ..
        })
    ));
    assert_eq!(runs, 4);
}

#[test]
fn execute_retry_timeout_unfinished_timeout() {
    let decider = TestDecider(Decision::Unfinished(UnfinishedReason::Timeout));
    let (outcome, _) = execute(decider, Limit::ForDuration(TimeSpan { secs: 0, nanos: 5_000_000 }), 2);
    assert!(matches!(
        outcome,
        Err(ExecuteError {
            kind: ExecuteErrorKind::Exhausted(ExhaustionReason::RetryTimeoutExceeded(
                UnfinishedReason::Timeout
            )),
            ..
        })
    ));
}

#[test]
fn zero_attempts_never_run_the_command() {
    let (outcome, runs) = execute(Decider::new(None), Limit::NumberOfTimes(0), 0);
    assert_eq!(runs, 0);
    assert!(matches!(
        outcome,
        Err(ExecuteError {
            kind: ExecuteErrorKind::Exhausted(ExhaustionReason::RetryTimesExceeded(
                UnfinishedReason::Timeout
            )),
            ..
        })
    ));
}

#[test]
fn last_retried_failure_is_reported_when_attempts_run_out() {
    let mut executor = Executor::new(Decider::new(None), Limit::NumberOfTimes(2));
    assert!(matches!(executor.start(), Step::RunTask));
    let first = ExitStatus { code: Some(3) };
    let second = ExitStatus { code: Some(4) };
    assert!(matches!(executor.handle(Event::Completed(TaskOutcome::Failure(first))), Step::RunTask));
    match executor.handle(Event::Completed(TaskOutcome::Failure(second))) {
        Step::Finish(Err(err)) => {
            assert!(matches!(
                err.kind,
                ExecuteErrorKind::Exhausted(ExhaustionReason::RetryTimesExceeded(
                    UnfinishedReason::Failure(status)
                )) if status == second
            ));
            assert_eq!(err.kind.exit_code(), 4);
        }
        other => panic!("unexpected step {other:?}"),
    }
}

#[test]
fn spawn_failure_ends_execution() {
    let mut executor = Executor::new(Decider::new(None), Limit::NumberOfTimes(5));
    assert!(matches!(executor.start(), Step::RunTask));
    let err = std::io::Error::new(std::io::ErrorKind::NotFound, "no such command");
    match executor.handle(Event::SpawnFailed(err)) {
        Step::Finish(Err(err)) => {
            assert!(matches!(err.kind, ExecuteErrorKind::Spawn(..)));
            assert_eq!(err.kind.exit_code(), 1);
            assert_eq!(err.description(), "unable to spawn child process");
        }
        other => panic!("unexpected step {other:?}"),
    }
}

#[test]
fn limit_from_retry_keeps_its_value() {
    assert_eq!(Limit::from(Retry::NumberOfTimes(4)), Limit::NumberOfTimes(4));
    let span = TimeSpan { secs: 2, nanos: 0 };
    assert_eq!(Limit::from(Retry::ForDuration(span)), Limit::ForDuration(span));
}

#[test]
fn finished_reasons_become_results() {
    assert!(Result::<(), ExecuteError>::from(FinishedReason::Success).is_ok());
    let status = ExitStatus { code: Some(9) };
    match Result::<(), ExecuteError>::from(FinishedReason::Failure(status)) {
        Err(err) => {
            assert_eq!(err.kind.exit_code(), 9);
            assert_eq!(
                err.description(),
                "command failed with an exit code that is not retryable"
            );
        }
        Ok(()) => panic!("expected an error"),
    }
    match Result::<(), ExecuteError>::from(FinishedReason::Terminated(ExitStatus { code: None })) {
        Err(err) => {
            assert_eq!(err.kind.exit_code(), 1);
            assert_eq!(err.description(), "command terminated by a signal");
        }
        Ok(()) => panic!("expected an error"),
    }
}

#[test]
fn exhaustion_exit_codes_follow_the_last_reason() {
    let kind = ExecuteErrorKind::Exhausted(ExhaustionReason::RetryTimeoutExceeded(
        UnfinishedReason::Timeout,
    ));
    assert_eq!(kind.exit_code(), 1);
    let kind = ExecuteErrorKind::Exhausted(ExhaustionReason::RetryTimesExceeded(
        UnfinishedReason::Failure(ExitStatus { code: Some(42) }),
    ));
    assert_eq!(kind.exit_code(), 42);
}

#[test]
fn first_unlisted_failure_ends_an_attempt_limited_run() {
    let mut executor = Executor::new(Decider::new(Some(vec![2])), Limit::NumberOfTimes(5));
    let mut step = executor.start();
    let codes = [2, 2, 5, 2];
    let mut runs = 0;
    let result = loop {
        match step {
            Step::Finish(result) => break result,
            Step::RunTask => {
                let status = ExitStatus { code: Some(codes[runs]) };
                runs += 1;
                step = executor.handle(Event::Completed(TaskOutcome::from(Some(status))));
            }
        }
    };
    assert_eq!(runs, 3);
    match result {
        Err(err) => {
            assert!(matches!(err.kind, ExecuteErrorKind::Failure(status) if status.code == Some(5)));
            assert_eq!(err.kind.exit_code(), 5);
        }
        Ok(()) => panic!("expected an error"),
    }
}

#[test]
fn success_ends_a_time_limited_run() {
    let mut executor = Executor::new(Decider::new(None), ten_millis());
    assert!(matches!(executor.start(), Step::RunTask));
    let failed = TaskOutcome::from(Some(ExitStatus { code: Some(1) }));
    assert!(matches!(executor.handle(Event::Completed(failed)), Step::RunTask));
    assert!(matches!(executor.handle(Event::Completed(TaskOutcome::TimeoutExceeded)), Step::RunTask));
    let succeeded = TaskOutcome::from(Some(ExitStatus { code: Some(0) }));
    assert!(matches!(executor.handle(Event::Completed(succeeded)), Step::Finish(Ok(()))));
}
