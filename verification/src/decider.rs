use std::collections::HashSet;
use vstd::prelude::*;

use crate::task::{ExitStatus, TaskOutcome};

verus! {

broadcast use vstd::std_specs::hash::group_hash_axioms;

/// Why the attempts are over.
#[derive(Debug, Clone, Copy, PartialEq, Eq, Structural)]
pub enum FinishedReason {
    Success,
    Failure(ExitStatus),
    Terminated(ExitStatus),
}

/// Why the command should be tried again.
#[derive(Debug, Clone, Copy, PartialEq, Eq, Structural)]
pub enum UnfinishedReason {
    Failure(ExitStatus),
    Timeout,
}

/// What to do after one attempt.
#[derive(Debug, Clone, Copy, PartialEq, Eq, Structural)]
pub enum Decision {
    Finished(FinishedReason),
    Unfinished(UnfinishedReason),
}

/// Turns how an attempt ended into whether to try again.
pub trait Decidable {
    /// The decision this decider makes for `task_outcome`.
    spec fn decision_for(&self, task_outcome: TaskOutcome) -> Decision;

    /// The outcomes this decider can judge.
    spec fn accepts(&self, task_outcome: TaskOutcome) -> bool;

    fn decide(&self, task_outcome: TaskOutcome) -> (decision: Decision)
        requires
            self.accepts(task_outcome),
        ensures
            decision == self.decision_for(task_outcome),
    ;
}

/// The decision shared by every decider for the outcomes that leave no
/// choice: a success ends the attempts, a signal ends them, and a per-attempt
/// timeout is always worth another try.
pub open spec fn fixed_decision(task_outcome: TaskOutcome) -> Option<Decision> {
    match task_outcome {
        TaskOutcome::Success => Some(Decision::Finished(FinishedReason::Success)),
        TaskOutcome::Terminated(status) => Some(Decision::Finished(FinishedReason::Terminated(status))),
        TaskOutcome::TimeoutExceeded => Some(Decision::Unfinished(UnfinishedReason::Timeout)),
        TaskOutcome::Failure(_) => None,
    }
}

/// Retries every failure.
#[derive(Debug, Clone, Copy, PartialEq, Eq, Structural)]
pub struct DefaultDecider;

impl Default for DefaultDecider {
    fn default() -> (decider: Self) {
        DefaultDecider
    }
}

impl DefaultDecider {
    pub fn new() -> (decider: Self) {
        DefaultDecider
    }
}

impl Decidable for DefaultDecider {
    /// Every outcome, a failure without an exit code included.
    open spec fn accepts(&self, task_outcome: TaskOutcome) -> bool {
        true
    }

    open spec fn decision_for(&self, task_outcome: TaskOutcome) -> Decision {
        match task_outcome {
            TaskOutcome::Failure(status) => Decision::Unfinished(UnfinishedReason::Failure(status)),
            _ => fixed_decision(task_outcome)->0,
        }
    }

    fn decide(&self, task_outcome: TaskOutcome) -> (decision: Decision) {
        match task_outcome {
            TaskOutcome::Success => Decision::Finished(FinishedReason::Success),
            TaskOutcome::Failure(exit_code) => Decision::Unfinished(UnfinishedReason::Failure(exit_code)),
            TaskOutcome::Terminated(signal) => Decision::Finished(FinishedReason::Terminated(signal)),
            TaskOutcome::TimeoutExceeded => Decision::Unfinished(UnfinishedReason::Timeout),
        }
    }
}

/// Retries a failure only when its exit code is one of the given codes.
#[derive(Debug, PartialEq, Eq)]
pub struct RetryOnExitCodesDecider(HashSet<i32>);

impl View for RetryOnExitCodesDecider {
    type V = Set<i32>;

    closed spec fn view(&self) -> Set<i32> {
        self.0@
    }
}

impl RetryOnExitCodesDecider {
    pub fn new(retry_on_exit_codes: HashSet<i32>) -> (decider: Self)
        ensures
            decider@ == retry_on_exit_codes@,
    {
        RetryOnExitCodesDecider(retry_on_exit_codes)
    }
}

impl Decidable for RetryOnExitCodesDecider {
    /// Every outcome but a failure without an exit code to look up.
    open spec fn accepts(&self, task_outcome: TaskOutcome) -> bool {
        task_outcome.is_well_formed()
    }

    open spec fn decision_for(&self, task_outcome: TaskOutcome) -> Decision {
        match task_outcome {
            TaskOutcome::Failure(status) => if self@.contains(status.code->0) {
                Decision::Unfinished(UnfinishedReason::Failure(status))
            } else {
                Decision::Finished(FinishedReason::Failure(status))
            },
            _ => fixed_decision(task_outcome)->0,
        }
    }

    fn decide(&self, task_outcome: TaskOutcome) -> (decision: Decision) {
        match task_outcome {
            TaskOutcome::Success => Decision::Finished(FinishedReason::Success),
            TaskOutcome::Failure(exit_status) => {
                let code = match exit_status.code() {
                    Some(code) => code,
                    None => {
                        proof {
                            assert(false);
                        }
                        0
                    },
                };
                if self.0.contains(&code) {
                    Decision::Unfinished(UnfinishedReason::Failure(exit_status))
                } else {
                    Decision::Finished(FinishedReason::Failure(exit_status))
                }
            },
            TaskOutcome::Terminated(signal) => Decision::Finished(FinishedReason::Terminated(signal)),
            TaskOutcome::TimeoutExceeded => Decision::Unfinished(UnfinishedReason::Timeout),
        }
    }
}

/// The decider chosen from the command line.
#[derive(Debug, PartialEq, Eq)]
pub enum Decider {
    Default(DefaultDecider),
    RetryOnExitCodes(RetryOnExitCodesDecider),
}

impl Decider {
    /// Retries every failure when no exit codes are given, and otherwise only
    /// the failures whose exit code is among them.
    pub fn new(retry_on_exit_codes: Option<Vec<i32>>) -> (decider: Self)
        ensures
            match retry_on_exit_codes {
                None => decider is Default,
                Some(codes) => decider is RetryOnExitCodes && decider->RetryOnExitCodes_0@
                    == codes@.to_set(),
            },
    {
        match retry_on_exit_codes {
            Some(retry_on_exit_codes) => {
                let mut codes: HashSet<i32> = HashSet::new();
                let mut i: usize = 0;
                while i < retry_on_exit_codes.len()
                    invariant
                        i <= retry_on_exit_codes@.len(),
                        codes@ == retry_on_exit_codes@.subrange(0, i as int).to_set(),
                    decreases retry_on_exit_codes@.len() - i,
                {
                    let code = retry_on_exit_codes[i];
                    codes.insert(code);
                    proof {
                        let s = retry_on_exit_codes@;
                        assert(s.subrange(0, i + 1) == s.subrange(0, i as int).push(code));
                        s.subrange(0, i as int).lemma_push_to_set_commute(code);
                    }
                    i = i + 1;
                }
                proof {
                    assert(retry_on_exit_codes@.subrange(0, i as int) == retry_on_exit_codes@);
                }
                Decider::RetryOnExitCodes(RetryOnExitCodesDecider::new(codes))
            },
            None => Decider::Default(DefaultDecider::new()),
        }
    }
}

impl Default for Decider {
    fn default() -> (decider: Self)
        ensures
            decider is Default,
    {
        Decider::Default(DefaultDecider::default())
    }
}

impl Decidable for Decider {
    open spec fn accepts(&self, task_outcome: TaskOutcome) -> bool {
        match self {
            Decider::Default(decider) => decider.accepts(task_outcome),
            Decider::RetryOnExitCodes(decider) => decider.accepts(task_outcome),
        }
    }

    open spec fn decision_for(&self, task_outcome: TaskOutcome) -> Decision {
        match self {
            Decider::Default(decider) => decider.decision_for(task_outcome),
            Decider::RetryOnExitCodes(decider) => decider.decision_for(task_outcome),
        }
    }

    fn decide(&self, task_outcome: TaskOutcome) -> (decision: Decision) {
        match self {
            Decider::Default(decider) => decider.decide(task_outcome),
            Decider::RetryOnExitCodes(decider) => decider.decide(task_outcome),
        }
    }
}

/// Whatever exit codes were given, a success ends the attempts, a process
/// stopped by a signal is never retried, and a per-attempt timeout always is.
pub proof fn law_outcomes_every_decider_agrees_on(decider: Decider, task_outcome: TaskOutcome)
    requires
        !(task_outcome is Failure),
    ensures
        decider.decision_for(task_outcome) == fixed_decision(task_outcome)->0,
        task_outcome is Success ==> decider.decision_for(task_outcome) == Decision::Finished(FinishedReason::Success),
        task_outcome is TimeoutExceeded ==> decider.decision_for(task_outcome) == Decision::Unfinished(UnfinishedReason::Timeout),
        task_outcome matches TaskOutcome::Terminated(status) ==> decider.decision_for(task_outcome)
            == Decision::Finished(FinishedReason::Terminated(status)),
{
}

/// Without exit codes, every failure is retried.
pub proof fn law_default_decider_retries_every_failure(status: ExitStatus)
    ensures
        Decider::Default(DefaultDecider).decision_for(TaskOutcome::Failure(status))
            == Decision::Unfinished(UnfinishedReason::Failure(status)),
{
}

/// With exit codes, a failure is retried exactly when its exit code is one of
/// them, and otherwise ends the attempts with that failure.
pub proof fn law_retry_only_on_listed_exit_codes(decider: RetryOnExitCodesDecider, status: ExitStatus, code: i32)
    requires
        status.code == Some(code),
    ensures
        decider.decision_for(TaskOutcome::Failure(status)) == (if decider@.contains(code) {
            Decision::Unfinished(UnfinishedReason::Failure(status))
        } else {
            Decision::Finished(FinishedReason::Failure(status))
        }),
{
}

/// An explicit empty set of exit codes never retries a failure.
pub proof fn law_empty_exit_codes_never_retry(decider: RetryOnExitCodesDecider, status: ExitStatus)
    requires
        decider@ == Set::<i32>::empty(),
    ensures
        decider.decision_for(TaskOutcome::Failure(status)) == Decision::Finished(FinishedReason::Failure(status)),
{
}

/// A decider built from a list of exit codes retries a failure exactly when
/// the failure's exit code is in that list, and otherwise ends the attempts
/// with that failure.
pub proof fn law_decider_retries_only_listed_codes(decider: Decider, codes: Seq<i32>, status: ExitStatus, code: i32)
    requires
        decider matches Decider::RetryOnExitCodes(d) && d@ == codes.to_set(),
        status.code == Some(code),
    ensures
        codes.contains(code) ==> decider.decision_for(TaskOutcome::Failure(status))
            == Decision::Unfinished(UnfinishedReason::Failure(status)),
        !codes.contains(code) ==> decider.decision_for(TaskOutcome::Failure(status))
            == Decision::Finished(FinishedReason::Failure(status)),
{
}

} // verus!
