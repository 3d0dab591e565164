use vstd::prelude::*;

verus! {

/// How a finished child process ended, as far as retrying cares: the exit
/// code it returned, or `None` when it was stopped by a signal.
#[derive(Debug, Clone, Copy, PartialEq, Eq, Structural)]
pub struct ExitStatus {
    pub code: Option<i32>,
}

impl ExitStatus {
    /// The exit code, or `None` when the process was stopped by a signal.
    pub fn code(&self) -> (code: Option<i32>)
        ensures
            code == self.code,
    {
        self.code
    }
}

/// How one attempt at running the command ended.
#[derive(Debug, Clone, Copy, PartialEq, Eq, Structural)]
pub enum TaskOutcome {
    Success,
    Failure(ExitStatus),
    Terminated(ExitStatus),
    TimeoutExceeded,
}

impl TaskOutcome {
    /// A failure carries an exit code, as every failure built from a real
    /// status does.
    pub open spec fn is_well_formed(self) -> bool {
        match self {
            TaskOutcome::Failure(status) => status.code is Some,
            _ => true,
        }
    }

    /// The outcome of an attempt whose process ended with `status`, or that
    /// was cut off by the per-attempt timeout when `status` is `None`.
    pub open spec fn classify(status: Option<ExitStatus>) -> TaskOutcome {
        match status {
            Some(s) => match s.code {
                Some(code) => if code == 0 {
                    TaskOutcome::Success
                } else {
                    TaskOutcome::Failure(s)
                },
                None => TaskOutcome::Terminated(s),
            },
            None => TaskOutcome::TimeoutExceeded,
        }
    }
}

impl From<Option<ExitStatus>> for TaskOutcome {
    fn from(status: Option<ExitStatus>) -> (outcome: TaskOutcome) {
        match status {
            Some(status) => match status.code() {
                Some(code) => {
                    if code == 0 {
                        TaskOutcome::Success
                    } else {
                        TaskOutcome::Failure(status)
                    }
                },
                None => TaskOutcome::Terminated(status),
            },
            None => TaskOutcome::TimeoutExceeded,
        }
    }
}

impl vstd::std_specs::convert::FromSpecImpl<Option<ExitStatus>> for TaskOutcome {
    open spec fn obeys_from_spec() -> bool {
        true
    }

    open spec fn from_spec(v: Option<ExitStatus>) -> TaskOutcome {
        TaskOutcome::classify(v)
    }
}

/// Every outcome classified from a status is well formed: a failure always
/// has an exit code to look up, and a termination never has one.
pub proof fn law_classified_outcome_is_well_formed(status: Option<ExitStatus>)
    ensures
        TaskOutcome::classify(status).is_well_formed(),
        TaskOutcome::classify(status) matches TaskOutcome::Terminated(s) ==> s.code is None,
        TaskOutcome::classify(status) is Success <==> (status is Some && status->0.code == Some(0i32)),
{
}

/// How `TaskOutcome::from` classifies a status: exit code 0 is a success,
/// any other exit code is a failure carrying that status, no exit code is a
/// termination by a signal carrying that status, and only a missing status
/// (the per-attempt timeout cut the attempt off) is a timeout.
pub proof fn law_from_status_classifies_by_exit_code(status: Option<ExitStatus>)
    ensures
        ({
            let outcome = <TaskOutcome as vstd::std_specs::convert::FromSpec<Option<ExitStatus>>>::from_spec(status);
            &&& (status is Some && status->0.code == Some(0i32)) ==> outcome == TaskOutcome::Success
            &&& (status is Some && status->0.code is Some && status->0.code != Some(0i32)) ==> outcome
                == TaskOutcome::Failure(status->0)
            &&& (status is Some && status->0.code is None) ==> outcome == TaskOutcome::Terminated(status->0)
            &&& (outcome is TimeoutExceeded <==> status is None)
            &&& (outcome is Success <==> (status is Some && status->0.code == Some(0i32)))
        }),
{
}

} // verus!
