use vstd::prelude::*;

use crate::cli::{Retry, TimeSpan};
use crate::decider::{Decidable, Decider, Decision, FinishedReason, UnfinishedReason};
use crate::task::{ExitStatus, TaskOutcome};

verus! {

#[verifier::external_type_specification]
#[verifier::external_body]
pub struct ExIoError(std::io::Error);

/// How long to keep trying: a total length of time or a number of attempts.
#[derive(Debug, Clone, Copy, PartialEq, Eq, Structural)]
pub enum Limit {
    ForDuration(TimeSpan),
    NumberOfTimes(u64),
}

impl From<Retry> for Limit {
    fn from(retry: Retry) -> (limit: Self) {
        match retry {
            Retry::ForDuration(duration) => Limit::ForDuration(duration),
            Retry::NumberOfTimes(num_times) => Limit::NumberOfTimes(num_times),
        }
    }
}

impl vstd::std_specs::convert::FromSpecImpl<Retry> for Limit {
    open spec fn obeys_from_spec() -> bool {
        true
    }

    open spec fn from_spec(v: Retry) -> Limit {
        match v {
            Retry::ForDuration(duration) => Limit::ForDuration(duration),
            Retry::NumberOfTimes(num_times) => Limit::NumberOfTimes(num_times),
        }
    }
}

/// Which limit ran out, and why the last attempt asked to be retried.
#[derive(Debug, Clone, Copy, PartialEq, Eq, Structural)]
pub enum ExhaustionReason {
    RetryTimesExceeded(UnfinishedReason),
    RetryTimeoutExceeded(UnfinishedReason),
}

/// Why the command did not succeed.
#[derive(Debug)]
pub enum ExecuteErrorKind {
    /// The command could not be started.
    Spawn(std::io::Error),
    /// The command failed and was not retried because the exit code was not in the retry_on_exit_codes set.
    Failure(ExitStatus),
    /// The command was terminated by a signal.
    Terminated(ExitStatus),
    /// The command was retried until the up_to limit, and did not succeed.
    Exhausted(ExhaustionReason),
}

/// The exit code of a status, and 1 where it has none.
pub open spec fn code_or_one(status: ExitStatus) -> i32 {
    match status.code {
        Some(code) => code,
        None => 1,
    }
}

impl ExecuteErrorKind {
    /// The exit code that `retry` itself ends with for this error.
    pub open spec fn spec_exit_code(&self) -> i32 {
        match self {
            ExecuteErrorKind::Spawn(_) => 1,
            ExecuteErrorKind::Failure(status) => code_or_one(*status),
            ExecuteErrorKind::Terminated(status) => code_or_one(*status),
            ExecuteErrorKind::Exhausted(ExhaustionReason::RetryTimesExceeded(reason))
            | ExecuteErrorKind::Exhausted(ExhaustionReason::RetryTimeoutExceeded(reason)) => match reason {
                UnfinishedReason::Failure(status) => code_or_one(*status),
                UnfinishedReason::Timeout => 1,
            },
        }
    }

    pub fn exit_code(&self) -> (code: i32)
        ensures
            code == self.spec_exit_code(),
    {
        match self {
            ExecuteErrorKind::Spawn(_) => 1,
            ExecuteErrorKind::Failure(exit_status) => exit_status.code().unwrap_or(1),
            ExecuteErrorKind::Terminated(exit_status) => exit_status.code().unwrap_or(1),
            ExecuteErrorKind::Exhausted(exhaustion_reason) => match exhaustion_reason {
                ExhaustionReason::RetryTimesExceeded(unfinished_reason)
                | ExhaustionReason::RetryTimeoutExceeded(unfinished_reason) => {
                    match unfinished_reason {
                        UnfinishedReason::Failure(exit_code) => exit_code.code().unwrap_or(1),
                        UnfinishedReason::Timeout => 1,
                    }
                },
            },
        }
    }
}

/// The error that `retry` ends with when the command did not succeed.
#[derive(Debug)]
#[non_exhaustive]
pub struct ExecuteError {
    pub kind: ExecuteErrorKind,
}

impl ExecuteError {
    /// The one-line description of this error.
    pub open spec fn spec_description(&self) -> Seq<char> {
        match self.kind {
            ExecuteErrorKind::Spawn(_) => "unable to spawn child process"@,
            ExecuteErrorKind::Failure(_) => "command failed with an exit code that is not retryable"@,
            ExecuteErrorKind::Terminated(_) => "command terminated by a signal"@,
            ExecuteErrorKind::Exhausted(_) => "command did not succeed within specified constraints"@,
        }
    }

    pub fn description(&self) -> (text: &'static str)
        ensures
            text@ == self.spec_description(),
    {
        match &self.kind {
            ExecuteErrorKind::Spawn(_) => "unable to spawn child process",
            ExecuteErrorKind::Failure(_) => "command failed with an exit code that is not retryable",
            ExecuteErrorKind::Terminated(_) => "command terminated by a signal",
            ExecuteErrorKind::Exhausted(_) => "command did not succeed within specified constraints",
        }
    }
}

/// What the attempts end with when the decider says they are over.
pub open spec fn finished_result(reason: FinishedReason) -> Result<(), ExecuteError> {
    match reason {
        FinishedReason::Success => Ok(()),
        FinishedReason::Terminated(status) => Err(ExecuteError { kind: ExecuteErrorKind::Terminated(status) }),
        FinishedReason::Failure(status) => Err(ExecuteError { kind: ExecuteErrorKind::Failure(status) }),
    }
}

impl From<FinishedReason> for Result<(), ExecuteError> {
    fn from(finished_reason: FinishedReason) -> (result: Self) {
        match finished_reason {
            FinishedReason::Success => Ok(()),
            FinishedReason::Terminated(exit_status) => Err(ExecuteError {
                kind: ExecuteErrorKind::Terminated(exit_status),
            }),
            FinishedReason::Failure(exit_status) => Err(ExecuteError {
                kind: ExecuteErrorKind::Failure(exit_status),
            }),
        }
    }
}

impl vstd::std_specs::convert::FromSpecImpl<FinishedReason> for Result<(), ExecuteError> {
    open spec fn obeys_from_spec() -> bool {
        true
    }

    open spec fn from_spec(v: FinishedReason) -> Result<(), ExecuteError> {
        finished_result(v)
    }
}

/// Where the executor stands between attempts.
#[derive(Debug, Clone, Copy, PartialEq, Eq, Structural)]
pub enum Phase {
    /// No attempt has been asked for yet.
    Ready,
    /// An attempt has been asked for and its result is awaited.
    Running,
    /// The attempts are over.
    Finished,
}

/// What the runner reports back after it was asked to run the command.
#[derive(Debug)]
pub enum Event {
    /// The command ran and ended this way.
    Completed(TaskOutcome),
    /// The command could not be started.
    SpawnFailed(std::io::Error),
    /// The total time allowed by a `ForDuration` limit has passed.
    TimeLimitReached,
}

/// What the runner is asked to do next.
#[derive(Debug)]
pub enum Step {
    /// Wait for the interval between attempts, if any, then run the command once more.
    RunTask,
    /// Stop, with this result.
    Finish(Result<(), ExecuteError>),
}

/// What the executor knows of its progress.
pub struct ExecutorView {
    pub limit: Limit,
    /// Attempts asked for so far under a `NumberOfTimes` limit.
    pub attempts: nat,
    /// Why the latest attempt under a `NumberOfTimes` limit asked to be retried;
    /// `Timeout` until one did.
    pub final_unfinished_reason: UnfinishedReason,
    pub phase: Phase,
}

/// An event with the decider's judgement already applied to it.
pub enum Observation {
    Decided(Decision),
    SpawnFailed(std::io::Error),
    TimeLimitReached,
}

/// The executor as it stands before any attempt.
pub open spec fn initial_view(limit: Limit) -> ExecutorView {
    ExecutorView {
        limit,
        attempts: 0,
        final_unfinished_reason: UnfinishedReason::Timeout,
        phase: Phase::Ready,
    }
}

/// The error for running out of attempts under a `NumberOfTimes` limit.
pub open spec fn times_exceeded(reason: UnfinishedReason) -> Result<(), ExecuteError> {
    Err(ExecuteError { kind: ExecuteErrorKind::Exhausted(ExhaustionReason::RetryTimesExceeded(reason)) })
}

/// The error for running out of time under a `ForDuration` limit.
pub open spec fn timeout_exceeded(reason: UnfinishedReason) -> Result<(), ExecuteError> {
    Err(ExecuteError { kind: ExecuteErrorKind::Exhausted(ExhaustionReason::RetryTimeoutExceeded(reason)) })
}

/// Ask for one more attempt if the limit allows it, and otherwise stop with
/// the reason the latest attempt gave.
pub open spec fn next_attempt(v: ExecutorView) -> (ExecutorView, Step) {
    match v.limit {
        Limit::NumberOfTimes(n) => if v.attempts >= n {
            (ExecutorView { phase: Phase::Finished, ..v }, Step::Finish(times_exceeded(v.final_unfinished_reason)))
        } else {
            (ExecutorView { attempts: v.attempts + 1, phase: Phase::Running, ..v }, Step::RunTask)
        },
        Limit::ForDuration(_) => (ExecutorView { phase: Phase::Running, ..v }, Step::RunTask),
    }
}

/// The transition for what the runner reported about the attempt in flight.
pub open spec fn advance(v: ExecutorView, observation: Observation) -> (ExecutorView, Step) {
    match observation {
        Observation::Decided(Decision::Finished(reason)) => (
            ExecutorView { phase: Phase::Finished, ..v },
            Step::Finish(finished_result(reason)),
        ),
        Observation::Decided(Decision::Unfinished(reason)) => match v.limit {
            Limit::NumberOfTimes(_) => next_attempt(ExecutorView { final_unfinished_reason: reason, ..v }),
            Limit::ForDuration(_) => next_attempt(v),
        },
        Observation::SpawnFailed(err) => (
            ExecutorView { phase: Phase::Finished, ..v },
            Step::Finish(Err(ExecuteError { kind: ExecuteErrorKind::Spawn(err) })),
        ),
        Observation::TimeLimitReached => (
            ExecutorView { phase: Phase::Finished, ..v },
            Step::Finish(timeout_exceeded(v.final_unfinished_reason)),
        ),
    }
}

/// What the executor makes of an event, through the decider.
pub open spec fn observe<D: Decidable>(decider: D, event: Event) -> Observation {
    match event {
        Event::Completed(outcome) => Observation::Decided(decider.decision_for(outcome)),
        Event::SpawnFailed(err) => Observation::SpawnFailed(err),
        Event::TimeLimitReached => Observation::TimeLimitReached,
    }
}

/// Runs the command until it succeeds, the decider says to stop, or the
/// limit runs out. The runner performs each `Step` and reports an `Event`.
pub struct Executor<D> {
    decider: D,
    limit: Limit,
    attempts: u64,
    final_unfinished_reason: UnfinishedReason,
    phase: Phase,
}

impl<D> View for Executor<D> {
    type V = ExecutorView;

    closed spec fn view(&self) -> ExecutorView {
        ExecutorView {
            limit: self.limit,
            attempts: self.attempts as nat,
            final_unfinished_reason: self.final_unfinished_reason,
            phase: self.phase,
        }
    }
}

impl<D: Decidable> Executor<D> {
    /// The decider this executor consults.
    pub closed spec fn spec_decider(&self) -> D {
        self.decider
    }

    pub fn new(decider: D, limit: Limit) -> (executor: Self)
        ensures
            executor@ == initial_view(limit),
            executor.spec_decider() == decider,
    {
        Executor {
            decider,
            limit,
            attempts: 0,
            final_unfinished_reason: UnfinishedReason::Timeout,
            phase: Phase::Ready,
        }
    }

    fn next_attempt(&mut self) -> (step: Step)
        ensures
            (final(self)@, step) == next_attempt(old(self)@),
            final(self).spec_decider() == old(self).spec_decider(),
    {
        match self.limit {
            Limit::NumberOfTimes(num_times) => {
                if self.attempts >= num_times {
                    self.phase = Phase::Finished;
                    Step::Finish(Err(ExecuteError {
                        kind: ExecuteErrorKind::Exhausted(
                            ExhaustionReason::RetryTimesExceeded(self.final_unfinished_reason),
                        ),
                    }))
                } else {
                    self.attempts = self.attempts + 1;
                    self.phase = Phase::Running;
                    Step::RunTask
                }
            },
            Limit::ForDuration(_) => {
                self.phase = Phase::Running;
                Step::RunTask
            },
        }
    }

    /// The first step: run the command, unless the limit allows no attempt at all.
    pub fn start(&mut self) -> (step: Step)
        requires
            old(self)@.phase == Phase::Ready,
        ensures
            (final(self)@, step) == next_attempt(old(self)@),
            final(self).spec_decider() == old(self).spec_decider(),
    {
        self.next_attempt()
    }

    /// The step after the runner reported `event` for the attempt in flight.
    pub fn handle(&mut self, event: Event) -> (step: Step)
        requires
            old(self)@.phase == Phase::Running,
            event matches Event::Completed(outcome) ==> old(self).spec_decider().accepts(outcome),
            event is TimeLimitReached ==> old(self)@.limit is ForDuration,
        ensures
            (final(self)@, step) == advance(old(self)@, observe(old(self).spec_decider(), event)),
            final(self).spec_decider() == old(self).spec_decider(),
    {
        match event {
            Event::Completed(task_outcome) => {
                let decision = self.decider.decide(task_outcome);
                match decision {
                    Decision::Finished(finished_reason) => {
                        self.phase = Phase::Finished;
                        Step::Finish(<Result<(), ExecuteError> as From<FinishedReason>>::from(finished_reason))
                    },
                    Decision::Unfinished(unfinished_reason) => {
                        match self.limit {
                            Limit::NumberOfTimes(_) => {
                                self.final_unfinished_reason = unfinished_reason;
                            },
                            Limit::ForDuration(_) => {},
                        }
                        self.next_attempt()
                    },
                }
            },
            Event::SpawnFailed(err) => {
                self.phase = Phase::Finished;
                Step::Finish(Err(ExecuteError { kind: ExecuteErrorKind::Spawn(err) }))
            },
            Event::TimeLimitReached => {
                self.phase = Phase::Finished;
                Step::Finish(Err(ExecuteError {
                    kind: ExecuteErrorKind::Exhausted(
                        ExhaustionReason::RetryTimeoutExceeded(self.final_unfinished_reason),
                    ),
                }))
            },
        }
    }
}

/// Feeds `observations` to the executor while it awaits a result: the view it
/// ends in, how many times it asked for the command to be run, and its last
/// step, if it took any.
pub open spec fn replay(v: ExecutorView, observations: Seq<Observation>) -> (ExecutorView, nat, Option<Step>)
    decreases observations.len(),
{
    if observations.len() == 0 || v.phase != Phase::Running {
        (v, 0, None)
    } else {
        let (w, step) = advance(v, observations[0]);
        let (z, runs, last) = replay(w, observations.drop_first());
        (
            z,
            runs + if step is RunTask { 1nat } else { 0nat },
            if last is Some { last } else { Some(step) },
        )
    }
}

/// A whole execution: the start step, then `observations` for as long as the
/// executor keeps asking for attempts.
pub open spec fn run_from_start(limit: Limit, observations: Seq<Observation>) -> (ExecutorView, nat, Option<Step>) {
    let (v, first) = next_attempt(initial_view(limit));
    let (z, runs, last) = replay(v, observations);
    (
        z,
        runs + if first is RunTask { 1nat } else { 0nat },
        if last is Some { last } else { Some(first) },
    )
}

/// The reason an observation of an unfinished attempt gives.
pub open spec fn unfinished_reason(observation: Observation) -> UnfinishedReason {
    match observation {
        Observation::Decided(Decision::Unfinished(reason)) => reason,
        _ => UnfinishedReason::Timeout,
    }
}

pub open spec fn asks_for_retry(observation: Observation) -> bool {
    observation matches Observation::Decided(Decision::Unfinished(_))
}

proof fn lemma_replay_counts_attempts(v: ExecutorView, observations: Seq<Observation>, n: u64)
    requires
        v.limit == Limit::NumberOfTimes(n),
        v.attempts <= n,
    ensures
        replay(v, observations).0.attempts == v.attempts + replay(v, observations).1,
        replay(v, observations).0.attempts <= n,
        replay(v, observations).0.limit == v.limit,
    decreases observations.len(),
{
    if observations.len() > 0 && v.phase == Phase::Running {
        let (w, step) = advance(v, observations[0]);
        lemma_replay_counts_attempts(w, observations.drop_first(), n);
    }
}

/// Under a limit of `n` attempts the command is run at most `n` times,
/// whatever the attempts report.
pub proof fn law_at_most_n_attempts(n: u64, observations: Seq<Observation>)
    ensures
        run_from_start(Limit::NumberOfTimes(n), observations).1 <= n,
{
    let (v, first) = next_attempt(initial_view(Limit::NumberOfTimes(n)));
    lemma_replay_counts_attempts(v, observations, n);
}

proof fn lemma_retries_until_exhausted(v: ExecutorView, observations: Seq<Observation>, n: u64)
    requires
        v.limit == Limit::NumberOfTimes(n),
        v.phase == Phase::Running,
        1 <= v.attempts <= n,
        observations.len() >= n - v.attempts + 1,
        forall|i: int| 0 <= i <= n - v.attempts ==> asks_for_retry(#[trigger] observations[i]),
    ensures
        replay(v, observations).1 == n - v.attempts,
        replay(v, observations).2 == Some(
            Step::Finish(times_exceeded(unfinished_reason(observations[n - v.attempts]))),
        ),
        replay(v, observations).0.phase == Phase::Finished,
    decreases n - v.attempts,
{
    let o = observations[0];
    assert(asks_for_retry(o));
    let (w, step) = advance(v, o);
    if v.attempts == n {
        assert(step == Step::Finish(times_exceeded(unfinished_reason(o))));
        assert(w.phase == Phase::Finished);
        assert(replay(w, observations.drop_first()).2 is None);
    } else {
        assert(step is RunTask);
        assert(w.attempts == v.attempts + 1);
        let rest = observations.drop_first();
        assert forall|i: int| 0 <= i <= n - w.attempts implies asks_for_retry(#[trigger] rest[i]) by {
            assert(rest[i] == observations[i + 1]);
        }
        lemma_retries_until_exhausted(w, rest, n);
        assert(rest[n - w.attempts] == observations[n - v.attempts]);
    }
}

/// When each of the `n` allowed attempts asks to be retried, the command is
/// run exactly `n` times and the execution ends with `RetryTimesExceeded`,
/// naming the reason the last attempt gave.
pub proof fn law_exhausted_after_n_retried_attempts(n: u64, observations: Seq<Observation>)
    requires
        n >= 1,
        observations.len() >= n,
        forall|i: int| 0 <= i < n ==> asks_for_retry(#[trigger] observations[i]),
    ensures
        run_from_start(Limit::NumberOfTimes(n), observations).1 == n,
        run_from_start(Limit::NumberOfTimes(n), observations).2 == Some(
            Step::Finish(times_exceeded(unfinished_reason(observations[n - 1]))),
        ),
{
    let (v, first) = next_attempt(initial_view(Limit::NumberOfTimes(n)));
    assert(v.attempts == 1);
    lemma_retries_until_exhausted(v, observations, n);
}

/// A limit of zero attempts never runs the command and ends with
/// `RetryTimesExceeded(Timeout)`.
pub proof fn law_zero_attempts_never_run(observations: Seq<Observation>)
    ensures
        run_from_start(Limit::NumberOfTimes(0), observations).1 == 0,
        run_from_start(Limit::NumberOfTimes(0), observations).2 == Some(
            Step::Finish(times_exceeded(UnfinishedReason::Timeout)),
        ),
{
}

proof fn lemma_duration_retries_until_time_runs_out(v: ExecutorView, observations: Seq<Observation>, k: nat)
    requires
        v.limit is ForDuration,
        v.phase == Phase::Running,
        v.final_unfinished_reason == UnfinishedReason::Timeout,
        observations.len() == k + 1,
        forall|i: int| 0 <= i < k ==> asks_for_retry(#[trigger] observations[i]),
        observations[k as int] is TimeLimitReached,
    ensures
        replay(v, observations).1 == k,
        replay(v, observations).2 == Some(Step::Finish(timeout_exceeded(UnfinishedReason::Timeout))),
    decreases k,
{
    let o = observations[0];
    let (w, step) = advance(v, o);
    if k == 0 {
        assert(replay(w, observations.drop_first()).2 is None);
    } else {
        assert(asks_for_retry(o));
        let rest = observations.drop_first();
        assert forall|i: int| 0 <= i < k - 1 implies asks_for_retry(#[trigger] rest[i]) by {
            assert(rest[i] == observations[i + 1]);
        }
        assert(rest[k - 1] == observations[k as int]);
        lemma_duration_retries_until_time_runs_out(w, rest, (k - 1) as nat);
    }
}

/// Under a time limit the command is run again after every attempt that asks
/// for it, for as long as time remains; when the time runs out the execution
/// ends with `RetryTimeoutExceeded(Timeout)`, never with the reason of an
/// attempt, since the attempt in flight is cut off.
pub proof fn law_time_limit_ends_with_timeout(span: TimeSpan, observations: Seq<Observation>, k: nat)
    requires
        observations.len() == k + 1,
        forall|i: int| 0 <= i < k ==> asks_for_retry(#[trigger] observations[i]),
        observations[k as int] is TimeLimitReached,
    ensures
        run_from_start(Limit::ForDuration(span), observations).1 == k + 1,
        run_from_start(Limit::ForDuration(span), observations).2 == Some(
            Step::Finish(timeout_exceeded(UnfinishedReason::Timeout)),
        ),
{
    let (v, first) = next_attempt(initial_view(Limit::ForDuration(span)));
    lemma_duration_retries_until_time_runs_out(v, observations, k);
}

/// Once the decider says the attempts are over, the execution ends at once
/// with the result for that reason: `Ok(())` for a success, and the failure
/// or the signal as the error otherwise; a spawn failure ends it too.
pub proof fn law_finished_decision_ends_execution(v: ExecutorView, observation: Observation)
    requires
        v.phase == Phase::Running,
        observation matches Observation::Decided(Decision::Finished(_)) || observation is SpawnFailed,
    ensures
        advance(v, observation).0.phase == Phase::Finished,
        advance(v, observation).1 is Finish,
        observation matches Observation::Decided(Decision::Finished(FinishedReason::Success)) ==> advance(
            v,
            observation,
        ).1 == Step::Finish(Ok(())),
{
}

/// An observation after which the execution ends at once: the decider says
/// the attempts are over, or the command could not be started.
pub open spec fn stops(observation: Observation) -> bool {
    observation matches Observation::Decided(Decision::Finished(_)) || observation is SpawnFailed
}

/// The result an execution ends with on a stopping observation.
pub open spec fn stop_result(observation: Observation) -> Result<(), ExecuteError> {
    match observation {
        Observation::Decided(Decision::Finished(reason)) => finished_result(reason),
        Observation::SpawnFailed(err) => Err(ExecuteError { kind: ExecuteErrorKind::Spawn(err) }),
        _ => Ok(()),
    }
}

proof fn lemma_ends_at_first_stop(v: ExecutorView, observations: Seq<Observation>, k: nat)
    requires
        v.phase == Phase::Running,
        k < observations.len(),
        forall|i: int| 0 <= i < k ==> asks_for_retry(#[trigger] observations[i]),
        stops(observations[k as int]),
        v.limit matches Limit::NumberOfTimes(n) ==> v.attempts + k <= n,
    ensures
        replay(v, observations).1 == k,
        replay(v, observations).2 == Some(Step::Finish(stop_result(observations[k as int]))),
    decreases k,
{
    let o = observations[0];
    let (w, step) = advance(v, o);
    let rest = observations.drop_first();
    if k == 0 {
        assert(w.phase == Phase::Finished);
        assert(replay(w, rest).2 is None);
    } else {
        assert(asks_for_retry(o));
        assert(step is RunTask);
        assert forall|i: int| 0 <= i < k - 1 implies asks_for_retry(#[trigger] rest[i]) by {
            assert(rest[i] == observations[i + 1]);
        }
        assert(rest[k - 1] == observations[k as int]);
        lemma_ends_at_first_stop(w, rest, (k - 1) as nat);
    }
}

/// Under a limit of `n` attempts, when attempt `k + 1 <= n` is the first
/// whose decision ends the attempts or that cannot be started, while all the
/// earlier ones ask to be retried, the command runs exactly `k + 1` times and
/// the execution ends with what that attempt gives: the finished reason's
/// result, or the spawn error.
pub proof fn law_attempt_limit_ends_at_first_stop(n: u64, observations: Seq<Observation>, k: nat)
    requires
        k < n,
        k < observations.len(),
        forall|i: int| 0 <= i < k ==> asks_for_retry(#[trigger] observations[i]),
        stops(observations[k as int]),
    ensures
        run_from_start(Limit::NumberOfTimes(n), observations).1 == k + 1,
        run_from_start(Limit::NumberOfTimes(n), observations).2 == Some(
            Step::Finish(stop_result(observations[k as int])),
        ),
{
    let (v, first) = next_attempt(initial_view(Limit::NumberOfTimes(n)));
    lemma_ends_at_first_stop(v, observations, k);
}

/// Under a time limit, when attempt `k + 1` is the first whose decision ends
/// the attempts or that cannot be started, and it ends before the time runs
/// out while all the earlier ones ask to be retried, the command runs exactly
/// `k + 1` times and the execution ends with what that attempt gives.
pub proof fn law_time_limit_ends_at_first_stop(span: TimeSpan, observations: Seq<Observation>, k: nat)
    requires
        k < observations.len(),
        forall|i: int| 0 <= i < k ==> asks_for_retry(#[trigger] observations[i]),
        stops(observations[k as int]),
    ensures
        run_from_start(Limit::ForDuration(span), observations).1 == k + 1,
        run_from_start(Limit::ForDuration(span), observations).2 == Some(
            Step::Finish(stop_result(observations[k as int])),
        ),
{
    let (v, first) = next_attempt(initial_view(Limit::ForDuration(span)));
    lemma_ends_at_first_stop(v, observations, k);
}

proof fn lemma_duration_never_counts_attempts(v: ExecutorView, observations: Seq<Observation>, u: UnfinishedReason)
    requires
        v.limit is ForDuration,
    ensures
        replay(v, observations).2 != Some(Step::Finish(times_exceeded(u))),
    decreases observations.len(),
{
    if observations.len() > 0 && v.phase == Phase::Running {
        let (w, step) = advance(v, observations[0]);
        lemma_duration_never_counts_attempts(w, observations.drop_first(), u);
    }
}

/// Under a time limit the execution never ends with `RetryTimesExceeded`,
/// whatever the attempts report.
pub proof fn law_time_limit_never_exceeds_times(span: TimeSpan, observations: Seq<Observation>, u: UnfinishedReason)
    ensures
        run_from_start(Limit::ForDuration(span), observations).2 != Some(Step::Finish(times_exceeded(u))),
{
    let (v, first) = next_attempt(initial_view(Limit::ForDuration(span)));
    lemma_duration_never_counts_attempts(v, observations, u);
}

/// The status a decision names has no exit code 0.
pub open spec fn status_not_zero(status: ExitStatus) -> bool {
    status.code != Some(0i32)
}

/// An observation names no status whose exit code is 0.
pub open spec fn carries_no_zero_code(observation: Observation) -> bool {
    match observation {
        Observation::Decided(Decision::Finished(FinishedReason::Failure(s))) => status_not_zero(s),
        Observation::Decided(Decision::Finished(FinishedReason::Terminated(s))) => status_not_zero(s),
        Observation::Decided(Decision::Unfinished(UnfinishedReason::Failure(s))) => status_not_zero(s),
        _ => true,
    }
}

/// A result that `retry` ends with does not exit with code 0 unless it is a success.
pub open spec fn failure_exits_nonzero(result: Result<(), ExecuteError>) -> bool {
    result matches Err(err) ==> err.kind.spec_exit_code() != 0
}

/// Whatever exit codes were given, the decision for an outcome classified
/// from a real status names no status with exit code 0.
pub proof fn law_classified_decisions_carry_no_zero_code(decider: Decider, status: Option<ExitStatus>)
    ensures
        carries_no_zero_code(Observation::Decided(decider.decision_for(TaskOutcome::classify(status)))),
{
}

proof fn lemma_failures_exit_nonzero(v: ExecutorView, observations: Seq<Observation>)
    requires
        v.final_unfinished_reason matches UnfinishedReason::Failure(s) ==> status_not_zero(s),
        forall|i: int| 0 <= i < observations.len() ==> carries_no_zero_code(#[trigger] observations[i]),
    ensures
        replay(v, observations).2 matches Some(Step::Finish(result)) ==> failure_exits_nonzero(result),
    decreases observations.len(),
{
    if observations.len() > 0 && v.phase == Phase::Running {
        let o = observations[0];
        assert(carries_no_zero_code(o));
        let (w, step) = advance(v, o);
        let rest = observations.drop_first();
        assert forall|i: int| 0 <= i < rest.len() implies carries_no_zero_code(#[trigger] rest[i]) by {
            assert(rest[i] == observations[i + 1]);
        }
        lemma_failures_exit_nonzero(w, rest);
    }
}

/// When no attempt reports a status with exit code 0 as a failure or a
/// termination (as no outcome classified from a real status does), an
/// execution that does not succeed never makes `retry` exit with code 0.
pub proof fn law_failed_run_never_exits_zero(limit: Limit, observations: Seq<Observation>)
    requires
        forall|i: int| 0 <= i < observations.len() ==> carries_no_zero_code(#[trigger] observations[i]),
    ensures
        run_from_start(limit, observations).2 matches Some(Step::Finish(result)) ==> failure_exits_nonzero(result),
{
    let (v, first) = next_attempt(initial_view(limit));
    lemma_failures_exit_nonzero(v, observations);
}

proof fn lemma_duration_keeps_retrying(v: ExecutorView, observations: Seq<Observation>)
    requires
        v.limit is ForDuration,
        v.phase == Phase::Running,
        forall|i: int| 0 <= i < observations.len() ==> asks_for_retry(#[trigger] observations[i]),
    ensures
        replay(v, observations).0.phase == Phase::Running,
        replay(v, observations).1 == observations.len(),
        observations.len() > 0 ==> replay(v, observations).2 == Some(Step::RunTask),
    decreases observations.len(),
{
    if observations.len() > 0 {
        let o = observations[0];
        assert(asks_for_retry(o));
        let (w, step) = advance(v, o);
        let rest = observations.drop_first();
        assert forall|i: int| 0 <= i < rest.len() implies asks_for_retry(#[trigger] rest[i]) by {
            assert(rest[i] == observations[i + 1]);
        }
        lemma_duration_keeps_retrying(w, rest);
    }
}

/// Under a time limit, while every attempt asks to be retried, the execution
/// never ends on its own: it asks for one more run after each attempt, and
/// only the time running out, a finished decision or a spawn failure ends it.
pub proof fn law_time_limit_keeps_retrying(span: TimeSpan, observations: Seq<Observation>)
    requires
        forall|i: int| 0 <= i < observations.len() ==> asks_for_retry(#[trigger] observations[i]),
    ensures
        run_from_start(Limit::ForDuration(span), observations).0.phase == Phase::Running,
        run_from_start(Limit::ForDuration(span), observations).1 == observations.len() + 1,
        run_from_start(Limit::ForDuration(span), observations).2 == Some(Step::RunTask),
{
    let (v, first) = next_attempt(initial_view(Limit::ForDuration(span)));
    lemma_duration_keeps_retrying(v, observations);
}

/// A status whose exit code, if it has one, is a process exit code other than 0.
pub open spec fn status_exit_in_range(status: ExitStatus) -> bool {
    status.code matches Some(c) ==> 1 <= c <= 255
}

/// An observation names only statuses whose exit code is in `1..=255` or absent.
pub open spec fn carries_exit_range_codes(observation: Observation) -> bool {
    match observation {
        Observation::Decided(Decision::Finished(FinishedReason::Failure(s))) => status_exit_in_range(s),
        Observation::Decided(Decision::Finished(FinishedReason::Terminated(s))) => status_exit_in_range(s),
        Observation::Decided(Decision::Unfinished(UnfinishedReason::Failure(s))) => status_exit_in_range(s),
        _ => true,
    }
}

/// A result that, if it is an error, makes `retry` exit with a code in `1..=255`.
pub open spec fn failure_exits_in_range(result: Result<(), ExecuteError>) -> bool {
    result matches Err(err) ==> 1 <= err.kind.spec_exit_code() <= 255
}

/// Whatever exit codes were given, the decision for an outcome classified
/// from a status whose exit code is a byte names only statuses whose code is
/// in `1..=255` or absent.
pub proof fn law_classified_decisions_carry_exit_range_codes(decider: Decider, status: Option<ExitStatus>)
    requires
        status matches Some(s) ==> (s.code matches Some(c) ==> 0 <= c <= 255),
    ensures
        carries_exit_range_codes(Observation::Decided(decider.decision_for(TaskOutcome::classify(status)))),
{
}

proof fn lemma_failures_exit_in_range(v: ExecutorView, observations: Seq<Observation>)
    requires
        v.final_unfinished_reason matches UnfinishedReason::Failure(s) ==> status_exit_in_range(s),
        forall|i: int| 0 <= i < observations.len() ==> carries_exit_range_codes(#[trigger] observations[i]),
    ensures
        replay(v, observations).2 matches Some(Step::Finish(result)) ==> failure_exits_in_range(result),
    decreases observations.len(),
{
    if observations.len() > 0 && v.phase == Phase::Running {
        let o = observations[0];
        assert(carries_exit_range_codes(o));
        let (w, step) = advance(v, o);
        let rest = observations.drop_first();
        assert forall|i: int| 0 <= i < rest.len() implies carries_exit_range_codes(#[trigger] rest[i]) by {
            assert(rest[i] == observations[i + 1]);
        }
        lemma_failures_exit_in_range(w, rest);
    }
}

/// When every status the attempts report has an exit code in `1..=255` or
/// none (as classified outcomes of real process statuses do), an execution
/// that does not succeed makes `retry` exit with a code in `1..=255`.
pub proof fn law_failed_run_exit_code_in_range(limit: Limit, observations: Seq<Observation>)
    requires
        forall|i: int| 0 <= i < observations.len() ==> carries_exit_range_codes(#[trigger] observations[i]),
    ensures
        run_from_start(limit, observations).2 matches Some(Step::Finish(result)) ==> failure_exits_in_range(result),
{
    let (v, first) = next_attempt(initial_view(limit));
    lemma_failures_exit_in_range(v, observations);
}

/// A completed attempt is judged by the executor's own decider: what the
/// executor observes of it is that decider's decision on the outcome, for any
/// decider.
pub proof fn law_completed_attempt_is_judged_by_the_decider<D: Decidable>(decider: D, outcome: TaskOutcome)
    ensures
        observe(decider, Event::Completed(outcome)) == Observation::Decided(decider.decision_for(outcome)),
{
}

/// An attempt stopped by a signal ends the execution at once with that
/// termination as the error, under every limit and whatever exit codes the
/// decider retries on; a successful attempt ends it with `Ok(())`.
pub proof fn law_terminated_or_successful_attempt_ends_execution(
    decider: Decider,
    v: ExecutorView,
    status: ExitStatus,
)
    requires
        v.phase == Phase::Running,
    ensures
        advance(v, observe(decider, Event::Completed(TaskOutcome::Terminated(status)))) == (
            ExecutorView { phase: Phase::Finished, ..v },
            Step::Finish(Err(ExecuteError { kind: ExecuteErrorKind::Terminated(status) })),
        ),
        advance(v, observe(decider, Event::Completed(TaskOutcome::Success))) == (
            ExecutorView { phase: Phase::Finished, ..v },
            Step::Finish(Ok(())),
        ),
{
}

/// The exit code `retry` ends with is the command's own exit code wherever
/// the error names a status that has one, and 1 otherwise.
pub proof fn law_exit_code_is_the_commands_own(status: ExitStatus)
    ensures
        ({
            let own = if status.code is Some {
                status.code->0
            } else {
                1i32
            };
            &&& ExecuteErrorKind::Failure(status).spec_exit_code() == own
            &&& ExecuteErrorKind::Terminated(status).spec_exit_code() == own
            &&& ExecuteErrorKind::Exhausted(
                ExhaustionReason::RetryTimesExceeded(UnfinishedReason::Failure(status)),
            ).spec_exit_code() == own
            &&& ExecuteErrorKind::Exhausted(
                ExhaustionReason::RetryTimeoutExceeded(UnfinishedReason::Failure(status)),
            ).spec_exit_code() == own
            &&& ExecuteErrorKind::Exhausted(
                ExhaustionReason::RetryTimesExceeded(UnfinishedReason::Timeout),
            ).spec_exit_code() == 1
            &&& ExecuteErrorKind::Exhausted(
                ExhaustionReason::RetryTimeoutExceeded(UnfinishedReason::Timeout),
            ).spec_exit_code() == 1
        }),
{
}

/// Every spawn failure makes `retry` exit with code 1.
pub proof fn law_spawn_failure_exits_one(err: std::io::Error)
    ensures
        ExecuteErrorKind::Spawn(err).spec_exit_code() == 1,
{
}

/// `Limit::from` keeps the constraint's value unchanged: a duration stays
/// the same duration, to the nanosecond, and a count the same count.
pub proof fn law_limit_keeps_the_constraint(retry: Retry)
    ensures
        ({
            let limit = <Limit as vstd::std_specs::convert::FromSpec<Retry>>::from_spec(retry);
            &&& retry matches Retry::ForDuration(span) ==> limit == Limit::ForDuration(span)
            &&& retry matches Retry::NumberOfTimes(n) ==> limit == Limit::NumberOfTimes(n)
        }),
{
}

} // verus!
