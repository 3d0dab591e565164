# retry

`retry` runs a shell command until it succeeds, for up to a number of attempts
(`--up-to 5x`) or a length of time (`--up-to 10s`).

- `src/` is the verified library:
  - `task.rs`: how an attempt ended (`TaskOutcome`), classified from the exit status.
  - `decider.rs`: whether to try again (`Decidable`, `DefaultDecider`,
    `RetryOnExitCodesDecider`, `Decider`) and the laws every decider keeps.
  - `cli.rs`: reading `--up-to` and durations (`Retry`, `duration_from_str`,
    a verified `u64` parser) and the message for a constraint that cannot be read.
  - `executor.rs`: the retry state machine (`Executor`): the runner reports
    an `Event` for each attempt and gets back the next `Step`; the laws on
    how many attempts run and how an execution ends.
- `app/` is the command-line program: argument parsing with clap, spawning the
  command and timing with tokio, and the loop that performs the executor's steps.
- `tests/` runs the library on concrete values.
