use hurl::ast::{Pos, SourceInfo};
use hurl::error::{EntryError, RunnerError};
use hurl::retry::{Action, EntryRun, EntryState, Event, Retry};

fn error(inner: RunnerError) -> EntryError {
    EntryError::new(SourceInfo::new(Pos::new(1, 1), Pos::new(1, 2)), inner, false)
}

/// Runs an entry whose every execution fails with `inner`, and gives how it ended.
fn run_failing(retry: Retry, inner: RunnerError, limit: usize) -> (EntryRun, usize, usize) {
    let mut run = EntryRun::new();
    let mut executed = 0;
    let mut waited = 0;
    let mut action = run.step(Event::Start, retry);
    while !run.is_finished() && executed < limit {
        match action {
            Action::Execute => {
                executed += 1;
                action = run.step(Event::failed(&error(inner.clone())), retry);
            }
            Action::Wait => {
                waited += 1;
                action = run.step(Event::Waited, retry);
            }
            Action::Report | Action::Ignore => unreachable!(),
        }
    }
    (run, executed, waited)
}

#[test]
fn retry_bound_of_two_executes_three_times() {
    let (run, executed, waited) = run_failing(Retry::Finite(2), RunnerError::AssertionFailure, 100);
    assert_eq!(executed, 3);
    assert_eq!(waited, 2);
    assert_eq!(run, EntryRun { state: EntryState::FatalFailure, executions: 3 });
}

#[test]
fn no_retry_executes_once() {
    for retry in [Retry::Never, Retry::Finite(0)] {
        let (run, executed, waited) = run_failing(retry, RunnerError::AssertionFailure, 100);
        assert_eq!(executed, 1);
        assert_eq!(waited, 0);
        assert_eq!(run, EntryRun { state: EntryState::FatalFailure, executions: 1 });
    }
}

#[test]
fn unbounded_retry_goes_on() {
    let (run, executed, waited) = run_failing(Retry::Infinite, RunnerError::AssertionFailure, 1000);
    assert_eq!(executed, 1000);
    assert_eq!(waited, 999);
    assert_eq!(run, EntryRun { state: EntryState::RetryableFailure, executions: 1000 });
}

#[test]
fn errors_that_a_retry_cannot_mend_are_fatal() {
    for inner in [
        RunnerError::TemplateVariableNotDefined { name: String::from("a") },
        RunnerError::TemplateVariableInvalidType {
            name: String::from("a"),
            expected: String::from("text"),
        },
        RunnerError::UnauthorizedFileAccess { path: String::from("../a") },
        RunnerError::FileReadAccess { file: String::from("a") },
        RunnerError::TransportFailure { retryable: false },
    ] {
        assert!(!inner.is_retryable());
        for retry in [Retry::Never, Retry::Finite(5), Retry::Infinite] {
            let (run, executed, waited) = run_failing(retry, inner.clone(), 100);
            assert_eq!(executed, 1);
            assert_eq!(waited, 0);
            assert_eq!(run.state, EntryState::FatalFailure);
        }
    }
}

#[test]
fn retryable_transport_failure_is_retried() {
    let inner = RunnerError::TransportFailure { retryable: true };
    assert!(inner.is_retryable());
    assert!(RunnerError::AssertionFailure.is_retryable());
    let (run, executed, _) = run_failing(Retry::Finite(4), inner, 100);
    assert_eq!(executed, 5);
    assert_eq!(run.state, EntryState::FatalFailure);
}

#[test]
fn success_after_a_retry() {
    let retry = Retry::Finite(3);
    let mut run = EntryRun::new();
    assert_eq!(run, EntryRun { state: EntryState::Pending, executions: 0 });
    assert_eq!(run.step(Event::Start, retry), Action::Execute);
    assert_eq!(run, EntryRun { state: EntryState::Executing, executions: 1 });
    assert_eq!(run.step(Event::Failed { retryable: true }, retry), Action::Wait);
    assert_eq!(run, EntryRun { state: EntryState::RetryableFailure, executions: 1 });
    assert_eq!(run.step(Event::Waited, retry), Action::Execute);
    assert_eq!(run, EntryRun { state: EntryState::Executing, executions: 2 });
    assert!(!run.is_finished());
    assert_eq!(run.step(Event::Succeeded, retry), Action::Report);
    assert_eq!(run, EntryRun { state: EntryState::Success, executions: 2 });
    assert!(run.is_finished());
}

#[test]
fn events_out_of_place_are_ignored() {
    let retry = Retry::Infinite;
    let mut run = EntryRun::new();
    for event in [Event::Succeeded, Event::Failed { retryable: true }, Event::Waited] {
        assert_eq!(run.step(event, retry), Action::Ignore);
        assert_eq!(run, EntryRun::new());
    }
    run.step(Event::Start, retry);
    for event in [Event::Start, Event::Waited] {
        assert_eq!(run.step(event, retry), Action::Ignore);
        assert_eq!(run, EntryRun { state: EntryState::Executing, executions: 1 });
    }
    run.step(Event::Succeeded, retry);
    for event in [Event::Start, Event::Succeeded, Event::Failed { retryable: false }, Event::Waited] {
        assert_eq!(run.step(event, retry), Action::Ignore);
        assert_eq!(run, EntryRun { state: EntryState::Success, executions: 1 });
    }
}

#[test]
fn executions_are_counted_as_far_as_the_machine_counts() {
    let mut run = EntryRun { state: EntryState::RetryableFailure, executions: usize::MAX };
    assert_eq!(run.step(Event::Waited, Retry::Infinite), Action::Execute);
    assert_eq!(run, EntryRun { state: EntryState::Executing, executions: usize::MAX });
}
