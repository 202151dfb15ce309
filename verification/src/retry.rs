use vstd::prelude::*;
use crate::error::EntryError;

verus! {

/// How often an entry that failed may be run again.
#[derive(Clone, Copy, Debug, PartialEq, Eq, Structural)]
pub enum Retry {
    /// Never.
    Never,
    /// At most this many times.
    Finite(usize),
    /// As often as it fails.
    Infinite,
}

/// Where the run of one entry stands.
#[derive(Clone, Copy, Debug, PartialEq, Eq, Structural)]
pub enum EntryState {
    /// Not started.
    Pending,
    /// An execution is under way.
    Executing,
    /// The last execution failed and another one follows after the retry interval.
    RetryableFailure,
    /// The entry failed for good.
    FatalFailure,
    /// The entry succeeded.
    Success,
}

/// The run of one entry: where it stands, and how many executions it has started.
#[derive(Clone, Copy, Debug, PartialEq, Eq, Structural)]
pub struct EntryRun {
    pub state: EntryState,
    pub executions: usize,
}

/// What happened since the last step.
#[derive(Clone, Copy, Debug, PartialEq, Eq, Structural)]
pub enum Event {
    /// The entry is to be run.
    Start,
    /// The execution under way succeeded.
    Succeeded,
    /// The execution under way failed; `retryable` says whether running the entry again
    /// can help.
    Failed { retryable: bool },
    /// The retry interval has passed.
    Waited,
}

/// What is to be done next.
#[derive(Clone, Copy, Debug, PartialEq, Eq, Structural)]
pub enum Action {
    /// Evaluate the entry afresh and execute it.
    Execute,
    /// Wait for the retry interval.
    Wait,
    /// Report how the entry ended: the run is over.
    Report,
    /// Nothing: the event does not belong to the state.
    Ignore,
}

impl Retry {
    /// The rule that a count of retries stands for: none for zero, no bound for a negative
    /// count.
    pub open spec fn of(count: int) -> Retry {
        if count == 0 {
            Retry::Never
        } else if count < 0 {
            Retry::Infinite
        } else {
            Retry::Finite(count as usize)
        }
    }

    /// The rule that a count of retries stands for.
    pub fn from_count(count: i32) -> (retry: Retry)
        ensures
            retry == Retry::of(count as int),
    {
        if count == 0 {
            Retry::Never
        } else if count < 0 {
            Retry::Infinite
        } else {
            Retry::Finite(count as usize)
        }
    }

    /// Whether an entry that has failed in each of its `executions` may be run once more.
    pub open spec fn allows_another(self, executions: usize) -> bool {
        match self {
            Retry::Never => false,
            Retry::Finite(bound) => executions <= bound,
            Retry::Infinite => true,
        }
    }
}

/// One more than `n`, as far as the machine can count.
pub open spec fn one_more(n: usize) -> usize {
    if n < usize::MAX {
        (n + 1) as usize
    } else {
        n
    }
}

impl EntryRun {
    /// Whether the run is over.
    pub open spec fn is_over(self) -> bool {
        self.state == EntryState::Success || self.state == EntryState::FatalFailure
    }

    /// The run after `event`, and what is to be done next.
    pub open spec fn next(self, event: Event, retry: Retry) -> (EntryRun, Action) {
        match (self.state, event) {
            (EntryState::Pending, Event::Start) => (
                EntryRun { state: EntryState::Executing, executions: one_more(self.executions) },
                Action::Execute,
            ),
            (EntryState::Executing, Event::Succeeded) => (
                EntryRun { state: EntryState::Success, executions: self.executions },
                Action::Report,
            ),
            (EntryState::Executing, Event::Failed { retryable }) => if retryable
                && retry.allows_another(self.executions) {
                (
                    EntryRun { state: EntryState::RetryableFailure, executions: self.executions },
                    Action::Wait,
                )
            } else {
                (
                    EntryRun { state: EntryState::FatalFailure, executions: self.executions },
                    Action::Report,
                )
            },
            (EntryState::RetryableFailure, Event::Waited) => (
                EntryRun { state: EntryState::Executing, executions: one_more(self.executions) },
                Action::Execute,
            ),
            _ => (self, Action::Ignore),
        }
    }

    /// The run of an entry that has not started.
    pub fn new() -> (run: EntryRun)
        ensures
            run == (EntryRun { state: EntryState::Pending, executions: 0 }),
    {
        EntryRun { state: EntryState::Pending, executions: 0 }
    }

    /// Whether the run is over.
    pub fn is_finished(&self) -> (over: bool)
        ensures
            over == self.is_over(),
    {
        match self.state {
            EntryState::Success => true,
            EntryState::FatalFailure => true,
            _ => false,
        }
    }

    /// Takes one event: moves the run on, and says what is to be done next.
    pub fn step(&mut self, event: Event, retry: Retry) -> (action: Action)
        ensures
            (*final(self), action) == old(self).next(event, retry),
    {
        match (self.state, event) {
            (EntryState::Pending, Event::Start) => {
                self.state = EntryState::Executing;
                self.executions = count_one_more(self.executions);
                Action::Execute
            },
            (EntryState::Executing, Event::Succeeded) => {
                self.state = EntryState::Success;
                Action::Report
            },
            (EntryState::Executing, Event::Failed { retryable }) => {
                if retryable && may_retry(retry, self.executions) {
                    self.state = EntryState::RetryableFailure;
                    Action::Wait
                } else {
                    self.state = EntryState::FatalFailure;
                    Action::Report
                }
            },
            (EntryState::RetryableFailure, Event::Waited) => {
                self.state = EntryState::Executing;
                self.executions = count_one_more(self.executions);
                Action::Execute
            },
            _ => Action::Ignore,
        }
    }
}

impl Event {
    /// The event that an execution failed with `error`: whether the entry may be run
    /// again goes by the kind of the error alone.
    pub fn failed(error: &EntryError) -> (event: Event)
        ensures
            event == (Event::Failed { retryable: error.inner@.is_retryable() }),
    {
        Event::Failed { retryable: error.inner.is_retryable() }
    }
}

fn count_one_more(n: usize) -> (m: usize)
    ensures
        m == one_more(n),
{
    if n < usize::MAX {
        n + 1
    } else {
        n
    }
}

fn may_retry(retry: Retry, executions: usize) -> (b: bool)
    ensures
        b == retry.allows_another(executions),
{
    match retry {
        Retry::Never => false,
        Retry::Finite(bound) => executions <= bound,
        Retry::Infinite => true,
    }
}

/// The run of an entry whose first `failures` executions have each failed in a way that
/// lets it be run again, and whose next execution is under way.
pub open spec fn after_failures(retry: Retry, failures: nat) -> EntryRun
    decreases failures,
{
    if failures == 0 {
        (EntryRun { state: EntryState::Pending, executions: 0 }).next(Event::Start, retry).0
    } else {
        after_failures(retry, (failures - 1) as nat).next(
            Event::Failed { retryable: true },
            retry,
        ).0.next(Event::Waited, retry).0
    }
}

/// An entry with a retry bound of `bound` whose executions all fail is executed `bound + 1`
/// times, the first time and `bound` times again, and then has failed for good.
pub proof fn lemma_retries_are_bounded(bound: usize, failures: nat)
    requires
        failures <= bound < usize::MAX,
    ensures
        after_failures(Retry::Finite(bound), failures) == (EntryRun {
            state: EntryState::Executing,
            executions: (failures + 1) as usize,
        }),
        failures == bound ==> after_failures(Retry::Finite(bound), failures).next(
            Event::Failed { retryable: true },
            Retry::Finite(bound),
        ) == (
            EntryRun { state: EntryState::FatalFailure, executions: (bound + 1) as usize },
            Action::Report,
        ),
    decreases failures,
{
    if failures > 0 {
        lemma_retries_are_bounded(bound, (failures - 1) as nat);
    }
}

/// A failure that running again cannot mend ends the run at once, whatever the retry
/// bound, and a run that is over stays as it is.
pub proof fn lemma_fatal_is_final(run: EntryRun, event: Event, retry: Retry)
    ensures
        run.state == EntryState::Executing && event == (Event::Failed { retryable: false })
            ==> run.next(event, retry).0.state == EntryState::FatalFailure,
        run.is_over() ==> run.next(event, retry) == (run, Action::Ignore),
{
}

} // verus!
