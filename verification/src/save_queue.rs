//! When to write the document to disk: one write at a time, requests that
//! arrive meanwhile folded into one, and one retry before a failure is
//! reported. The caller does the writing and says how it went.

use vstd::prelude::*;

verus! {

/// How long a failed write waits before it is tried the one more time, in
/// milliseconds.
pub const RETRY_DELAY_MILLIS: u64 = 200;

/// Why a write did not happen.
#[derive(Clone, Copy, Debug, PartialEq, Eq, Structural)]
pub enum WriteError {
    /// The new content could not be written beside the file.
    NotWritten,
    /// The new content was written but could not be put in the file's place.
    NotReplaced,
}

/// Where saving stands.
#[derive(Clone, Copy, Debug, PartialEq, Eq, Structural)]
pub enum SaveState {
    /// No write is under way.
    Idle,
    /// One write is under way. `retried` says that it is the second attempt;
    /// `pending` says that a save was asked for since it began.
    Writing { retried: bool, pending: bool },
}

/// What happened.
#[derive(Clone, Copy, Debug, PartialEq, Eq, Structural)]
pub enum SaveEvent {
    /// A save was asked for.
    Requested,
    /// The write that was under way is done.
    Written,
    /// The write that was under way failed.
    Failed(WriteError),
}

/// What the caller has to do now.
#[derive(Clone, Copy, Debug, PartialEq, Eq, Structural)]
pub enum SaveAction {
    Nothing,
    /// Write the document as it is now.
    Write,
    /// Wait the fixed delay, then write the document as it is then.
    RetryAfterDelay,
    /// Report the failure.
    Report(WriteError),
    /// Report the failure, and write the document as it is now.
    ReportAndWrite(WriteError),
}

impl SaveAction {
    /// Whether the action begins a write.
    pub open spec fn starts_write(self) -> bool {
        self is Write || self is RetryAfterDelay || self is ReportAndWrite
    }
}

impl SaveState {
    /// The number of writes under way.
    pub open spec fn in_flight(self) -> nat {
        match self {
            SaveState::Idle => 0,
            SaveState::Writing { .. } => 1,
        }
    }
}

/// The state after an event, and what the caller has to do.
pub open spec fn next(state: SaveState, event: SaveEvent) -> (SaveState, SaveAction) {
    match state {
        SaveState::Idle => match event {
            SaveEvent::Requested => (
                SaveState::Writing { retried: false, pending: false },
                SaveAction::Write,
            ),
            _ => (SaveState::Idle, SaveAction::Nothing),
        },
        SaveState::Writing { retried, pending } => match event {
            SaveEvent::Requested => (
                SaveState::Writing { retried, pending: true },
                SaveAction::Nothing,
            ),
            SaveEvent::Written => if pending {
                (SaveState::Writing { retried: false, pending: false }, SaveAction::Write)
            } else {
                (SaveState::Idle, SaveAction::Nothing)
            },
            SaveEvent::Failed(e) => if !retried {
                (SaveState::Writing { retried: true, pending: false }, SaveAction::RetryAfterDelay)
            } else if pending {
                (
                    SaveState::Writing { retried: false, pending: false },
                    SaveAction::ReportAndWrite(e),
                )
            } else {
                (SaveState::Idle, SaveAction::Report(e))
            },
        },
    }
}

/// Takes one event: see `next`.
pub fn step(state: SaveState, event: SaveEvent) -> (r: (SaveState, SaveAction))
    ensures
        r == next(state, event),
{
    match state {
        SaveState::Idle => match event {
            SaveEvent::Requested => (
                SaveState::Writing { retried: false, pending: false },
                SaveAction::Write,
            ),
            _ => (SaveState::Idle, SaveAction::Nothing),
        },
        SaveState::Writing { retried, pending } => match event {
            SaveEvent::Requested => (
                SaveState::Writing { retried, pending: true },
                SaveAction::Nothing,
            ),
            SaveEvent::Written => if pending {
                (SaveState::Writing { retried: false, pending: false }, SaveAction::Write)
            } else {
                (SaveState::Idle, SaveAction::Nothing)
            },
            SaveEvent::Failed(e) => if !retried {
                (SaveState::Writing { retried: true, pending: false }, SaveAction::RetryAfterDelay)
            } else if pending {
                (
                    SaveState::Writing { retried: false, pending: false },
                    SaveAction::ReportAndWrite(e),
                )
            } else {
                (SaveState::Idle, SaveAction::Report(e))
            },
        },
    }
}

/// At most one write is under way: a write begins only where none is under
/// way or the one that was has just ended, and the state counts it.
pub proof fn lemma_one_write_at_a_time(state: SaveState, event: SaveEvent)
    ensures
        next(state, event).1.starts_write() ==> state.in_flight() == 0 || event !is Requested,
        next(state, event).0.in_flight() == (if next(state, event).1.starts_write() {
            1nat
        } else if event is Requested {
            state.in_flight()
        } else {
            0nat
        }),
        next(state, event).0.in_flight() <= 1,
{
}

/// Requests that arrive while a write is under way are folded into one:
/// the second changes nothing, none begins a write, and when the write is
/// done exactly one write follows, of the document as it then is.
pub proof fn lemma_requests_coalesce(retried: bool, pending: bool)
    ensures
        ({
            let state = SaveState::Writing { retried, pending };
            let once = next(state, SaveEvent::Requested);
            let twice = next(once.0, SaveEvent::Requested);
            &&& once.1 is Nothing
            &&& twice == once
            &&& next(once.0, SaveEvent::Written) == (
                SaveState::Writing { retried: false, pending: false },
                SaveAction::Write,
            )
        }),
{
}

/// A failed write is tried once more and no further: the first failure asks
/// for the retry, and the failure of the retry is reported.
pub proof fn lemma_one_retry(pending: bool, first: WriteError, second: WriteError)
    ensures
        ({
            let state = SaveState::Writing { retried: false, pending };
            let retry = next(state, SaveEvent::Failed(first));
            let after = next(retry.0, SaveEvent::Failed(second));
            &&& retry.1 is RetryAfterDelay
            &&& after == (SaveState::Idle, SaveAction::Report(second))
        }),
{
}

} // verus!
