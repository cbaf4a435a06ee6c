//! What the scheduler asks of its host and what the host answers.
//!
//! The scheduler never waits and never touches the outside world. It hands
//! its host one [`Request`] at a time; the host carries it out and comes back
//! with the matching [`Reply`].

use vstd::prelude::*;
use crate::record::{Action, ActionView, ExecutionId, Output, OutputView, Record, RecordView, Timestamp};

verus! {

/// Why a scheduler stopped for good.
#[derive(Clone, Copy, Debug, PartialEq, Eq, Structural)]
pub enum HaltReason {
    /// The store failed; the history can no longer be trusted.
    StoreFailure,
    /// No identifier is left to hand out.
    IdentifiersExhausted,
    /// The host answered something the scheduler had not asked for.
    UnexpectedReply,
}

/// One thing for the host to do.
#[derive(Clone, Debug, PartialEq, Eq)]
pub enum Request {
    /// Ask the store for the identifier of its latest record.
    LatestId,
    /// Read the wall clock.
    ReadClock,
    /// Read the suspend gate.
    PollGate,
    /// Wait for this many nanoseconds.
    Sleep(u128),
    /// Send a lifecycle event to the observer.
    Notify(Action),
    /// Run the command once.
    Execute,
    /// Load the record with this identifier from the store.
    LoadRecord(ExecutionId),
    /// Append this record to the store.
    Persist(Record),
    /// Ask the store for its live interval override.
    LoadConfig,
    /// Stop: nothing more will be asked.
    Halt(HaltReason),
}

/// Mathematical form of a [`Request`].
pub enum RequestView {
    LatestId,
    ReadClock,
    PollGate,
    Sleep(int),
    Notify(ActionView),
    Execute,
    LoadRecord(ExecutionId),
    Persist(RecordView),
    LoadConfig,
    Halt(HaltReason),
}

impl View for Request {
    type V = RequestView;

    open spec fn view(&self) -> RequestView {
        match *self {
            Request::LatestId => RequestView::LatestId,
            Request::ReadClock => RequestView::ReadClock,
            Request::PollGate => RequestView::PollGate,
            Request::Sleep(nanos) => RequestView::Sleep(nanos as int),
            Request::Notify(action) => RequestView::Notify(action@),
            Request::Execute => RequestView::Execute,
            Request::LoadRecord(id) => RequestView::LoadRecord(id),
            Request::Persist(record) => RequestView::Persist(record@),
            Request::LoadConfig => RequestView::LoadConfig,
            Request::Halt(reason) => RequestView::Halt(reason),
        }
    }
}

/// The host's answer to a [`Request`].
#[derive(Clone, Debug, PartialEq, Eq)]
pub enum Reply {
    /// The store's latest identifier, if it holds any record.
    LatestId(Option<ExecutionId>),
    /// The clock reading.
    Clock(Timestamp),
    /// The suspend gate: `true` while the watcher is suspended.
    Gate(bool),
    /// The wait is over.
    Woke,
    /// The event was handed to the channel; `false` when nobody listens.
    Delivered(bool),
    /// The command ran and this is what it left.
    Executed(Output),
    /// The command could not be run at all; the message says why.
    ExecutionFailed(String),
    /// The record asked for, if the store could load it.
    Loaded(Option<Record>),
    /// The record was appended.
    Stored,
    /// The store's live interval override in milliseconds, if it has one.
    Config(Option<u64>),
    /// The store could not do what was asked.
    StoreFailed,
}

/// Mathematical form of a [`Reply`].
pub enum ReplyView {
    LatestId(Option<ExecutionId>),
    Clock(Timestamp),
    Gate(bool),
    Woke,
    Delivered(bool),
    Executed(OutputView),
    ExecutionFailed(Seq<char>),
    Loaded(Option<RecordView>),
    Stored,
    Config(Option<u64>),
    StoreFailed,
}

impl View for Reply {
    type V = ReplyView;

    open spec fn view(&self) -> ReplyView {
        match *self {
            Reply::LatestId(latest) => ReplyView::LatestId(latest),
            Reply::Clock(now) => ReplyView::Clock(now),
            Reply::Gate(suspended) => ReplyView::Gate(suspended),
            Reply::Woke => ReplyView::Woke,
            Reply::Delivered(heard) => ReplyView::Delivered(heard),
            Reply::Executed(output) => ReplyView::Executed(output@),
            Reply::ExecutionFailed(message) => ReplyView::ExecutionFailed(message@),
            Reply::Loaded(found) => ReplyView::Loaded(
                match found {
                    Some(record) => Some(record@),
                    None => None,
                },
            ),
            Reply::Stored => ReplyView::Stored,
            Reply::Config(live) => ReplyView::Config(live),
            Reply::StoreFailed => ReplyView::StoreFailed,
        }
    }
}

} // verus!
