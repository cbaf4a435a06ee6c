//! The values one execution cycle produces: identifiers, timestamps,
//! captured output, the history record and the lifecycle events.

use vstd::prelude::*;

verus! {

/// Identifier of one execution. Identifiers are handed out in ascending
/// order and never reused.
#[derive(Clone, Copy, Debug, PartialEq, Eq, Structural, PartialOrd, Ord, Hash)]
pub struct ExecutionId(pub u64);

/// A wall-clock reading: whole seconds since the Unix epoch and the
/// nanoseconds past that second.
#[derive(Clone, Copy, Debug, PartialEq, Eq, Structural)]
pub struct Timestamp {
    pub secs: i64,
    pub nanos: u32,
}

impl Timestamp {
    /// The reading as nanoseconds since the Unix epoch.
    pub open spec fn epoch_nanos(self) -> int {
        self.secs * 1_000_000_000 + self.nanos
    }
}

/// Characters added and characters removed, as the mathematical pair.
pub open spec fn counts_view(counts: (u64, u64)) -> (nat, nat) {
    (counts.0 as nat, counts.1 as nat)
}

/// An optional diff, as the mathematical pair.
pub open spec fn diff_view(diff: Option<(u64, u64)>) -> Option<(nat, nat)> {
    match diff {
        Some(counts) => Some(counts_view(counts)),
        None => None,
    }
}

/// What running the command once yields.
#[derive(Clone, Debug, PartialEq, Eq)]
pub struct Output {
    pub stdout: Vec<u8>,
    pub stderr: Vec<u8>,
    pub exit_code: i32,
}

/// Mathematical form of an [`Output`].
pub struct OutputView {
    pub stdout: Seq<u8>,
    pub stderr: Seq<u8>,
    pub exit_code: i32,
}

impl View for Output {
    type V = OutputView;

    open spec fn view(&self) -> OutputView {
        OutputView { stdout: self.stdout@, stderr: self.stderr@, exit_code: self.exit_code }
    }
}

/// The history entry of one completed cycle.
#[derive(Clone, Debug, PartialEq, Eq)]
pub struct Record {
    pub id: ExecutionId,
    pub start_time: Timestamp,
    pub end_time: Timestamp,
    pub stdout: Vec<u8>,
    pub stderr: Vec<u8>,
    pub exit_code: i32,
    /// Characters added and removed against the record named by
    /// `previous_id`; absent when no earlier record could be compared.
    pub diff: Option<(u64, u64)>,
    /// The record that was the latest one when this cycle looked.
    pub previous_id: Option<ExecutionId>,
}

/// Mathematical form of a [`Record`].
pub struct RecordView {
    pub id: ExecutionId,
    pub start_time: Timestamp,
    pub end_time: Timestamp,
    pub stdout: Seq<u8>,
    pub stderr: Seq<u8>,
    pub exit_code: i32,
    pub diff: Option<(nat, nat)>,
    pub previous_id: Option<ExecutionId>,
}

impl View for Record {
    type V = RecordView;

    open spec fn view(&self) -> RecordView {
        RecordView {
            id: self.id,
            start_time: self.start_time,
            end_time: self.end_time,
            stdout: self.stdout@,
            stderr: self.stderr@,
            exit_code: self.exit_code,
            diff: diff_view(self.diff),
            previous_id: self.previous_id,
        }
    }
}

/// A lifecycle event for whoever observes the watcher.
#[derive(Clone, Copy, Debug, PartialEq, Eq)]
pub enum Action {
    /// A cycle began: its identifier and start time.
    StartExecution(ExecutionId, Timestamp),
    /// A cycle was recorded: identifier, start time, diff and exit code.
    FinishExecution(ExecutionId, Timestamp, Option<(u64, u64)>, i32),
    /// The output of the running cycle differs from the previous record.
    DiffDetected,
}

/// Mathematical form of an [`Action`].
pub enum ActionView {
    StartExecution(ExecutionId, Timestamp),
    FinishExecution(ExecutionId, Timestamp, Option<(nat, nat)>, i32),
    DiffDetected,
}

impl View for Action {
    type V = ActionView;

    open spec fn view(&self) -> ActionView {
        match *self {
            Action::StartExecution(id, start) => ActionView::StartExecution(id, start),
            Action::FinishExecution(id, start, diff, exit_code) => ActionView::FinishExecution(
                id,
                start,
                diff_view(diff),
                exit_code,
            ),
            Action::DiffDetected => ActionView::DiffDetected,
        }
    }
}

} // verus!
