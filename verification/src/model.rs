//! The scheduler as mathematics: its states and its transition function.
//!
//! One cycle runs the command, compares its output with the latest record,
//! stores a new record and tells the observer. Between two cycles the
//! scheduler pauses; while the suspend gate is closed it only polls it.

use vstd::prelude::*;
use vstd::utf8::encode_utf8;
use crate::diff::output_diff_counts;
use crate::protocol::{HaltReason, ReplyView, RequestView};
use crate::record::{ActionView, ExecutionId, OutputView, RecordView, Timestamp};
use crate::config::effective_interval_ms;
use crate::timing::{elapsed_nanos, fixed_pause_nanos, precise_pause_nanos, Timing, POLL_TICK_NANOS};

verus! {

/// A cycle under way: its identifier and its start time.
#[derive(Clone, Copy, Debug, PartialEq, Eq, Structural)]
pub struct Cycle {
    pub id: ExecutionId,
    pub start: Timestamp,
}

/// Where the scheduler stands: which answer it waits for, and what it
/// carries of the cycle under way.
pub enum PhaseView {
    /// Waits for the store's latest identifier to seed the counter.
    Seeding,
    /// Precise timing: waits for the clock reading taken before the suspend gate.
    TopClock,
    /// Waits for the suspend gate; holds the start time if already taken.
    Gate(Option<Timestamp>),
    /// Waits out one poll tick while suspended.
    Suspended,
    /// Fixed delay: waits for the clock reading that starts the cycle.
    StartClock(ExecutionId),
    /// Waits for the start event to be handed over.
    Announcing(Cycle),
    /// Waits for the command to finish.
    Executing(Cycle),
    /// Waits for the clock reading that ends the run.
    EndClock(Cycle, OutputView),
    /// Waits for the store's latest identifier to pick the previous record.
    Lookup(Cycle, Timestamp, OutputView),
    /// Waits for the previous record.
    Loading(Cycle, Timestamp, OutputView, ExecutionId),
    /// Waits for the diff event to be handed over; holds the record to store.
    Flagging(RecordView),
    /// Waits for the store to append the record.
    Persisting(Cycle, Option<(nat, nat)>, i32),
    /// Waits for the finish event to be handed over.
    Finishing(Cycle),
    /// Precise timing: waits for the clock reading that measures the cycle.
    ElapsedClock(Cycle),
    /// Waits for the live interval; holds the measured time if any.
    Reconfiguring(Option<int>),
    /// Waits out the pause between two cycles.
    Sleeping,
    /// Stopped for good.
    Halted(HaltReason),
}

/// What a scheduler is doing, seen from outside.
#[derive(Clone, Copy, Debug, PartialEq, Eq, Structural)]
pub enum Activity {
    /// Working on a cycle, or about to.
    Running,
    /// Waiting out a poll tick because the suspend gate was closed.
    Suspended,
    /// Pausing between two cycles.
    Sleeping,
    /// Stopped for good.
    Halted,
}

/// The activity that a phase belongs to.
pub open spec fn activity(phase: PhaseView) -> Activity {
    match phase {
        PhaseView::Suspended => Activity::Suspended,
        PhaseView::Sleeping => Activity::Sleeping,
        PhaseView::Halted(_) => Activity::Halted,
        _ => Activity::Running,
    }
}

/// The whole state of a scheduler.
pub struct Model {
    pub timing: Timing,
    /// The interval the watcher was started with, in milliseconds.
    pub interval_ms: u64,
    /// The last identifier spoken for; the next cycle gets the one after it.
    pub counter: u64,
    pub phase: PhaseView,
}

/// Where the counter starts: one past the latest stored identifier, or zero
/// for an empty store. The first cycle gets the identifier after that.
pub open spec fn seed(latest: Option<ExecutionId>) -> int {
    match latest {
        Some(id) => id.0 + 1,
        None => 0,
    }
}

/// A fresh scheduler and its first request.
pub open spec fn initial(timing: Timing, interval_ms: u64) -> (Model, RequestView) {
    (Model { timing, interval_ms, counter: 0, phase: PhaseView::Seeding }, RequestView::LatestId)
}

/// Stops the scheduler.
pub open spec fn halt(m: Model, reason: HaltReason) -> (Model, RequestView) {
    (Model { phase: PhaseView::Halted(reason), ..m }, RequestView::Halt(reason))
}

/// The top of the loop. Precise timing reads the clock before it looks at
/// the suspend gate; fixed delay looks at that gate first.
pub open spec fn open_cycle(m: Model) -> (Model, RequestView) {
    match m.timing {
        Timing::FixedDelay => (Model { phase: PhaseView::Gate(None), ..m }, RequestView::PollGate),
        Timing::Precise => (Model { phase: PhaseView::TopClock, ..m }, RequestView::ReadClock),
    }
}

/// Tells the observer that `cycle` began.
pub open spec fn announce(m: Model, cycle: Cycle) -> (Model, RequestView) {
    (
        Model { phase: PhaseView::Announcing(cycle), ..m },
        RequestView::Notify(ActionView::StartExecution(cycle.id, cycle.start)),
    )
}

/// The output that stands for a run that could not be made at all: no
/// output, the failure message as its error text, and exit code 1.
pub open spec fn failed_output(message: Seq<char>) -> OutputView {
    OutputView { stdout: Seq::empty(), stderr: encode_utf8(message), exit_code: 1 }
}

/// The record of a cycle.
pub open spec fn compose(
    cycle: Cycle,
    end: Timestamp,
    output: OutputView,
    previous_id: Option<ExecutionId>,
    diff: Option<(nat, nat)>,
) -> RecordView {
    RecordView {
        id: cycle.id,
        start_time: cycle.start,
        end_time: end,
        stdout: output.stdout,
        stderr: output.stderr,
        exit_code: output.exit_code,
        diff,
        previous_id,
    }
}

/// Hands `record` to the store.
pub open spec fn file(m: Model, record: RecordView) -> (Model, RequestView) {
    (
        Model {
            phase: PhaseView::Persisting(
                Cycle { id: record.id, start: record.start_time },
                record.diff,
                record.exit_code,
            ),
            ..m
        },
        RequestView::Persist(record),
    )
}

/// Whether a diff reports any change.
pub open spec fn changed(counts: (nat, nat)) -> bool {
    counts.0 != 0 || counts.1 != 0
}

/// Looks at the suspend gate. A closed gate costs one poll tick and nothing else;
/// an open gate takes the next identifier and starts the cycle.
pub open spec fn on_gate(m: Model, top: Option<Timestamp>, reply: ReplyView) -> (Model, RequestView) {
    match reply {
        ReplyView::Gate(true) => (
            Model { phase: PhaseView::Suspended, ..m },
            RequestView::Sleep(POLL_TICK_NANOS as int),
        ),
        ReplyView::Gate(false) => if m.counter == u64::MAX {
            halt(m, HaltReason::IdentifiersExhausted)
        } else {
            let id = ExecutionId((m.counter + 1) as u64);
            let next = Model { counter: id.0, ..m };
            match top {
                Some(start) => announce(next, Cycle { id, start }),
                None => (Model { phase: PhaseView::StartClock(id), ..next }, RequestView::ReadClock),
            }
        },
        _ => halt(m, HaltReason::UnexpectedReply),
    }
}

/// Takes the previous record, if it came, and settles the diff.
pub open spec fn on_loaded(
    m: Model,
    cycle: Cycle,
    end: Timestamp,
    output: OutputView,
    latest: ExecutionId,
    reply: ReplyView,
) -> (Model, RequestView) {
    match reply {
        ReplyView::Loaded(Some(previous)) => {
            let counts = output_diff_counts(previous.stdout, output.stdout);
            let record = compose(cycle, end, output, Some(latest), Some(counts));
            if changed(counts) {
                (
                    Model { phase: PhaseView::Flagging(record), ..m },
                    RequestView::Notify(ActionView::DiffDetected),
                )
            } else {
                file(m, record)
            }
        },
        ReplyView::Loaded(None) => file(m, compose(cycle, end, output, Some(latest), None)),
        ReplyView::StoreFailed => halt(m, HaltReason::StoreFailure),
        _ => halt(m, HaltReason::UnexpectedReply),
    }
}

/// Takes the live interval and chooses the pause. Fixed delay always pauses
/// for the whole interval. Precise timing pauses for the rest of it and
/// starts the next cycle at once when nothing is left.
pub open spec fn on_config(m: Model, elapsed: Option<int>, reply: ReplyView) -> (Model, RequestView) {
    match reply {
        ReplyView::Config(live) => {
            let interval = effective_interval_ms(live, m.interval_ms);
            match elapsed {
                None => (
                    Model { phase: PhaseView::Sleeping, ..m },
                    RequestView::Sleep(fixed_pause_nanos(interval)),
                ),
                Some(spent) => if precise_pause_nanos(interval, spent) > 0 {
                    (
                        Model { phase: PhaseView::Sleeping, ..m },
                        RequestView::Sleep(precise_pause_nanos(interval, spent)),
                    )
                } else {
                    open_cycle(m)
                },
            }
        },
        ReplyView::StoreFailed => halt(m, HaltReason::StoreFailure),
        _ => halt(m, HaltReason::UnexpectedReply),
    }
}

/// The transition function: the state after `reply`, and the next request.
pub open spec fn step(m: Model, reply: ReplyView) -> (Model, RequestView) {
    match m.phase {
        PhaseView::Seeding => match reply {
            ReplyView::LatestId(latest) => if seed(latest) > u64::MAX {
                halt(m, HaltReason::IdentifiersExhausted)
            } else {
                open_cycle(Model { counter: seed(latest) as u64, ..m })
            },
            ReplyView::StoreFailed => halt(m, HaltReason::StoreFailure),
            _ => halt(m, HaltReason::UnexpectedReply),
        },
        PhaseView::TopClock => match reply {
            ReplyView::Clock(now) => (
                Model { phase: PhaseView::Gate(Some(now)), ..m },
                RequestView::PollGate,
            ),
            _ => halt(m, HaltReason::UnexpectedReply),
        },
        PhaseView::Gate(top) => on_gate(m, top, reply),
        PhaseView::Suspended => match reply {
            ReplyView::Woke => open_cycle(m),
            _ => halt(m, HaltReason::UnexpectedReply),
        },
        PhaseView::StartClock(id) => match reply {
            ReplyView::Clock(now) => announce(m, Cycle { id, start: now }),
            _ => halt(m, HaltReason::UnexpectedReply),
        },
        PhaseView::Announcing(cycle) => match reply {
            ReplyView::Delivered(_) => (
                Model { phase: PhaseView::Executing(cycle), ..m },
                RequestView::Execute,
            ),
            _ => halt(m, HaltReason::UnexpectedReply),
        },
        PhaseView::Executing(cycle) => match reply {
            ReplyView::Executed(output) => (
                Model { phase: PhaseView::EndClock(cycle, output), ..m },
                RequestView::ReadClock,
            ),
            ReplyView::ExecutionFailed(message) => (
                Model { phase: PhaseView::EndClock(cycle, failed_output(message)), ..m },
                RequestView::ReadClock,
            ),
            _ => halt(m, HaltReason::UnexpectedReply),
        },
        PhaseView::EndClock(cycle, output) => match reply {
            ReplyView::Clock(now) => (
                Model { phase: PhaseView::Lookup(cycle, now, output), ..m },
                RequestView::LatestId,
            ),
            _ => halt(m, HaltReason::UnexpectedReply),
        },
        PhaseView::Lookup(cycle, end, output) => match reply {
            ReplyView::LatestId(Some(latest)) => (
                Model { phase: PhaseView::Loading(cycle, end, output, latest), ..m },
                RequestView::LoadRecord(latest),
            ),
            ReplyView::LatestId(None) => file(m, compose(cycle, end, output, None, None)),
            ReplyView::StoreFailed => halt(m, HaltReason::StoreFailure),
            _ => halt(m, HaltReason::UnexpectedReply),
        },
        PhaseView::Loading(cycle, end, output, latest) => on_loaded(
            m,
            cycle,
            end,
            output,
            latest,
            reply,
        ),
        PhaseView::Flagging(record) => match reply {
            ReplyView::Delivered(_) => file(m, record),
            _ => halt(m, HaltReason::UnexpectedReply),
        },
        PhaseView::Persisting(cycle, diff, exit_code) => match reply {
            ReplyView::Stored => (
                Model { phase: PhaseView::Finishing(cycle), ..m },
                RequestView::Notify(
                    ActionView::FinishExecution(cycle.id, cycle.start, diff, exit_code),
                ),
            ),
            ReplyView::StoreFailed => halt(m, HaltReason::StoreFailure),
            _ => halt(m, HaltReason::UnexpectedReply),
        },
        PhaseView::Finishing(cycle) => match reply {
            ReplyView::Delivered(_) => match m.timing {
                Timing::FixedDelay => (
                    Model { phase: PhaseView::Reconfiguring(None), ..m },
                    RequestView::LoadConfig,
                ),
                Timing::Precise => (
                    Model { phase: PhaseView::ElapsedClock(cycle), ..m },
                    RequestView::ReadClock,
                ),
            },
            _ => halt(m, HaltReason::UnexpectedReply),
        },
        PhaseView::ElapsedClock(cycle) => match reply {
            ReplyView::Clock(now) => (
                Model {
                    phase: PhaseView::Reconfiguring(Some(elapsed_nanos(cycle.start, now))),
                    ..m
                },
                RequestView::LoadConfig,
            ),
            _ => halt(m, HaltReason::UnexpectedReply),
        },
        PhaseView::Reconfiguring(elapsed) => on_config(m, elapsed, reply),
        PhaseView::Sleeping => match reply {
            ReplyView::Woke => open_cycle(m),
            _ => halt(m, HaltReason::UnexpectedReply),
        },
        PhaseView::Halted(reason) => (m, RequestView::Halt(reason)),
    }
}

} // verus!
