//! A scheduler together with its store and its observer, as mathematics.
//!
//! [`Progress`] is what an onlooker could know after the host has given some
//! answers: where the scheduler stands, what it asked for last, what the
//! store holds and which events went out. The laws of the crate are stated
//! over it.

use vstd::prelude::*;
use crate::diff::output_diff_counts;
use crate::model::{changed, initial, step, Cycle, Model};
use crate::protocol::{ReplyView, RequestView};
use crate::record::{ActionView, ExecutionId, RecordView};
use crate::timing::Timing;

verus! {

/// A scheduler, the request its host has yet to answer, the store's log and
/// the events sent so far, oldest first.
pub struct Progress {
    pub model: Model,
    pub pending: RequestView,
    pub log: Seq<RecordView>,
    pub events: Seq<ActionView>,
}

/// The identifier of the newest record of a log.
pub open spec fn latest_id(log: Seq<RecordView>) -> Option<ExecutionId> {
    if log.len() == 0 {
        None
    } else {
        Some(log.last().id)
    }
}

/// Whether a store holding `log` may give `reply` to `pending`. A store may
/// fail, and it may fail to load a record, but it does not lie: the latest
/// identifier it names is the log's, and a record it hands out is one of the
/// log's records and the one asked for.
pub open spec fn answers(log: Seq<RecordView>, pending: RequestView, reply: ReplyView) -> bool {
    match reply {
        ReplyView::LatestId(latest) => latest == latest_id(log),
        ReplyView::Loaded(Some(record)) => pending == RequestView::LoadRecord(record.id)
            && log.contains(record),
        _ => true,
    }
}

/// The log once `reply` has answered `pending`: a record joins it when the
/// store confirms that it was appended.
pub open spec fn log_after(log: Seq<RecordView>, pending: RequestView, reply: ReplyView) -> Seq<
    RecordView,
> {
    match (pending, reply) {
        (RequestView::Persist(record), ReplyView::Stored) => log.push(record),
        _ => log,
    }
}

/// The events once `request` has been issued.
pub open spec fn events_after(events: Seq<ActionView>, request: RequestView) -> Seq<ActionView> {
    match request {
        RequestView::Notify(action) => events.push(action),
        _ => events,
    }
}

/// A scheduler that has just been started beside a store holding `log`.
pub open spec fn begin(timing: Timing, interval_ms: u64, log: Seq<RecordView>) -> Progress {
    Progress {
        model: initial(timing, interval_ms).0,
        pending: initial(timing, interval_ms).1,
        log,
        events: Seq::empty(),
    }
}

/// One answer later.
pub open spec fn advance(p: Progress, reply: ReplyView) -> Progress {
    Progress {
        model: step(p.model, reply).0,
        pending: step(p.model, reply).1,
        log: log_after(p.log, p.pending, reply),
        events: events_after(p.events, step(p.model, reply).1),
    }
}

/// After all of `replies`, in order.
pub open spec fn run(p: Progress, replies: Seq<ReplyView>) -> Progress
    decreases replies.len(),
{
    if replies.len() == 0 {
        p
    } else {
        advance(run(p, replies.drop_last()), replies.last())
    }
}

/// Whether every one of `replies` is an answer the store may give at the
/// moment it is given.
pub open spec fn truthful(p: Progress, replies: Seq<ReplyView>) -> bool
    decreases replies.len(),
{
    replies.len() == 0 || {
        let earlier = run(p, replies.drop_last());
        truthful(p, replies.drop_last()) && answers(earlier.log, earlier.pending, replies.last())
    }
}

/// What an observer knows of the cycle under way.
pub enum Watch {
    /// No cycle is open.
    Idle,
    /// This cycle was announced; the flag tells whether a diff was reported.
    Open(Cycle, bool),
    /// The events came in an order that no cycle produces.
    Broken,
}

/// Whether a diff is one that gets reported.
pub open spec fn reported(diff: Option<(nat, nat)>) -> bool {
    match diff {
        Some(counts) => changed(counts),
        None => false,
    }
}

/// What the observer knows after one more event. A start opens a cycle, a
/// diff report may follow once, and the finish must name the open cycle and
/// carry a changed diff exactly if one was reported.
pub open spec fn observe(watch: Watch, event: ActionView) -> Watch {
    match (watch, event) {
        (Watch::Idle, ActionView::StartExecution(id, start)) => Watch::Open(
            Cycle { id, start },
            false,
        ),
        (Watch::Open(cycle, false), ActionView::DiffDetected) => Watch::Open(cycle, true),
        (Watch::Open(cycle, flagged), ActionView::FinishExecution(id, start, diff, _)) => if id
            == cycle.id && start == cycle.start && flagged == reported(diff) {
            Watch::Idle
        } else {
            Watch::Broken
        },
        _ => Watch::Broken,
    }
}

/// What the observer knows after `events`.
pub open spec fn watch(events: Seq<ActionView>) -> Watch
    decreases events.len(),
{
    if events.len() == 0 {
        Watch::Idle
    } else {
        observe(watch(events.drop_last()), events.last())
    }
}

/// Whether `record` was compared against `previous`.
pub open spec fn compared_with(record: RecordView, previous: RecordView) -> bool {
    record.previous_id == Some(previous.id) && record.diff == Some(
        output_diff_counts(previous.stdout, record.stdout),
    )
}

/// Whether `record` is a fit continuation of `log`: it points at the record
/// that was the latest, that record is an earlier one, and a diff it carries
/// was taken against a record of that identifier.
pub open spec fn continues(log: Seq<RecordView>, record: RecordView) -> bool {
    &&& record.previous_id == latest_id(log)
    &&& (record.previous_id matches Some(previous) ==> previous.0 < record.id.0)
    &&& (record.diff is Some ==> exists|j: int|
        0 <= j < log.len() && compared_with(record, #[trigger] log[j]))
}

} // verus!
