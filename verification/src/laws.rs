//! What holds of every run of the scheduler, proved from its model.

use vstd::prelude::*;
use crate::history::{
    advance, answers, begin, continues, latest_id, observe, reported, run, truthful, watch,
    Progress, Watch,
};
use crate::model::{failed_output, seed, step, Cycle, Model, PhaseView};
use crate::protocol::{ReplyView, RequestView};
use crate::record::{ActionView, ExecutionId, RecordView, Timestamp};
use crate::config::effective_interval_ms;
use crate::timing::{elapsed_nanos, fixed_pause_nanos, precise_pause_nanos, Timing, POLL_TICK_NANOS};

verus! {

/// What the observer must have seen when the scheduler stands in a phase.
pub open spec fn events_fit(p: Progress) -> bool {
    match p.model.phase {
        PhaseView::Halted(_) => watch(p.events) != Watch::Broken,
        PhaseView::Announcing(cycle) | PhaseView::Executing(cycle) => watch(p.events)
            == Watch::Open(cycle, false),
        PhaseView::EndClock(cycle, _) => watch(p.events) == Watch::Open(cycle, false),
        PhaseView::Lookup(cycle, _, _) => watch(p.events) == Watch::Open(cycle, false),
        PhaseView::Loading(cycle, _, _, _) => watch(p.events) == Watch::Open(cycle, false),
        PhaseView::Flagging(record) => reported(record.diff) && watch(p.events) == Watch::Open(
            Cycle { id: record.id, start: record.start_time },
            true,
        ),
        PhaseView::Persisting(cycle, diff, _) => watch(p.events) == Watch::Open(
            cycle,
            reported(diff),
        ),
        _ => watch(p.events) == Watch::Idle,
    }
}

/// One more event moves the observer by one observation.
pub proof fn lemma_watch_push(events: Seq<ActionView>, event: ActionView)
    ensures
        watch(events.push(event)) == observe(watch(events), event),
{
    assert(events.push(event).drop_last() =~= events);
}

/// An answer keeps the events fitting the phase.
pub proof fn lemma_events_fit_advance(p: Progress, reply: ReplyView)
    requires
        events_fit(p),
    ensures
        events_fit(advance(p, reply)),
{
    let next = step(p.model, reply);
    match next.1 {
        RequestView::Notify(action) => {
            lemma_watch_push(p.events, action);
        },
        _ => {},
    }
}

/// After any answers whatever, the events fit the phase.
pub proof fn lemma_events_fit(p: Progress, replies: Seq<ReplyView>)
    requires
        events_fit(p),
    ensures
        events_fit(run(p, replies)),
    decreases replies.len(),
{
    if replies.len() > 0 {
        lemma_events_fit(p, replies.drop_last());
        lemma_events_fit_advance(run(p, replies.drop_last()), replies.last());
    }
}

/// Event ordering. Whatever the host answers, the events of a cycle go out
/// in this order: its start, then at most one diff report, then its finish,
/// which names the same identifier and start time and carries a changed diff
/// exactly if a diff was reported. No event of another cycle comes between.
pub proof fn law_events_in_order(
    timing: Timing,
    interval_ms: u64,
    log: Seq<RecordView>,
    replies: Seq<ReplyView>,
)
    ensures
        watch(run(begin(timing, interval_ms, log), replies).events) != Watch::Broken,
{
    lemma_events_fit(begin(timing, interval_ms, log), replies);
}

/// Whether `log` is `earlier` followed by records whose identifiers count
/// up from one past the seed and each of which continues what precedes it.
pub open spec fn log_fits(earlier: Seq<RecordView>, log: Seq<RecordView>) -> bool {
    &&& earlier.len() <= log.len()
    &&& log.take(earlier.len() as int) == earlier
    &&& forall|i: int|
        earlier.len() <= i < log.len() ==> (#[trigger] log[i]).id.0 == seed(latest_id(earlier)) + 1
            + (i - earlier.len())
    &&& forall|i: int| earlier.len() <= i < log.len() ==> continues(log.take(i), #[trigger] log[i])
}

/// Whether counter, pending request and carried record are what the phase
/// calls for, beside a store that began as `earlier`.
pub open spec fn phase_fits(earlier: Seq<RecordView>, p: Progress) -> bool {
    let idle = seed(latest_id(earlier)) + (p.log.len() - earlier.len());
    let busy = idle + 1;
    let counter = p.model.counter;
    match p.model.phase {
        PhaseView::Seeding => p.log == earlier && p.pending == RequestView::LatestId,
        PhaseView::StartClock(id) => id.0 == counter && counter == busy && !(p.pending
            is Persist),
        PhaseView::Announcing(cycle) | PhaseView::Executing(cycle) => cycle.id.0 == counter
            && counter == busy && !(p.pending is Persist),
        PhaseView::EndClock(cycle, _) => cycle.id.0 == counter && counter == busy && !(p.pending
            is Persist),
        PhaseView::Lookup(cycle, _, _) => cycle.id.0 == counter && counter == busy && !(p.pending
            is Persist),
        PhaseView::Loading(cycle, _, _, latest) => cycle.id.0 == counter && counter == busy
            && p.pending == RequestView::LoadRecord(latest) && latest_id(p.log) == Some(latest),
        PhaseView::Flagging(record) => record.id.0 == counter && counter == busy && continues(
            p.log,
            record,
        ) && !(p.pending is Persist),
        PhaseView::Persisting(cycle, _, _) => cycle.id.0 == counter && counter == busy && (
        p.pending matches RequestView::Persist(record) && record.id == cycle.id && continues(
            p.log,
            record,
        )),
        PhaseView::Halted(_) => !(p.pending is Persist),
        _ => counter == idle && !(p.pending is Persist),
    }
}

/// The newest identifier of a fitting log lies below the next one to be
/// handed out.
pub proof fn lemma_latest_is_behind(earlier: Seq<RecordView>, log: Seq<RecordView>)
    requires
        log_fits(earlier, log),
    ensures
        latest_id(log) matches Some(latest) ==> latest.0 < seed(latest_id(earlier)) + (log.len()
            - earlier.len()) + 1,
{
    if log.len() > earlier.len() {
        assert(log[log.len() - 1].id.0 == seed(latest_id(earlier)) + 1 + (log.len() - 1
            - earlier.len()));
    } else {
        assert(log.take(earlier.len() as int) =~= log);
    }
}

/// A record that continues a fitting log and carries the next identifier
/// extends it to a fitting log.
pub proof fn lemma_log_fits_push(earlier: Seq<RecordView>, log: Seq<RecordView>, record: RecordView)
    requires
        log_fits(earlier, log),
        continues(log, record),
        record.id.0 == seed(latest_id(earlier)) + 1 + (log.len() - earlier.len()),
    ensures
        log_fits(earlier, log.push(record)),
{
    let longer = log.push(record);
    assert(longer.take(earlier.len() as int) =~= log.take(earlier.len() as int));
    assert forall|i: int| earlier.len() <= i < longer.len() implies continues(
        longer.take(i),
        #[trigger] longer[i],
    ) by {
        if i < log.len() {
            assert(longer.take(i) =~= log.take(i));
            assert(longer[i] == log[i]);
        } else {
            assert(longer.take(i) =~= log);
        }
    }
    assert forall|i: int| earlier.len() <= i < longer.len() implies (#[trigger] longer[i]).id.0
        == seed(latest_id(earlier)) + 1 + (i - earlier.len()) by {
        if i < log.len() {
            assert(longer[i] == log[i]);
        }
    }
}

/// A truthful answer keeps log and phase fitting.
pub proof fn lemma_history_advance(earlier: Seq<RecordView>, p: Progress, reply: ReplyView)
    requires
        log_fits(earlier, p.log),
        phase_fits(earlier, p),
        answers(p.log, p.pending, reply),
    ensures
        log_fits(earlier, advance(p, reply).log),
        phase_fits(earlier, advance(p, reply)),
{
    lemma_latest_is_behind(earlier, p.log);
    match (p.pending, reply) {
        (RequestView::Persist(record), ReplyView::Stored) => {
            lemma_log_fits_push(earlier, p.log, record);
        },
        _ => {},
    }
    match (p.model.phase, reply) {
        (PhaseView::Seeding, _) => {
            assert(p.log.take(p.log.len() as int) =~= p.log);
        },
        (PhaseView::Loading(_, _, _, _), ReplyView::Loaded(Some(previous))) => {
            let j = choose|j: int| 0 <= j < p.log.len() && p.log[j] == previous;
            assert(p.log[j] == previous);
        },
        _ => {},
    }
}

/// After truthful answers, log and phase fit.
pub proof fn lemma_history(
    timing: Timing,
    interval_ms: u64,
    earlier: Seq<RecordView>,
    replies: Seq<ReplyView>,
)
    requires
        truthful(begin(timing, interval_ms, earlier), replies),
    ensures
        log_fits(earlier, run(begin(timing, interval_ms, earlier), replies).log),
        phase_fits(earlier, run(begin(timing, interval_ms, earlier), replies)),
    decreases replies.len(),
{
    let start = begin(timing, interval_ms, earlier);
    if replies.len() == 0 {
        assert(earlier.take(earlier.len() as int) =~= earlier);
    } else {
        lemma_history(timing, interval_ms, earlier, replies.drop_last());
        lemma_history_advance(earlier, run(start, replies.drop_last()), replies.last());
    }
}

/// Identifier monotonicity. A scheduler of either timing is started beside
/// a store that holds `earlier` and tells the truth. Whatever else the host
/// answers, suspensions included, the store only grows, and the records that
/// join it carry the identifiers after the seed, one by one: the first gets
/// the seed plus one, each later one the identifier after its predecessor's.
/// Beside an empty store the seed is zero, so the cycles are numbered 1, 2, 3.
pub proof fn law_identifiers_ascend(
    timing: Timing,
    interval_ms: u64,
    earlier: Seq<RecordView>,
    replies: Seq<ReplyView>,
)
    requires
        truthful(begin(timing, interval_ms, earlier), replies),
    ensures
        ({
            let log = run(begin(timing, interval_ms, earlier), replies).log;
            &&& earlier.len() <= log.len()
            &&& log.take(earlier.len() as int) == earlier
            &&& forall|i: int|
                0 <= i < log.len() - earlier.len() ==> (#[trigger] log[earlier.len() + i]).id.0
                    == seed(latest_id(earlier)) + 1 + i
            &&& earlier.len() == 0 ==> forall|i: int|
                0 <= i < log.len() ==> (#[trigger] log[i]).id.0 == i + 1
        }),
{
    lemma_history(timing, interval_ms, earlier, replies);
    let log = run(begin(timing, interval_ms, earlier), replies).log;
    assert forall|i: int| 0 <= i < log.len() - earlier.len() implies (#[trigger] log[earlier.len()
        + i]).id.0 == seed(latest_id(earlier)) + 1 + i by {
        let k = earlier.len() + i;
        assert(log[k].id.0 == seed(latest_id(earlier)) + 1 + (k - earlier.len()));
    }
}

/// Record chaining. Beside a truthful store, every record that joins the
/// log names as its predecessor the record that was the newest when it
/// joined, and none when the log was empty. That predecessor has a smaller
/// identifier, so a record never points at itself or ahead. A diff, when the
/// record has one, was taken against a stored record of that identifier.
pub proof fn law_records_chain(
    timing: Timing,
    interval_ms: u64,
    earlier: Seq<RecordView>,
    replies: Seq<ReplyView>,
)
    requires
        truthful(begin(timing, interval_ms, earlier), replies),
    ensures
        ({
            let log = run(begin(timing, interval_ms, earlier), replies).log;
            forall|i: int|
                earlier.len() <= i < log.len() ==> continues(log.take(i), #[trigger] log[i])
        }),
{
    lemma_history(timing, interval_ms, earlier, replies);
}

/// Whether the scheduler stands at the top of its loop: about to read the
/// clock or the suspend gate, or waiting out a poll tick.
pub open spec fn at_gate(p: Progress) -> bool {
    match p.model.phase {
        PhaseView::TopClock => p.pending == RequestView::ReadClock,
        PhaseView::Gate(_) => p.pending == RequestView::PollGate,
        PhaseView::Suspended => p.pending == RequestView::Sleep(POLL_TICK_NANOS as int),
        _ => false,
    }
}

/// Whether the suspend gate is closed every time it is read.
pub open spec fn gate_stays_closed(replies: Seq<ReplyView>) -> bool {
    forall|i: int| 0 <= i < replies.len() ==> #[trigger] replies[i] != ReplyView::Gate(false)
}

/// Suspension. From the top of the loop on, as long as every reading of the
/// gate finds it closed, the scheduler hands out no identifier, the store
/// gains no record and no event goes out: it only polls, once per tick, or
/// has stopped. When the suspend gate is next found open, the cycle that starts gets
/// the identifier after the last one spoken for, so none was spent.
pub proof fn law_suspension_spends_nothing(p: Progress, replies: Seq<ReplyView>)
    requires
        at_gate(p),
        gate_stays_closed(replies),
    ensures
        ({
            let q = run(p, replies);
            &&& q.model.counter == p.model.counter
            &&& q.log == p.log
            &&& q.events == p.events
            &&& at_gate(q) || q.model.phase is Halted
            &&& at_gate(q) ==> q.model.timing == p.model.timing
            &&& q.model.phase is Gate && q.model.counter < u64::MAX ==> advance(
                q,
                ReplyView::Gate(false),
            ).model.counter == p.model.counter + 1
        }),
    decreases replies.len(),
{
    if replies.len() > 0 {
        assert(gate_stays_closed(replies.drop_last())) by {
            assert forall|i: int| 0 <= i < replies.drop_last().len() implies 
                #[trigger] replies.drop_last()[i] != ReplyView::Gate(false) by {
                assert(replies.drop_last()[i] == replies[i]);
            }
        }
        law_suspension_spends_nothing(p, replies.drop_last());
        assert(replies.last() == replies[replies.len() - 1]);
        let earlier = run(p, replies.drop_last());
        if earlier.model.phase is Halted {
            assert(!(earlier.pending is Persist)) by {
                lemma_halted_asks_nothing(p, replies.drop_last());
            }
        }
    }
}

/// A scheduler that has stopped at the top of its loop asks for nothing
/// but to be stopped.
pub proof fn lemma_halted_asks_nothing(p: Progress, replies: Seq<ReplyView>)
    requires
        at_gate(p),
    ensures
        run(p, replies).model.phase matches PhaseView::Halted(reason) ==> run(p, replies).pending
            == RequestView::Halt(reason),
    decreases replies.len(),
{
    if replies.len() > 0 {
        lemma_halted_asks_nothing(p, replies.drop_last());
    }
}

/// Whether the phase is one that the timing discipline passes through.
/// Fixed delay never measures a cycle and reads the start time after the
/// gate; precise timing reads it before the suspend gate and always measures.
pub open spec fn timing_fits(m: Model) -> bool {
    match m.timing {
        Timing::FixedDelay => match m.phase {
            PhaseView::TopClock | PhaseView::ElapsedClock(_) => false,
            PhaseView::Gate(top) => top is None,
            PhaseView::Reconfiguring(elapsed) => elapsed is None,
            _ => true,
        },
        Timing::Precise => match m.phase {
            PhaseView::StartClock(_) => false,
            PhaseView::Gate(top) => top is Some,
            PhaseView::Reconfiguring(elapsed) => elapsed is Some,
            _ => true,
        },
    }
}

/// The timing discipline and the configured interval never change, and the
/// phases stay those of the discipline.
pub proof fn lemma_timing_fits(p: Progress, replies: Seq<ReplyView>)
    requires
        timing_fits(p.model),
    ensures
        timing_fits(run(p, replies).model),
        run(p, replies).model.timing == p.model.timing,
        run(p, replies).model.interval_ms == p.model.interval_ms,
    decreases replies.len(),
{
    if replies.len() > 0 {
        lemma_timing_fits(p, replies.drop_last());
    }
}

/// Fixed delay. In a run of the fixed-delay discipline, whenever a cycle is
/// over and the store is asked for the live interval, the pause that follows
/// is the whole interval that governs: the override `live` if there is one,
/// else the configured interval. Neither a clock reading nor the time the
/// command took shortens it.
pub proof fn law_fixed_delay_pauses_whole_interval(
    interval_ms: u64,
    log: Seq<RecordView>,
    replies: Seq<ReplyView>,
    live: Option<u64>,
)
    ensures
        ({
            let p = run(begin(Timing::FixedDelay, interval_ms, log), replies);
            p.model.phase is Reconfiguring ==> advance(p, ReplyView::Config(live)).pending
                == RequestView::Sleep(fixed_pause_nanos(effective_interval_ms(live, interval_ms)))
        }),
{
    lemma_timing_fits(begin(Timing::FixedDelay, interval_ms, log), replies);
}

/// Precise timing. In a run of the precise discipline, once a cycle's finish
/// event is out, the scheduler reads the clock and asks for the live
/// interval. With `now` the reading and `live` the answer, the time spent is
/// what passed since the cycle's start. If that is less than the governing
/// interval, the pause is exactly the rest; otherwise there is no pause at
/// all and the next cycle begins at once by reading the clock.
pub proof fn law_precise_pauses_for_the_rest(
    interval_ms: u64,
    log: Seq<RecordView>,
    replies: Seq<ReplyView>,
    now: Timestamp,
    live: Option<u64>,
)
    ensures
        ({
            let p = run(begin(Timing::Precise, interval_ms, log), replies);
            p.model.phase matches PhaseView::ElapsedClock(cycle) ==> {
                let q = advance(advance(p, ReplyView::Clock(now)), ReplyView::Config(live));
                let whole = fixed_pause_nanos(effective_interval_ms(live, interval_ms));
                let spent = elapsed_nanos(cycle.start, now);
                &&& spent < whole ==> q.pending == RequestView::Sleep(whole - spent)
                    && q.model.phase == PhaseView::Sleeping
                &&& spent >= whole ==> q.pending == RequestView::ReadClock && q.model.phase
                    == PhaseView::TopClock
                &&& q.model.counter == p.model.counter
            }
        }),
{
    lemma_timing_fits(begin(Timing::Precise, interval_ms, log), replies);
}

/// Dynamic interval reload. When the store names a live interval, the
/// coming pause is chosen as if the watcher had been started with that
/// interval, whatever the timing discipline; the interval it was started
/// with is kept for the cycles in which the store names none.
pub proof fn law_live_interval_governs(m: Model, elapsed: Option<int>, ms: u64)
    requires
        m.phase == PhaseView::Reconfiguring(elapsed),
    ensures
        step(m, ReplyView::Config(Some(ms))).1 == step(
            Model { interval_ms: ms, ..m },
            ReplyView::Config(None),
        ).1,
        step(m, ReplyView::Config(Some(ms))).0.interval_ms == m.interval_ms,
{
}

/// Start-time capture. Precise timing takes a cycle's start time from the
/// clock reading made before the suspend gate was read; fixed delay reads the clock
/// only once the suspend gate was found open. Either way the start event carries
/// that reading and the identifier after the last one spoken for.
pub proof fn law_start_time_capture(m: Model, now: Timestamp)
    requires
        m.counter < u64::MAX,
    ensures
        m.timing == Timing::Precise && m.phase == PhaseView::TopClock ==> step(
            step(m, ReplyView::Clock(now)).0,
            ReplyView::Gate(false),
        ).1 == RequestView::Notify(
            ActionView::StartExecution(ExecutionId((m.counter + 1) as u64), now),
        ),
        m.phase == PhaseView::Gate(None) ==> step(
            step(m, ReplyView::Gate(false)).0,
            ReplyView::Clock(now),
        ).1 == RequestView::Notify(
            ActionView::StartExecution(ExecutionId((m.counter + 1) as u64), now),
        ),
{
}

/// Whether the pending request is a record exactly when the phase waits
/// for the store to append it, and the phase remembers that record's cycle,
/// diff and exit code.
pub open spec fn filing_fits(p: Progress) -> bool {
    match p.model.phase {
        PhaseView::Persisting(cycle, diff, exit_code) => p.pending matches RequestView::Persist(
            record,
        ) && record.id == cycle.id && record.start_time == cycle.start && record.diff == diff
            && record.exit_code == exit_code,
        _ => !(p.pending is Persist),
    }
}

/// After any answers whatever, the pending request fits the phase.
pub proof fn lemma_filing_fits(p: Progress, replies: Seq<ReplyView>)
    requires
        filing_fits(p),
    ensures
        filing_fits(run(p, replies)),
    decreases replies.len(),
{
    if replies.len() > 0 {
        lemma_filing_fits(p, replies.drop_last());
    }
}

/// Finish follows the record. At any point of any run, the answer `reply`
/// makes a finish event go out only if it confirms that a record was
/// appended, and the event tells that record's identifier, start time, diff
/// and exit code. A confirmed record, in turn, is always followed by its
/// finish event.
pub proof fn law_finish_tells_the_stored_record(
    timing: Timing,
    interval_ms: u64,
    log: Seq<RecordView>,
    replies: Seq<ReplyView>,
    reply: ReplyView,
)
    ensures
        ({
            let p = run(begin(timing, interval_ms, log), replies);
            let q = advance(p, reply);
            &&& q.pending matches RequestView::Notify(
                ActionView::FinishExecution(id, start, diff, exit_code),
            ) ==> q.log == p.log.push(q.log.last()) && q.log.last().id == id
                && q.log.last().start_time == start && q.log.last().diff == diff
                && q.log.last().exit_code == exit_code
            &&& q.log != p.log ==> q.pending is Notify && q.pending->Notify_0 is FinishExecution
        }),
{
    lemma_filing_fits(begin(timing, interval_ms, log), replies);
}

/// Store failures are final. Whatever the scheduler waits for, the answer
/// that the store failed stops it, and a stopped scheduler stays stopped for
/// the same reason, asks only to be stopped, and leaves store and events as
/// they are.
pub proof fn law_store_failure_is_final(p: Progress, replies: Seq<ReplyView>)
    ensures
        ({
            let q = run(advance(p, ReplyView::StoreFailed), replies);
            &&& advance(p, ReplyView::StoreFailed).model.phase is Halted
            &&& q.model == advance(p, ReplyView::StoreFailed).model
            &&& q.pending == advance(p, ReplyView::StoreFailed).pending
            &&& q.pending is Halt
            &&& q.log == p.log
            &&& q.events == p.events
        }),
    decreases replies.len(),
{
    if replies.len() > 0 {
        law_store_failure_is_final(p, replies.drop_last());
    }
}

/// Unheard events change nothing. Whether the observer took an event or was
/// gone, the scheduler goes on in the same way.
pub proof fn law_unheard_events_change_nothing(m: Model)
    ensures
        step(m, ReplyView::Delivered(false)) == step(m, ReplyView::Delivered(true)),
{
}

/// Failed runs are recorded. A command that could not be run at all is
/// treated as a run without output that ended with exit code 1 and the
/// failure message as its error text. It never stops the scheduler.
pub proof fn law_failed_runs_are_recorded(m: Model, cycle: Cycle, message: Seq<char>)
    requires
        m.phase == PhaseView::Executing(cycle),
    ensures
        step(m, ReplyView::ExecutionFailed(message)) == step(
            m,
            ReplyView::Executed(failed_output(message)),
        ),
        !(step(m, ReplyView::ExecutionFailed(message)).0.phase is Halted),
{
}

} // verus!
