//! The executable scheduler: one [`Scheduler::step`] per answer of the host.

use vstd::prelude::*;
use vstd::string::*;
use crate::diff::output_diff;
use crate::model;
use crate::model::{Activity, Cycle, Model, PhaseView};
use crate::protocol::{HaltReason, Reply, Request, RequestView};
use crate::record::{diff_view, Action, ExecutionId, Output, Record, Timestamp};
use crate::config::{effective_interval, RuntimeConfig};
use crate::timing::{elapsed_between, fixed_pause, precise_pause, Timing, POLL_TICK_NANOS};

verus! {

enum Phase {
    Seeding,
    TopClock,
    Gate(Option<Timestamp>),
    Suspended,
    StartClock(ExecutionId),
    Announcing(Cycle),
    Executing(Cycle),
    EndClock(Cycle, Output),
    Lookup(Cycle, Timestamp, Output),
    Loading(Cycle, Timestamp, Output, ExecutionId),
    Flagging(Record),
    Persisting(Cycle, Option<(u64, u64)>, i32),
    Finishing(Cycle),
    ElapsedClock(Cycle),
    Reconfiguring(Option<i128>),
    Sleeping,
    Halted(HaltReason),
}

impl View for Phase {
    type V = PhaseView;

    closed spec fn view(&self) -> PhaseView {
        match *self {
            Phase::Seeding => PhaseView::Seeding,
            Phase::TopClock => PhaseView::TopClock,
            Phase::Gate(top) => PhaseView::Gate(top),
            Phase::Suspended => PhaseView::Suspended,
            Phase::StartClock(id) => PhaseView::StartClock(id),
            Phase::Announcing(cycle) => PhaseView::Announcing(cycle),
            Phase::Executing(cycle) => PhaseView::Executing(cycle),
            Phase::EndClock(cycle, output) => PhaseView::EndClock(cycle, output@),
            Phase::Lookup(cycle, end, output) => PhaseView::Lookup(cycle, end, output@),
            Phase::Loading(cycle, end, output, latest) => PhaseView::Loading(
                cycle,
                end,
                output@,
                latest,
            ),
            Phase::Flagging(record) => PhaseView::Flagging(record@),
            Phase::Persisting(cycle, diff, exit_code) => PhaseView::Persisting(
                cycle,
                diff_view(diff),
                exit_code,
            ),
            Phase::Finishing(cycle) => PhaseView::Finishing(cycle),
            Phase::ElapsedClock(cycle) => PhaseView::ElapsedClock(cycle),
            Phase::Reconfiguring(elapsed) => PhaseView::Reconfiguring(
                match elapsed {
                    Some(spent) => Some(spent as int),
                    None => None,
                },
            ),
            Phase::Sleeping => PhaseView::Sleeping,
            Phase::Halted(reason) => PhaseView::Halted(reason),
        }
    }
}

/// The scheduler of one watcher. It holds the identifier counter and
/// whatever the cycle under way has gathered so far.
pub struct Scheduler {
    timing: Timing,
    interval_ms: u64,
    counter: u64,
    phase: Phase,
}

impl View for Scheduler {
    type V = Model;

    closed spec fn view(&self) -> Model {
        Model {
            timing: self.timing,
            interval_ms: self.interval_ms,
            counter: self.counter,
            phase: self.phase@,
        }
    }
}

impl Scheduler {
    /// A scheduler for the given configuration and timing discipline, and
    /// the first thing it needs: the store's latest identifier.
    pub fn start(config: &RuntimeConfig, timing: Timing) -> (begun: (Scheduler, Request))
        ensures
            (begun.0@, begun.1@) == model::initial(timing, config.interval_ms),
    {
        (
            Scheduler { timing, interval_ms: config.interval_ms, counter: 0, phase: Phase::Seeding },
            Request::LatestId,
        )
    }

    /// The timing discipline this scheduler follows.
    pub fn timing(&self) -> (timing: Timing)
        ensures
            timing == self@.timing,
    {
        self.timing
    }

    /// The last identifier spoken for.
    pub fn counter(&self) -> (counter: u64)
        ensures
            counter == self@.counter,
    {
        self.counter
    }

    /// What the scheduler is doing. A fresh scheduler is running.
    pub fn activity(&self) -> (doing: Activity)
        ensures
            doing == model::activity(self@.phase),
    {
        match self.phase {
            Phase::Suspended => Activity::Suspended,
            Phase::Sleeping => Activity::Sleeping,
            Phase::Halted(_) => Activity::Halted,
            _ => Activity::Running,
        }
    }

    /// Why the scheduler stopped, if it has.
    pub fn halted(&self) -> (reason: Option<HaltReason>)
        ensures
            reason == (match self@.phase {
                PhaseView::Halted(why) => Some(why),
                _ => None,
            }),
    {
        match self.phase {
            Phase::Halted(why) => Some(why),
            _ => None,
        }
    }

    fn stop(timing: Timing, interval_ms: u64, counter: u64, reason: HaltReason) -> (next: (
        Scheduler,
        Request,
    ))
        ensures
            next.0@ == (Model { timing, interval_ms, counter, phase: PhaseView::Halted(reason) }),
            next.1@ == RequestView::Halt(reason),
    {
        Self::enter(timing, interval_ms, counter, Phase::Halted(reason), Request::Halt(reason))
    }

    fn enter(timing: Timing, interval_ms: u64, counter: u64, phase: Phase, request: Request) -> (next: (
        Scheduler,
        Request,
    ))
        ensures
            next.0@ == (Model { timing, interval_ms, counter, phase: phase@ }),
            next.1 == request,
    {
        (Scheduler { timing, interval_ms, counter, phase }, request)
    }

    fn open_cycle(timing: Timing, interval_ms: u64, counter: u64) -> (next: (Scheduler, Request))
        ensures
            forall|phase: PhaseView|
                (next.0@, next.1@) == #[trigger] model::open_cycle(
                    Model { timing, interval_ms, counter, phase },
                ),
    {
        match timing {
            Timing::FixedDelay => Self::enter(
                timing,
                interval_ms,
                counter,
                Phase::Gate(None),
                Request::PollGate,
            ),
            Timing::Precise => Self::enter(
                timing,
                interval_ms,
                counter,
                Phase::TopClock,
                Request::ReadClock,
            ),
        }
    }

    fn file(timing: Timing, interval_ms: u64, counter: u64, record: Record) -> (next: (
        Scheduler,
        Request,
    ))
        ensures
            forall|phase: PhaseView|
                (next.0@, next.1@) == #[trigger] model::file(
                    Model { timing, interval_ms, counter, phase },
                    record@,
                ),
    {
        let phase = Phase::Persisting(
            Cycle { id: record.id, start: record.start_time },
            record.diff,
            record.exit_code,
        );
        Self::enter(timing, interval_ms, counter, phase, Request::Persist(record))
    }

    /// Takes the host's answer to the last request and says what to do next.
    ///
    /// Store failures stop the scheduler, and so does an answer that does
    /// not fit the request; a failed run or an unheard event never does.
    pub fn step(self, reply: Reply) -> (next: (Scheduler, Request))
        ensures
            (next.0@, next.1@) == model::step(self@, reply@),
    {
        let Scheduler { timing, interval_ms, counter, phase } = self;
        let unexpected = HaltReason::UnexpectedReply;
        let failure = HaltReason::StoreFailure;
        match phase {
            Phase::Seeding => match reply {
                Reply::LatestId(Some(latest)) => {
                    if latest.0 == u64::MAX {
                        Self::stop(timing, interval_ms, counter, HaltReason::IdentifiersExhausted)
                    } else {
                        Self::open_cycle(timing, interval_ms, latest.0 + 1)
                    }
                },
                Reply::LatestId(None) => Self::open_cycle(timing, interval_ms, 0),
                Reply::StoreFailed => Self::stop(timing, interval_ms, counter, failure),
                _ => Self::stop(timing, interval_ms, counter, unexpected),
            },
            Phase::TopClock => match reply {
                Reply::Clock(now) => Self::enter(
                    timing,
                    interval_ms,
                    counter,
                    Phase::Gate(Some(now)),
                    Request::PollGate,
                ),
                _ => Self::stop(timing, interval_ms, counter, unexpected),
            },
            Phase::Gate(top) => match reply {
                Reply::Gate(true) => Self::enter(
                    timing,
                    interval_ms,
                    counter,
                    Phase::Suspended,
                    Request::Sleep(POLL_TICK_NANOS),
                ),
                Reply::Gate(false) => {
                    if counter == u64::MAX {
                        Self::stop(timing, interval_ms, counter, HaltReason::IdentifiersExhausted)
                    } else {
                        let id = ExecutionId(counter + 1);
                        match top {
                            Some(start) => Self::enter(
                                timing,
                                interval_ms,
                                id.0,
                                Phase::Announcing(Cycle { id, start }),
                                Request::Notify(Action::StartExecution(id, start)),
                            ),
                            None => Self::enter(
                                timing,
                                interval_ms,
                                id.0,
                                Phase::StartClock(id),
                                Request::ReadClock,
                            ),
                        }
                    }
                },
                _ => Self::stop(timing, interval_ms, counter, unexpected),
            },
            Phase::Suspended => match reply {
                Reply::Woke => Self::open_cycle(timing, interval_ms, counter),
                _ => Self::stop(timing, interval_ms, counter, unexpected),
            },
            Phase::StartClock(id) => match reply {
                Reply::Clock(now) => Self::enter(
                    timing,
                    interval_ms,
                    counter,
                    Phase::Announcing(Cycle { id, start: now }),
                    Request::Notify(Action::StartExecution(id, now)),
                ),
                _ => Self::stop(timing, interval_ms, counter, unexpected),
            },
            Phase::Announcing(cycle) => match reply {
                Reply::Delivered(_) => Self::enter(
                    timing,
                    interval_ms,
                    counter,
                    Phase::Executing(cycle),
                    Request::Execute,
                ),
                _ => Self::stop(timing, interval_ms, counter, unexpected),
            },
            Phase::Executing(cycle) => match reply {
                Reply::Executed(output) => Self::enter(
                    timing,
                    interval_ms,
                    counter,
                    Phase::EndClock(cycle, output),
                    Request::ReadClock,
                ),
                Reply::ExecutionFailed(message) => {
                    let output = Output {
                        stdout: Vec::new(),
                        stderr: message.as_str().as_bytes_vec(),
                        exit_code: 1,
                    };
                    Self::enter(
                        timing,
                        interval_ms,
                        counter,
                        Phase::EndClock(cycle, output),
                        Request::ReadClock,
                    )
                },
                _ => Self::stop(timing, interval_ms, counter, unexpected),
            },
            Phase::EndClock(cycle, output) => match reply {
                Reply::Clock(now) => Self::enter(
                    timing,
                    interval_ms,
                    counter,
                    Phase::Lookup(cycle, now, output),
                    Request::LatestId,
                ),
                _ => Self::stop(timing, interval_ms, counter, unexpected),
            },
            Phase::Lookup(cycle, end, output) => match reply {
                Reply::LatestId(Some(latest)) => Self::enter(
                    timing,
                    interval_ms,
                    counter,
                    Phase::Loading(cycle, end, output, latest),
                    Request::LoadRecord(latest),
                ),
                Reply::LatestId(None) => Self::file(
                    timing,
                    interval_ms,
                    counter,
                    compose(cycle, end, output, None, None),
                ),
                Reply::StoreFailed => Self::stop(timing, interval_ms, counter, failure),
                _ => Self::stop(timing, interval_ms, counter, unexpected),
            },
            Phase::Loading(cycle, end, output, latest) => match reply {
                Reply::Loaded(Some(previous)) => {
                    let counts = output_diff(previous.stdout.as_slice(), output.stdout.as_slice());
                    let record = compose(cycle, end, output, Some(latest), Some(counts));
                    if counts.0 != 0 || counts.1 != 0 {
                        Self::enter(
                            timing,
                            interval_ms,
                            counter,
                            Phase::Flagging(record),
                            Request::Notify(Action::DiffDetected),
                        )
                    } else {
                        Self::file(timing, interval_ms, counter, record)
                    }
                },
                Reply::Loaded(None) => Self::file(
                    timing,
                    interval_ms,
                    counter,
                    compose(cycle, end, output, Some(latest), None),
                ),
                Reply::StoreFailed => Self::stop(timing, interval_ms, counter, failure),
                _ => Self::stop(timing, interval_ms, counter, unexpected),
            },
            Phase::Flagging(record) => match reply {
                Reply::Delivered(_) => Self::file(timing, interval_ms, counter, record),
                _ => Self::stop(timing, interval_ms, counter, unexpected),
            },
            Phase::Persisting(cycle, diff, exit_code) => match reply {
                Reply::Stored => Self::enter(
                    timing,
                    interval_ms,
                    counter,
                    Phase::Finishing(cycle),
                    Request::Notify(Action::FinishExecution(cycle.id, cycle.start, diff, exit_code)),
                ),
                Reply::StoreFailed => Self::stop(timing, interval_ms, counter, failure),
                _ => Self::stop(timing, interval_ms, counter, unexpected),
            },
            Phase::Finishing(cycle) => match reply {
                Reply::Delivered(_) => match timing {
                    Timing::FixedDelay => Self::enter(
                        timing,
                        interval_ms,
                        counter,
                        Phase::Reconfiguring(None),
                        Request::LoadConfig,
                    ),
                    Timing::Precise => Self::enter(
                        timing,
                        interval_ms,
                        counter,
                        Phase::ElapsedClock(cycle),
                        Request::ReadClock,
                    ),
                },
                _ => Self::stop(timing, interval_ms, counter, unexpected),
            },
            Phase::ElapsedClock(cycle) => match reply {
                Reply::Clock(now) => Self::enter(
                    timing,
                    interval_ms,
                    counter,
                    Phase::Reconfiguring(Some(elapsed_between(cycle.start, now))),
                    Request::LoadConfig,
                ),
                _ => Self::stop(timing, interval_ms, counter, unexpected),
            },
            Phase::Reconfiguring(elapsed) => match reply {
                Reply::Config(live) => {
                    let interval = effective_interval(live, interval_ms);
                    match elapsed {
                        None => Self::enter(
                            timing,
                            interval_ms,
                            counter,
                            Phase::Sleeping,
                            Request::Sleep(fixed_pause(interval)),
                        ),
                        Some(spent) => {
                            let pause = precise_pause(interval, spent);
                            if pause > 0 {
                                Self::enter(
                                    timing,
                                    interval_ms,
                                    counter,
                                    Phase::Sleeping,
                                    Request::Sleep(pause),
                                )
                            } else {
                                Self::open_cycle(timing, interval_ms, counter)
                            }
                        },
                    }
                },
                Reply::StoreFailed => Self::stop(timing, interval_ms, counter, failure),
                _ => Self::stop(timing, interval_ms, counter, unexpected),
            },
            Phase::Sleeping => match reply {
                Reply::Woke => Self::open_cycle(timing, interval_ms, counter),
                _ => Self::stop(timing, interval_ms, counter, unexpected),
            },
            Phase::Halted(reason) => Self::stop(timing, interval_ms, counter, reason),
        }
    }
}

/// Puts the record of a cycle together.
pub fn compose(
    cycle: Cycle,
    end: Timestamp,
    output: Output,
    previous_id: Option<ExecutionId>,
    diff: Option<(u64, u64)>,
) -> (record: Record)
    ensures
        record@ == model::compose(cycle, end, output@, previous_id, diff_view(diff)),
        record.id == cycle.id,
        record.diff == diff,
        record.previous_id == previous_id,
{
    Record {
        id: cycle.id,
        start_time: cycle.start,
        end_time: end,
        stdout: output.stdout,
        stderr: output.stderr,
        exit_code: output.exit_code,
        diff,
        previous_id,
    }
}

} // verus!
