use watch_cycle::config::RuntimeConfig;
use watch_cycle::protocol::{HaltReason, Reply, Request};
use watch_cycle::record::{Action, ExecutionId, Output, Record, Timestamp};
use watch_cycle::scheduler::Scheduler;
use watch_cycle::timing::Timing;

/// A host made of plain values: a store in memory, a clock that advances by
/// one second per reading, a script of gate readings and of command outputs.
struct Host {
    store: Vec<Record>,
    live_interval: Option<u64>,
    clock: i64,
    gate: Vec<bool>,
    outputs: Vec<String>,
    events: Vec<Action>,
    sleeps: Vec<u128>,
    requests: Vec<String>,
    stopped: Option<HaltReason>,
}

fn host(store: Vec<Record>, gate: Vec<bool>, outputs: Vec<&str>) -> Host {
    Host {
        store,
        live_interval: None,
        clock: 1000,
        gate,
        outputs: outputs.into_iter().map(|text| text.to_string()).collect(),
        events: Vec::new(),
        sleeps: Vec::new(),
        requests: Vec::new(),
        stopped: None,
    }
}

/// Carries out one request. `None` means that the script has run out.
fn answer(host: &mut Host, request: Request) -> Option<Reply> {
    host.requests.push(format!("{:?}", request));
    match request {
        Request::LatestId => Some(Reply::LatestId(host.store.last().map(|record| record.id))),
        Request::ReadClock => {
            host.clock += 1;
            Some(Reply::Clock(Timestamp { secs: host.clock, nanos: 0 }))
        }
        Request::PollGate => {
            if host.gate.is_empty() {
                None
            } else {
                Some(Reply::Gate(host.gate.remove(0)))
            }
        }
        Request::Sleep(nanos) => {
            host.sleeps.push(nanos);
            Some(Reply::Woke)
        }
        Request::Notify(action) => {
            host.events.push(action);
            Some(Reply::Delivered(true))
        }
        Request::Execute => {
            if host.outputs.is_empty() {
                Some(Reply::ExecutionFailed("nothing to run".to_string()))
            } else {
                let text = host.outputs.remove(0);
                Some(Reply::Executed(Output {
                    stdout: text.into_bytes(),
                    stderr: Vec::new(),
                    exit_code: 0,
                }))
            }
        }
        Request::LoadRecord(id) => {
            Some(Reply::Loaded(host.store.iter().find(|record| record.id == id).cloned()))
        }
        Request::Persist(record) => {
            host.store.push(record);
            Some(Reply::Stored)
        }
        Request::LoadConfig => Some(Reply::Config(host.live_interval)),
        Request::Halt(reason) => {
            host.stopped = Some(reason);
            None
        }
    }
}

/// Runs a scheduler against the host until the host's script runs out.
fn play(timing: Timing, interval_ms: u64, host: &mut Host) {
    let config = RuntimeConfig { command: vec!["cmd".to_string()], shell: None, interval_ms };
    let (mut scheduler, mut request) = Scheduler::start(&config, timing);
    while let Some(reply) = answer(host, request) {
        let next = scheduler.step(reply);
        scheduler = next.0;
        request = next.1;
    }
}

fn earlier(id: u64, text: &str) -> Record {
    Record {
        id: ExecutionId(id),
        start_time: Timestamp { secs: 1, nanos: 0 },
        end_time: Timestamp { secs: 2, nanos: 0 },
        stdout: text.as_bytes().to_vec(),
        stderr: Vec::new(),
        exit_code: 0,
        diff: None,
        previous_id: None,
    }
}

fn ids(store: &[Record]) -> Vec<u64> {
    store.iter().map(|record| record.id.0).collect()
}

#[test]
fn identifiers_count_up_from_one_beside_an_empty_store() {
    for timing in [Timing::FixedDelay, Timing::Precise] {
        let mut h = host(Vec::new(), vec![false, false, false, false], vec!["a", "b", "c", "d"]);
        play(timing, 2000, &mut h);
        assert_eq!(ids(&h.store), vec![1, 2, 3, 4]);
    }
}

#[test]
fn identifiers_continue_past_the_seed_of_an_existing_store() {
    for timing in [Timing::FixedDelay, Timing::Precise] {
        let mut h = host(vec![earlier(41, "old")], vec![false, false, false], vec!["a", "b", "c"]);
        play(timing, 2000, &mut h);
        // The counter is seeded with 42; the first cycle gets the one after.
        assert_eq!(ids(&h.store), vec![41, 43, 44, 45]);
    }
}

#[test]
fn suspension_spends_no_identifier() {
    for timing in [Timing::FixedDelay, Timing::Precise] {
        let gate = vec![true, true, false, true, false, false, true, true, true];
        let mut h = host(Vec::new(), gate, vec!["a", "b", "c"]);
        play(timing, 2000, &mut h);
        assert_eq!(ids(&h.store), vec![1, 2, 3]);
        let ticks = h.sleeps.iter().filter(|nanos| **nanos == 1_000_000_000).count();
        assert_eq!(ticks, 6);
    }
}

#[test]
fn nothing_happens_while_the_gate_stays_closed() {
    for timing in [Timing::FixedDelay, Timing::Precise] {
        let mut h = host(vec![earlier(7, "old")], vec![true, true, true, true], vec!["a"]);
        play(timing, 2000, &mut h);
        assert_eq!(ids(&h.store), vec![7]);
        assert_eq!(h.events, Vec::new());
        assert_eq!(h.sleeps, vec![1_000_000_000; 4]);
        assert_eq!(h.outputs.len(), 1);
        assert!(h.requests.iter().all(|r| r == "LatestId"
            || r == "PollGate"
            || r == "ReadClock"
            || r == "Sleep(1000000000)"));
        assert_eq!(h.requests.iter().filter(|r| *r == "LatestId").count(), 1);
    }
}

#[test]
fn every_record_points_at_its_predecessor() {
    for timing in [Timing::FixedDelay, Timing::Precise] {
        let mut h =
            host(vec![earlier(9, "abc")], vec![false, false, false], vec!["abcd", "bcd", "bcd"]);
        play(timing, 2000, &mut h);
        let store = &h.store;
        assert_eq!(store.len(), 4);
        for i in 1..store.len() {
            assert_eq!(store[i].previous_id, Some(store[i - 1].id));
            assert!(store[i - 1].id.0 < store[i].id.0);
        }
        // "abc" -> "abcd" -> "bcd" -> "bcd"
        assert_eq!(store[1].diff, Some((1, 0)));
        assert_eq!(store[2].diff, Some((0, 1)));
        assert_eq!(store[3].diff, Some((0, 0)));
    }
}

#[test]
fn the_first_record_of_an_empty_store_points_nowhere() {
    let mut h = host(Vec::new(), vec![false, false], vec!["a", "ab"]);
    play(Timing::FixedDelay, 2000, &mut h);
    assert_eq!(h.store[0].previous_id, None);
    assert_eq!(h.store[0].diff, None);
    assert_eq!(h.store[1].previous_id, Some(ExecutionId(1)));
    assert_eq!(h.store[1].diff, Some((1, 0)));
}

#[test]
fn events_of_a_cycle_come_in_order() {
    for timing in [Timing::FixedDelay, Timing::Precise] {
        let mut h = host(Vec::new(), vec![false, true, false, false], vec!["a", "b", "b"]);
        play(timing, 2000, &mut h);
        let kinds: Vec<String> = h
            .events
            .iter()
            .map(|event| match event {
                Action::StartExecution(id, _) => format!("start {}", id.0),
                Action::DiffDetected => "diff".to_string(),
                Action::FinishExecution(id, _, diff, code) => {
                    format!("finish {} {:?} {}", id.0, diff, code)
                }
            })
            .collect();
        assert_eq!(
            kinds,
            vec![
                "start 1",
                "finish 1 None 0",
                "start 2",
                "diff",
                "finish 2 Some((1, 1)) 0",
                "start 3",
                "finish 3 Some((0, 0)) 0",
            ]
        );
        // Start and finish of a cycle carry the same start time.
        match (h.events[0], h.events[1]) {
            (Action::StartExecution(_, begun), Action::FinishExecution(_, told, _, _)) => {
                assert_eq!(begun, told)
            }
            other => panic!("unexpected events {:?}", other),
        }
    }
}

#[test]
fn a_changed_interval_is_used_by_the_next_pause() {
    let config = RuntimeConfig { command: vec!["cmd".to_string()], shell: None, interval_ms: 2000 };
    let mut h = host(Vec::new(), vec![false, false, false], vec!["a", "b", "c"]);
    let (mut scheduler, mut request) = Scheduler::start(&config, Timing::FixedDelay);
    let mut cycles = 0;
    loop {
        if let Request::LoadConfig = request {
            cycles += 1;
            // Somebody changes the interval between the first and the second cycle.
            if cycles == 2 {
                h.live_interval = Some(300);
            }
        }
        match answer(&mut h, request) {
            Some(reply) => {
                let next = scheduler.step(reply);
                scheduler = next.0;
                request = next.1;
            }
            None => break,
        }
    }
    assert_eq!(h.sleeps, vec![2_000_000_000, 300_000_000, 300_000_000]);
}

#[test]
fn precise_pauses_are_the_rest_of_the_interval() {
    // The clock of this host advances one second per reading. A precise
    // cycle reads it at the top, after the run and after the finish event:
    // two seconds have passed when the pause is chosen.
    let mut h = host(Vec::new(), vec![false, false], vec!["a", "b"]);
    play(Timing::Precise, 5000, &mut h);
    assert_eq!(h.sleeps, vec![3_000_000_000, 3_000_000_000]);
    let mut h = host(Vec::new(), vec![false, false], vec!["a", "b"]);
    play(Timing::Precise, 1500, &mut h);
    assert_eq!(h.sleeps, Vec::<u128>::new());
    assert_eq!(ids(&h.store), vec![1, 2]);
}

#[test]
fn a_run_that_fails_is_history_like_any_other() {
    let mut h = host(Vec::new(), vec![false, false], vec!["fine"]);
    play(Timing::FixedDelay, 2000, &mut h);
    assert_eq!(ids(&h.store), vec![1, 2]);
    assert_eq!(h.store[1].exit_code, 1);
    assert_eq!(h.store[1].stdout, Vec::<u8>::new());
    assert_eq!(h.store[1].stderr, b"nothing to run".to_vec());
    assert_eq!(h.store[1].diff, Some((0, 4)));
    assert_eq!(h.stopped, None);
}
