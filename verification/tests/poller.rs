use cursor_poller::config::{PollConfig, DEFAULT_INTERVAL_MS};
use cursor_poller::controller::{control_mouse_poller, ControlStatus, PollerController};
use cursor_poller::coord::{l1_distance, MousePos};
use cursor_poller::filter::{moved_enough, poll_filter, window_closed, PollDecision};
use cursor_poller::worker::{
    worker_time, PollWorker, SampleState, WorkerCommand, WorkerEvent, WorkerPhase,
    INITIAL_BACKDATE_MS, POSITION_EVENT,
};

fn pos(x: i32, y: i32) -> MousePos {
    MousePos { x, y }
}

/// Runs a worker over `samples`, one per interval, then cancels it. `sink`
/// tells, for the n-th position sent, whether the sink accepts it. Returns
/// each position sent with the time at which it was sent.
fn drive(
    config: PollConfig,
    samples: &[MousePos],
    sink: &dyn Fn(usize) -> bool,
) -> Vec<(MousePos, u64)> {
    let mut now = INITIAL_BACKDATE_MS;
    let mut worker = PollWorker::new(config, now);
    let mut sent = Vec::new();
    let mut next = 0;
    let mut command = worker.command();
    loop {
        match command {
            WorkerCommand::Sample => {
                let event = if next < samples.len() {
                    next += 1;
                    WorkerEvent::Sampled { cur: samples[next - 1], now_ms: now }
                } else {
                    WorkerEvent::Cancelled
                };
                command = worker.step(event).unwrap();
            }
            WorkerCommand::Emit(p) => {
                let ok = sink(sent.len());
                sent.push((p, now));
                command = worker.step(WorkerEvent::EmitDone { ok, now_ms: now }).unwrap();
            }
            WorkerCommand::Sleep(ms) => {
                now += ms;
                command = worker.step(WorkerEvent::Woke).unwrap();
            }
            WorkerCommand::Exit => break,
        }
    }
    assert!(worker.exited());
    sent
}

fn positions(sent: &[(MousePos, u64)]) -> Vec<MousePos> {
    sent.iter().map(|s| s.0).collect()
}

#[test]
fn l1_distance_is_sum_of_absolute_differences() {
    assert_eq!(l1_distance(pos(0, 0), pos(0, 0)), 0);
    assert_eq!(l1_distance(pos(3, -4), pos(-1, 2)), 10);
    assert_eq!(l1_distance(pos(-1, 2), pos(3, -4)), 10);
}

#[test]
fn l1_distance_is_exact_at_the_extremes() {
    let far = l1_distance(pos(i32::MIN, i32::MIN), pos(i32::MAX, i32::MAX));
    assert_eq!(far, 2 * (u32::MAX as u64));
    assert_eq!(l1_distance(pos(i32::MAX, 0), pos(i32::MIN, 0)), u32::MAX as u64);
}

#[test]
fn first_sample_always_counts_as_movement() {
    assert!(moved_enough(None, pos(0, 0), u32::MAX));
    assert!(moved_enough(None, pos(7, 7), 0));
}

#[test]
fn movement_is_measured_against_the_threshold() {
    assert!(!moved_enough(Some(pos(0, 0)), pos(2, 2), 5));
    assert!(moved_enough(Some(pos(0, 0)), pos(2, 3), 5));
    assert!(moved_enough(Some(pos(0, 0)), pos(0, 0), 0));
    assert!(!moved_enough(Some(pos(0, 0)), pos(0, 0), 1));
}

#[test]
fn window_closes_once_the_throttle_has_elapsed() {
    assert!(!window_closed(149, 100, 50));
    assert!(window_closed(150, 100, 50));
    assert!(window_closed(151, 100, 50));
    assert!(window_closed(100, 100, 0));
}

#[test]
fn window_stays_open_when_the_clock_reads_earlier() {
    assert!(!window_closed(90, 100, 1));
    assert!(window_closed(90, 100, 0));
}

#[test]
fn filter_emits_now_without_throttle() {
    let d = poll_filter(Some(pos(0, 0)), pos(10, 0), None, 1000, 990, 5, 0);
    assert_eq!(d, PollDecision::EmitNow(pos(10, 0)));
    let first = poll_filter(None, pos(0, 0), None, 1000, 0, 5, 0);
    assert_eq!(first, PollDecision::EmitNow(pos(0, 0)));
}

#[test]
fn filter_buffers_inside_the_throttle_window() {
    let d = poll_filter(Some(pos(0, 0)), pos(10, 0), None, 1000, 990, 5, 50);
    assert_eq!(d, PollDecision::BufferPending(pos(10, 0)));
    let over = poll_filter(Some(pos(0, 0)), pos(10, 0), Some(pos(6, 0)), 1000, 990, 5, 50);
    assert_eq!(over, PollDecision::BufferPending(pos(10, 0)));
}

#[test]
fn filter_emits_newest_sample_once_the_window_closed() {
    let d = poll_filter(Some(pos(0, 0)), pos(10, 0), Some(pos(6, 0)), 1040, 990, 5, 50);
    assert_eq!(d, PollDecision::EmitPending(pos(10, 0)));
}

#[test]
fn filter_emits_stale_pending_without_new_movement() {
    let d = poll_filter(Some(pos(0, 0)), pos(1, 0), Some(pos(6, 0)), 1040, 990, 5, 50);
    assert_eq!(d, PollDecision::EmitPending(pos(6, 0)));
    let early = poll_filter(Some(pos(0, 0)), pos(1, 0), Some(pos(6, 0)), 1039, 990, 5, 50);
    assert_eq!(early, PollDecision::NoAction);
}

#[test]
fn filter_does_nothing_without_movement() {
    let unthrottled = poll_filter(Some(pos(0, 0)), pos(1, 0), None, 1040, 990, 5, 0);
    assert_eq!(unthrottled, PollDecision::NoAction);
    let throttled = poll_filter(Some(pos(0, 0)), pos(1, 0), None, 1040, 990, 5, 50);
    assert_eq!(throttled, PollDecision::NoAction);
    let same = poll_filter(Some(pos(4, 4)), pos(4, 4), None, u64::MAX, 0, 1, 0);
    assert_eq!(same, PollDecision::NoAction);
}

#[test]
fn filter_gives_the_same_answer_for_the_same_inputs() {
    let a = poll_filter(Some(pos(1, 2)), pos(9, 9), Some(pos(3, 3)), 500, 100, 4, 300);
    let b = poll_filter(Some(pos(1, 2)), pos(9, 9), Some(pos(3, 3)), 500, 100, 4, 300);
    assert_eq!(a, b);
    assert_eq!(a, PollDecision::EmitPending(pos(9, 9)));
}

#[test]
fn config_defaults() {
    let c = PollConfig::from_request(None, None, None, None);
    assert_eq!(c.interval_ms, 80);
    assert_eq!(c.interval_ms, DEFAULT_INTERVAL_MS);
    assert_eq!(c.min_move, 0);
    assert_eq!(c.throttle_ms, 0);
    assert_eq!(c.target, None);
    assert!(!c.throttled());
    let d = PollConfig::default();
    assert_eq!(d.interval_ms, 80);
    assert_eq!(d.min_move, 0);
    assert_eq!(d.throttle_ms, 0);
    assert_eq!(d.target, None);
}

#[test]
fn config_takes_the_requested_values() {
    let c = PollConfig::from_request(Some(10), Some(5), Some(50), Some("main".to_string()));
    assert_eq!(c.interval_ms, 10);
    assert_eq!(c.min_move, 5);
    assert_eq!(c.throttle_ms, 50);
    assert_eq!(c.target, Some("main".to_string()));
    assert!(c.throttled());
    let zero = PollConfig::from_request(Some(0), Some(0), Some(0), None);
    assert_eq!(zero.interval_ms, 0);
    assert!(!zero.throttled());
}

#[test]
fn config_treats_negative_threshold_as_none() {
    let c = PollConfig::from_request(None, Some(-3), None, None);
    assert_eq!(c.min_move, 0);
    let low = PollConfig::from_request(None, Some(i32::MIN), None, None);
    assert_eq!(low.min_move, 0);
    let high = PollConfig::from_request(None, Some(i32::MAX), None, None);
    assert_eq!(high.min_move, i32::MAX as u32);
}

#[test]
fn event_name_is_fixed() {
    assert_eq!(POSITION_EVENT, "mouse:position");
}

#[test]
fn new_worker_waits_for_a_sample() {
    let w = PollWorker::new(PollConfig::default(), 4_000_000);
    assert_eq!(w.phase(), WorkerPhase::Sampling);
    assert_eq!(w.command(), WorkerCommand::Sample);
    assert!(!w.exited());
    assert_eq!(w.config().interval_ms, 80);
    assert_eq!(w.start_ms(), 4_000_000);
    assert_eq!(w.state(), SampleState { last_sent: None, pending: None, last_emit_ms: 0 });
}

#[test]
fn unthrottled_threshold_drops_repeated_position() {
    let config = PollConfig::from_request(Some(10), Some(5), Some(0), None);
    let sent = drive(config, &[pos(0, 0), pos(0, 0), pos(10, 0)], &|_| true);
    assert_eq!(positions(&sent), vec![pos(0, 0), pos(10, 0)]);
    assert_eq!(sent[0].1, INITIAL_BACKDATE_MS);
    assert_eq!(sent[1].1, INITIAL_BACKDATE_MS + 20);
}

#[test]
fn throttled_emissions_are_spaced_and_carry_the_newest_sample() {
    let config = PollConfig::from_request(Some(10), Some(0), Some(50), None);
    let samples: Vec<MousePos> = (0..12).map(|i| pos(i, 2 * i)).collect();
    let sent = drive(config, &samples, &|_| true);
    let start = INITIAL_BACKDATE_MS;
    // Samples are taken at start, start + 10, ...; the sample of tick k is (k, 2k).
    assert_eq!(
        sent,
        vec![
            (pos(0, 0), start),
            (pos(5, 10), start + 50),
            (pos(10, 20), start + 100),
            (pos(11, 22), start + 120),
        ]
    );
    for pair in sent[..3].windows(2) {
        assert!(pair[1].1 - pair[0].1 >= 50);
    }
}

#[test]
fn cancelling_flushes_the_pending_position_once() {
    let config = PollConfig::from_request(Some(10), Some(0), Some(1000), None);
    let mut w = PollWorker::new(config, INITIAL_BACKDATE_MS);
    let t = INITIAL_BACKDATE_MS;
    assert_eq!(
        w.step(WorkerEvent::Sampled { cur: pos(1, 1), now_ms: t }),
        Some(WorkerCommand::Emit(pos(1, 1)))
    );
    assert_eq!(
        w.step(WorkerEvent::EmitDone { ok: true, now_ms: t + 1 }),
        Some(WorkerCommand::Sleep(10))
    );
    assert_eq!(w.step(WorkerEvent::Woke), Some(WorkerCommand::Sample));
    assert_eq!(
        w.step(WorkerEvent::Sampled { cur: pos(2, 2), now_ms: t + 10 }),
        Some(WorkerCommand::Sleep(10))
    );
    assert_eq!(w.phase(), WorkerPhase::Buffering);
    assert_eq!(w.state().pending, Some(pos(2, 2)));
    assert_eq!(w.step(WorkerEvent::Woke), Some(WorkerCommand::Sample));
    assert_eq!(w.step(WorkerEvent::Cancelled), Some(WorkerCommand::Emit(pos(2, 2))));
    assert_eq!(w.phase(), WorkerPhase::Flushing { pos: pos(2, 2) });
    assert_eq!(w.state().pending, None);
    assert_eq!(
        w.step(WorkerEvent::EmitDone { ok: true, now_ms: t + 21 }),
        Some(WorkerCommand::Exit)
    );
    assert!(w.exited());
    // Nothing is sent after the flush, whatever arrives.
    assert_eq!(w.step(WorkerEvent::Sampled { cur: pos(9, 9), now_ms: t + 30 }), None);
    assert_eq!(w.step(WorkerEvent::Cancelled), None);
    assert_eq!(w.step(WorkerEvent::Woke), None);
    assert_eq!(w.step(WorkerEvent::EmitDone { ok: true, now_ms: t + 40 }), None);
    assert_eq!(w.command(), WorkerCommand::Exit);
}

#[test]
fn cancelling_with_nothing_pending_exits_at_once() {
    let mut w = PollWorker::new(PollConfig::default(), INITIAL_BACKDATE_MS);
    assert_eq!(w.step(WorkerEvent::Cancelled), Some(WorkerCommand::Exit));
    assert!(w.exited());
    let sent = drive(PollConfig::default(), &[], &|_| true);
    assert!(sent.is_empty());
}

#[test]
fn stale_pending_is_delivered_when_the_window_closes() {
    let config = PollConfig::from_request(Some(10), Some(5), Some(30), None);
    // First sample goes out; (6, 0) is buffered; the cursor then rests at
    // (2, 0), close to both, and the buffered position goes out when the
    // window closes.
    let samples = [pos(0, 0), pos(6, 0), pos(2, 0), pos(2, 0), pos(2, 0)];
    let sent = drive(config, &samples, &|_| true);
    let start = INITIAL_BACKDATE_MS;
    assert_eq!(sent, vec![(pos(0, 0), start), (pos(6, 0), start + 30)]);
}

#[test]
fn failed_delivery_leaves_no_trace() {
    let config = PollConfig::from_request(Some(10), Some(5), Some(0), None);
    let mut w = PollWorker::new(config, INITIAL_BACKDATE_MS);
    let before = w.state();
    let t = INITIAL_BACKDATE_MS;
    assert_eq!(
        w.step(WorkerEvent::Sampled { cur: pos(3, 3), now_ms: t }),
        Some(WorkerCommand::Emit(pos(3, 3)))
    );
    assert_eq!(
        w.phase(),
        WorkerPhase::Emitting { pos: pos(3, 3), decided_ms: t, immediate: true }
    );
    assert_eq!(
        w.step(WorkerEvent::EmitDone { ok: false, now_ms: t + 2 }),
        Some(WorkerCommand::Sleep(10))
    );
    assert_eq!(w.state(), before);
    assert_eq!(w.phase(), WorkerPhase::Idle);
    // The same position is tried again on the next tick.
    assert_eq!(w.step(WorkerEvent::Woke), Some(WorkerCommand::Sample));
    assert_eq!(
        w.step(WorkerEvent::Sampled { cur: pos(3, 3), now_ms: t + 10 }),
        Some(WorkerCommand::Emit(pos(3, 3)))
    );
}

#[test]
fn failed_throttled_delivery_drops_the_pending_position() {
    let config = PollConfig::from_request(Some(10), Some(0), Some(50), None);
    let sent = drive(config, &[pos(1, 1)], &|_| false);
    // The one attempt failed; the pending position was handed over with it,
    // so nothing is left to flush.
    assert_eq!(positions(&sent), vec![pos(1, 1)]);
}

#[test]
fn successful_delivery_is_remembered() {
    let t = INITIAL_BACKDATE_MS;
    let immediate = PollConfig::from_request(Some(10), Some(0), Some(0), None);
    let mut w = PollWorker::new(immediate, t);
    w.step(WorkerEvent::Sampled { cur: pos(3, 3), now_ms: t + 5 });
    w.step(WorkerEvent::EmitDone { ok: true, now_ms: t + 9 });
    assert_eq!(
        w.state(),
        SampleState { last_sent: Some(pos(3, 3)), pending: None, last_emit_ms: t + 5 }
    );
    let throttled = PollConfig::from_request(Some(10), Some(0), Some(50), None);
    let mut w = PollWorker::new(throttled, t);
    w.step(WorkerEvent::Sampled { cur: pos(3, 3), now_ms: t + 5 });
    assert_eq!(
        w.phase(),
        WorkerPhase::Emitting { pos: pos(3, 3), decided_ms: t + 5, immediate: false }
    );
    w.step(WorkerEvent::EmitDone { ok: true, now_ms: t + 9 });
    assert_eq!(
        w.state(),
        SampleState { last_sent: Some(pos(3, 3)), pending: None, last_emit_ms: t + 9 }
    );
}

#[test]
fn long_throttle_holds_back_the_first_sample() {
    // A throttle longer than the backdate keeps even the first sample waiting.
    let config = PollConfig::from_request(Some(10), Some(0), Some(INITIAL_BACKDATE_MS + 15), None);
    let sent = drive(config, &[pos(1, 1), pos(2, 2), pos(3, 3)], &|_| true);
    let start = INITIAL_BACKDATE_MS;
    assert_eq!(sent, vec![(pos(3, 3), start + 20)]);
}

#[test]
fn unexpected_events_change_nothing() {
    let mut w = PollWorker::new(PollConfig::default(), INITIAL_BACKDATE_MS);
    let before = w.state();
    assert_eq!(w.step(WorkerEvent::Woke), None);
    assert_eq!(w.step(WorkerEvent::EmitDone { ok: true, now_ms: 0 }), None);
    assert_eq!(w.state(), before);
    assert_eq!(w.phase(), WorkerPhase::Sampling);
    w.step(WorkerEvent::Sampled { cur: pos(1, 1), now_ms: INITIAL_BACKDATE_MS });
    let emitting = w.phase();
    assert_eq!(w.step(WorkerEvent::Cancelled), None);
    assert_eq!(w.step(WorkerEvent::Sampled { cur: pos(5, 5), now_ms: 0 }), None);
    assert_eq!(w.phase(), emitting);
}

#[test]
fn deliveries_keep_their_distance() {
    let config = PollConfig::from_request(Some(10), Some(4), Some(20), None);
    let samples: Vec<MousePos> =
        [0, 1, 2, 5, 5, 6, 9, 9, 9, 13, 13, 14, 2, 2].iter().map(|x| pos(*x, 0)).collect();
    let sent = drive(config, &samples, &|_| true);
    assert!(sent.len() >= 3);
    for pair in sent.windows(2) {
        assert!(l1_distance(pair[0].0, pair[1].0) >= 4);
        assert_ne!(pair[0].0, pair[1].0);
    }
}

#[test]
fn status_texts() {
    assert_eq!(ControlStatus::Started.as_str(), "started");
    assert_eq!(ControlStatus::AlreadyRunning.as_str(), "already running");
    assert_eq!(ControlStatus::Stopping.as_str(), "stopping");
    assert_eq!(ControlStatus::NotRunning.as_str(), "not running");
}

#[test]
fn starting_twice_reports_already_running() {
    let mut c: PollerController<u32> = PollerController::new();
    assert!(!c.is_running());
    assert_eq!(c.start(|| 1), ControlStatus::Started);
    assert!(c.is_running());
    assert_eq!(c.start(|| 2), ControlStatus::AlreadyRunning);
    assert!(c.is_running());
    // The one worker is still the first.
    assert_eq!(c.stop(), (ControlStatus::Stopping, Some(1)));
}

#[test]
fn second_start_does_not_spawn() {
    let mut c: PollerController<u32> = PollerController::new();
    let mut spawned = 0;
    c.start(|| {
        spawned += 1;
        7
    });
    c.start(|| {
        spawned += 1;
        8
    });
    assert_eq!(spawned, 1);
}

#[test]
fn stopping_twice_reports_stopping_then_not_running() {
    let mut c: PollerController<u32> = PollerController::new();
    c.start(|| 5);
    assert_eq!(c.stop(), (ControlStatus::Stopping, Some(5)));
    assert!(!c.is_running());
    assert_eq!(c.stop(), (ControlStatus::NotRunning, None));
    assert!(!c.is_running());
}

#[test]
fn stopping_an_idle_poller_is_not_running() {
    let mut c: PollerController<u32> = PollerController::new();
    assert_eq!(c.stop(), (ControlStatus::NotRunning, None));
}

#[test]
fn start_after_stop_spawns_again() {
    let mut c: PollerController<u32> = PollerController::new();
    c.start(|| 1);
    c.stop();
    assert_eq!(c.start(|| 2), ControlStatus::Started);
    assert_eq!(c.stop(), (ControlStatus::Stopping, Some(2)));
}

#[test]
fn control_request_starts_with_the_requested_settings() {
    let mut c: PollerController<PollConfig> = PollerController::new();
    let outcome = control_mouse_poller(
        &mut c,
        true,
        Some(10),
        Some("overlay".to_string()),
        Some(-1),
        None,
        |config| config,
    );
    assert_eq!(outcome.0, ControlStatus::Started);
    assert!(outcome.1.is_none());
    assert!(c.is_running());
    let (status, taken) = control_mouse_poller(&mut c, false, None, None, None, None, |config| config);
    assert_eq!(status, ControlStatus::Stopping);
    let config = taken.unwrap();
    assert_eq!(config.interval_ms, 10);
    assert_eq!(config.min_move, 0);
    assert_eq!(config.throttle_ms, 0);
    assert_eq!(config.target, Some("overlay".to_string()));
    assert!(!c.is_running());
}

#[test]
fn control_request_reports_all_four_statuses() {
    let mut c: PollerController<u8> = PollerController::new();
    let mut spawned = 0;
    let stop = control_mouse_poller(&mut c, false, None, None, None, None, |_| 0);
    assert_eq!(stop.0.as_str(), "not running");
    let first = control_mouse_poller(&mut c, true, None, None, None, None, |_| {
        spawned += 1;
        1
    });
    assert_eq!(first.0.as_str(), "started");
    let second = control_mouse_poller(&mut c, true, None, None, None, None, |_| {
        spawned += 1;
        2
    });
    assert_eq!(second.0.as_str(), "already running");
    assert!(second.1.is_none());
    assert_eq!(spawned, 1);
    let stop = control_mouse_poller(&mut c, false, None, None, None, None, |_| 3);
    assert_eq!(stop.0.as_str(), "stopping");
    assert_eq!(stop.1, Some(1));
    let again = control_mouse_poller(&mut c, false, None, None, None, None, |_| 4);
    assert_eq!(again.0.as_str(), "not running");
    assert_eq!(again.1, None);
}

#[test]
fn first_sample_passes_under_a_throttle_of_up_to_an_hour() {
    for throttle in [0, 1, 50, INITIAL_BACKDATE_MS] {
        for start in [0, 1, 49, INITIAL_BACKDATE_MS, INITIAL_BACKDATE_MS + 77, u64::MAX] {
            let config = PollConfig::from_request(Some(10), Some(3), Some(throttle), None);
            let mut w = PollWorker::new(config, start);
            assert_eq!(
                w.step(WorkerEvent::Sampled { cur: pos(4, 4), now_ms: start }),
                Some(WorkerCommand::Emit(pos(4, 4)))
            );
        }
    }
}

#[test]
fn throttled_session_on_a_young_clock() {
    // The clock reads zero at the start; one sample every 11 ms.
    let config = PollConfig::from_request(Some(10), Some(0), Some(50), None);
    let mut w = PollWorker::new(config, 0);
    let mut sent = Vec::new();
    for (i, now) in [0u64, 11, 22, 33, 44, 55].iter().enumerate() {
        let cur = pos(i as i32, 0);
        match w.step(WorkerEvent::Sampled { cur, now_ms: *now }) {
            Some(WorkerCommand::Emit(p)) => {
                sent.push((p, *now));
                assert_eq!(
                    w.step(WorkerEvent::EmitDone { ok: true, now_ms: *now + 1 }),
                    Some(WorkerCommand::Sleep(10))
                );
            }
            Some(WorkerCommand::Sleep(10)) => {}
            other => panic!("unexpected reply {:?}", other),
        }
        assert_eq!(w.step(WorkerEvent::Woke), Some(WorkerCommand::Sample));
    }
    assert_eq!(sent, vec![(pos(0, 0), 0), (pos(5, 0), 55)]);
    // Nothing is left to flush.
    assert_eq!(w.state().pending, None);
    assert_eq!(w.step(WorkerEvent::Cancelled), Some(WorkerCommand::Exit));
}

#[test]
fn session_does_not_depend_on_the_clock_origin() {
    let samples: Vec<MousePos> = (0..9).map(|i| pos(3 * i, i)).collect();
    let mut runs = Vec::new();
    for start in [0u64, 5, INITIAL_BACKDATE_MS, 1 << 40] {
        let config = PollConfig::from_request(Some(10), Some(2), Some(35), None);
        let mut w = PollWorker::new(config, start);
        let mut now = start;
        let mut sent = Vec::new();
        let mut next = 0;
        let mut command = w.command();
        loop {
            match command {
                WorkerCommand::Sample => {
                    let event = if next < samples.len() {
                        next += 1;
                        WorkerEvent::Sampled { cur: samples[next - 1], now_ms: now }
                    } else {
                        WorkerEvent::Cancelled
                    };
                    command = w.step(event).unwrap();
                }
                WorkerCommand::Emit(p) => {
                    sent.push((p, now - start));
                    command = w.step(WorkerEvent::EmitDone { ok: true, now_ms: now }).unwrap();
                }
                WorkerCommand::Sleep(ms) => {
                    now += ms;
                    command = w.step(WorkerEvent::Woke).unwrap();
                }
                WorkerCommand::Exit => break,
            }
        }
        runs.push(sent);
    }
    assert!(runs[0].len() >= 3);
    assert_eq!(runs[0][0], (pos(0, 0), 0));
    for run in &runs[1..] {
        assert_eq!(run, &runs[0]);
    }
}

#[test]
fn worker_clock_reads_an_hour_at_the_start() {
    assert_eq!(worker_time(0, 0), INITIAL_BACKDATE_MS);
    assert_eq!(worker_time(500, 500), INITIAL_BACKDATE_MS);
    assert_eq!(worker_time(500, 512), INITIAL_BACKDATE_MS + 12);
    assert_eq!(worker_time(INITIAL_BACKDATE_MS, INITIAL_BACKDATE_MS + 7), INITIAL_BACKDATE_MS + 7);
    // A reading from before the start counts as the start.
    assert_eq!(worker_time(500, 400), INITIAL_BACKDATE_MS);
    // The clock stops at the largest time it can show.
    assert_eq!(worker_time(0, u64::MAX), u64::MAX);
    assert_eq!(worker_time(0, u64::MAX - INITIAL_BACKDATE_MS), u64::MAX);
    assert_eq!(worker_time(1, u64::MAX - INITIAL_BACKDATE_MS), u64::MAX - 1);
}

#[test]
fn delivery_is_remembered_on_the_worker_clock() {
    let config = PollConfig::from_request(Some(10), Some(0), Some(50), None);
    let mut w = PollWorker::new(config, 1000);
    w.step(WorkerEvent::Sampled { cur: pos(1, 1), now_ms: 1002 });
    assert_eq!(
        w.phase(),
        WorkerPhase::Emitting { pos: pos(1, 1), decided_ms: 1002, immediate: false }
    );
    w.step(WorkerEvent::EmitDone { ok: true, now_ms: 1004 });
    assert_eq!(
        w.state(),
        SampleState {
            last_sent: Some(pos(1, 1)),
            pending: None,
            last_emit_ms: INITIAL_BACKDATE_MS + 4,
        }
    );
}
