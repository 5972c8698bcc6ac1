use interval_chart::chart::{plot_points, ChartTemplate, CHART_LABEL_AREA, CHART_MARGIN, X_MAX, Y_MAX_MICROS};
use interval_chart::history::{History, SharedHistory};
use interval_chart::recorder::{EventKind, InputEvent, KeyId, Outcome, Recorder};
use interval_chart::schedule::{next_state, RunState, Throttle};
use interval_chart::{BUFFER_SIZE, CANVAS_HEIGHT, CANVAS_WIDTH, FRAME_INTERVAL_MS, FRAME_RATE};

fn moves(times: &[u64]) -> Vec<InputEvent> {
    times
        .iter()
        .map(|&t| InputEvent { kind: EventKind::PointerMove, time: t })
        .collect()
}

#[test]
fn history_starts_empty() {
    let h = History::new();
    assert_eq!(h.len(), 0);
    assert_eq!(h.snapshot(), Vec::<u64>::new());
}

#[test]
fn history_keeps_insertion_order() {
    let mut h = History::new();
    h.push(7);
    h.push(9);
    h.push(3);
    assert_eq!(h.snapshot(), vec![7, 9, 3]);
}

#[test]
fn history_evicts_oldest_at_capacity() {
    let mut h = History::new();
    for i in 0..250u64 {
        h.push(i);
    }
    assert_eq!(h.len(), 250);
    h.push(250);
    assert_eq!(h.len(), 250);
    let s = h.snapshot();
    assert_eq!(s[0], 1);
    assert_eq!(s[249], 250);
}

#[test]
fn history_bulk_keeps_last_250() {
    // Push 10,000 samples: the length is exactly 250 and the contents are the
    // last 250 samples, in order.
    let mut h = History::new();
    for i in 0..10_000u64 {
        h.push(i);
    }
    assert_eq!(h.len(), BUFFER_SIZE);
    let s = h.snapshot();
    assert_eq!(s.len(), 250);
    for (j, &v) in s.iter().enumerate() {
        assert_eq!(v, 9_750 + j as u64);
    }
}

#[test]
fn first_event_only_primes() {
    let mut r = Recorder::new();
    assert_eq!(r.observe(EventKind::PointerMove, 1_000), Outcome::NoSample);
    assert_eq!(r.observe(EventKind::PointerMove, 1_400), Outcome::Sample(400));
}

#[test]
fn monotone_events_yield_differences() {
    // N accepted events with non-decreasing timestamps leave the last
    // min(N - 1, 250) consecutive differences, in order.
    let mut r = Recorder::new();
    let mut h = History::new();
    let evs = moves(&[5, 15, 15, 40, 100]);
    let quit = r.process_all(&mut h, &evs);
    assert!(!quit);
    assert_eq!(h.snapshot(), vec![10, 0, 25, 60]);
}

#[test]
fn many_monotone_events_keep_last_250_differences() {
    let mut r = Recorder::new();
    let mut h = History::new();
    // 1001 events at t = 0, 3, 6, ...: 1000 differences of 3, capped at 250.
    let times: Vec<u64> = (0..1001u64).map(|i| i * 3).collect();
    let quit = r.process_all(&mut h, &moves(&times));
    assert!(!quit);
    let s = h.snapshot();
    assert_eq!(s.len(), 250);
    assert!(s.iter().all(|&d| d == 3));
}

#[test]
fn skew_dropped_and_reference_kept() {
    // A negative delta appends nothing, and the next in-order event is
    // measured from the last accepted timestamp, not from the dropped one.
    let mut r = Recorder::new();
    assert_eq!(r.observe(EventKind::PointerMove, 100), Outcome::NoSample);
    assert_eq!(r.observe(EventKind::PointerMove, 50), Outcome::NoSample);
    assert_eq!(r.observe(EventKind::PointerMove, 130), Outcome::Sample(30));
}

#[test]
fn skew_appends_nothing_to_history() {
    let mut r = Recorder::new();
    let mut h = History::new();
    let evs = moves(&[100, 50, 130]);
    let quit = r.process_all(&mut h, &evs);
    assert!(!quit);
    assert_eq!(h.snapshot(), vec![30]);
}

#[test]
fn quit_key_terminates_unconditionally() {
    let mut r = Recorder::new();
    assert_eq!(r.observe(EventKind::KeyPress(KeyId::Escape), 7), Outcome::Quit);
}

#[test]
fn quit_stops_processing() {
    let mut r = Recorder::new();
    let mut h = History::new();
    let evs = vec![
        InputEvent { kind: EventKind::PointerMove, time: 10 },
        InputEvent { kind: EventKind::PointerMove, time: 30 },
        InputEvent { kind: EventKind::KeyPress(KeyId::Escape), time: 40 },
        InputEvent { kind: EventKind::PointerMove, time: 90 },
    ];
    let quit = r.process_all(&mut h, &evs);
    assert!(quit);
    // The event after the quit key was never processed.
    assert_eq!(h.snapshot(), vec![20]);
}

#[test]
fn other_events_are_ignored() {
    let mut r = Recorder::new();
    let mut h = History::new();
    let evs = vec![
        InputEvent { kind: EventKind::PointerMove, time: 10 },
        InputEvent { kind: EventKind::KeyPress(KeyId::Other), time: 20 },
        InputEvent { kind: EventKind::Other, time: 25 },
        InputEvent { kind: EventKind::PointerMove, time: 35 },
    ];
    let quit = r.process_all(&mut h, &evs);
    assert!(!quit);
    assert_eq!(h.snapshot(), vec![25]);
}

#[test]
fn shared_history_snapshot_never_exceeds_capacity() {
    // Interleaved pushes and snapshots through the lock: no snapshot is ever
    // longer than the capacity, and order is kept.
    let sh = SharedHistory::new();
    for i in 0..600u64 {
        sh.push(i);
        let s = sh.snapshot();
        assert!(s.len() <= BUFFER_SIZE);
        for w in s.windows(2) {
            assert_eq!(w[1], w[0] + 1);
        }
    }
    let s = sh.snapshot();
    assert_eq!(s.len(), 250);
    assert_eq!(s[0], 350);
    assert_eq!(s[249], 599);
}

#[test]
fn throttle_boundary() {
    // A frame is presented only when strictly more than FRAME_INTERVAL_MS
    // milliseconds have passed since the previous presentation.
    assert_eq!(FRAME_INTERVAL_MS, 8);
    let mut t = Throttle::new(100);
    assert!(!t.should_present(100));
    assert!(!t.should_present(108));
    assert!(t.should_present(109));
    assert!(!t.should_present(117));
    assert!(t.should_present(118));
}

#[test]
fn present_rate_is_capped() {
    // Polling every millisecond over a 1000 ms window presents at most
    // FRAME_RATE frames (in fact 111).
    let mut t = Throttle::new(0);
    let mut presented = 0u64;
    for now in 1..=1000u64 {
        if t.should_present(now) {
            presented += 1;
        }
    }
    assert!(presented <= FRAME_RATE);
    assert_eq!(presented, 111);
}

#[test]
fn present_rate_capped_under_fast_polling() {
    // Polling far faster than the clock ticks changes nothing: four polls per
    // millisecond still present at most FRAME_RATE frames per 1000 ms.
    let mut t = Throttle::new(0);
    let mut presented = 0u64;
    for quarter in 1..=4000u64 {
        if t.should_present(quarter / 4) {
            presented += 1;
        }
    }
    assert!(presented <= FRAME_RATE);
}

#[test]
fn injected_sequence_plots_exact_points() {
    // Events at t = 0, 10, 25, 45, 70 ms give plotted samples (microseconds)
    // [10000, 15000, 20000, 25000] at indices [0, 1, 2, 3].
    let mut r = Recorder::new();
    let mut h = History::new();
    let evs = moves(&[0, 10_000, 25_000, 45_000, 70_000]);
    let quit = r.process_all(&mut h, &evs);
    assert!(!quit);
    let pts = plot_points(&h.snapshot());
    assert_eq!(pts, vec![(0, 10_000), (1, 15_000), (2, 20_000), (3, 25_000)]);
}

#[test]
fn plot_points_wraps_index() {
    let samples: Vec<u64> = (0..1200u64).collect();
    let pts = plot_points(&samples);
    assert_eq!(pts.len(), 1200);
    assert_eq!(pts[999], (999, 999));
    assert_eq!(pts[1000], (0, 1000));
    assert_eq!(pts[1199], (199, 1199));
}

#[test]
fn chart_template_fixed_domain() {
    let c = ChartTemplate::new();
    assert_eq!(c.width, CANVAS_WIDTH);
    assert_eq!(c.height, CANVAS_HEIGHT);
    assert_eq!((c.width, c.height), (800, 600));
    assert_eq!(c.x_max, X_MAX);
    assert_eq!(c.y_max_micros, Y_MAX_MICROS);
    assert_eq!((c.x_max, c.y_max_micros), (250, 40_000));
    assert_eq!(c.margin, CHART_MARGIN);
    assert_eq!(c.label_area, CHART_LABEL_AREA);
    assert_eq!((c.margin, c.label_area), (10, 30));
}

#[test]
fn loop_state_transitions() {
    assert_eq!(next_state(RunState::Running, true, false), RunState::Running);
    assert_eq!(next_state(RunState::Running, false, false), RunState::Terminated);
    assert_eq!(next_state(RunState::Running, true, true), RunState::Terminated);
    assert_eq!(next_state(RunState::Terminated, true, false), RunState::Terminated);
}
