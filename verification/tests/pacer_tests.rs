use framepacer::frame::{blank_frame, GeneratedFrame};
use framepacer::pacer::{pace_step, Pacer};
use framepacer::INTERVAL_MS;

fn frame_for(ts: u64, width: u32, height: u32) -> GeneratedFrame {
    let data = blank_frame(width, height);
    GeneratedFrame::new(ts, width, height, data).unwrap()
}

#[test]
fn first_target_is_one_interval_after_start() {
    let pacer = Pacer::new(1000, 33);
    assert_eq!(pacer.next_timestamp(), 1033);
    assert!(pacer.is_running());
}

#[test]
fn default_interval_is_thirty_fps() {
    assert_eq!(INTERVAL_MS, 33);
}

#[test]
fn cadence_advances_by_exactly_one_interval() {
    // nobody ever receives: every offer is dropped, yet the cadence is
    // unaffected — one interval per iteration, no drift, no skipping
    let (tx, rx) = crossbeam_channel::bounded::<GeneratedFrame>(0);
    let mut pacer = Pacer::new(500, 33);
    let mut targets: Vec<u64> = Vec::new();
    for _ in 0..5 {
        let ts = pacer.next_timestamp();
        targets.push(ts);
        let stopped = pace_step(&mut pacer, &tx, frame_for(ts, 2, 2));
        assert!(!stopped);
    }
    assert_eq!(targets, vec![533, 566, 599, 632, 665]);
    for w in targets.windows(2) {
        assert_eq!(w[1] - w[0], 33);
    }
    drop(rx);
}

#[test]
fn four_requests_scenario_timestamps() {
    // interval 33, start t0: the first four produced frames carry exactly
    // t0+33, t0+66, t0+99, t0+132, each with a full pixel buffer
    let t0: u64 = 10_000;
    let (tx, rx) = crossbeam_channel::bounded::<GeneratedFrame>(0);
    let mut pacer = Pacer::new(t0, 33);
    let mut seen: Vec<u64> = Vec::new();
    for _ in 0..4 {
        let ts = pacer.next_timestamp();
        let frame = frame_for(ts, 4, 3);
        assert_eq!(frame.data.len(), 4 * 3 * 3);
        seen.push(frame.timestamp);
        pace_step(&mut pacer, &tx, frame);
    }
    assert_eq!(seen, vec![t0 + 33, t0 + 66, t0 + 99, t0 + 132]);
    drop(rx);
}

#[test]
fn disconnected_consumer_stops_the_pacer() {
    let (tx, rx) = crossbeam_channel::bounded::<GeneratedFrame>(0);
    drop(rx);
    let mut pacer = Pacer::new(1000, 33);
    let ts = pacer.next_timestamp();
    let stopped = pace_step(&mut pacer, &tx, frame_for(ts, 2, 2));
    assert!(stopped);
    assert!(!pacer.is_running());
    // the cursor did not move: no further work was done
    assert_eq!(pacer.next_timestamp(), 1033);
}

#[test]
fn sleep_is_remaining_time_or_zero() {
    let pacer = Pacer::new(1000, 33);
    assert_eq!(pacer.sleep_millis(1000), 33);
    assert_eq!(pacer.sleep_millis(1020), 13);
    assert_eq!(pacer.sleep_millis(1033), 0);
    // rendering overran the interval: proceed at once, do not skip ahead
    assert_eq!(pacer.sleep_millis(2000), 0);
}

#[test]
fn blank_frame_is_cleared_to_background() {
    let data = blank_frame(3, 2);
    assert_eq!(data.len(), 3 * 2 * 3);
    assert!(data.iter().all(|&b| b == 255));
}

#[test]
fn frame_rejects_wrong_buffer_length() {
    assert!(GeneratedFrame::new(1, 2, 2, vec![0u8; 12]).is_some());
    assert!(GeneratedFrame::new(1, 2, 2, vec![0u8; 11]).is_none());
    assert!(GeneratedFrame::new(1, 2, 2, vec![0u8; 0]).is_none());
}
