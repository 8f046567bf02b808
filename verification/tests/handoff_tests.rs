use framepacer::frame::GeneratedFrame;
use framepacer::pacer::{pace_step, Pacer};
use framepacer::server::{handle_request, Status};

fn frame_timestamp(body: &[u8]) -> u64 {
    let value: serde_cbor::Value = serde_cbor::from_slice(body).unwrap();
    let map = match value {
        serde_cbor::Value::Map(m) => m,
        other => panic!("expected a map, got {:?}", other),
    };
    match map.get(&serde_cbor::Value::Text("timestamp".to_string())) {
        Some(serde_cbor::Value::Integer(v)) => *v as u64,
        other => panic!("bad timestamp entry {:?}", other),
    }
}

#[test]
fn live_rendezvous_delivers_increasing_subsequence_then_stops() {
    // a real producer on its own thread, producing as fast as it can: each
    // offer succeeds only when the consumer is blocked in a receive, all
    // other frames are dropped. The two delivered timestamps must be
    // strictly increasing and a whole number of intervals apart; once the
    // consumer drops its end, the producer stops, which is what lets the
    // scope join at all.
    let interval: u64 = 5;
    let (tx, rx) = crossbeam_channel::bounded::<GeneratedFrame>(0);
    let landing: &[u8] = b"landing";
    let (r1, r2) = crossbeam_utils::thread::scope(|s| {
        s.spawn(move |_| {
            let mut pacer = Pacer::new(0, interval);
            while pacer.is_running() {
                let ts = pacer.next_timestamp();
                if ts > u64::MAX - interval {
                    break;
                }
                let frame = GeneratedFrame::new(ts, 1, 1, vec![0, 0, 0]).unwrap();
                pace_step(&mut pacer, &tx, frame);
            }
        });
        let r1 = handle_request(&rx, "/frames", landing);
        let r2 = handle_request(&rx, "/frames", landing);
        drop(rx);
        (r1, r2)
    })
    .unwrap();

    assert_eq!(r1.status, Status::Success);
    assert_eq!(r2.status, Status::Success);
    let t1 = frame_timestamp(&r1.body);
    let t2 = frame_timestamp(&r2.body);
    assert!(t2 > t1, "delivery must preserve production order: {} then {}", t1, t2);
    assert_eq!(t1 % interval, 0);
    assert_eq!((t2 - t1) % interval, 0);
}
