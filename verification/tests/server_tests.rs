use framepacer::frame::GeneratedFrame;
use framepacer::server::{frame_response, handle_request, parse_path, RequestPath, Status};

const LANDING: &[u8] = b"<!DOCTYPE html><html><body>frames</body></html>";

fn empty_channel() -> (
    crossbeam_channel::Sender<GeneratedFrame>,
    crossbeam_channel::Receiver<GeneratedFrame>,
) {
    crossbeam_channel::bounded(0)
}

#[test]
fn routes_are_recognised() {
    assert_eq!(parse_path("/"), RequestPath::Root);
    assert_eq!(parse_path("/now"), RequestPath::Now);
    assert_eq!(parse_path("/frames"), RequestPath::Frames);
    assert_eq!(parse_path("/nope"), RequestPath::Unknown);
    assert_eq!(parse_path(""), RequestPath::Unknown);
    assert_eq!(parse_path("/frames/"), RequestPath::Unknown);
    assert_eq!(parse_path("/Now"), RequestPath::Unknown);
}

#[test]
fn non_ascii_paths_are_unknown() {
    assert_eq!(parse_path("/nöw"), RequestPath::Unknown);
    assert_eq!(parse_path("/фреймы"), RequestPath::Unknown);
    assert_eq!(parse_path("/frames\u{200b}"), RequestPath::Unknown);
}

#[test]
fn root_returns_landing_verbatim() {
    let (tx, rx) = empty_channel();
    let resp = handle_request(&rx, "/", LANDING);
    assert_eq!(resp.status, Status::Success);
    assert_eq!(resp.body, LANDING.to_vec());
    drop(tx);
}

#[test]
fn now_returns_one_encoded_integer() {
    let (tx, rx) = empty_channel();
    let resp = handle_request(&rx, "/now", LANDING);
    assert_eq!(resp.status, Status::Success);
    let decoded: u64 = serde_cbor::from_slice(&resp.body).unwrap();
    // a sane clock sits after the epoch by a large margin
    assert!(decoded > 0);
    drop(tx);
}

#[test]
fn unknown_paths_are_not_found_with_empty_body() {
    let (tx, rx) = empty_channel();
    for path in ["/missing", "/frames/latest", "/NOW", "//", "x"] {
        let resp = handle_request(&rx, path, LANDING);
        assert_eq!(resp.status, Status::NotFound);
        assert!(resp.body.is_empty());
    }
    drop(tx);
}

#[test]
fn frames_after_producer_gone_is_server_error() {
    let (tx, rx) = empty_channel();
    drop(tx);
    let resp = handle_request(&rx, "/frames", LANDING);
    assert_eq!(resp.status, Status::ServerError);
    assert!(resp.body.is_empty());
}

#[test]
fn status_codes_match_transport() {
    assert_eq!(Status::Success.code(), 200);
    assert_eq!(Status::NotFound.code(), 404);
    assert_eq!(Status::ServerError.code(), 500);
}

#[test]
fn frame_reply_carries_the_send_time_of_encoding() {
    // the send timestamp is whatever the clock read at encode time — here
    // deliberately distinct from the production timestamp
    let gen = GeneratedFrame::new(1000, 1, 2, vec![0u8; 6]).unwrap();
    let resp = frame_response(gen, 1005);
    assert_eq!(resp.status, Status::Success);
    let value: serde_cbor::Value = serde_cbor::from_slice(&resp.body).unwrap();
    let map = match value {
        serde_cbor::Value::Map(m) => m,
        other => panic!("expected a map, got {:?}", other),
    };
    let key = |s: &str| serde_cbor::Value::Text(s.to_string());
    assert_eq!(
        map.get(&key("timestamp")),
        Some(&serde_cbor::Value::Integer(1000))
    );
    assert_eq!(
        map.get(&key("send_timestamp")),
        Some(&serde_cbor::Value::Integer(1005))
    );
}

#[test]
fn four_frame_replies_scenario() {
    // interval 33 from t0, the consumer always ready: the four replies carry
    // t0+33..t0+132, each send timestamp at or after its frame timestamp,
    // each pixel buffer of exactly width*height*3 bytes
    let t0: u64 = 50_000;
    let width: u32 = 3;
    let height: u32 = 2;
    let mut pacer = framepacer::pacer::Pacer::new(t0, 33);
    let mut got: Vec<(u64, u64, usize)> = Vec::new();
    for _ in 0..4 {
        let ts = pacer.next_timestamp();
        let data = framepacer::frame::blank_frame(width, height);
        let gen = GeneratedFrame::new(ts, width, height, data).unwrap();
        let send_ts = ts + 1;
        let resp = frame_response(gen, send_ts);
        let value: serde_cbor::Value = serde_cbor::from_slice(&resp.body).unwrap();
        let map = match value {
            serde_cbor::Value::Map(m) => m,
            other => panic!("expected a map, got {:?}", other),
        };
        let key = |s: &str| serde_cbor::Value::Text(s.to_string());
        let frame_ts = match map.get(&key("timestamp")) {
            Some(serde_cbor::Value::Integer(v)) => *v as u64,
            other => panic!("bad timestamp entry {:?}", other),
        };
        let sent = match map.get(&key("send_timestamp")) {
            Some(serde_cbor::Value::Integer(v)) => *v as u64,
            other => panic!("bad send_timestamp entry {:?}", other),
        };
        let pixels = match map.get(&key("data")) {
            Some(serde_cbor::Value::Bytes(b)) => b.len(),
            other => panic!("bad data entry {:?}", other),
        };
        got.push((frame_ts, sent, pixels));
        // nobody is receiving here; the cadence must advance regardless
        let (tx, rx) = empty_channel();
        let gen2 = GeneratedFrame::new(
            ts,
            width,
            height,
            framepacer::frame::blank_frame(width, height),
        )
        .unwrap();
        assert!(!framepacer::pacer::pace_step(&mut pacer, &tx, gen2));
        drop(rx);
    }
    let expected: Vec<u64> = vec![t0 + 33, t0 + 66, t0 + 99, t0 + 132];
    for (i, (frame_ts, sent, pixels)) in got.iter().enumerate() {
        assert_eq!(*frame_ts, expected[i]);
        assert!(*sent >= *frame_ts);
        assert_eq!(*pixels, (width * height * 3) as usize);
    }
}
