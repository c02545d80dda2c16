use wterm::bridge::{Bridge, Message, Step};
use wterm::heartbeat::{HeartbeatStep, Liveness, CLIENT_TIMEOUT_MS};
use wterm::sim::SimPort;

fn connected_bridge() -> Bridge {
    let mut b = Bridge::new();
    match b.handle(Message::Text(String::from("CONNECT /dev/ttyUSB0 9600"))) {
        Step::OpenPort { .. } => {}
        other => panic!("expected an open request, got {:?}", other),
    }
    b.apply_open_result(Ok(()));
    b
}

#[test]
fn poll_delivers_everything_in_order() {
    let b = connected_bridge();
    let mut port = SimPort::new();
    port.feed(&vec![1, 2, 3]);
    port.feed(&vec![4, 5]);
    let frames = b.poll_serial(&mut port);
    let flat: Vec<u8> = frames.into_iter().flatten().collect();
    assert_eq!(flat, vec![1, 2, 3, 4, 5]);
    assert_eq!(port.available(), 0);
    assert_eq!(port.written, Vec::<u8>::new());
}

#[test]
fn poll_chunks_large_batches_without_loss() {
    let b = connected_bridge();
    let mut port = SimPort::new();
    let big: Vec<u8> = (0..200_000u32).map(|i| (i % 251) as u8).collect();
    port.feed(&big);
    let frames = b.poll_serial(&mut port);
    assert!(frames.len() >= 2);
    let flat: Vec<u8> = frames.into_iter().flatten().collect();
    assert_eq!(flat, big);
    assert_eq!(port.available(), 0);
}

#[test]
fn poll_ignores_a_disconnected_device() {
    let b = Bridge::new();
    let mut port = SimPort::new();
    port.feed(&vec![1, 2, 3]);
    let frames = b.poll_serial(&mut port);
    assert!(frames.is_empty());
    assert_eq!(port.available(), 3);
}

#[test]
fn blob_roundtrip_reaches_the_device_unmodified() {
    let mut b = connected_bridge();
    let payload = vec![0u8, 1, 2, 253, 254, 255];
    let mut port = SimPort::new();
    match b.handle(Message::Binary(payload.clone())) {
        Step::WriteDevice(d) => port.write_all(&d),
        other => panic!("expected a device write, got {:?}", other),
    }
    assert_eq!(port.written, payload);
    assert_eq!(port.available(), 0);
}

#[test]
fn blob_while_disconnected_never_reaches_the_device() {
    let mut b = Bridge::new();
    let mut port = SimPort::new();
    match b.handle(Message::Binary(vec![1, 2, 3])) {
        Step::Respond(r) => assert_eq!(r, "ERROR: Disconnected"),
        Step::WriteDevice(d) => {
            port.write_all(&d);
            panic!("a disconnected bridge asked for a write");
        }
        other => panic!("unexpected step {:?}", other),
    }
    assert_eq!(port.written, Vec::<u8>::new());
}

#[test]
fn heartbeat_closes_only_silent_sessions() {
    let mut live = Liveness::new(1_000);
    assert_eq!(live.check(1_000 + CLIENT_TIMEOUT_MS, CLIENT_TIMEOUT_MS), HeartbeatStep::Ping);
    assert_eq!(
        live.check(1_001 + CLIENT_TIMEOUT_MS, CLIENT_TIMEOUT_MS),
        HeartbeatStep::Close
    );
    live.touch(20_000);
    assert_eq!(live.check(25_000, CLIENT_TIMEOUT_MS), HeartbeatStep::Ping);
    assert_eq!(live.check(31_000, CLIENT_TIMEOUT_MS), HeartbeatStep::Close);
}
