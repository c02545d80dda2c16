use wterm::bridge::{Bridge, ConnState, Message, PollStep, Step};

fn text(s: &str) -> Message {
    Message::Text(String::from(s))
}

fn respond(b: &mut Bridge, s: &str) -> String {
    match b.handle(text(s)) {
        Step::Respond(r) => r,
        other => panic!("expected a text response, got {:?}", other),
    }
}

#[test]
fn status_starts_down() {
    let mut b = Bridge::new();
    assert_eq!(respond(&mut b, "STATUS"), "OK: DOWN");
    assert!(!b.is_connected());
}

#[test]
fn connect_success_then_status_up() {
    let mut b = Bridge::new();
    match b.handle(text("CONNECT /dev/ttyUSB0 9600")) {
        Step::OpenPort { port, baud } => {
            assert_eq!(port, "/dev/ttyUSB0");
            assert_eq!(baud, 9600);
        }
        other => panic!("expected an open request, got {:?}", other),
    }
    assert_eq!(b.apply_open_result(Ok(())), "OK: UP");
    assert_eq!(respond(&mut b, "STATUS"), "OK: UP");
}

#[test]
fn connect_failure_reports_and_resets() {
    let mut b = Bridge::new();
    assert!(matches!(b.handle(text("CONNECT /dev/ttyUSB0")), Step::OpenPort { .. }));
    assert_eq!(b.apply_open_result(Ok(())), "OK: UP");
    assert!(matches!(b.handle(text("CONNECT /dev/bad")), Step::OpenPort { .. }));
    let resp = b.apply_open_result(Err(String::from("No such file or directory")));
    assert_eq!(resp, "ERROR: No such file or directory");
    assert_eq!(respond(&mut b, "STATUS"), "OK: DOWN");
}

#[test]
fn connect_requires_a_port() {
    let mut b = Bridge::new();
    assert_eq!(respond(&mut b, "CONNECT"), "ERROR: Port is required");
}

#[test]
fn connect_uses_default_baud() {
    let mut b = Bridge::new();
    match b.handle(text("CONNECT /dev/ttyS0")) {
        Step::OpenPort { port, baud } => {
            assert_eq!(port, "/dev/ttyS0");
            assert_eq!(baud, 115200);
        }
        other => panic!("expected an open request, got {:?}", other),
    }
}

#[test]
fn bad_baud_keeps_prior_connection() {
    let mut b = Bridge::new();
    assert!(matches!(b.handle(text("CONNECT /dev/ttyUSB0 9600")), Step::OpenPort { .. }));
    assert_eq!(b.apply_open_result(Ok(())), "OK: UP");
    let resp = respond(&mut b, "CONNECT /dev/ttyUSB0 fast");
    assert_eq!(resp, "ERROR: invalid digit found in string");
    assert_eq!(respond(&mut b, "STATUS"), "OK: UP");
}

#[test]
fn empty_baud_argument_fails_to_parse() {
    let mut b = Bridge::new();
    let resp = respond(&mut b, "CONNECT /dev/ttyUSB0 ");
    assert_eq!(resp, "ERROR: cannot parse integer from empty string");
}

#[test]
fn oversized_baud_overflows() {
    let mut b = Bridge::new();
    let resp = respond(&mut b, "CONNECT /dev/ttyUSB0 99999999999");
    assert_eq!(resp, "ERROR: number too large to fit in target type");
}

#[test]
fn plus_signed_baud_parses() {
    let mut b = Bridge::new();
    match b.handle(text("CONNECT /dev/ttyUSB0 +9600")) {
        Step::OpenPort { baud, .. } => assert_eq!(baud, 9600),
        other => panic!("expected an open request, got {:?}", other),
    }
}

#[test]
fn extra_arguments_are_ignored() {
    let mut b = Bridge::new();
    match b.handle(text("CONNECT /dev/ttyUSB0 9600 trailing junk")) {
        Step::OpenPort { port, baud } => {
            assert_eq!(port, "/dev/ttyUSB0");
            assert_eq!(baud, 9600);
        }
        other => panic!("expected an open request, got {:?}", other),
    }
    assert_eq!(respond(&mut b, "STATUS anything"), "OK: DOWN");
}

#[test]
fn doubled_space_shifts_the_arguments() {
    let mut b = Bridge::new();
    let resp = respond(&mut b, "CONNECT  /dev/ttyUSB0");
    assert_eq!(resp, "ERROR: invalid digit found in string");
}

#[test]
fn disconnect_is_idempotent() {
    let mut b = Bridge::new();
    assert_eq!(respond(&mut b, "DISCONNECT"), "OK: DOWN");
    assert_eq!(respond(&mut b, "DISCONNECT"), "OK: DOWN");
    assert_eq!(b.state, ConnState::Disconnected);
}

#[test]
fn disconnect_tears_down_a_connection() {
    let mut b = Bridge::new();
    assert!(matches!(b.handle(text("CONNECT /dev/ttyUSB0")), Step::OpenPort { .. }));
    assert_eq!(b.apply_open_result(Ok(())), "OK: UP");
    assert_eq!(respond(&mut b, "DISCONNECT"), "OK: DOWN");
    assert_eq!(respond(&mut b, "STATUS"), "OK: DOWN");
}

#[test]
fn unsupported_commands_are_rejected() {
    let mut b = Bridge::new();
    assert_eq!(respond(&mut b, "FOO"), "ERROR: Unsupported command");
    assert_eq!(respond(&mut b, "connect /dev/ttyUSB0"), "ERROR: Unsupported command");
    assert_eq!(respond(&mut b, ""), "ERROR: Unsupported command");
}

#[test]
fn control_frames() {
    let mut b = Bridge::new();
    assert_eq!(b.handle(Message::Ping(vec![1, 2])), Step::Pong(vec![1, 2]));
    assert_eq!(b.handle(Message::Pong(vec![])), Step::Nothing);
    assert_eq!(b.handle(Message::Close), Step::CloseSession);
    assert_eq!(b.handle(Message::Other), Step::Nothing);
}

#[test]
fn binary_while_disconnected_is_an_error() {
    let mut b = Bridge::new();
    match b.handle(Message::Binary(vec![1, 2, 3])) {
        Step::Respond(r) => assert_eq!(r, "ERROR: Disconnected"),
        other => panic!("expected an error response, got {:?}", other),
    }
}

#[test]
fn binary_while_connected_is_written_verbatim() {
    let mut b = Bridge::new();
    assert!(matches!(b.handle(text("CONNECT /dev/ttyUSB0")), Step::OpenPort { .. }));
    b.apply_open_result(Ok(()));
    match b.handle(Message::Binary(vec![0, 255, 10, 13])) {
        Step::WriteDevice(d) => assert_eq!(d, vec![0, 255, 10, 13]),
        other => panic!("expected a device write, got {:?}", other),
    }
}

#[test]
fn write_result_reports_only_failures() {
    let b = Bridge::new();
    assert_eq!(b.write_result(Ok(())), None);
    assert_eq!(
        b.write_result(Err(String::from("Broken pipe"))),
        Some(String::from("ERROR: Broken pipe"))
    );
}

#[test]
fn poll_decisions_follow_state_and_availability() {
    let mut b = Bridge::new();
    assert_eq!(b.poll_avail(Ok(5)), PollStep::Stop);
    assert!(matches!(b.handle(text("CONNECT /dev/ttyUSB0")), Step::OpenPort { .. }));
    b.apply_open_result(Ok(()));
    assert_eq!(b.poll_avail(Ok(0)), PollStep::Stop);
    assert_eq!(b.poll_avail(Ok(5)), PollStep::ReadChunk);
    assert_eq!(b.poll_avail(Err(String::from("gone"))), PollStep::Stop);
    assert_eq!(b.poll_read(Ok(vec![9, 8])), PollStep::Emit(vec![9, 8]));
    assert_eq!(
        b.poll_read(Err(String::from("read failed"))),
        PollStep::Abort(String::from("ERROR: read failed"))
    );
}
