use im_select_server::error::ClientError;
use im_select_server::exchange::{
    Action, Event, Exchange, Stage, Step, CONNECT_TIMEOUT_SECS, IO_TIMEOUT_SECS,
};
use im_select_server::frame::MAX_RESPONSE_BYTES;
use im_select_server::protocol::{Request, Response};

fn request(command: &str, pin: &str) -> Request {
    Request { command: command.to_string(), pin: pin.to_string() }
}

fn step(x: Exchange, event: Event) -> Step {
    assert!(x.accepts(&event), "event {:?} not expected at {:?}", event, x.stage());
    x.step(event)
}

fn go_on(x: Exchange, event: Event) -> (Exchange, Action) {
    match step(x, event) {
        Step::Continue(x, a) => (x, a),
        Step::Done(r) => panic!("exchange ended early: {:?}", r),
    }
}

fn finish(x: Exchange, event: Event) -> Result<Response, ClientError> {
    match step(x, event) {
        Step::Done(r) => r,
        Step::Continue(x, a) => panic!("exchange goes on at {:?} with {:?}", x.stage(), a),
    }
}

/// Drives a fresh exchange up to the point where the request has been written.
fn written(port: u16, req: Request, payload: &[u8]) -> Exchange {
    let (x, a) = Exchange::start(port, req);
    assert!(matches!(a, Action::Connect { host: [127, 0, 0, 1], port: p, timeout_secs }
        if p == port && timeout_secs == CONNECT_TIMEOUT_SECS));
    let (x, _) = go_on(x, Event::Completed);
    let (x, _) = go_on(x, Event::Completed);
    let (x, _) = go_on(x, Event::Completed);
    let (x, _) = go_on(x, Event::Bytes(payload.to_vec()));
    let (x, _) = go_on(x, Event::Completed);
    let (x, a) = go_on(x, Event::Completed);
    assert!(matches!(a, Action::ReadLength));
    x
}

#[test]
fn exchange_actions_in_order() {
    let (x, a) = Exchange::start(4000, request("save_and_switch", "999999"));
    assert_eq!(x.stage(), Stage::Connecting);
    assert!(matches!(a, Action::Connect { host: [127, 0, 0, 1], port: 4000, timeout_secs: 5 }));
    let (x, a) = go_on(x, Event::Completed);
    assert!(matches!(a, Action::SetReadTimeout { secs } if secs == IO_TIMEOUT_SECS));
    let (x, a) = go_on(x, Event::Completed);
    assert!(matches!(a, Action::SetWriteTimeout { secs: 10 }));
    let (x, a) = go_on(x, Event::Completed);
    match a {
        Action::Serialize(r) => {
            assert_eq!(r.command, "save_and_switch");
            assert_eq!(r.pin, "999999");
        }
        other => panic!("unexpected {:?}", other),
    }
    let payload = vec![0x82u8, 1, 2, 3, 4];
    let (x, a) = go_on(x, Event::Bytes(payload.clone()));
    assert!(matches!(a, Action::WriteLength([0, 0, 0, 5])));
    let (x, a) = go_on(x, Event::Completed);
    match a {
        Action::WritePayload(p) => assert_eq!(p, payload),
        other => panic!("unexpected {:?}", other),
    }
    let (x, a) = go_on(x, Event::Completed);
    assert!(matches!(a, Action::ReadLength));
    let (x, a) = go_on(x, Event::Bytes(vec![0, 0, 0, 3]));
    assert!(matches!(a, Action::ReadBody(3)));
    let (x, a) = go_on(x, Event::Bytes(vec![7, 8, 9]));
    match a {
        Action::Deserialize(b) => assert_eq!(b, vec![7, 8, 9]),
        other => panic!("unexpected {:?}", other),
    }
    let resp = finish(x, Event::Parsed(Response { success: true, error: None })).unwrap();
    assert!(resp.success);
    assert!(resp.error.is_none());
}

#[test]
fn exchange_delivers_server_error() {
    let x = written(1, request("save_and_switch", "wrong"), b"xy");
    let (x, _) = go_on(x, Event::Bytes(vec![0, 0, 0, 2]));
    let (x, _) = go_on(x, Event::Bytes(vec![1, 2]));
    let resp = finish(
        x,
        Event::Parsed(Response { success: false, error: Some("invalid pin".into()) }),
    )
    .unwrap();
    assert!(!resp.success);
    assert_eq!(resp.error.as_deref(), Some("invalid pin"));
}

#[test]
fn exchange_rejects_oversize_response() {
    let x = written(2, request("restore", "000000"), b"abc");
    let header = (MAX_RESPONSE_BYTES as u32 + 1).to_be_bytes().to_vec();
    let err = finish(x, Event::Bytes(header)).unwrap_err();
    assert!(err.message().contains("response too large"), "got: {}", err.message());
}

#[test]
fn exchange_accepts_exact_max_size() {
    let x = written(2, request("restore", "000000"), b"abc");
    let header = (MAX_RESPONSE_BYTES as u32).to_be_bytes().to_vec();
    let (x, a) = go_on(x, Event::Bytes(header));
    assert!(matches!(a, Action::ReadBody(n) if n == MAX_RESPONSE_BYTES));
    let (x, a) = go_on(x, Event::Bytes(vec![0xc0u8; MAX_RESPONSE_BYTES]));
    assert!(matches!(a, Action::Deserialize(ref b) if b.len() == MAX_RESPONSE_BYTES));
    let err = finish(x, Event::Failed("invalid type".into())).unwrap_err();
    assert!(err.message().contains("deserialize response"), "got: {}", err.message());
}

#[test]
fn exchange_connection_refused() {
    let (x, _) = Exchange::start(3, request("save_and_switch", "123456"));
    let err = finish(x, Event::Failed("Connection refused (os error 111)".into())).unwrap_err();
    assert!(err.message().starts_with("connect:"), "expected connect error, got: {}", err.message());
    assert_eq!(err, ClientError::Connect("Connection refused (os error 111)".into()));
}

#[test]
fn exchange_server_drops_connection() {
    let x = written(4, request("save_and_switch", "123456"), b"r");
    let err = finish(x, Event::Failed("failed to fill whole buffer".into())).unwrap_err();
    assert!(err.message().contains("read response length"), "got: {}", err.message());
}

#[test]
fn exchange_failures_per_stage() {
    let labels = [
        "connect: e",
        "set read timeout: e",
        "set write timeout: e",
        "serialize: e",
        "write length: e",
        "write payload: e",
        "read response length: e",
        "read response: e",
        "deserialize response: e",
    ];
    let events = |i: usize| match i {
        3 => Event::Bytes(vec![1, 2]),
        6 => Event::Bytes(vec![0, 0, 0, 2]),
        7 => Event::Bytes(vec![5, 6]),
        _ => Event::Completed,
    };
    for (k, label) in labels.iter().enumerate() {
        let (mut x, _) = Exchange::start(5, request("restore", "p"));
        for i in 0..k {
            x = go_on(x, events(i)).0;
        }
        let err = finish(x, Event::Failed("e".into())).unwrap_err();
        assert_eq!(err.message(), *label);
    }
}

#[test]
fn exchange_empty_response_body() {
    let x = written(6, request("restore", "p"), b"");
    let (x, a) = go_on(x, Event::Bytes(vec![0, 0, 0, 0]));
    assert!(matches!(a, Action::ReadBody(0)));
    assert!(x.accepts(&Event::Bytes(vec![])));
    assert!(!x.accepts(&Event::Bytes(vec![1])));
    let (_, a) = go_on(x, Event::Bytes(vec![]));
    assert!(matches!(a, Action::Deserialize(ref b) if b.is_empty()));
}

#[test]
fn exchange_refuses_mismatched_events() {
    let (x, _) = Exchange::start(7, request("restore", "p"));
    assert!(x.accepts(&Event::Completed));
    assert!(!x.accepts(&Event::Bytes(vec![1])));
    assert!(!x.accepts(&Event::Parsed(Response { success: true, error: None })));
    assert!(x.accepts(&Event::Failed("x".into())));
    let x = written(7, request("restore", "p"), b"q");
    assert!(!x.accepts(&Event::Bytes(vec![0, 0, 1])));
    assert!(x.accepts(&Event::Bytes(vec![0, 0, 0, 1])));
    assert!(!x.accepts(&Event::Completed));
}

#[test]
fn sequential_exchanges_are_independent() {
    for cmd in ["save_and_switch", "restore", "save_and_switch"] {
        let x = written(8, request(cmd, "123"), b"payload");
        let (x, _) = go_on(x, Event::Bytes(vec![0, 0, 0, 1]));
        let (x, _) = go_on(x, Event::Bytes(vec![0x80]));
        let resp = finish(x, Event::Parsed(Response { success: true, error: None })).unwrap();
        assert!(resp.success, "request '{cmd}' should succeed");
    }
}
