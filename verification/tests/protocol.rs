use im_select_server::error::ClientError;
use im_select_server::protocol::{failure_message, request_for, Command, ConnectArgs, Request, Response};

fn args(port: u16, pin: &str) -> ConnectArgs {
    ConnectArgs { port, pin: pin.to_string() }
}

#[test]
fn save_and_switch_request() {
    let cmd = Command::SaveAndSwitch(args(4242, "123456"));
    assert_eq!(cmd.name(), "save_and_switch");
    let (port, req) = request_for(&cmd);
    assert_eq!(port, 4242);
    assert_eq!(req, Request { command: "save_and_switch".into(), pin: "123456".into() });
}

#[test]
fn restore_request() {
    let cmd = Command::Restore(args(1, "short"));
    assert_eq!(cmd.name(), "restore");
    let (port, req) = request_for(&cmd);
    assert_eq!(port, 1);
    assert_eq!(req.command, "restore");
    assert_eq!(req.pin, "short");
    assert_eq!(cmd.args().port, 1);
}

#[test]
fn request_with_empty_pin() {
    let (_, req) = request_for(&Command::Restore(args(9, "")));
    assert_eq!(req.pin, "");
}

#[test]
fn success_reports_nothing() {
    let ok = Ok(Response { success: true, error: None });
    assert_eq!(failure_message(&ok), None);
    let ok_with_text = Ok(Response { success: true, error: Some("ignored".into()) });
    assert_eq!(failure_message(&ok_with_text), None);
}

#[test]
fn refused_command_reports_server_text() {
    let refused = Ok(Response { success: false, error: Some("bad pin".into()) });
    let line = failure_message(&refused).unwrap();
    assert_eq!(line, "im-select-server: bad pin");
    assert!(line.contains("bad pin"));
}

#[test]
fn refused_command_without_text_reports_unknown_error() {
    let refused = Ok(Response { success: false, error: None });
    assert_eq!(failure_message(&refused).unwrap(), "im-select-server: unknown error");
}

#[test]
fn failed_exchange_reports_error_text() {
    let failed: Result<Response, ClientError> = Err(ClientError::Connect("refused".into()));
    assert_eq!(failure_message(&failed).unwrap(), "im-select-server: connect: refused");
    let too_big: Result<Response, ClientError> = Err(ClientError::ResponseTooLarge(65537));
    assert_eq!(
        failure_message(&too_big).unwrap(),
        "im-select-server: response too large: 65537 bytes"
    );
}
