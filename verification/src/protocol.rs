//! The messages of the protocol and the decisions taken around one exchange:
//! which request a command sends, and what is reported once the exchange ends.

use vstd::prelude::*;
use crate::error::{ClientError, error_text};

verus! {

/// Where the server listens and the PIN that authenticates the client.
#[derive(Debug)]
pub struct ConnectArgs {
    /// The TCP port of the server on the loopback interface.
    pub port: u16,
    /// The PIN sent along with the request.
    pub pin: String,
}

/// What the user asks the server to do.
#[derive(Debug)]
pub enum Command {
    /// Save the current input method and switch to the default one.
    SaveAndSwitch(ConnectArgs),
    /// Switch back to the saved input method.
    Restore(ConnectArgs),
}

/// The request sent to the server.
#[derive(Debug, PartialEq, Eq)]
pub struct Request {
    /// The name of the command, as the server knows it.
    pub command: String,
    /// The PIN that authenticates the client.
    pub pin: String,
}

/// The server's answer.
#[derive(Debug, PartialEq, Eq)]
pub struct Response {
    /// Whether the server carried out the command.
    pub success: bool,
    /// The server's explanation of a failure, if it gave one.
    pub error: Option<String>,
}

/// The name under which the server knows `command`.
pub open spec fn command_name(command: Command) -> Seq<char> {
    match command {
        Command::SaveAndSwitch(_) => "save_and_switch"@,
        Command::Restore(_) => "restore"@,
    }
}

/// The connection arguments that `command` carries.
pub open spec fn command_args(command: Command) -> ConnectArgs {
    match command {
        Command::SaveAndSwitch(a) => a,
        Command::Restore(a) => a,
    }
}

/// The prefix of every line that reports a failure.
pub open spec fn report_prefix() -> Seq<char> {
    "im-select-server: "@
}

/// What a failed response is reported as: the server's explanation, or
/// "unknown error" when it gave none.
pub open spec fn response_error_text(response: Response) -> Seq<char> {
    match response.error {
        Some(e) => e@,
        None => "unknown error"@,
    }
}

/// The failure line for the outcome of an exchange, or `None` when the server
/// carried out the command.
pub open spec fn outcome_report(outcome: Result<Response, ClientError>) -> Option<Seq<char>> {
    match outcome {
        Ok(r) => if r.success {
            None
        } else {
            Some(report_prefix() + response_error_text(r))
        },
        Err(e) => Some(report_prefix() + error_text(e)),
    }
}

impl Command {
    /// The name under which the server knows this command.
    pub fn name(&self) -> (s: &'static str)
        ensures
            s@ == command_name(*self),
            *self is SaveAndSwitch ==> s@ == "save_and_switch"@,
            *self is Restore ==> s@ == "restore"@,
    {
        match self {
            Command::SaveAndSwitch(_) => "save_and_switch",
            Command::Restore(_) => "restore",
        }
    }

    /// The connection arguments of this command.
    pub fn args(&self) -> (a: &ConnectArgs)
        ensures
            *a == command_args(*self),
    {
        match self {
            Command::SaveAndSwitch(a) => a,
            Command::Restore(a) => a,
        }
    }
}

/// The port to connect to and the request to send for `command`: the request
/// names the command and carries the PIN given with it.
pub fn request_for(command: &Command) -> (r: (u16, Request))
    ensures
        r.0 == command_args(*command).port,
        r.1.command@ == command_name(*command),
        r.1.pin == command_args(*command).pin,
        *command is SaveAndSwitch ==> r.1.command@ == "save_and_switch"@,
        *command is Restore ==> r.1.command@ == "restore"@,
        command matches Command::SaveAndSwitch(a) ==> r.0 == a.port && r.1.pin == a.pin,
        command matches Command::Restore(a) ==> r.0 == a.port && r.1.pin == a.pin,
{
    let args = command.args();
    let request = Request { command: String::from_str(command.name()), pin: args.pin.clone() };
    (args.port, request)
}

/// The line to report for the outcome of an exchange, or `None` when the
/// server carried out the command and nothing is to be reported.
pub fn failure_message(outcome: &Result<Response, ClientError>) -> (m: Option<String>)
    ensures
        outcome_report(*outcome) is None <==> m is None,
        outcome_report(*outcome) matches Some(t) ==> (m matches Some(s) && s@ == t),
        m is None <==> (*outcome is Ok && (*outcome)->Ok_0.success),
        (*outcome is Ok && !(*outcome)->Ok_0.success && (*outcome)->Ok_0.error is Some) ==> (m
            matches Some(s) && s@ == "im-select-server: "@ + (*outcome)->Ok_0.error->Some_0@),
        (*outcome is Ok && !(*outcome)->Ok_0.success && (*outcome)->Ok_0.error is None) ==> (m
            matches Some(s) && s@ == "im-select-server: unknown error"@),
        *outcome is Err ==> (m matches Some(s) && s@ == "im-select-server: "@ + error_text(
            (*outcome)->Err_0,
        )),
{
    let mut line = String::from_str("im-select-server: ");
    match outcome {
        Ok(r) => {
            if r.success {
                return None;
            }
            match &r.error {
                Some(e) => line.append(e.as_str()),
                None => line.append("unknown error"),
            }
        },
        Err(e) => {
            let text = e.message();
            line.append(text.as_str());
        },
    }
    proof {
        reveal_strlit("im-select-server: ");
        reveal_strlit("unknown error");
        reveal_strlit("im-select-server: unknown error");
        assert("im-select-server: unknown error"@ =~= "im-select-server: "@ + "unknown error"@);
    }
    Some(line)
}

/// Each command is known to the server by a name that depends on the kind of
/// command only, never on its port or PIN.
pub proof fn lemma_command_names(a: ConnectArgs)
    ensures
        command_name(Command::SaveAndSwitch(a)) == "save_and_switch"@,
        command_name(Command::Restore(a)) == "restore"@,
        command_name(Command::SaveAndSwitch(a)) != command_name(Command::Restore(a)),
        command_args(Command::SaveAndSwitch(a)) == a,
        command_args(Command::Restore(a)) == a,
{
    reveal_strlit("save_and_switch");
    reveal_strlit("restore");
    assert("save_and_switch"@.len() != "restore"@.len());
}

/// A response is reported exactly when the server did not carry out the
/// command: the line is the program's name, a colon, and the server's
/// explanation, or "unknown error" when it gave none.  A failed exchange is
/// always reported, with the text of its error.
pub proof fn lemma_report(r: Response, e: ClientError)
    ensures
        outcome_report(Ok(r)) is None <==> r.success,
        (!r.success && r.error is Some) ==> outcome_report(Ok(r)) == Some(
            "im-select-server: "@ + r.error->Some_0@,
        ),
        !r.success && r.error is None ==> outcome_report(Ok(r)) == Some(
            "im-select-server: "@ + "unknown error"@,
        ),
        outcome_report(Err(e)) == Some("im-select-server: "@ + error_text(e)),
{
}

} // verus!
