//! One request/response exchange with the server, as a state machine.
//!
//! The machine takes every decision of the exchange; whoever drives it performs
//! the action it asks for (connect, configure the connection, encode, write,
//! read, decode) and hands back what happened as an event.  The request goes
//! out as one frame, and the response is accepted only if its frame announces
//! at most `MAX_RESPONSE_BYTES` bytes.

use vstd::prelude::*;
use crate::error::{ClientError, error_text};
use crate::frame::{
    MAX_RESPONSE_BYTES,
    be_bytes,
    be_value,
    frame_header,
    lemma_prefix_roundtrip,
    response_length,
};
use crate::protocol::{Request, Response, outcome_report};

verus! {

/// Seconds allowed for establishing the connection.
pub const CONNECT_TIMEOUT_SECS: u64 = 5;

/// Seconds allowed for each read and each write on the connection.
pub const IO_TIMEOUT_SECS: u64 = 10;

/// The step that an exchange waits on.
#[derive(Debug, Clone, Copy, PartialEq, Eq, Structural)]
pub enum Stage {
    Connecting,
    SettingReadTimeout,
    SettingWriteTimeout,
    Serializing,
    WritingLength,
    WritingPayload,
    ReadingLength,
    ReadingBody,
    Deserializing,
}

/// What the driver of an exchange is asked to do next.
#[derive(Debug)]
pub enum Action {
    /// Connect to `host`:`port`, giving up after `timeout_secs` seconds.
    Connect { host: [u8; 4], port: u16, timeout_secs: u64 },
    /// Set the read timeout of the connection.
    SetReadTimeout { secs: u64 },
    /// Set the write timeout of the connection.
    SetWriteTimeout { secs: u64 },
    /// Encode the request.
    Serialize(Request),
    /// Write the length prefix of the request frame.
    WriteLength([u8; 4]),
    /// Write the body of the request frame.
    WritePayload(Vec<u8>),
    /// Read the 4-byte length prefix of the response frame.
    ReadLength,
    /// Read a response body of exactly this many bytes.
    ReadBody(usize),
    /// Decode the response body.
    Deserialize(Vec<u8>),
}

/// What came of the last action.
#[derive(Debug)]
pub enum Event {
    /// The action succeeded and produced nothing.
    Completed,
    /// The action produced these bytes (the encoded request, or bytes read).
    Bytes(Vec<u8>),
    /// The response body decoded to this response.
    Parsed(Response),
    /// The action failed; the text describes the cause.
    Failed(String),
}

/// An exchange in progress.
#[derive(Debug)]
pub struct Exchange {
    stage: Stage,
    port: u16,
    request: Option<Request>,
    payload: Vec<u8>,
    body_len: usize,
}

/// Where a step leaves the exchange.
#[derive(Debug)]
pub enum Step {
    /// The exchange goes on: perform the action and report its event.
    Continue(Exchange, Action),
    /// The exchange is over, with this outcome.
    Done(Result<Response, ClientError>),
}

/// The abstract state of an exchange.
pub struct ExchangeView {
    pub stage: Stage,
    pub port: u16,
    pub request: Option<Request>,
    pub payload: Seq<u8>,
    pub body_len: nat,
}

/// The abstract content of an action.
pub enum ActionView {
    Connect { host: Seq<u8>, port: u16, timeout_secs: u64 },
    SetReadTimeout { secs: u64 },
    SetWriteTimeout { secs: u64 },
    Serialize(Request),
    WriteLength(Seq<u8>),
    WritePayload(Seq<u8>),
    ReadLength,
    ReadBody(nat),
    Deserialize(Seq<u8>),
}

/// The abstract content of an event.
pub enum EventView {
    Completed,
    Bytes(Seq<u8>),
    Parsed(Response),
    Failed(String),
}

/// The abstract content of a step.
pub enum StepView {
    Continue(ExchangeView, ActionView),
    Done(Result<Response, ClientError>),
}

impl View for Exchange {
    type V = ExchangeView;

    closed spec fn view(&self) -> ExchangeView {
        ExchangeView {
            stage: self.stage,
            port: self.port,
            request: self.request,
            payload: self.payload@,
            body_len: self.body_len as nat,
        }
    }
}

impl View for Action {
    type V = ActionView;

    open spec fn view(&self) -> ActionView {
        match *self {
            Action::Connect { host, port, timeout_secs } => ActionView::Connect {
                host: host@,
                port,
                timeout_secs,
            },
            Action::SetReadTimeout { secs } => ActionView::SetReadTimeout { secs },
            Action::SetWriteTimeout { secs } => ActionView::SetWriteTimeout { secs },
            Action::Serialize(r) => ActionView::Serialize(r),
            Action::WriteLength(b) => ActionView::WriteLength(b@),
            Action::WritePayload(b) => ActionView::WritePayload(b@),
            Action::ReadLength => ActionView::ReadLength,
            Action::ReadBody(n) => ActionView::ReadBody(n as nat),
            Action::Deserialize(b) => ActionView::Deserialize(b@),
        }
    }
}

impl View for Event {
    type V = EventView;

    open spec fn view(&self) -> EventView {
        match *self {
            Event::Completed => EventView::Completed,
            Event::Bytes(b) => EventView::Bytes(b@),
            Event::Parsed(r) => EventView::Parsed(r),
            Event::Failed(m) => EventView::Failed(m),
        }
    }
}

impl View for Step {
    type V = StepView;

    open spec fn view(&self) -> StepView {
        match *self {
            Step::Continue(x, a) => StepView::Continue(x@, a@),
            Step::Done(r) => StepView::Done(r),
        }
    }
}

/// The loopback address that the server listens on.
pub open spec fn loopback() -> Seq<u8> {
    seq![127u8, 0u8, 0u8, 1u8]
}

/// The state of a fresh exchange that sends `request` to `port`.
pub open spec fn initial(port: u16, request: Request) -> ExchangeView {
    ExchangeView {
        stage: Stage::Connecting,
        port,
        request: Some(request),
        payload: Seq::empty(),
        body_len: 0,
    }
}

/// The first action of a fresh exchange with `port`.
pub open spec fn first_action(port: u16) -> ActionView {
    ActionView::Connect { host: loopback(), port, timeout_secs: CONNECT_TIMEOUT_SECS }
}

/// The error that ends an exchange whose step at `stage` failed with `cause`.
pub open spec fn stage_failure(stage: Stage, cause: String) -> ClientError {
    match stage {
        Stage::Connecting => ClientError::Connect(cause),
        Stage::SettingReadTimeout => ClientError::SetReadTimeout(cause),
        Stage::SettingWriteTimeout => ClientError::SetWriteTimeout(cause),
        Stage::Serializing => ClientError::Serialize(cause),
        Stage::WritingLength => ClientError::WriteLength(cause),
        Stage::WritingPayload => ClientError::WritePayload(cause),
        Stage::ReadingLength => ClientError::ReadLength(cause),
        Stage::ReadingBody => ClientError::ReadBody(cause),
        Stage::Deserializing => ClientError::Deserialize(cause),
    }
}

/// Whether `event` can come of the action that an exchange in state `s` asked
/// for: any action can fail; reads hand back exactly the bytes asked for;
/// encoding hands back bytes and decoding a response; the other actions
/// complete without a result.
pub open spec fn accepts(s: ExchangeView, event: EventView) -> bool {
    match event {
        EventView::Failed(_) => true,
        EventView::Completed => match s.stage {
            Stage::Connecting | Stage::SettingReadTimeout | Stage::SettingWriteTimeout
            | Stage::WritingLength | Stage::WritingPayload => true,
            _ => false,
        },
        EventView::Bytes(b) => match s.stage {
            Stage::Serializing => true,
            Stage::ReadingLength => b.len() == 4,
            Stage::ReadingBody => b.len() == s.body_len,
            _ => false,
        },
        EventView::Parsed(_) => s.stage == Stage::Deserializing,
    }
}

/// `s` moved on to `stage`.
pub open spec fn at_stage(s: ExchangeView, stage: Stage) -> ExchangeView {
    ExchangeView { stage, ..s }
}

/// Where an exchange in state `s` goes on `event`.
pub open spec fn next(s: ExchangeView, event: EventView) -> StepView {
    match event {
        EventView::Failed(cause) => StepView::Done(Err(stage_failure(s.stage, cause))),
        _ => match s.stage {
            Stage::Connecting => StepView::Continue(
                at_stage(s, Stage::SettingReadTimeout),
                ActionView::SetReadTimeout { secs: IO_TIMEOUT_SECS },
            ),
            Stage::SettingReadTimeout => StepView::Continue(
                at_stage(s, Stage::SettingWriteTimeout),
                ActionView::SetWriteTimeout { secs: IO_TIMEOUT_SECS },
            ),
            Stage::SettingWriteTimeout => StepView::Continue(
                ExchangeView { stage: Stage::Serializing, request: None, ..s },
                ActionView::Serialize(s.request.unwrap()),
            ),
            Stage::Serializing => {
                let p = event->Bytes_0;
                if p.len() > u32::MAX {
                    StepView::Done(Err(ClientError::PayloadTooLarge(p.len() as usize)))
                } else {
                    StepView::Continue(
                        ExchangeView { stage: Stage::WritingLength, payload: p, ..s },
                        ActionView::WriteLength(be_bytes(p.len() as u32)),
                    )
                }
            },
            Stage::WritingLength => StepView::Continue(
                ExchangeView { stage: Stage::WritingPayload, payload: Seq::empty(), ..s },
                ActionView::WritePayload(s.payload),
            ),
            Stage::WritingPayload => StepView::Continue(
                at_stage(s, Stage::ReadingLength),
                ActionView::ReadLength,
            ),
            Stage::ReadingLength => {
                let n = be_value(event->Bytes_0);
                if n > MAX_RESPONSE_BYTES {
                    StepView::Done(Err(ClientError::ResponseTooLarge(n as u32)))
                } else {
                    StepView::Continue(
                        ExchangeView { stage: Stage::ReadingBody, body_len: n, ..s },
                        ActionView::ReadBody(n),
                    )
                }
            },
            Stage::ReadingBody => StepView::Continue(
                at_stage(s, Stage::Deserializing),
                ActionView::Deserialize(event->Bytes_0),
            ),
            Stage::Deserializing => StepView::Done(Ok(event->Parsed_0)),
        },
    }
}

/// The position of `stage` in the order in which an exchange goes through its steps.
pub open spec fn stage_rank(stage: Stage) -> nat {
    match stage {
        Stage::Connecting => 0,
        Stage::SettingReadTimeout => 1,
        Stage::SettingWriteTimeout => 2,
        Stage::Serializing => 3,
        Stage::WritingLength => 4,
        Stage::WritingPayload => 5,
        Stage::ReadingLength => 6,
        Stage::ReadingBody => 7,
        Stage::Deserializing => 8,
    }
}

/// The label under which a failure of the step at `stage` is reported.
pub open spec fn stage_label(stage: Stage) -> Seq<char> {
    match stage {
        Stage::Connecting => "connect: "@,
        Stage::SettingReadTimeout => "set read timeout: "@,
        Stage::SettingWriteTimeout => "set write timeout: "@,
        Stage::Serializing => "serialize: "@,
        Stage::WritingLength => "write length: "@,
        Stage::WritingPayload => "write payload: "@,
        Stage::ReadingLength => "read response length: "@,
        Stage::ReadingBody => "read response: "@,
        Stage::Deserializing => "deserialize response: "@,
    }
}

/// Every step either ends the exchange or moves it on to the following stage,
/// so an exchange ends after at most nine events.
pub proof fn lemma_step_advances(s: ExchangeView, event: EventView)
    requires
        accepts(s, event),
    ensures
        next(s, event) matches StepView::Continue(t, _) ==> stage_rank(t.stage) == stage_rank(
            s.stage,
        ) + 1,
        stage_rank(s.stage) < 9,
        stage_rank(s.stage) == 8 ==> next(s, event) is Done,
{
}

/// A failed step ends the exchange, and the failure is reported as the label
/// of that step followed by the text of the cause, on a line of its own after
/// the program's prefix.
pub proof fn lemma_failure_reported(s: ExchangeView, cause: String)
    ensures
        next(s, EventView::Failed(cause)) == StepView::Done(
            Err::<Response, ClientError>(stage_failure(s.stage, cause)),
        ),
        error_text(stage_failure(s.stage, cause)) == stage_label(s.stage) + cause@,
        s.stage == Stage::Connecting ==> error_text(stage_failure(s.stage, cause)) == "connect: "@
            + cause@,
        s.stage == Stage::SettingReadTimeout ==> error_text(stage_failure(s.stage, cause)) == "set read timeout: "@
            + cause@,
        s.stage == Stage::SettingWriteTimeout ==> error_text(stage_failure(s.stage, cause)) == "set write timeout: "@
            + cause@,
        s.stage == Stage::Serializing ==> error_text(stage_failure(s.stage, cause)) == "serialize: "@
            + cause@,
        s.stage == Stage::WritingLength ==> error_text(stage_failure(s.stage, cause)) == "write length: "@
            + cause@,
        s.stage == Stage::WritingPayload ==> error_text(stage_failure(s.stage, cause)) == "write payload: "@
            + cause@,
        s.stage == Stage::ReadingLength ==> error_text(stage_failure(s.stage, cause)) == "read response length: "@
            + cause@,
        s.stage == Stage::ReadingBody ==> error_text(stage_failure(s.stage, cause)) == "read response: "@
            + cause@,
        s.stage == Stage::Deserializing ==> error_text(stage_failure(s.stage, cause)) == "deserialize response: "@
            + cause@,
        outcome_report(Err(stage_failure(s.stage, cause))) == Some(
            "im-select-server: "@ + error_text(stage_failure(s.stage, cause)),
        ),
{
}

/// Once the length prefix of the response has been read, the exchange asks
/// for, and accepts, a body of exactly the length the prefix announces (the
/// number whose base-256 digits it holds, most significant first), as long as
/// that length is at most 65536 bytes; a body of any other length is not one
/// that the read can hand back.
pub proof fn lemma_body_length(s: ExchangeView, header: Seq<u8>, body: Seq<u8>)
    requires
        s.stage == Stage::ReadingLength,
        header.len() == 4,
        header[0] as int * 16777216 + header[1] as int * 65536 + header[2] as int * 256
            + header[3] as int <= 65536,
    ensures
        ({
            let n = header[0] as int * 16777216 + header[1] as int * 65536 + header[2] as int
                * 256 + header[3] as int;
            &&& next(s, EventView::Bytes(header)) matches StepView::Continue(
                t,
                ActionView::ReadBody(k),
            )
            &&& k == n
            &&& t.stage == Stage::ReadingBody
            &&& t.body_len == n
            &&& accepts(t, EventView::Bytes(body)) <==> body.len() == n
        }),
{
}

/// Which events each step can hand back: any step can fail; connecting,
/// setting the timeouts and the two writes complete with nothing; encoding
/// hands back bytes of any length, reading the length prefix exactly 4 bytes,
/// and decoding a response.
pub proof fn lemma_events_per_stage(s: ExchangeView, e: EventView)
    ensures
        e is Failed ==> accepts(s, e),
        e is Completed ==> (accepts(s, e) <==> (s.stage is Connecting || s.stage is SettingReadTimeout
            || s.stage is SettingWriteTimeout || s.stage is WritingLength
            || s.stage is WritingPayload)),
        e is Parsed ==> (accepts(s, e) <==> s.stage is Deserializing),
        (e is Bytes && s.stage is Serializing) ==> accepts(s, e),
        (e is Bytes && s.stage is ReadingLength) ==> (accepts(s, e) <==> e->Bytes_0.len() == 4),
        (e is Bytes && accepts(s, e)) ==> (s.stage is Serializing || s.stage is ReadingLength
            || s.stage is ReadingBody),
{
}

/// While the body of the response is awaited, the only bytes accepted are a
/// body of exactly the awaited length.
pub proof fn lemma_body_exact(s: ExchangeView, body: Seq<u8>)
    requires
        s.stage == Stage::ReadingBody,
    ensures
        accepts(s, EventView::Bytes(body)) <==> body.len() == s.body_len,
        !accepts(s, EventView::Completed),
{
}

/// The encoded request goes out as one frame: first a length prefix that
/// announces exactly the length of the encoded request, then the encoded
/// request itself, unchanged.  An encoding too long for the prefix ends the
/// exchange before anything is written.
pub proof fn lemma_request_framed(s: ExchangeView, payload: Seq<u8>)
    requires
        s.stage == Stage::Serializing,
    ensures
        payload.len() > u32::MAX ==> next(s, EventView::Bytes(payload)) == StepView::Done(
            Err::<Response, ClientError>(ClientError::PayloadTooLarge(payload.len() as usize)),
        ),
        payload.len() <= u32::MAX ==> ({
            &&& next(s, EventView::Bytes(payload)) matches StepView::Continue(
                t,
                ActionView::WriteLength(header),
            )
            &&& be_value(header) == payload.len()
            &&& next(t, EventView::Completed) matches StepView::Continue(
                _,
                ActionView::WritePayload(body),
            )
            &&& body == payload
        }),
{
    if payload.len() <= u32::MAX {
        lemma_prefix_roundtrip(payload.len() as u32);
    }
}

/// A response is read only if its length prefix announces at most
/// `MAX_RESPONSE_BYTES` bytes, and then exactly that many bytes are read;
/// a longer announcement ends the exchange with its length.
pub proof fn lemma_response_limit(s: ExchangeView, header: Seq<u8>)
    requires
        s.stage == Stage::ReadingLength,
        header.len() == 4,
    ensures
        be_value(header) <= MAX_RESPONSE_BYTES <==> (next(s, EventView::Bytes(header)) matches StepView::Continue(
            _,
            ActionView::ReadBody(n),
        ) && n == be_value(header)),
        be_value(header) > MAX_RESPONSE_BYTES ==> next(s, EventView::Bytes(header))
            == StepView::Done(
            Err::<Response, ClientError>(ClientError::ResponseTooLarge(be_value(header) as u32)),
        ),
{
}

/// What is decoded is exactly the body that was read, and the exchange ends
/// with exactly the response that the body decoded to.
pub proof fn lemma_response_delivered(s: ExchangeView, body: Seq<u8>, response: Response)
    requires
        s.stage == Stage::ReadingBody,
        body.len() == s.body_len,
    ensures
        next(s, EventView::Bytes(body)) matches StepView::Continue(t, ActionView::Deserialize(b))
            && b == body && next(t, EventView::Parsed(response)) == StepView::Done(
            Ok::<Response, ClientError>(response),
        ),
{
}

/// An exchange in which every action succeeds asks, in this order, to connect
/// to the server's port on the loopback address, to set both timeouts, to
/// encode the request it was started with, to write the frame, to read a
/// response frame and to decode it; and it ends with the decoded response.
pub proof fn lemma_successful_exchange(
    port: u16,
    request: Request,
    payload: Seq<u8>,
    header: Seq<u8>,
    body: Seq<u8>,
    response: Response,
)
    requires
        payload.len() <= u32::MAX,
        header.len() == 4,
        be_value(header) <= MAX_RESPONSE_BYTES,
        body.len() == be_value(header),
    ensures
        ({
            let s0 = initial(port, request);
            &&& first_action(port) == (ActionView::Connect {
                host: seq![127u8, 0u8, 0u8, 1u8],
                port,
                timeout_secs: 5,
            })
            &&& next(s0, EventView::Completed) matches StepView::Continue(
                s1,
                ActionView::SetReadTimeout { secs: 10 },
            )
            &&& next(s1, EventView::Completed) matches StepView::Continue(
                s2,
                ActionView::SetWriteTimeout { secs: 10 },
            )
            &&& next(s2, EventView::Completed) matches StepView::Continue(
                s3,
                ActionView::Serialize(r),
            )
            &&& r == request
            &&& next(s3, EventView::Bytes(payload)) matches StepView::Continue(
                s4,
                ActionView::WriteLength(h),
            )
            &&& be_value(h) == payload.len()
            &&& next(s4, EventView::Completed) matches StepView::Continue(
                s5,
                ActionView::WritePayload(p),
            )
            &&& p == payload
            &&& next(s5, EventView::Completed) matches StepView::Continue(
                s6,
                ActionView::ReadLength,
            )
            &&& next(s6, EventView::Bytes(header)) matches StepView::Continue(
                s7,
                ActionView::ReadBody(n),
            )
            &&& n == be_value(header)
            &&& n == header[0] as int * 16777216 + header[1] as int * 65536 + header[2] as int
                * 256 + header[3] as int
            &&& next(s7, EventView::Bytes(body)) matches StepView::Continue(
                s8,
                ActionView::Deserialize(b),
            )
            &&& b == body
            &&& next(s8, EventView::Parsed(response)) == StepView::Done(
                Ok::<Response, ClientError>(response),
            )
        }),
{
    lemma_prefix_roundtrip(payload.len() as u32);
}

impl Exchange {
    /// The well-formedness of an exchange: the request is still held until it
    /// is handed out for encoding, and a body is never longer than a response may be.
    pub closed spec fn wf(&self) -> bool {
        &&& (self.request is Some <==> (self.stage == Stage::Connecting || self.stage
            == Stage::SettingReadTimeout || self.stage == Stage::SettingWriteTimeout))
        &&& self.body_len <= MAX_RESPONSE_BYTES
    }

    /// Starts an exchange that sends `request` to the server on `port`; the
    /// first action connects to it.
    pub fn start(port: u16, request: Request) -> (r: (Exchange, Action))
        ensures
            r.0.wf(),
            r.0@ == initial(port, request),
            r.1@ == first_action(port),
    {
        let x = Exchange {
            stage: Stage::Connecting,
            port,
            request: Some(request),
            payload: Vec::new(),
            body_len: 0,
        };
        let host: [u8; 4] = [127, 0, 0, 1];
        assert(host@ =~= loopback());
        (x, Action::Connect { host, port, timeout_secs: CONNECT_TIMEOUT_SECS })
    }

    /// The stage this exchange waits on.
    pub fn stage(&self) -> (s: Stage)
        ensures
            s == self@.stage,
    {
        self.stage
    }

    /// Whether `event` can come of the action that this exchange asked for.
    pub fn accepts(&self, event: &Event) -> (b: bool)
        ensures
            b == accepts(self@, event@),
            event is Failed ==> b,
            (self@.stage == Stage::ReadingBody && event is Bytes) ==> (b <==> event->Bytes_0@.len()
                == self@.body_len),
            (self@.stage == Stage::ReadingLength && event is Bytes) ==> (b <==> event->Bytes_0@.len()
                == 4),
    {
        match event {
            Event::Failed(_) => true,
            Event::Completed => match self.stage {
                Stage::Connecting | Stage::SettingReadTimeout | Stage::SettingWriteTimeout
                | Stage::WritingLength | Stage::WritingPayload => true,
                _ => false,
            },
            Event::Bytes(b) => match self.stage {
                Stage::Serializing => true,
                Stage::ReadingLength => b.len() == 4,
                Stage::ReadingBody => b.len() == self.body_len,
                _ => false,
            },
            Event::Parsed(_) => match self.stage {
                Stage::Deserializing => true,
                _ => false,
            },
        }
    }

    /// Moves the exchange on by what came of its last action.
    pub fn step(self, event: Event) -> (r: Step)
        requires
            self.wf(),
            accepts(self@, event@),
        ensures
            r@ == next(self@, event@),
            r matches Step::Continue(x, _) ==> x.wf(),
    {
        let mut x = self;
        match event {
            Event::Failed(cause) => Step::Done(Err(match x.stage {
                Stage::Connecting => ClientError::Connect(cause),
                Stage::SettingReadTimeout => ClientError::SetReadTimeout(cause),
                Stage::SettingWriteTimeout => ClientError::SetWriteTimeout(cause),
                Stage::Serializing => ClientError::Serialize(cause),
                Stage::WritingLength => ClientError::WriteLength(cause),
                Stage::WritingPayload => ClientError::WritePayload(cause),
                Stage::ReadingLength => ClientError::ReadLength(cause),
                Stage::ReadingBody => ClientError::ReadBody(cause),
                Stage::Deserializing => ClientError::Deserialize(cause),
            })),
            Event::Completed => match x.stage {
                Stage::Connecting => {
                    x.stage = Stage::SettingReadTimeout;
                    Step::Continue(x, Action::SetReadTimeout { secs: IO_TIMEOUT_SECS })
                },
                Stage::SettingReadTimeout => {
                    x.stage = Stage::SettingWriteTimeout;
                    Step::Continue(x, Action::SetWriteTimeout { secs: IO_TIMEOUT_SECS })
                },
                Stage::SettingWriteTimeout => {
                    let request = x.request.take().unwrap();
                    x.stage = Stage::Serializing;
                    Step::Continue(x, Action::Serialize(request))
                },
                Stage::WritingLength => {
                    let mut payload: Vec<u8> = Vec::new();
                    std::mem::swap(&mut payload, &mut x.payload);
                    x.stage = Stage::WritingPayload;
                    Step::Continue(x, Action::WritePayload(payload))
                },
                _ => {
                    x.stage = Stage::ReadingLength;
                    Step::Continue(x, Action::ReadLength)
                },
            },
            Event::Bytes(bytes) => match x.stage {
                Stage::Serializing => match frame_header(bytes.len()) {
                    Ok(header) => {
                        x.payload = bytes;
                        x.stage = Stage::WritingLength;
                        Step::Continue(x, Action::WriteLength(header))
                    },
                    Err(e) => Step::Done(Err(e)),
                },
                Stage::ReadingLength => {
                    let header: [u8; 4] = [bytes[0], bytes[1], bytes[2], bytes[3]];
                    assert(header@ =~= bytes@);
                    match response_length(header) {
                        Ok(n) => {
                            x.body_len = n;
                            x.stage = Stage::ReadingBody;
                            Step::Continue(x, Action::ReadBody(n))
                        },
                        Err(e) => Step::Done(Err(e)),
                    }
                },
                _ => {
                    x.stage = Stage::Deserializing;
                    Step::Continue(x, Action::Deserialize(bytes))
                },
            },
            Event::Parsed(response) => Step::Done(Ok(response)),
        }
    }
}

} // verus!
