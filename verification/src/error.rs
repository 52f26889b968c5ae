//! What can go wrong while a request is exchanged with the server, and the text
//! reported for each failure.

use vstd::prelude::*;
use crate::decimal::{decimal, push_decimal};

verus! {

/// One failure of a request/response exchange.
///
/// The variants that carry a `String` carry the text of the underlying I/O or
/// encoding error; the others carry the offending length.
#[derive(Debug, PartialEq, Eq)]
pub enum ClientError {
    /// Connecting to the server failed.
    Connect(String),
    /// Setting the read timeout on the connection failed.
    SetReadTimeout(String),
    /// Setting the write timeout on the connection failed.
    SetWriteTimeout(String),
    /// Encoding the request failed.
    Serialize(String),
    /// The encoded request does not fit the 32-bit length prefix.
    PayloadTooLarge(usize),
    /// Writing the length prefix of the request failed.
    WriteLength(String),
    /// Writing the body of the request failed.
    WritePayload(String),
    /// Reading the length prefix of the response failed.
    ReadLength(String),
    /// The response announces more bytes than a response may have.
    ResponseTooLarge(u32),
    /// Reading the body of the response failed.
    ReadBody(String),
    /// Decoding the response failed.
    Deserialize(String),
}

/// The text reported for `e`: a fixed label naming the failed step, a colon,
/// and the cause (the underlying error's text, or the length in decimal).
pub open spec fn error_text(e: ClientError) -> Seq<char> {
    match e {
        ClientError::Connect(m) => "connect: "@ + m@,
        ClientError::SetReadTimeout(m) => "set read timeout: "@ + m@,
        ClientError::SetWriteTimeout(m) => "set write timeout: "@ + m@,
        ClientError::Serialize(m) => "serialize: "@ + m@,
        ClientError::PayloadTooLarge(n) => "payload too large: "@ + decimal(n as nat) + " bytes"@,
        ClientError::WriteLength(m) => "write length: "@ + m@,
        ClientError::WritePayload(m) => "write payload: "@ + m@,
        ClientError::ReadLength(m) => "read response length: "@ + m@,
        ClientError::ResponseTooLarge(n) => "response too large: "@ + decimal(n as nat) + " bytes"@,
        ClientError::ReadBody(m) => "read response: "@ + m@,
        ClientError::Deserialize(m) => "deserialize response: "@ + m@,
    }
}

/// A length that is too large is reported with its decimal digits between a
/// label and the word "bytes".
pub proof fn lemma_size_error_texts(n: usize, m: u32)
    ensures
        error_text(ClientError::PayloadTooLarge(n)) == "payload too large: "@ + decimal(n as nat)
            + " bytes"@,
        error_text(ClientError::ResponseTooLarge(m)) == "response too large: "@ + decimal(
            m as nat,
        ) + " bytes"@,
{
}

/// `label` followed by `cause`.
fn labelled(label: &str, cause: &String) -> (s: String)
    ensures
        s@ == label@ + cause@,
{
    let mut s = String::from_str(label);
    s.append(cause.as_str());
    s
}

/// `label`, the decimal digits of `n`, then " bytes".
fn labelled_size(label: &str, n: u64) -> (s: String)
    ensures
        s@ == label@ + decimal(n as nat) + " bytes"@,
{
    let mut s = String::from_str(label);
    push_decimal(&mut s, n);
    s.append(" bytes");
    s
}

impl ClientError {
    /// The text reported for this error.
    pub fn message(&self) -> (s: String)
        ensures
            s@ == error_text(*self),
    {
        match self {
            ClientError::Connect(m) => labelled("connect: ", m),
            ClientError::SetReadTimeout(m) => labelled("set read timeout: ", m),
            ClientError::SetWriteTimeout(m) => labelled("set write timeout: ", m),
            ClientError::Serialize(m) => labelled("serialize: ", m),
            ClientError::PayloadTooLarge(n) => labelled_size("payload too large: ", *n as u64),
            ClientError::WriteLength(m) => labelled("write length: ", m),
            ClientError::WritePayload(m) => labelled("write payload: ", m),
            ClientError::ReadLength(m) => labelled("read response length: ", m),
            ClientError::ResponseTooLarge(n) => labelled_size("response too large: ", *n as u64),
            ClientError::ReadBody(m) => labelled("read response: ", m),
            ClientError::Deserialize(m) => labelled("deserialize response: ", m),
        }
    }
}

} // verus!
