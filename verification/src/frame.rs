//! Length-prefixed framing: every message on the wire is a 4-byte big-endian
//! length followed by that many bytes.

use vstd::prelude::*;
use crate::error::ClientError;

verus! {

/// The largest response body, in bytes, that the client accepts.
pub const MAX_RESPONSE_BYTES: usize = 65536;

/// The 4-byte big-endian encoding of `n`.
pub open spec fn be_bytes(n: u32) -> Seq<u8> {
    seq![
        (n / 16777216) as u8,
        ((n / 65536) % 256) as u8,
        ((n / 256) % 256) as u8,
        (n % 256) as u8,
    ]
}

/// The number that the 4 big-endian bytes `b` encode.
pub open spec fn be_value(b: Seq<u8>) -> nat
    recommends
        b.len() == 4,
{
    (b[0] * 16777216 + b[1] * 65536 + b[2] * 256 + b[3]) as nat
}

/// The length prefix of a frame whose body has `len` bytes.
pub fn length_prefix(len: u32) -> (b: [u8; 4])
    ensures
        b@ == be_bytes(len),
        b[0] as int * 16777216 + b[1] as int * 65536 + b[2] as int * 256 + b[3] as int == len,
        b[0] == len / 16777216,
        b[1] == (len / 65536) % 256,
        b[2] == (len / 256) % 256,
        b[3] == len % 256,
{
    let b: [u8; 4] = [
        (len / 16777216) as u8,
        ((len / 65536) % 256) as u8,
        ((len / 256) % 256) as u8,
        (len % 256) as u8,
    ];
    assert(b@ =~= be_bytes(len));
    proof {
        lemma_be_bytes_digits(len);
    }
    b
}

/// The body length that the length prefix `b` announces.
pub fn prefix_length(b: [u8; 4]) -> (n: u32)
    ensures
        n == be_value(b@),
        n == b[0] as int * 16777216 + b[1] as int * 65536 + b[2] as int * 256 + b[3] as int,
{
    (b[0] as u32) * 16777216 + (b[1] as u32) * 65536 + (b[2] as u32) * 256 + (b[3] as u32)
}

/// The length prefix for a request body of `payload_len` bytes; a body longer
/// than a 32-bit length can announce is refused.
pub fn frame_header(payload_len: usize) -> (r: Result<[u8; 4], ClientError>)
    ensures
        payload_len <= u32::MAX ==> (r matches Ok(b) && b@ == be_bytes(payload_len as u32)),
        payload_len > u32::MAX ==> r == Err::<[u8; 4], ClientError>(
            ClientError::PayloadTooLarge(payload_len),
        ),
{
    if payload_len <= 0xffff_ffffusize {
        Ok(length_prefix(payload_len as u32))
    } else {
        Err(ClientError::PayloadTooLarge(payload_len))
    }
}

/// The response body length that the length prefix `header` announces, which
/// is accepted only up to `MAX_RESPONSE_BYTES`.
pub fn response_length(header: [u8; 4]) -> (r: Result<usize, ClientError>)
    ensures
        be_value(header@) <= MAX_RESPONSE_BYTES ==> r == Ok::<usize, ClientError>(
            be_value(header@) as usize,
        ),
        be_value(header@) > MAX_RESPONSE_BYTES ==> r == Err::<usize, ClientError>(
            ClientError::ResponseTooLarge(be_value(header@) as u32),
        ),
        ({
            let n = header[0] as int * 16777216 + header[1] as int * 65536 + header[2] as int
                * 256 + header[3] as int;
            &&& n <= 65536 ==> r == Ok::<usize, ClientError>(n as usize)
            &&& n > 65536 ==> r == Err::<usize, ClientError>(
                ClientError::ResponseTooLarge(n as u32),
            )
        }),
{
    let n = prefix_length(header);
    if n <= 65536u32 {
        Ok(n as usize)
    } else {
        Err(ClientError::ResponseTooLarge(n))
    }
}

/// The prefix of `n` holds the four base-256 digits of `n`, most significant
/// first: each byte is below 256 and together they weigh exactly `n`.
pub proof fn lemma_be_bytes_digits(n: u32)
    ensures
        be_bytes(n).len() == 4,
        be_bytes(n)[0] == n / 16777216,
        be_bytes(n)[1] == (n / 65536) % 256,
        be_bytes(n)[2] == (n / 256) % 256,
        be_bytes(n)[3] == n % 256,
        be_bytes(n)[0] as int * 16777216 + be_bytes(n)[1] as int * 65536 + be_bytes(n)[2] as int
            * 256 + be_bytes(n)[3] as int == n,
{
    assert(n / 16777216 < 256);
    assert((n / 16777216) * 16777216 + ((n / 65536) % 256) * 65536 + ((n / 256) % 256) * 256
        + n % 256 == n);
}

/// A 4-byte prefix announces the number whose base-256 digits it holds, most
/// significant first.
pub proof fn lemma_be_value_digits(b: Seq<u8>)
    requires
        b.len() == 4,
    ensures
        be_value(b) == b[0] as int * 16777216 + b[1] as int * 65536 + b[2] as int * 256
            + b[3] as int,
        be_value(b) <= u32::MAX,
{
    lemma_prefix_unique(b);
}

/// A response announcing at most 65536 bytes (64 KiB) is accepted, and one
/// announcing more is refused with the announced length.
pub proof fn lemma_response_bound(b: Seq<u8>)
    requires
        b.len() == 4,
    ensures
        MAX_RESPONSE_BYTES == 65536,
        be_value(b) <= MAX_RESPONSE_BYTES <==> b[0] as int * 16777216 + b[1] as int * 65536
            + b[2] as int * 256 + b[3] as int <= 65536,
{
}

/// Decoding a length prefix gives back the length it was made from.
pub proof fn lemma_prefix_roundtrip(n: u32)
    ensures
        be_value(be_bytes(n)) == n,
{
    assert(n / 16777216 < 256);
    assert((n / 16777216) * 16777216 + ((n / 65536) % 256) * 65536 + ((n / 256) % 256) * 256
        + n % 256 == n);
}

/// Encoding the length that a 4-byte prefix announces gives back that prefix:
/// every 4-byte prefix is the encoding of exactly one length.
pub proof fn lemma_prefix_unique(b: Seq<u8>)
    requires
        b.len() == 4,
    ensures
        be_value(b) <= u32::MAX,
        be_bytes(be_value(b) as u32) == b,
{
    let v: int = b[0] * 16777216 + b[1] * 65536 + b[2] * 256 + b[3];
    assert(v <= 0xffff_ffff);
    let n: u32 = v as u32;
    assert(n / 16777216 == b[0]);
    assert((n / 65536) % 256 == b[1]);
    assert((n / 256) % 256 == b[2]);
    assert(n % 256 == b[3]);
    assert(be_bytes(n) =~= b);
}

} // verus!
