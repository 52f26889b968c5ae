use im_select_server::error::ClientError;
use im_select_server::frame::{
    frame_header, length_prefix, prefix_length, response_length, MAX_RESPONSE_BYTES,
};

#[test]
fn length_prefix_is_big_endian() {
    assert_eq!(length_prefix(0), [0, 0, 0, 0]);
    assert_eq!(length_prefix(5), [0, 0, 0, 5]);
    assert_eq!(length_prefix(0x0102_0304), [1, 2, 3, 4]);
    assert_eq!(length_prefix(65536), [0, 1, 0, 0]);
    assert_eq!(length_prefix(u32::MAX), [255, 255, 255, 255]);
    assert_eq!(length_prefix(300), 300u32.to_be_bytes());
}

#[test]
fn prefix_length_reads_big_endian() {
    assert_eq!(prefix_length([0, 0, 0, 0]), 0);
    assert_eq!(prefix_length([1, 2, 3, 4]), 0x0102_0304);
    assert_eq!(prefix_length([255, 255, 255, 255]), u32::MAX);
    assert_eq!(prefix_length([0, 1, 0, 1]), 65537);
}

#[test]
fn prefix_roundtrip_on_samples() {
    for n in [0u32, 1, 255, 256, 65535, 65536, 65537, 0x00ff_ff00, 0xdead_beef, u32::MAX] {
        assert_eq!(prefix_length(length_prefix(n)), n);
    }
    for b in [[0u8, 0, 0, 0], [9, 8, 7, 6], [255, 0, 255, 0]] {
        assert_eq!(length_prefix(prefix_length(b)), b);
    }
}

#[test]
fn frame_header_for_small_payloads() {
    assert_eq!(frame_header(0), Ok([0, 0, 0, 0]));
    assert_eq!(frame_header(31), Ok([0, 0, 0, 31]));
    assert_eq!(frame_header(u32::MAX as usize), Ok([255, 255, 255, 255]));
}

#[test]
fn frame_header_refuses_payload_beyond_u32() {
    let len = u32::MAX as usize + 1;
    assert_eq!(frame_header(len), Err(ClientError::PayloadTooLarge(len)));
    let msg = frame_header(len).unwrap_err().message();
    assert_eq!(msg, "payload too large: 4294967296 bytes");
}

#[test]
fn response_length_accepts_exact_max() {
    assert_eq!(MAX_RESPONSE_BYTES, 64 * 1024);
    let header = (MAX_RESPONSE_BYTES as u32).to_be_bytes();
    assert_eq!(response_length(header), Ok(MAX_RESPONSE_BYTES));
    assert_eq!(response_length([0, 0, 0, 0]), Ok(0));
}

#[test]
fn response_length_rejects_one_past_max() {
    let header = (MAX_RESPONSE_BYTES as u32 + 1).to_be_bytes();
    let err = response_length(header).unwrap_err();
    assert_eq!(err, ClientError::ResponseTooLarge(65537));
    assert!(err.message().contains("response too large"), "got: {}", err.message());
    assert_eq!(err.message(), "response too large: 65537 bytes");
    assert_eq!(
        response_length([255, 255, 255, 255]),
        Err(ClientError::ResponseTooLarge(u32::MAX))
    );
}
