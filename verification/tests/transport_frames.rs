use doomhelix_agent::transport::{
    decode_content_length_message, encode_json_content_length_message, read_frame_header,
    FrameError,
};

#[test]
fn encodes_content_length_frame() {
    let message = encode_json_content_length_message(r#"{"jsonrpc":"2.0"}"#);
    assert_eq!(
        String::from_utf8(message).unwrap(),
        "Content-Length: 17\r\n\r\n{\"jsonrpc\":\"2.0\"}"
    );
}

#[test]
fn decodes_content_length_message() {
    let input = b"Content-Length: 17\r\n\r\n{\"jsonrpc\":\"2.0\"}".as_slice();
    let (body, _read) = decode_content_length_message(input).unwrap().unwrap();
    let message: serde_json::Value = serde_json::from_slice(&body).unwrap();
    assert_eq!(message["jsonrpc"], "2.0");
}

#[test]
fn frame_length_counts_bytes_not_chars() {
    let message = encode_json_content_length_message("é");
    assert_eq!(message, b"Content-Length: 2\r\n\r\n\xc3\xa9".to_vec());
}

#[test]
fn encoded_frame_decodes_to_its_body() {
    let mut input = encode_json_content_length_message("{\"id\":7}");
    let frame_len = input.len();
    input.extend_from_slice(b"Content-Length: 2\r\n\r\n{}");
    let (body, read) = decode_content_length_message(&input).unwrap().unwrap();
    assert_eq!(body, b"{\"id\":7}".to_vec());
    assert_eq!(read, frame_len);
    let (next, next_read) = decode_content_length_message(&input[read..]).unwrap().unwrap();
    assert_eq!(next, b"{}".to_vec());
    assert_eq!(read + next_read, input.len());
}

#[test]
fn header_name_is_case_insensitive_and_other_headers_are_skipped() {
    let input = b"content-length: 2\r\nContent-Type: application/json\r\n\r\n{}".as_slice();
    let (body, read) = decode_content_length_message(input).unwrap().unwrap();
    assert_eq!(body, b"{}".to_vec());
    assert_eq!(read, input.len());
}

#[test]
fn input_ending_in_headers_reads_nothing() {
    assert_eq!(decode_content_length_message(b"").unwrap(), None);
    assert_eq!(decode_content_length_message(b"Content-Length: 2\r\n").unwrap(), None);
}

#[test]
fn missing_content_length_is_an_error() {
    assert_eq!(
        decode_content_length_message(b"X-Other: 1\r\n\r\n{}"),
        Err(FrameError::MissingContentLength)
    );
}

#[test]
fn bad_content_length_is_an_error() {
    assert_eq!(
        decode_content_length_message(b"Content-Length: ten\r\n\r\n{}"),
        Err(FrameError::InvalidContentLength)
    );
    assert_eq!(
        decode_content_length_message(b"Content-Length: -1\r\n\r\n{}"),
        Err(FrameError::InvalidContentLength)
    );
}

#[test]
fn short_body_is_truncated() {
    assert_eq!(
        decode_content_length_message(b"Content-Length: 5\r\n\r\n{}"),
        Err(FrameError::Truncated)
    );
}

#[test]
fn non_utf8_header_is_an_error() {
    assert_eq!(
        decode_content_length_message(b"\xff\xfe\r\n\r\n"),
        Err(FrameError::InvalidUtf8)
    );
}

#[test]
fn frame_headers_give_body_start_and_length() {
    let headers = b"Content-Length: 17\r\nX: y\r\n\r\n";
    assert_eq!(read_frame_header(headers), Ok(Some((headers.len(), 17))));
    assert_eq!(read_frame_header(b"Content-Length: 3\r\n"), Ok(None));
    assert_eq!(
        read_frame_header(b"\r\n"),
        Err(FrameError::MissingContentLength)
    );
    assert_eq!(
        read_frame_header(b"Content-Length: 3\r\nContent-Length: 4\r\n\r\n"),
        Ok(Some((40, 4)))
    );
}

#[test]
fn frame_errors_have_messages() {
    assert_eq!(
        FrameError::MissingContentLength.message(),
        "ACP message is missing Content-Length"
    );
    assert_eq!(FrameError::Truncated.message(), "failed to fill whole buffer");
    assert_eq!(FrameError::InvalidUtf8.message(), "stream did not contain valid UTF-8");
    assert_eq!(FrameError::InvalidContentLength.message(), "invalid Content-Length value");
}
