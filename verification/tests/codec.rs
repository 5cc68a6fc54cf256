use header_filter::codec::{
    decode_request, decode_response, encode_request, encode_response, DecodeError, Direction,
    HeaderRequest, HeaderResponse,
};

#[test]
fn request_round_trip() {
    let message = HeaderRequest {
        direction: Direction::RequestPath,
        transaction_id: b"123456789".to_vec(),
    };
    let bytes = encode_request(&message);
    assert_eq!(decode_request(&bytes), Ok(message));
}

#[test]
fn response_round_trip() {
    let message = HeaderResponse {
        direction: Direction::ResponsePath,
        header: b"abc".to_vec(),
    };
    let bytes = encode_response(&message);
    assert_eq!(decode_response(&bytes), Ok(message));
}

#[test]
fn empty_field_round_trip() {
    let message = HeaderRequest {
        direction: Direction::ResponsePath,
        transaction_id: Vec::new(),
    };
    let bytes = encode_request(&message);
    assert_eq!(bytes.len(), 6);
    assert_eq!(decode_request(&bytes), Ok(message));
}

#[test]
fn encode_request_exact_bytes() {
    let message = HeaderRequest {
        direction: Direction::RequestPath,
        transaction_id: b"tx1".to_vec(),
    };
    assert_eq!(
        encode_request(&message),
        vec![1, 0, 0, 0, 0, 3, b't', b'x', b'1']
    );
}

#[test]
fn encode_response_exact_bytes() {
    let message = HeaderResponse {
        direction: Direction::ResponsePath,
        header: b"abc".to_vec(),
    };
    assert_eq!(
        encode_response(&message),
        vec![2, 1, 0, 0, 0, 3, b'a', b'b', b'c']
    );
}

#[test]
fn decode_rejects_empty_buffer() {
    assert_eq!(decode_response(&[]), Err(DecodeError::Truncated));
}

#[test]
fn decode_rejects_truncated_header() {
    let bytes = encode_response(&HeaderResponse {
        direction: Direction::RequestPath,
        header: b"abc".to_vec(),
    });
    assert_eq!(decode_response(&bytes[..5]), Err(DecodeError::Truncated));
}

#[test]
fn decode_rejects_truncated_field() {
    let bytes = encode_response(&HeaderResponse {
        direction: Direction::RequestPath,
        header: b"abc".to_vec(),
    });
    assert_eq!(
        decode_response(&bytes[..bytes.len() - 1]),
        Err(DecodeError::Truncated)
    );
}

#[test]
fn decode_rejects_unknown_direction() {
    let bytes = vec![2, 7, 0, 0, 0, 0];
    assert_eq!(decode_response(&bytes), Err(DecodeError::UnknownDirection));
}

#[test]
fn decode_rejects_wrong_message_tag() {
    let request_bytes = encode_request(&HeaderRequest {
        direction: Direction::RequestPath,
        transaction_id: b"tx1".to_vec(),
    });
    assert_eq!(
        decode_response(&request_bytes),
        Err(DecodeError::WrongMessageTag)
    );
}

#[test]
fn decode_rejects_trailing_bytes() {
    let mut bytes = encode_response(&HeaderResponse {
        direction: Direction::ResponsePath,
        header: b"abc".to_vec(),
    });
    bytes.push(0);
    assert_eq!(decode_response(&bytes), Err(DecodeError::TrailingBytes));
}
