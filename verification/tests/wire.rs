use greeter::wire::{
    check_length, declared_length, decode_response, encode_request, finish_frame,
    settle_response, AuthMessageType, DecodeFault, ErrorType, FramingError, Request, Response, HEADER_LEN,
    MAX_PAYLOAD,
};
use greetd_ipc::codec::SyncCodec;

fn frame_of(payload: &[u8]) -> Vec<u8> {
    let mut frame = (payload.len() as u32).to_ne_bytes().to_vec();
    frame.extend_from_slice(payload);
    frame
}

fn written(response: greetd_ipc::Response) -> Vec<u8> {
    let mut frame = Vec::new();
    response.write_to(&mut frame).unwrap();
    frame
}

#[test]
fn encoded_create_session_is_length_then_json() {
    let frame = encode_request(&Request::CreateSession { username: "alice".to_string() }).unwrap();
    let json = br#"{"type":"create_session","username":"alice"}"#;
    assert_eq!(frame, frame_of(json));
    assert_eq!(&frame[..4], &(json.len() as u32).to_ne_bytes());
}

#[test]
fn encoded_password_is_length_then_json() {
    let frame =
        encode_request(&Request::PostAuthMessageResponse { response: Some("secret".to_string()) })
            .unwrap();
    assert_eq!(frame, frame_of(br#"{"type":"post_auth_message_response","response":"secret"}"#));
    let frame = encode_request(&Request::PostAuthMessageResponse { response: None }).unwrap();
    assert_eq!(frame, frame_of(br#"{"type":"post_auth_message_response","response":null}"#));
}

#[test]
fn encoded_start_and_cancel_are_length_then_json() {
    let frame = encode_request(&Request::StartSession { cmd: vec!["sway".to_string()] }).unwrap();
    assert_eq!(frame, frame_of(br#"{"type":"start_session","cmd":["sway"]}"#));
    let frame = encode_request(&Request::CancelSession).unwrap();
    assert_eq!(frame, frame_of(br#"{"type":"cancel_session"}"#));
}

#[test]
fn encoded_requests_are_read_back_by_the_codec() {
    let frame = encode_request(&Request::CreateSession { username: "bob".to_string() }).unwrap();
    match greetd_ipc::Request::read_from(&mut &frame[..]).unwrap() {
        greetd_ipc::Request::CreateSession { username } => assert_eq!(username, "bob"),
        other => panic!("unexpected request {:?}", other),
    }
    let frame = encode_request(&Request::StartSession {
        cmd: vec!["sway".to_string(), "--debug".to_string()],
    })
    .unwrap();
    match greetd_ipc::Request::read_from(&mut &frame[..]).unwrap() {
        greetd_ipc::Request::StartSession { cmd } => assert_eq!(cmd, vec!["sway", "--debug"]),
        other => panic!("unexpected request {:?}", other),
    }
}

#[test]
fn decodes_success() {
    assert_eq!(decode_response(&frame_of(br#"{"type":"success"}"#)), Ok(Response::Success));
    assert_eq!(decode_response(&written(greetd_ipc::Response::Success)), Ok(Response::Success));
}

#[test]
fn decodes_errors_of_both_kinds() {
    let frame = written(greetd_ipc::Response::Error {
        error_type: greetd_ipc::ErrorType::AuthError,
        description: "bad user".to_string(),
    });
    assert_eq!(
        decode_response(&frame),
        Ok(Response::Error {
            error_type: ErrorType::AuthError,
            description: "bad user".to_string()
        })
    );
    let frame = frame_of(br#"{"type":"error","error_type":"error","description":"pam is down"}"#);
    assert_eq!(
        decode_response(&frame),
        Ok(Response::Error { error_type: ErrorType::Error, description: "pam is down".to_string() })
    );
}

#[test]
fn decodes_auth_messages_of_every_kind() {
    let kinds = [
        (greetd_ipc::AuthMessageType::Visible, AuthMessageType::Visible),
        (greetd_ipc::AuthMessageType::Secret, AuthMessageType::Secret),
        (greetd_ipc::AuthMessageType::Info, AuthMessageType::Info),
        (greetd_ipc::AuthMessageType::Error, AuthMessageType::Error),
    ];
    for (outside, kind) in kinds {
        let frame = written(greetd_ipc::Response::AuthMessage {
            auth_message_type: outside,
            auth_message: "Password:".to_string(),
        });
        assert_eq!(
            decode_response(&frame),
            Ok(Response::AuthMessage {
                auth_message_type: kind,
                auth_message: "Password:".to_string()
            })
        );
    }
}

#[test]
fn short_header_is_truncated() {
    assert_eq!(decode_response(&[]), Err(FramingError::Truncated));
    assert_eq!(decode_response(&[18, 0, 0]), Err(FramingError::Truncated));
}

#[test]
fn short_payload_is_truncated() {
    let mut frame = frame_of(br#"{"type":"success"}"#);
    frame.pop();
    assert_eq!(decode_response(&frame), Err(FramingError::Truncated));
    assert_eq!(decode_response(&frame[..4]), Err(FramingError::Truncated));
}

#[test]
fn bytes_behind_the_payload_are_overlong() {
    let mut frame = frame_of(br#"{"type":"success"}"#);
    frame.push(b' ');
    assert_eq!(decode_response(&frame), Err(FramingError::Overlong));
}

#[test]
fn payload_that_is_no_response_is_malformed() {
    match decode_response(&frame_of(b"not json")) {
        Err(FramingError::Malformed(text)) => {
            assert_eq!(text, "expected ident at line 1 column 2");
            assert_eq!(
                FramingError::Malformed(text).message(),
                "serialization error: expected ident at line 1 column 2"
            );
        }
        other => panic!("unexpected result {:?}", other),
    }
    match decode_response(&frame_of(br#"{"type":"create_session","username":"alice"}"#)) {
        Err(FramingError::Malformed(_)) => {}
        other => panic!("unexpected result {:?}", other),
    }
    match decode_response(&frame_of(b"")) {
        Err(FramingError::Malformed(_)) => {}
        other => panic!("unexpected result {:?}", other),
    }
}

#[test]
fn malformed_text_is_the_codec_text_without_its_prefix() {
    let frame = frame_of(b"{}");
    let fault = greetd_ipc::Response::read_from(&mut &frame[..]).unwrap_err();
    match decode_response(&frame) {
        Err(error) => assert_eq!(error.message(), fault.to_string()),
        other => panic!("unexpected result {:?}", other),
    }
}

#[test]
fn declared_length_reads_the_header() {
    assert_eq!(declared_length(&300u32.to_ne_bytes()), Ok(300));
    assert_eq!(declared_length(&frame_of(b"abcdef")), Ok(6));
    assert_eq!(declared_length(&0u32.to_ne_bytes()), Ok(0));
    assert_eq!(declared_length(&u32::MAX.to_ne_bytes()), Ok(MAX_PAYLOAD));
    assert_eq!(declared_length(&[1, 2, 3]), Err(FramingError::Truncated));
    assert_eq!(HEADER_LEN, 4);
}

#[test]
fn check_length_compares() {
    assert_eq!(check_length(5, 5), Ok(()));
    assert_eq!(check_length(0, 0), Ok(()));
    assert_eq!(check_length(6, 5), Err(FramingError::Truncated));
    assert_eq!(check_length(4, 5), Err(FramingError::Overlong));
}

#[test]
fn finish_frame_settles_what_was_written() {
    assert_eq!(finish_frame(Ok(vec![0, 0, 0, 0])), Ok(vec![0, 0, 0, 0]));
    assert_eq!(finish_frame(Ok(vec![2, 0, 0, 0, b'{', b'}'])), Ok(vec![2, 0, 0, 0, b'{', b'}']));
    assert_eq!(finish_frame(Ok(vec![0, 0, 0])), Err(FramingError::Truncated));
    assert_eq!(
        finish_frame(Err("key must be a string".to_string())),
        Err(FramingError::Unrepresentable("key must be a string".to_string()))
    );
}

#[test]
fn settle_response_settles_what_was_read() {
    assert_eq!(settle_response(Ok(Response::Success), 0), Ok(Response::Success));
    assert_eq!(settle_response(Ok(Response::Success), 3), Err(FramingError::Overlong));
    assert_eq!(
        settle_response(Err(DecodeFault::Serialization("EOF while parsing".to_string())), 0),
        Err(FramingError::Malformed("EOF while parsing".to_string()))
    );
    assert_eq!(
        settle_response(Err(DecodeFault::Serialization("EOF while parsing".to_string())), 2),
        Err(FramingError::Overlong)
    );
    for unread in [0, 2] {
        assert_eq!(
            settle_response(Err(DecodeFault::Io("failed to fill whole buffer".to_string())), unread),
            Err(FramingError::Truncated)
        );
        assert_eq!(settle_response(Err(DecodeFault::Eof), unread), Err(FramingError::Truncated));
    }
}

#[test]
fn every_kind_of_request_is_encoded() {
    let requests = vec![
        Request::CreateSession { username: "a \"quoted\" \u{1F980} name\n".to_string() },
        Request::CreateSession { username: String::new() },
        Request::PostAuthMessageResponse { response: None },
        Request::PostAuthMessageResponse { response: Some("\u{0}\\".to_string()) },
        Request::StartSession { cmd: vec![] },
        Request::StartSession { cmd: vec![String::new(), "sway".to_string()] },
        Request::CancelSession,
    ];
    for request in requests {
        let frame = encode_request(&request).unwrap();
        assert_eq!(declared_length(&frame), Ok(frame.len() - HEADER_LEN));
        assert!(greetd_ipc::Request::read_from(&mut &frame[..]).is_ok());
    }
}

#[test]
fn framing_error_messages() {
    assert_eq!(FramingError::Truncated.message(), "truncated frame");
    assert_eq!(FramingError::Overlong.message(), "bytes after the end of the frame");
    assert_eq!(FramingError::Oversized.message(), "message too long for a frame");
    assert_eq!(
        FramingError::Malformed("bad".to_string()).message(),
        "serialization error: bad"
    );
    assert_eq!(FramingError::Unrepresentable("worse".to_string()).message(), "worse");
}
