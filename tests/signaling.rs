use d_id_stream::signaling::{read_reply, sdp_path, RejectionBody, SignalingError, StartStreamRequestBody};

#[test]
fn answer_path_names_the_session() {
    assert_eq!(sdp_path("str1"), "/streams/str1/sdp");
}

#[test]
fn answer_body_carries_answer_and_session_id() {
    let b = StartStreamRequestBody::new("v=0".to_string(), "sess1".to_string());
    assert_eq!(b.answer.kind, "answer");
    assert_eq!(b.answer.sdp, "v=0");
    assert_eq!(b.session_id, "sess1");
}

#[test]
fn success_reply_yields_value() {
    assert_eq!(read_reply::<u32>(200, Some(7), None).unwrap(), 7);
    assert_eq!(read_reply::<u32>(299, Some(8), None).unwrap(), 8);
}

#[test]
fn success_reply_without_value_is_malformed() {
    assert!(matches!(read_reply::<u32>(201, None, None), Err(SignalingError::Malformed(_))));
}

#[test]
fn error_status_without_structured_body_is_malformed() {
    assert!(matches!(read_reply::<u32>(500, Some(1), None), Err(SignalingError::Malformed(_))));
}

#[test]
fn error_status_with_body_is_rejection() {
    let body = RejectionBody { kind: "NotFound".to_string(), description: "gone".to_string(), details: None };
    match read_reply::<u32>(404, None, Some(body)) {
        Err(SignalingError::Rejected(r)) => {
            assert_eq!(r.status, 404);
            assert_eq!(r.kind, "NotFound");
            assert_eq!(r.description, "gone");
        }
        _ => panic!("expected a rejection"),
    }
}
