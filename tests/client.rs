use e2b_sdk::endpoints::{
    bearer_header, compose_session_id, execute_url, session_url, EVENT_CHANNEL_CAPACITY,
    SANDBOXES_URL, SANDBOX_TIMEOUT_SECS, TEMPLATE_ID,
};
use e2b_sdk::event::{decode_event, event_from_members, ExecuteResponse, Timestamp};
use e2b_sdk::json::find_member;
use e2b_sdk::lifecycle::{
    create_outcome, create_request, execute_request, kill_outcome, session_from_members,
    ClientError,
};
use e2b_sdk::producer::{Phase, Producer, ProducerAction, ProducerInput};

fn chunk(s: &str) -> ProducerInput {
    ProducerInput::Chunk(s.as_bytes().to_vec())
}

fn members(pairs: &[(&str, Option<&str>)]) -> Vec<(String, Option<String>)> {
    pairs.iter().map(|(k, v)| (k.to_string(), v.map(|t| t.to_string()))).collect()
}

#[test]
fn create_response_gives_joined_session_id() {
    let r = create_outcome(200, r#"{"sandboxID":"sb1","clientID":"cl1"}"#);
    match r {
        Ok(id) => assert_eq!(id, "sb1-cl1"),
        Err(e) => panic!("unexpected error {:?}", e),
    }
}

#[test]
fn create_response_ignores_extra_members() {
    let r = create_outcome(201, r#"{"clientID":"c","templateID":"t","sandboxID":"s","alive":true}"#);
    assert!(matches!(r, Ok(ref id) if id == "s-c"));
}

#[test]
fn create_failure_status_carries_body() {
    let r = create_outcome(500, "quota exceeded");
    assert!(matches!(r, Err(ClientError::Service(ref m)) if m == "quota exceeded"));
    let r = create_outcome(404, "");
    assert!(matches!(r, Err(ClientError::Service(ref m)) if m.is_empty()));
}

#[test]
fn create_success_with_bad_body_is_decode_error() {
    assert!(matches!(create_outcome(200, "not json"), Err(ClientError::Decode)));
    assert!(matches!(create_outcome(200, r#"{"sandboxID":"sb1"}"#), Err(ClientError::Decode)));
    assert!(matches!(
        create_outcome(200, r#"{"sandboxID":"sb1","clientID":7}"#),
        Err(ClientError::Decode)
    ));
    assert!(matches!(create_outcome(200, r#"["sb1","cl1"]"#), Err(ClientError::Decode)));
}

#[test]
fn session_id_is_joined_with_dash() {
    assert_eq!(compose_session_id("sb1", "cl1"), "sb1-cl1");
    assert_eq!(compose_session_id("", ""), "-");
}

#[test]
fn session_from_members_reads_both_ids() {
    let ms = members(&[("clientID", Some("c9")), ("sandboxID", Some("a-b"))]);
    assert_eq!(session_from_members(&ms), Some("a-b-c9".to_string()));
    let ms = members(&[("clientID", Some("c9")), ("sandboxID", None)]);
    assert_eq!(session_from_members(&ms), None);
}

#[test]
fn request_targets_are_templated() {
    assert_eq!(execute_url("sb1-cl1"), "https://49999-sb1-cl1.e2b.dev/execute");
    assert_eq!(session_url("sb1-cl1"), "https://api.e2b.dev/sandboxes/sb1-cl1");
    assert_eq!(SANDBOXES_URL, "https://api.e2b.dev/sandboxes");
    assert_eq!(bearer_header("key"), "Bearer key");
}

#[test]
fn request_payloads() {
    let c = create_request();
    assert_eq!(c.template_id, TEMPLATE_ID);
    assert_eq!(c.template_id, "code-interpreter-beta");
    assert_eq!(c.timeout, SANDBOX_TIMEOUT_SECS);
    assert_eq!(c.timeout, 10);
    assert_eq!(execute_request("print(1)\n").code, "print(1)\n");
    assert_eq!(EVENT_CHANNEL_CAPACITY, 100);
}

#[test]
fn kill_of_expired_session_is_not_an_error() {
    assert!(kill_outcome(404).is_ok());
    assert!(kill_outcome(204).is_ok());
}

#[test]
fn find_member_takes_string_values_only() {
    let ms = members(&[("a", Some("1")), ("b", None)]);
    assert_eq!(find_member(&ms, &"a".to_string()), Some("1".to_string()));
    assert_eq!(find_member(&ms, &"b".to_string()), None);
    assert_eq!(find_member(&ms, &"c".to_string()), None);
}

#[test]
fn decodes_stdout_with_instant() {
    let e = decode_event(br#"{"type":"stdout","text":"hi","timestamp":"2024-01-01T00:00:00Z"}"#);
    match e {
        Some(ExecuteResponse::Stdout { text, timestamp }) => {
            assert_eq!(text, "hi");
            assert_eq!(timestamp, Timestamp { secs: 1704067200, nanos: 0 });
        }
        other => panic!("unexpected {:?}", other),
    }
}

#[test]
fn decodes_stdout_with_offset_and_fraction() {
    let e = decode_event(
        br#"{"timestamp":"2024-01-01T01:00:00.5+01:00","text":"x","type":"stdout"}"#,
    );
    match e {
        Some(ExecuteResponse::Stdout { timestamp, .. }) => {
            assert_eq!(timestamp, Timestamp { secs: 1704067200, nanos: 500_000_000 });
        }
        other => panic!("unexpected {:?}", other),
    }
}

#[test]
fn decodes_other_variants() {
    assert!(matches!(
        decode_event(br#"{"type":"stderr","name":"oops"}"#),
        Some(ExecuteResponse::Stderr { ref name }) if name == "oops"
    ));
    assert!(matches!(
        decode_event(br#"{"type":"result","content":"42"}"#),
        Some(ExecuteResponse::Result { ref content }) if content == "42"
    ));
    assert!(matches!(
        decode_event(br#" {"type":"error","name":"ValueError","value":"bad"} "#),
        Some(ExecuteResponse::Error { ref name, ref value }) if name == "ValueError" && value == "bad"
    ));
}

#[test]
fn undecodable_frames_give_no_event() {
    assert!(decode_event(b"").is_none());
    assert!(decode_event(br#"{"type":"stdout","text":"hi""#).is_none());
    assert!(decode_event(br#"{"type":"progress","content":"1"}"#).is_none());
    assert!(decode_event(br#"{"content":"1"}"#).is_none());
    assert!(decode_event(br#"{"type":"result"}"#).is_none());
    assert!(decode_event(br#"{"type":"result","content":42}"#).is_none());
    assert!(decode_event(br#"{"type":"stdout","text":"hi","timestamp":"yesterday"}"#).is_none());
    assert!(decode_event(br#"{"type":"result","content":"1"}{"type":"result","content":"2"}"#).is_none());
}

#[test]
fn event_from_members_dispatches_on_tag() {
    let ms = members(&[("content", Some("7")), ("type", Some("result"))]);
    assert!(matches!(event_from_members(&ms), Some(ExecuteResponse::Result { ref content }) if content == "7"));
    let ms = members(&[("name", Some("E")), ("type", Some("error"))]);
    assert!(event_from_members(&ms).is_none());
    let ms = members(&[("type", None)]);
    assert!(event_from_members(&ms).is_none());
}

#[test]
fn stream_of_two_events_then_end() {
    let mut p = Producer::new();
    assert_eq!(p.phase, Phase::Connecting);
    assert!(matches!(p.on_input(ProducerInput::Connected), ProducerAction::ReadChunk));
    match p.on_input(chunk(r#"{"type":"stdout","text":"hi","timestamp":"2024-01-01T00:00:00Z"}"#)) {
        ProducerAction::Send(ExecuteResponse::Stdout { text, .. }) => assert_eq!(text, "hi"),
        other => panic!("unexpected {:?}", other),
    }
    assert_eq!(p.phase, Phase::Sending);
    assert!(matches!(p.on_input(ProducerInput::Sent), ProducerAction::ReadChunk));
    match p.on_input(chunk(r#"{"type":"result","content":"42"}"#)) {
        ProducerAction::Send(ExecuteResponse::Result { content }) => assert_eq!(content, "42"),
        other => panic!("unexpected {:?}", other),
    }
    assert!(matches!(p.on_input(ProducerInput::Sent), ProducerAction::ReadChunk));
    assert!(matches!(p.on_input(ProducerInput::EndOfBody), ProducerAction::Close));
    assert_eq!(p.phase, Phase::Closed);
}

#[test]
fn malformed_chunk_is_skipped_and_stream_goes_on() {
    let mut p = Producer::new();
    p.on_input(ProducerInput::Connected);
    assert!(matches!(p.on_input(chunk("{not json")), ProducerAction::Skip));
    assert_eq!(p.phase, Phase::Reading);
    assert!(matches!(
        p.on_input(chunk(r#"{"type":"stderr","name":"warn"}"#)),
        ProducerAction::Send(ExecuteResponse::Stderr { .. })
    ));
}

#[test]
fn empty_body_closes_without_events() {
    let mut p = Producer::new();
    p.on_input(ProducerInput::Connected);
    assert!(matches!(p.on_input(ProducerInput::EndOfBody), ProducerAction::Close));
    assert!(matches!(p.on_input(chunk(r#"{"type":"result","content":"1"}"#)), ProducerAction::Close));
}

#[test]
fn pending_send_blocks_further_reading() {
    let mut p = Producer::new();
    p.on_input(ProducerInput::Connected);
    p.on_input(chunk(r#"{"type":"result","content":"1"}"#));
    assert_eq!(p.phase, Phase::Sending);
    assert!(matches!(p.on_input(chunk(r#"{"type":"result","content":"2"}"#)), ProducerAction::Close));
    let mut q = Producer::new();
    q.on_input(ProducerInput::Connected);
    q.on_input(chunk(r#"{"type":"result","content":"1"}"#));
    assert!(matches!(q.on_input(ProducerInput::ReceiverGone), ProducerAction::Close));
    assert_eq!(q.phase, Phase::Closed);
}

#[test]
fn transport_failures_close_the_stream() {
    let mut p = Producer::new();
    assert!(matches!(p.on_input(ProducerInput::ConnectFailed), ProducerAction::Close));
    let mut q = Producer::new();
    q.on_input(ProducerInput::Connected);
    assert!(matches!(q.on_input(ProducerInput::ChunkFailed), ProducerAction::Close));
}
