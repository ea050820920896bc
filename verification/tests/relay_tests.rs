use plumise_agent::relay::{
    auth_message, auth_verdict, check_auth, classify_sse_line, completion_frame,
    completion_frame_from, relay_step, stream_delta, stream_open_failure, AuthEvent, AuthFailure, Backoff,
    EngineReply, InboundFrame, OutFrame, RelayPhase, RelaySession, RelayStep, SocketEvent,
    SseLine, StreamRelay,
};

#[test]
fn backoff_doubles_up_to_sixty_seconds() {
    let mut backoff = Backoff::new();
    let mut delays = Vec::new();
    for _ in 0..9 {
        delays.push(backoff.next(false));
    }
    assert_eq!(delays, vec![1, 2, 4, 8, 16, 32, 60, 60, 60]);
}

#[test]
fn successful_connection_resets_backoff() {
    let mut backoff = Backoff::new();
    for _ in 0..7 {
        backoff.next(false);
    }
    assert_eq!(backoff.next(true), 1);
    assert_eq!(backoff.next(false), 2);
    assert_eq!(backoff.next(false), 4);
    assert_eq!(backoff.next(true), 1);
    assert_eq!(backoff.next(true), 1);
}

#[test]
fn auth_message_has_fixed_field_order() {
    assert_eq!(
        auth_message("0xabc", "qwen/qwen3-32b", 1700000001),
        "{\"address\":\"0xabc\",\"model\":\"qwen/qwen3-32b\",\"timestamp\":1700000001}"
    );
}

#[test]
fn frames_encode_as_json_objects() {
    let auth = OutFrame::Auth {
        address: "0xabc".to_string(),
        model: "m".to_string(),
        timestamp: 12,
        signature: "0xsig".to_string(),
    };
    assert_eq!(
        auth.encode(),
        "{\"address\":\"0xabc\",\"model\":\"m\",\"signature\":\"0xsig\",\"timestamp\":12,\"type\":\"auth\"}"
    );
    assert_eq!(OutFrame::Ping.encode(), "{\"type\":\"ping\"}");
    let chunk = OutFrame::Chunk { id: "r1".to_string(), content: "Hel".to_string() };
    assert_eq!(chunk.encode(), "{\"content\":\"Hel\",\"id\":\"r1\",\"type\":\"chunk\"}");
    let done = OutFrame::Done { id: "r1".to_string() };
    assert_eq!(done.encode(), "{\"id\":\"r1\",\"type\":\"done\"}");
    let error = OutFrame::Error { id: "r1".to_string(), message: "a \"b\"".to_string() };
    assert_eq!(
        error.encode(),
        "{\"id\":\"r1\",\"message\":\"a \\\"b\\\"\",\"type\":\"error\"}"
    );
    let response = OutFrame::Response {
        id: "r2".to_string(),
        choices: "[{\"index\":0}]".to_string(),
        usage: "null".to_string(),
    };
    assert_eq!(
        response.encode(),
        "{\"choices\":[{\"index\":0}],\"id\":\"r2\",\"type\":\"response\",\"usage\":null}"
    );
}

#[test]
fn encoded_frames_parse_back() {
    let chunk = OutFrame::Chunk { id: "id\t1".to_string(), content: "line\nbreak \u{1}".to_string() };
    let parsed: serde_json::Value = serde_json::from_str(&chunk.encode()).unwrap();
    assert_eq!(parsed["type"].as_str(), Some("chunk"));
    assert_eq!(parsed["id"].as_str(), Some("id\t1"));
    assert_eq!(parsed["content"].as_str(), Some("line\nbreak \u{1}"));
}

#[test]
fn auth_ok_opens_the_session() {
    assert!(check_auth(AuthEvent::Text("{\"type\":\"auth_ok\"}".to_string())).is_ok());
}

#[test]
fn any_other_answer_is_a_rejection() {
    let e = check_auth(AuthEvent::Text(
        "{\"type\":\"auth_error\",\"message\":\"bad signature\"}".to_string(),
    ))
    .unwrap_err();
    assert_eq!(e.kind, AuthFailure::Rejected);
    assert_eq!(e.message(), "Auth rejected: bad signature");
    let e = check_auth(AuthEvent::Text("{\"type\":\"pong\"}".to_string())).unwrap_err();
    assert_eq!(e.message(), "Auth rejected: unknown error");
    let e = check_auth(AuthEvent::Text("{\"auth_ok\":true}".to_string())).unwrap_err();
    assert_eq!(e.kind, AuthFailure::Rejected);
}

#[test]
fn unusable_answers_fail_the_attempt() {
    let e = check_auth(AuthEvent::Text("not json".to_string())).unwrap_err();
    assert_eq!(e.kind, AuthFailure::Unparsable);
    assert_eq!(e.message(), "Auth response parse error");
    let e = check_auth(AuthEvent::Timeout).unwrap_err();
    assert_eq!(e.kind, AuthFailure::Timeout);
    assert_eq!(e.message(), "Auth response timeout");
    let e = check_auth(AuthEvent::Closed).unwrap_err();
    assert_eq!(e.message(), "Connection closed during auth");
    let e = check_auth(AuthEvent::ReadError("reset".to_string())).unwrap_err();
    assert_eq!(e.message(), "Auth read error: reset");
    let e = check_auth(AuthEvent::NotText("binary".to_string())).unwrap_err();
    assert_eq!(e.message(), "Auth response not text: binary");
}

#[test]
fn verdict_from_parts() {
    assert!(auth_verdict(true, Some("auth_ok".to_string()), None).is_ok());
    assert!(auth_verdict(true, Some("auth_ok".to_string()), Some("x".to_string())).is_ok());
    assert_eq!(
        auth_verdict(false, Some("auth_ok".to_string()), None).unwrap_err().kind,
        AuthFailure::Unparsable
    );
    assert_eq!(auth_verdict(true, None, None).unwrap_err().detail, "unknown error");
}

fn frame(kind: &str, id: &str, stream: bool) -> SocketEvent {
    SocketEvent::Frame(InboundFrame { kind: kind.to_string(), id: id.to_string(), stream })
}

#[test]
fn requests_are_forwarded_under_their_id() {
    match relay_step(frame("request", "req-7", true)) {
        RelayStep::Forward { id, stream } => {
            assert_eq!(id, "req-7");
            assert!(stream);
        }
        other => panic!("unexpected step {:?}", other),
    }
    assert!(matches!(
        relay_step(frame("request", "req-8", false)),
        RelayStep::Forward { stream: false, .. }
    ));
}

#[test]
fn other_frames_are_passed_over() {
    assert!(matches!(relay_step(frame("pong", "", false)), RelayStep::Skip));
    assert!(matches!(relay_step(frame("mystery", "x", true)), RelayStep::Skip));
    assert!(matches!(relay_step(SocketEvent::Malformed), RelayStep::Skip));
    assert!(matches!(relay_step(SocketEvent::Other), RelayStep::Skip));
}

#[test]
fn pings_are_answered_and_closes_end_the_loop() {
    match relay_step(SocketEvent::Ping(vec![1, 2, 3])) {
        RelayStep::Pong(payload) => assert_eq!(payload, vec![1, 2, 3]),
        other => panic!("unexpected step {:?}", other),
    }
    assert!(matches!(relay_step(SocketEvent::Close), RelayStep::Disconnect));
    assert!(matches!(relay_step(SocketEvent::ReadError), RelayStep::Disconnect));
}

#[test]
fn sse_lines_are_classified() {
    assert!(matches!(classify_sse_line(""), SseLine::Ignored));
    assert!(matches!(classify_sse_line(": keep-alive"), SseLine::Ignored));
    assert!(matches!(classify_sse_line("data:[DONE]"), SseLine::Ignored));
    assert!(matches!(classify_sse_line("data: [DONE]"), SseLine::Done));
    match classify_sse_line("data: {\"a\":1}") {
        SseLine::Data(payload) => assert_eq!(payload, "{\"a\":1}"),
        other => panic!("unexpected line {:?}", other),
    }
    match classify_sse_line("data: [DONE] ") {
        SseLine::Data(payload) => assert_eq!(payload, "[DONE] "),
        other => panic!("unexpected line {:?}", other),
    }
    match classify_sse_line("data: ") {
        SseLine::Data(payload) => assert_eq!(payload, ""),
        other => panic!("unexpected line {:?}", other),
    }
}

fn delta_line(content: &str) -> String {
    format!("data: {{\"choices\":[{{\"delta\":{{\"content\":\"{}\"}}}}]}}", content)
}

#[test]
fn streamed_deltas_become_chunks_then_done() {
    let mut relay = StreamRelay::new("req-1".to_string());
    let mut sent: Vec<String> = Vec::new();
    for line in [delta_line("Hel"), String::new(), delta_line("lo"), "data: [DONE]".to_string()] {
        if let Some(frame) = relay.on_line(&line) {
            sent.push(frame.encode());
        }
    }
    assert_eq!(
        sent,
        vec![
            "{\"content\":\"Hel\",\"id\":\"req-1\",\"type\":\"chunk\"}".to_string(),
            "{\"content\":\"lo\",\"id\":\"req-1\",\"type\":\"chunk\"}".to_string(),
            "{\"id\":\"req-1\",\"type\":\"done\"}".to_string(),
        ]
    );
    assert!(relay.finished);
    assert!(relay.on_line(&delta_line("late")).is_none());
    assert!(relay.on_line("data: [DONE]").is_none());
    assert!(relay.on_end().is_none());
    assert!(relay.on_failure("late".to_string()).is_none());
}

#[test]
fn empty_and_missing_deltas_send_nothing() {
    let mut relay = StreamRelay::new("r".to_string());
    assert!(relay.on_line(&delta_line("")).is_none());
    assert!(relay.on_line("data: {\"choices\":[{\"delta\":{\"role\":\"assistant\"}}]}").is_none());
    assert!(relay.on_line("data: not json").is_none());
    assert!(relay.on_line("data: {\"choices\":{\"0\":{\"delta\":{\"content\":\"x\"}}}}").is_none());
    assert!(relay.on_delta(None).is_none());
    assert!(relay.on_delta(Some(String::new())).is_none());
    assert!(!relay.finished);
    assert!(matches!(relay.on_delta(Some("x".to_string())), Some(OutFrame::Chunk { .. })));
}

#[test]
fn stream_closed_without_marker_still_ends_with_done() {
    let mut relay = StreamRelay::new("r".to_string());
    relay.on_line(&delta_line("a"));
    match relay.on_end() {
        Some(OutFrame::Done { id }) => assert_eq!(id, "r"),
        other => panic!("unexpected frame {:?}", other),
    }
    assert!(relay.on_end().is_none());
}

#[test]
fn failure_in_mid_stream_ends_with_error() {
    let mut relay = StreamRelay::new("r".to_string());
    relay.on_line(&delta_line("a"));
    match relay.on_failure("connection reset".to_string()) {
        Some(OutFrame::Error { id, message }) => {
            assert_eq!(id, "r");
            assert_eq!(message, "connection reset");
        }
        other => panic!("unexpected frame {:?}", other),
    }
    assert!(relay.on_line(&delta_line("b")).is_none());
    assert!(relay.on_end().is_none());
}

#[test]
fn completion_is_relayed_with_choices_and_usage() {
    let body = "{\"choices\":[{\"message\":{\"content\":\"hi\"}}],\"usage\":{\"total_tokens\":3},\"x\":1}";
    match completion_frame("req-2", EngineReply::Answered(body.to_string())) {
        OutFrame::Response { id, choices, usage } => {
            assert_eq!(id, "req-2");
            assert_eq!(choices, "[{\"message\":{\"content\":\"hi\"}}]");
            assert_eq!(usage, "{\"total_tokens\":3}");
        }
        other => panic!("unexpected frame {:?}", other),
    }
    match completion_frame("req-3", EngineReply::Answered("{}".to_string())) {
        OutFrame::Response { choices, usage, .. } => {
            assert_eq!(choices, "null");
            assert_eq!(usage, "null");
        }
        other => panic!("unexpected frame {:?}", other),
    }
}

#[test]
fn failed_completions_become_error_frames() {
    match completion_frame("r", EngineReply::Answered("<html>".to_string())) {
        OutFrame::Error { message, .. } => assert_eq!(message, "Response parse error: invalid JSON"),
        other => panic!("unexpected frame {:?}", other),
    }
    match completion_frame("r", EngineReply::Unreachable("refused".to_string())) {
        OutFrame::Error { id, message } => {
            assert_eq!(id, "r");
            assert_eq!(message, "llama-server request failed: refused");
        }
        other => panic!("unexpected frame {:?}", other),
    }
    let reply = EngineReply::Refused { status: "500".to_string(), body: "y".repeat(250) };
    match completion_frame("r", reply) {
        OutFrame::Error { message, .. } => {
            assert_eq!(message, format!("llama-server error 500: {}", "y".repeat(200)))
        }
        other => panic!("unexpected frame {:?}", other),
    }
    match completion_frame_from("r", EngineReply::Answered(String::new()), Some("[]".to_string()), None) {
        OutFrame::Error { .. } => {}
        other => panic!("unexpected frame {:?}", other),
    }
}

#[test]
fn stream_that_cannot_be_opened_is_an_error() {
    match stream_open_failure("r", EngineReply::Unreachable("down".to_string())) {
        Some(OutFrame::Error { message, .. }) => assert_eq!(message, "llama-server stream failed: down"),
        other => panic!("unexpected frame {:?}", other),
    }
    match stream_open_failure(
        "r",
        EngineReply::Refused { status: "503".to_string(), body: "busy".to_string() },
    ) {
        Some(OutFrame::Error { message, .. }) => {
            assert_eq!(message, "llama-server stream error 503: busy")
        }
        other => panic!("unexpected frame {:?}", other),
    }
    assert!(stream_open_failure("r", EngineReply::Answered(String::new())).is_none());
}

#[test]
fn session_walks_through_its_phases() {
    let mut session = RelaySession::new();
    assert_eq!(session.phase, RelayPhase::Connecting);
    assert!(!session.take_ping(100));
    session.on_connect(true);
    assert_eq!(session.phase, RelayPhase::Authenticating);
    session.on_auth(true, 100);
    assert_eq!(session.phase, RelayPhase::Active);
    assert!(session.connected_once());
    assert!(session.take_ping(100));
    assert!(!session.take_ping(129));
    assert!(session.take_ping(130));
    assert!(!session.take_ping(131));
    session.on_step(&RelayStep::Skip);
    assert_eq!(session.phase, RelayPhase::Active);
    session.on_step(&RelayStep::Disconnect);
    assert_eq!(session.phase, RelayPhase::Closed);
    assert!(session.connected_once());
    assert!(!session.take_ping(1000));
}

#[test]
fn failed_sessions_do_not_count_as_connected() {
    let mut session = RelaySession::new();
    session.on_connect(false);
    assert_eq!(session.phase, RelayPhase::Failed);
    assert!(!session.connected_once());
    let mut rejected = RelaySession::new();
    rejected.on_connect(true);
    rejected.on_auth(false, 5);
    assert_eq!(rejected.phase, RelayPhase::Failed);
    assert!(!rejected.connected_once());
    rejected.on_auth(true, 6);
    assert_eq!(rejected.phase, RelayPhase::Failed);
}

#[test]
fn delta_is_read_from_choices_delta_content() {
    assert_eq!(
        stream_delta("{\"choices\":[{\"delta\":{\"content\":\"Hel\"}}]}"),
        Some("Hel".to_string())
    );
    assert_eq!(
        stream_delta("{\"choices\":[{\"delta\":{\"content\":\"a\"}},{\"delta\":{\"content\":\"b\"}}]}"),
        Some("a".to_string())
    );
    assert_eq!(stream_delta("{\"choices\":[{\"delta\":{\"text\":\"x\"}}]}"), None);
    assert_eq!(stream_delta("{\"choices\":[{\"message\":{\"content\":\"x\"}}]}"), None);
    assert_eq!(stream_delta("{\"results\":[{\"delta\":{\"content\":\"x\"}}]}"), None);
    assert_eq!(stream_delta("{\"choices\":[]}"), None);
    assert_eq!(stream_delta("{\"choices\":[{\"delta\":{\"content\":7}}]}"), None);
    assert_eq!(stream_delta("{\"choices\":[{\"delta\":{\"content\":\"\"}}]}"), Some(String::new()));
    assert_eq!(stream_delta("not json"), None);
}
