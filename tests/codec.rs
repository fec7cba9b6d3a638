use codexia::json::{parse_json, render_json};
use codexia::message::{decode_line, encode_line, Message, ProtocolError, RequestId};
use codexia::typed::{decode_result, ThreadStarted, TurnStarted};
use codexia::approval::ApprovalPolicy;
use codexia::session::{Routed, Session};
use codex_app_server_protocol::{AskForApproval, SandboxPolicy, Thread, ThreadStartResponse};

#[test]
fn request_shape_is_recognised() {
    match decode_line(r#"{"id":"x","method":"approval","params":{"a":1}}"#) {
        Ok(Message::Request(r)) => {
            assert!(matches!(r.id, RequestId::Text(ref s) if s == "x"));
            assert_eq!(r.method, "approval");
            assert_eq!(render_json(&r.params), r#"{"a":1}"#);
        }
        _ => panic!("expected a request"),
    }
}

#[test]
fn response_error_and_notification_shapes_are_recognised() {
    assert!(matches!(decode_line(r#"{"id":3,"result":[1,2]}"#), Ok(Message::Response { id: RequestId::Integer(3), .. })));
    assert!(matches!(decode_line(r#"{"id":"e","error":{"code":-1}}"#), Ok(Message::Error { .. })));
    assert!(matches!(decode_line(r#"{"method":"note","params":{}}"#), Ok(Message::Notification(_))));
}

#[test]
fn malformed_lines_are_protocol_errors() {
    assert!(matches!(decode_line("not json"), Err(ProtocolError::NotJson)));
    assert!(matches!(decode_line(r#"{"hello":1}"#), Err(ProtocolError::NotMessage)));
    assert!(matches!(decode_line(r#"{"id":true,"result":1}"#), Err(ProtocolError::NotMessage)));
    assert!(matches!(decode_line(r#"{"method":"m"}"#), Err(ProtocolError::NotMessage)));
}

#[test]
fn encoded_message_reads_back() {
    let m = decode_line(r#"{"id":-12,"method":"m","params":{"k":"v"}}"#).ok().unwrap();
    let text = encode_line(m);
    assert_eq!(text, r#"{"id":-12,"method":"m","params":{"k":"v"}}"#);
    assert!(matches!(decode_line(&text), Ok(Message::Request(_))));
}

#[test]
fn json_numbers_keep_their_value() {
    let v = parse_json(r#"{"big":18446744073709551615,"f":1.5,"i":-3}"#).unwrap();
    assert_eq!(render_json(&v), r#"{"big":18446744073709551615,"f":1.5,"i":-3}"#);
}

#[test]
fn wrapped_payload_is_unwrapped() {
    let result = parse_json(r#"{"payload":{"turn":{"id":"t9","items":[],"status":"inProgress"}}}"#).unwrap();
    let started = decode_result::<TurnStarted>("turn/start", &result).ok().expect("payload is read");
    assert_eq!(started.turn_id, "t9");
}

#[test]
fn wrapped_result_member_is_unwrapped() {
    let result = parse_json(r#"{"result":{"turn":{"id":"t2","items":[],"status":"completed"}}}"#).unwrap();
    assert_eq!(decode_result::<TurnStarted>("turn/start", &result).ok().unwrap().turn_id, "t2");
}

#[test]
fn direct_result_is_read() {
    let result = parse_json(r#"{"turn":{"id":"t1","items":[],"status":"inProgress"}}"#).unwrap();
    assert_eq!(decode_result::<TurnStarted>("turn/start", &result).ok().unwrap().turn_id, "t1");
}

#[test]
fn unreadable_result_keeps_raw_text() {
    let result = parse_json(r#"{"other":1}"#).unwrap();
    match decode_result::<TurnStarted>("turn/start", &result) {
        Err(e) => {
            assert_eq!(e.raw, r#"{"other":1}"#);
            assert_eq!(e.method, "turn/start");
            assert_eq!(e.message(), r#"turn/start response missing payload; raw result: {"other":1}"#);
        }
        Ok(_) => panic!("expected a failure"),
    }
}

fn thread_start_response_text(id: &str) -> String {
    let response = ThreadStartResponse {
        thread: Thread {
            id: id.to_string(),
            preview: String::new(),
            model_provider: "openai".to_string(),
            created_at: 0,
            path: "/tmp/thread".into(),
            turns: vec![],
        },
        model: "m".to_string(),
        model_provider: "openai".to_string(),
        cwd: "/tmp".into(),
        approval_policy: AskForApproval::Never,
        sandbox: SandboxPolicy::ReadOnly,
        reasoning_effort: None,
    };
    serde_json::to_string(&response).unwrap()
}

#[test]
fn thread_start_response_is_read_directly_and_wrapped() {
    let inner = thread_start_response_text("th1");
    let direct = parse_json(&inner).unwrap();
    assert_eq!(decode_result::<ThreadStarted>("thread/start", &direct).ok().unwrap().thread_id, "th1");
    let wrapped = parse_json(&format!(r#"{{"payload":{inner}}}"#)).unwrap();
    assert_eq!(decode_result::<ThreadStarted>("thread/start", &wrapped).ok().unwrap().thread_id, "th1");
    assert!(decode_result::<ThreadStarted>("thread/start", &parse_json(r#"{"thread":{"id":"x"}}"#).unwrap()).is_err());
}

#[test]
fn integer_ids_are_shown_in_decimal() {
    let mut session = Session::new(ApprovalPolicy::standard());
    let m = decode_line(r#"{"id":-42,"method":"execCommandApproval","params":{"conversationId":"67e55044-10b1-426f-9247-bb680e5fe0c8","callId":"k","command":["ls"],"cwd":"/","parsedCmd":[]}}"#).ok().unwrap();
    match session.dispatch(m) {
        Routed::Held { request, .. } => {
            assert_eq!(request.request_id, "-42");
            match request.kind {
                codexia::approval::ApprovalRequestKind::CommandExecution { proposed_execpolicy_amendment } => {
                    assert_eq!(proposed_execpolicy_amendment, Some(vec!["ls".to_string()]))
                }
                _ => panic!("expected a command request"),
            }
        }
        _ => panic!("expected a held request"),
    }
}

#[test]
fn chat_event_now_stamps_the_time() {
    let v = parse_json(r#"{"id":"s","msg":{"type":"session_configured"}}"#).unwrap();
    match codexia::chat::chat_event_now(&v) {
        codexia::chat::CodexEvent::SessionConfigured { timestamp } => assert!(timestamp.len() >= 20),
        _ => panic!("expected session_configured"),
    }
}

#[test]
fn error_answers_name_their_method() {
    let error = parse_json(r#"{"code":-1,"message":"no"}"#).unwrap();
    assert_eq!(codexia::typed::failure_message("thread/list", &error), r#"thread/list failed: {"code":-1,"message":"no"}"#);
}
