use codexia::chat::{chat_event, start_overrides, CodexEvent};
use codexia::client::{is_blank, settles, CodexClientManager};
use codexia::config::{CodexConfig, ProjectConfig};
use codexia::json::{parse_json, render_json};
use codexia::message::{decode_line, encode_line, Message, Notification, RequestId};
use codexia::session::Routed;
use codexia::stream::{conversation_id, conversation_step, has_prefix, turn_step, EventError, StreamStep};
use codexia::types::{ApprovalDecisionType, ApprovalResponse};

fn note(method: &str, params: &str) -> Notification {
    Notification { method: method.to_string(), params: parse_json(params).unwrap() }
}

const CONV: &str = "67e55044-10b1-426f-9247-bb680e5fe0c8";

#[test]
fn turn_completion_of_own_turn_ends_stream() {
    let done = note("turn/completed", r#"{"turn":{"id":"t1","items":[],"status":"completed"}}"#);
    assert_eq!(turn_step(&done, &"t1".to_string()), StreamStep::Finish);
    assert_eq!(turn_step(&done, &"t2".to_string()), StreamStep::Forward);
}

#[test]
fn unknown_notification_is_forwarded_raw() {
    let odd = note("something/else", r#"{"x":1}"#);
    assert_eq!(turn_step(&odd, &"t1".to_string()), StreamStep::ForwardRaw);
}

#[test]
fn conversation_stream_filters_scope_and_ends_on_task_complete() {
    let conv = conversation_id(CONV).unwrap();
    let other = conversation_id("00000000-0000-0000-0000-000000000001").unwrap();
    let delta = note("codex/event/agent_message", &format!(r#"{{"id":"1","msg":{{"type":"agent_message","message":"hi"}},"conversationId":"{CONV}"}}"#));
    let done = note("codex/event/task_complete", &format!(r#"{{"id":"1","msg":{{"type":"task_complete","last_agent_message":null}},"conversationId":"{CONV}"}}"#));
    assert_eq!(conversation_step(&delta, conv), Ok(StreamStep::Forward));
    assert_eq!(conversation_step(&done, conv), Ok(StreamStep::Finish));
    assert_eq!(conversation_step(&done, other), Ok(StreamStep::Skip));
    assert_eq!(conversation_step(&note("turn/started", "{}"), conv), Ok(StreamStep::Skip));
}

#[test]
fn conversation_event_errors() {
    let conv = conversation_id(CONV).unwrap();
    assert_eq!(conversation_step(&note("codex/event/x", "[]"), conv), Err(EventError::UnexpectedShape));
    assert_eq!(conversation_step(&note("codex/event/x", "{}"), conv), Err(EventError::MissingConversationId));
    assert_eq!(
        conversation_step(&note("codex/event/x", r#"{"conversationId":"nope"}"#), conv),
        Err(EventError::InvalidConversationId)
    );
    assert_eq!(
        conversation_step(&note("codex/event/x", &format!(r#"{{"conversationId":"{CONV}"}}"#)), conv),
        Err(EventError::InvalidEvent)
    );
}

#[test]
fn prefix_check() {
    assert!(has_prefix("codex/event/x", "codex/event/"));
    assert!(!has_prefix("codex/ev", "codex/event/"));
    assert!(!has_prefix("turn/started", "codex/event/"));
}

#[test]
fn blank_lines_are_skipped() {
    assert!(is_blank(""));
    assert!(is_blank(" \t\r\n"));
    assert!(!is_blank(" {}"));
    assert!(is_blank("\u{3000}\u{a0} \u{2009}"));
}

#[test]
fn chat_events_follow_message_type() {
    let ts = "2024-01-01T00:00:00+00:00".to_string();
    let v = parse_json(r#"{"id":"s1","msg":{"type":"agent_message_delta","delta":"he"}}"#).unwrap();
    assert!(matches!(chat_event(&v, ts.clone()), CodexEvent::AgentMessageDelta { ref id, ref delta, .. } if id == "s1" && delta == "he"));
    let v = parse_json(r#"{"id":"","msg":{"type":"error","message":"boom"}}"#).unwrap();
    assert!(matches!(chat_event(&v, ts.clone()), CodexEvent::Error { id: None, ref message, .. } if message == "boom"));
    let v = parse_json(r#"{"id":"s2","msg":{"type":"task_complete","last_agent_message":"done"}}"#).unwrap();
    assert!(matches!(chat_event(&v, ts.clone()), CodexEvent::TaskComplete { ref last_agent_message, .. } if last_agent_message.as_deref() == Some("done")));
    let v = parse_json(r#"{"id":"s3","msg":{"type":"mystery"}}"#).unwrap();
    assert!(matches!(chat_event(&v, ts.clone()), CodexEvent::Log { ref level, ref message, .. } if level == "debug" && message == "ignoring event type: mystery"));
    let v = parse_json(r#"{"id":"s4"}"#).unwrap();
    match chat_event(&v, ts.clone()) {
        CodexEvent::Log { level, message, timestamp } => {
            assert_eq!(level, "warn");
            assert_eq!(message, r#"missing msg field in event: {"id":"s4"}"#);
            assert_eq!(timestamp, ts);
        }
        _ => panic!("expected a log line"),
    }
}

#[test]
fn chat_overrides_default_to_preset() {
    assert_eq!(start_overrides(&vec![]), vec!["preset=chatbox".to_string()]);
    assert_eq!(start_overrides(&vec!["a=b".to_string()]), vec!["a=b".to_string()]);
}

#[test]
fn config_projects_keep_paths() {
    let config = CodexConfig {
        projects: vec![
            ("/a".to_string(), ProjectConfig { trust_level: "trusted".to_string() }),
            ("/b".to_string(), ProjectConfig { trust_level: "untrusted".to_string() }),
        ],
        model_providers: vec![],
    };
    let projects = config.projects();
    assert_eq!(projects.len(), 2);
    assert_eq!(projects[1].path, "/b");
    assert_eq!(projects[1].trust_level, "untrusted");
    assert!(CodexConfig::empty().projects().is_empty());
}

#[test]
fn client_issues_fresh_ids_and_initializes_once() {
    let mut client = CodexClientManager::new();
    let init = client.initialize("1.0.0").unwrap().ok().unwrap();
    let id = match &init {
        Message::Request(r) => {
            assert_eq!(r.method, "initialize");
            assert_eq!(render_json(&r.params), r#"{"clientInfo":{"name":"codexia-zen","title":"Codexia Zen","version":"1.0.0"}}"#);
            match &r.id {
                RequestId::Text(s) => {
                    assert_eq!(s.len(), 36);
                    s.clone()
                }
                _ => panic!("expected a text id"),
            }
        }
        _ => panic!("expected a request"),
    };
    let reply = decode_line(&format!(r#"{{"id":"{id}","result":{{}}}}"#)).ok().unwrap();
    let routed = client.session.dispatch(reply);
    assert!(settles(&routed, &RequestId::Text(id)));
    assert!(matches!(routed, Routed::Completed { .. }));
    client.mark_initialized();
    assert!(client.initialize("1.0.0").is_none());
    let a = client.request("thread/list".to_string(), parse_json("{}").unwrap()).ok().unwrap();
    let b = client.request("thread/list".to_string(), parse_json("{}").unwrap()).ok().unwrap();
    assert_ne!(encode_line(a), encode_line(b));
}

#[test]
fn host_answer_resolves_held_approval() {
    let mut client = CodexClientManager::new();
    client.session.dispatch(decode_line(r#"{"id":"h","method":"execCommandApproval","params":{"conversationId":"67e55044-10b1-426f-9247-bb680e5fe0c8","callId":"k","command":["rm","x"],"cwd":"/","parsedCmd":[]}}"#).ok().unwrap());
    let answer = ApprovalResponse {
        request_id: "h".to_string(),
        decision: ApprovalDecisionType::AcceptForSession,
        is_command_execution: true,
    };
    let out = client.respond_to_approval(&answer).ok().unwrap();
    assert_eq!(encode_line(out), r#"{"id":"h","result":{"decision":"approved_for_session"}}"#);
    assert!(client.respond_to_approval(&answer).is_err());
}

#[test]
fn chat_submission_carries_prompt() {
    let s = codexia::chat::submission("s1".to_string(), "hello".to_string());
    assert_eq!(
        render_json(&s),
        r#"{"id":"s1","op":{"items":[{"text":"hello","type":"text"}],"type":"user_input"}}"#
    );
}

#[test]
fn kind_specific_answers_only_reach_their_kind() {
    let mut client = CodexClientManager::new();
    client.session.dispatch(decode_line(r#"{"id":"p","method":"applyPatchApproval","params":{"conversationId":"67e55044-10b1-426f-9247-bb680e5fe0c8","callId":"k","fileChanges":{},"grantRoot":"/w"}}"#).ok().unwrap());
    let id = RequestId::Text("p".to_string());
    assert!(client.respond_exec_approval(&id, codexia::approval::Decision::Approved).is_err());
    assert!(client.session.is_held(&id));
    let out = client.respond_patch_approval(&id, codexia::approval::Decision::Abort).ok().unwrap();
    assert_eq!(encode_line(out), r#"{"id":"p","result":{"decision":"abort"}}"#);
}

#[test]
fn named_requests_use_protocol_methods() {
    let mut client = CodexClientManager::new();
    let m = client.turn_interrupt(parse_json(r#"{"threadId":"t","turnId":"u"}"#).unwrap()).ok().unwrap();
    match m {
        Message::Request(r) => {
            assert_eq!(r.method, "turn/interrupt");
            assert!(client.session.is_waiting(&r.id));
        }
        _ => panic!("expected a request"),
    }
}

#[test]
fn turn_start_notification_names_its_turn() {
    let started = note("turn/started", r#"{"turn":{"id":"t5","items":[],"status":"inProgress"}}"#);
    assert_eq!(codexia::stream::started_turn(&started), Some("t5".to_string()));
    assert_eq!(turn_step(&started, &"t5".to_string()), StreamStep::Forward);
    assert_eq!(codexia::stream::started_turn(&note("turn/completed", "{}")), None);
}
