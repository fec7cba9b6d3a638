use codexia::approval::{ApprovalKind, ApprovalPolicy, Decision, Handling, PolicyRule};
use codexia::json::{parse_json, render_json, Json};
use codexia::message::{decode_line, encode_line, Message, RequestId};
use codexia::session::{ApprovalError, IssueError, Routed, Session};

fn json(text: &str) -> Json {
    parse_json(text).expect("test JSON")
}

fn text_id(s: &str) -> RequestId {
    RequestId::Text(s.to_string())
}

fn line(text: &str) -> Message {
    decode_line(text).ok().expect("test message")
}

const EXEC: &str = r#"{"conversationId":"67e55044-10b1-426f-9247-bb680e5fe0c8","callId":"k","command":["ls","-l"],"cwd":"/","parsedCmd":[]}"#;

fn approval_line(id: &str, method: &str) -> Message {
    line(&format!(r#"{{"id":"{id}","method":"{method}","params":{EXEC}}}"#))
}

fn policy_with_plain_approval() -> ApprovalPolicy {
    let mut policy = ApprovalPolicy::standard();
    policy.rules.push(PolicyRule {
        method: "approval".to_string(),
        kind: ApprovalKind::ExecCommand,
        handling: Handling::Ask,
    });
    policy
}

fn issue(session: &mut Session, id: &str, method: &str) -> Message {
    session.issue(text_id(id), method.to_string(), json("{}")).ok().expect("issued")
}

fn routed_id(r: &Routed) -> Option<String> {
    match r {
        Routed::Completed { id: RequestId::Text(s), .. } => Some(s.clone()),
        Routed::Failed { id: RequestId::Text(s), .. } => Some(s.clone()),
        _ => None,
    }
}

#[test]
fn issued_request_is_written_as_one_json_line() {
    let mut session = Session::new(ApprovalPolicy::standard());
    let m = session.issue(text_id("r1"), "thread/start".to_string(), json(r#"{"cwd":"/tmp"}"#)).ok().unwrap();
    assert_eq!(encode_line(m), r#"{"id":"r1","method":"thread/start","params":{"cwd":"/tmp"}}"#);
    assert!(session.is_waiting(&text_id("r1")));
}

#[test]
fn duplicate_id_is_refused_while_pending() {
    let mut session = Session::new(ApprovalPolicy::standard());
    issue(&mut session, "r1", "a");
    assert!(matches!(session.issue(text_id("r1"), "b".to_string(), json("{}")), Err(IssueError::DuplicateId)));
}

#[test]
fn responses_reach_their_own_requests_in_any_order() {
    let mut session = Session::new(ApprovalPolicy::standard());
    issue(&mut session, "a", "first");
    issue(&mut session, "b", "second");
    issue(&mut session, "c", "third");
    let r = session.dispatch(line(r#"{"id":"c","result":{"n":3}}"#));
    assert_eq!(routed_id(&r).as_deref(), Some("c"));
    match &r {
        Routed::Completed { method, result, .. } => {
            assert_eq!(method, "third");
            assert_eq!(render_json(result), r#"{"n":3}"#);
        }
        _ => panic!("expected a completion"),
    }
    let r = session.dispatch(line(r#"{"id":"a","error":{"code":1,"message":"no"}}"#));
    assert!(matches!(&r, Routed::Failed { method, .. } if method == "first"));
    assert_eq!(routed_id(&r).as_deref(), Some("a"));
    let r = session.dispatch(line(r#"{"id":"b","result":null}"#));
    assert!(matches!(&r, Routed::Completed { method, .. } if method == "second"));
    assert!(!session.is_waiting(&text_id("a")));
    assert!(!session.is_waiting(&text_id("b")));
    assert!(!session.is_waiting(&text_id("c")));
}

#[test]
fn unmatched_response_is_dropped() {
    let mut session = Session::new(ApprovalPolicy::standard());
    issue(&mut session, "r1", "m");
    let r = session.dispatch(line(r#"{"id":"other","result":{}}"#));
    assert!(matches!(r, Routed::Unmatched { id: RequestId::Text(ref s) } if s == "other"));
    let r = session.dispatch(line(r#"{"id":7,"error":{"code":1,"message":"late"}}"#));
    assert!(matches!(r, Routed::Unmatched { id: RequestId::Integer(7) }));
    assert!(session.is_waiting(&text_id("r1")));
}

#[test]
fn approval_denied_before_other_traffic() {
    let mut session = Session::new(policy_with_plain_approval());
    let r = session.dispatch(approval_line("x", "approval"));
    assert!(matches!(&r, Routed::Held { request: a, .. } if a.request_id == "x" && a.thread_id == "67e55044-10b1-426f-9247-bb680e5fe0c8" && a.item_id == "k"));
    let out = session.submit_approval_decision(&text_id("x"), Decision::Denied).ok().unwrap();
    assert_eq!(encode_line(out), r#"{"id":"x","result":{"decision":"denied"}}"#);
    assert!(!session.is_held(&text_id("x")));
}

#[test]
fn notification_during_request_wait_is_queued() {
    let mut session = Session::new(ApprovalPolicy::standard());
    issue(&mut session, "r1", "turn/start");
    let r = session.dispatch(line(r#"{"method":"turn/started","params":{"n":1}}"#));
    assert!(matches!(r, Routed::Queued));
    let n = session.next_queued().expect("queued notification");
    assert_eq!(n.method, "turn/started");
    assert!(session.is_waiting(&text_id("r1")));
    let r = session.dispatch(line(r#"{"id":"r1","result":{"ok":true}}"#));
    assert_eq!(routed_id(&r).as_deref(), Some("r1"));
}

#[test]
fn closed_stream_fails_waiting_request() {
    let mut session = Session::new(ApprovalPolicy::standard());
    issue(&mut session, "r1", "thread/list");
    let teardown = session.close();
    assert_eq!(teardown.failed.len(), 1);
    assert!(matches!(&teardown.failed[0].id, RequestId::Text(s) if s == "r1"));
    assert!(session.is_closed());
    assert!(!session.is_waiting(&text_id("r1")));
    assert!(matches!(session.issue(text_id("r2"), "x".to_string(), json("{}")), Err(IssueError::Closed)));
}

#[test]
fn approvals_answered_in_resolution_order() {
    let mut session = Session::new(policy_with_plain_approval());
    session.dispatch(approval_line("a1", "approval"));
    session.dispatch(approval_line("a2", "approval"));
    let first = session.submit_approval_decision(&text_id("a2"), Decision::Approved).ok().unwrap();
    let second = session.submit_approval_decision(&text_id("a1"), Decision::Denied).ok().unwrap();
    assert_eq!(encode_line(first), r#"{"id":"a2","result":{"decision":"approved"}}"#);
    assert_eq!(encode_line(second), r#"{"id":"a1","result":{"decision":"denied"}}"#);
}

#[test]
fn abandoned_approval_defaults_to_denied() {
    let mut session = Session::new(ApprovalPolicy::standard());
    session.dispatch(line(r#"{"id":"p","method":"applyPatchApproval","params":{"conversationId":"67e55044-10b1-426f-9247-bb680e5fe0c8","callId":"k","fileChanges":{},"grantRoot":"/w"}}"#));
    assert!(session.is_held(&text_id("p")));
    let out = session.abandon_approval(&text_id("p")).ok().unwrap();
    assert_eq!(encode_line(out), r#"{"id":"p","result":{"decision":"denied"}}"#);
}

#[test]
fn unknown_approval_id_is_an_error() {
    let mut session = Session::new(ApprovalPolicy::standard());
    assert!(matches!(session.submit_approval_decision(&text_id("nope"), Decision::Approved), Err(ApprovalError::NotFound)));
}

#[test]
fn teardown_denies_held_approvals() {
    let mut session = Session::new(ApprovalPolicy::standard());
    session.dispatch(approval_line("e", "execCommandApproval"));
    let teardown = session.close();
    assert_eq!(teardown.denials.len(), 1);
    let out = teardown.denials.into_iter().next().unwrap();
    assert_eq!(encode_line(out), r#"{"id":"e","result":{"decision":"denied"}}"#);
}

#[test]
fn queued_pull_keeps_emission_order() {
    let mut session = Session::new(ApprovalPolicy::standard());
    issue(&mut session, "r", "m");
    session.dispatch(line(r#"{"method":"one","params":{}}"#));
    session.dispatch(line(r#"{"id":"zz","result":{}}"#));
    session.dispatch(line(r#"{"method":"two","params":{}}"#));
    session.dispatch(line(r#"{"id":"r","result":{}}"#));
    session.dispatch(line(r#"{"method":"three","params":{}}"#));
    assert_eq!(session.queued(), 3);
    let order: Vec<String> = (0..3).map(|_| session.next_queued().unwrap().method).collect();
    assert_eq!(order, vec!["one", "two", "three"]);
    assert!(session.next_queued().is_none());
}

#[test]
fn auto_decided_requests_are_answered_at_once() {
    let mut session = Session::new(ApprovalPolicy::standard());
    let r = session.dispatch(line(r#"{"id":5,"method":"item/commandExecution/requestApproval","params":{"threadId":"t","turnId":"u","itemId":"i"}}"#));
    match r {
        Routed::Answered(m) => assert_eq!(
            encode_line(m),
            r#"{"id":5,"result":{"acceptSettings":{"forSession":false},"decision":"accept"}}"#
        ),
        _ => panic!("expected an immediate answer"),
    }
    let r = session.dispatch(line(r#"{"id":6,"method":"item/fileChange/requestApproval","params":{"threadId":"t","turnId":"u","itemId":"i"}}"#));
    match r {
        Routed::Answered(m) => assert_eq!(encode_line(m), r#"{"id":6,"result":{"decision":"accept"}}"#),
        _ => panic!("expected an immediate answer"),
    }
    assert!(!session.is_held(&RequestId::Integer(5)));
}

#[test]
fn unknown_server_request_is_reported() {
    let mut session = Session::new(ApprovalPolicy::standard());
    let r = session.dispatch(line(r#"{"id":"q","method":"mystery","params":{}}"#));
    assert!(matches!(r, Routed::Unsupported(ref q) if q.method == "mystery"));
}

#[test]
fn repeated_approval_id_is_left_alone() {
    let mut session = Session::new(policy_with_plain_approval());
    session.dispatch(approval_line("a", "approval"));
    let r = session.dispatch(approval_line("a", "approval"));
    assert!(matches!(r, Routed::Repeated(_)));
}

#[test]
fn unreadable_permission_request_is_rejected() {
    let mut session = Session::new(ApprovalPolicy::standard());
    let r = session.dispatch(line(r#"{"id":"z","method":"execCommandApproval","params":null}"#));
    assert!(matches!(r, Routed::Rejected(ref q) if q.method == "execCommandApproval"));
    assert!(!session.is_held(&text_id("z")));
    let r = session.dispatch(line(r#"{"id":9,"method":"item/fileChange/requestApproval","params":{"threadId":"t"}}"#));
    assert!(matches!(r, Routed::Rejected(_)));
    assert!(matches!(session.submit_approval_decision(&text_id("z"), Decision::Approved), Err(ApprovalError::NotFound)));
}
