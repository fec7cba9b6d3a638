//! The chat session: what each agent event line becomes for the window, and
//! the submissions written to the agent.
use vstd::prelude::*;
use vstd::string::StringExecFns;
use crate::approval::text_or_empty;
use crate::json::{Json, text_of_json, write_json};

verus! {

/// An event shown in the chat window.
pub enum CodexEvent {
    SessionConfigured { timestamp: String },
    UserMessage { id: String, message: String, timestamp: String },
    AgentMessageDelta { id: String, delta: String, timestamp: String },
    AgentMessage { id: String, message: String, timestamp: String },
    TaskStarted { id: String, timestamp: String },
    TaskComplete { id: String, timestamp: String, last_agent_message: Option<String> },
    TurnDiff { id: String, unified_diff: String, timestamp: String },
    Error { id: Option<String>, message: String, timestamp: String },
    ProcessExited { timestamp: String, code: Option<i32>, signal: Option<i32> },
    Log { level: String, message: String, timestamp: String },
}

/// `e` is the log event with this level, message and time.
pub open spec fn is_log(e: CodexEvent, level: Seq<char>, message: Seq<char>, ts: Seq<char>) -> bool {
    match e {
        CodexEvent::Log { level: l, message: m, timestamp } => l@ == level && m@ == message && timestamp@ == ts,
        _ => false,
    }
}

/// What an agent event line `value`, read at time `ts`, becomes: the event
/// named by `msg.type`, with the event's `id` and the members it carries
/// (a missing text reads as empty), or a log line when there is no `msg`
/// or its type is not shown.
pub open spec fn shows(e: CodexEvent, value: Json, ts: Seq<char>) -> bool {
    let id = text_or_empty(value, "id"@);
    match value.field("msg"@) {
        None => is_log(e, "warn"@, "missing msg field in event: "@ + text_of_json(value), ts),
        Some(msg) => {
            let t = text_or_empty(msg, "type"@);
            if t == "session_configured"@ {
                e matches CodexEvent::SessionConfigured { timestamp } && timestamp@ == ts
            } else if t == "user_message"@ {
                e matches CodexEvent::UserMessage { id: i, message, timestamp }
                    && i@ == id && message@ == text_or_empty(msg, "message"@) && timestamp@ == ts
            } else if t == "agent_message_delta"@ {
                e matches CodexEvent::AgentMessageDelta { id: i, delta, timestamp }
                    && i@ == id && delta@ == text_or_empty(msg, "delta"@) && timestamp@ == ts
            } else if t == "agent_message"@ {
                e matches CodexEvent::AgentMessage { id: i, message, timestamp }
                    && i@ == id && message@ == text_or_empty(msg, "message"@) && timestamp@ == ts
            } else if t == "task_started"@ {
                e matches CodexEvent::TaskStarted { id: i, timestamp } && i@ == id && timestamp@ == ts
            } else if t == "task_complete"@ {
                e matches CodexEvent::TaskComplete { id: i, timestamp, last_agent_message }
                    && i@ == id && timestamp@ == ts
                    && match last_agent_message {
                        Some(m) => msg.text_field("last_agent_message"@) == Some(m@),
                        None => msg.text_field("last_agent_message"@).is_none(),
                    }
            } else if t == "turn_diff"@ {
                e matches CodexEvent::TurnDiff { id: i, unified_diff, timestamp }
                    && i@ == id && unified_diff@ == text_or_empty(msg, "unified_diff"@) && timestamp@ == ts
            } else if t == "error"@ {
                e matches CodexEvent::Error { id: i, message, timestamp }
                    && message@ == text_or_empty(msg, "message"@) && timestamp@ == ts
                    && match i {
                        Some(s) => s@ == id && id.len() > 0,
                        None => id.len() == 0,
                    }
            } else {
                is_log(e, "debug"@, "ignoring event type: "@ + t, ts)
            }
        },
    }
}

fn text_or_blank(value: &Json, key: &str) -> (r: String)
    ensures
        r@ == text_or_empty(*value, key@),
{
    match value.get_text(key) {
        Some(t) => t.clone(),
        None => String::new(),
    }
}

fn is_text(s: &String, lit: &str) -> (r: bool)
    ensures
        r == (s@ == lit@),
{
    *s == String::from_str(lit)
}

/// The window event for an agent event line read at time `timestamp`.
pub fn chat_event(value: &Json, timestamp: String) -> (r: CodexEvent)
    ensures
        shows(r, *value, timestamp@),
{
    let id = text_or_blank(value, "id");
    let msg = match value.get("msg") {
        Some(m) => m,
        None => {
            let message = String::from_str("missing msg field in event: ").concat(write_json(value).as_str());
            return CodexEvent::Log { level: String::from_str("warn"), message, timestamp };
        },
    };
    let t = text_or_blank(msg, "type");
    if is_text(&t, "session_configured") {
        CodexEvent::SessionConfigured { timestamp }
    } else if is_text(&t, "user_message") {
        CodexEvent::UserMessage { id, message: text_or_blank(msg, "message"), timestamp }
    } else if is_text(&t, "agent_message_delta") {
        CodexEvent::AgentMessageDelta { id, delta: text_or_blank(msg, "delta"), timestamp }
    } else if is_text(&t, "agent_message") {
        CodexEvent::AgentMessage { id, message: text_or_blank(msg, "message"), timestamp }
    } else if is_text(&t, "task_started") {
        CodexEvent::TaskStarted { id, timestamp }
    } else if is_text(&t, "task_complete") {
        let last_agent_message = match msg.get_text("last_agent_message") {
            Some(m) => Some(m.clone()),
            None => None,
        };
        CodexEvent::TaskComplete { id, timestamp, last_agent_message }
    } else if is_text(&t, "turn_diff") {
        CodexEvent::TurnDiff { id, unified_diff: text_or_blank(msg, "unified_diff"), timestamp }
    } else if is_text(&t, "error") {
        let shown_id = if id.unicode_len() == 0 { None } else { Some(id) };
        CodexEvent::Error { id: shown_id, message: text_or_blank(msg, "message"), timestamp }
    } else {
        let message = String::from_str("ignoring event type: ").concat(t.as_str());
        CodexEvent::Log { level: String::from_str("debug"), message, timestamp }
    }
}

/// Relies on `chrono::Utc::now` and `to_rfc3339`: the current time as text.
#[verifier::external_body]
fn now_text() -> String {
    chrono::Utc::now().to_rfc3339()
}

/// The window event for an agent event line read now.
pub fn chat_event_now(value: &Json) -> (r: CodexEvent)
    ensures
        exists|ts: Seq<char>| shows(r, *value, ts),
{
    chat_event(value, now_text())
}

/// The overrides the chat session starts with: the kept ones, or the chat
/// preset when none are kept.
pub fn start_overrides(kept: &Vec<String>) -> (r: Vec<String>)
    ensures
        kept@.len() == 0 ==> r@.len() == 1 && r@[0]@ == "preset=chatbox"@,
        kept@.len() > 0 ==> r@ == kept@,
{
    let mut out: Vec<String> = Vec::new();
    if kept.len() == 0 {
        out.push(String::from_str("preset=chatbox"));
        return out;
    }
    let mut i: usize = 0;
    while i < kept.len()
        invariant
            i <= kept@.len(),
            out@ == kept@.subrange(0, i as int),
        decreases kept@.len() - i,
    {
        out.push(kept[i].clone());
        assert(out@ =~= kept@.subrange(0, i + 1));
        i = i + 1;
    }
    assert(kept@.subrange(0, kept@.len() as int) =~= kept@);
    out
}


/// `j` is the one-item array whose item is the text input `prompt`.
pub open spec fn text_items(j: Json, prompt: Seq<char>) -> bool {
    match j {
        Json::Array(items) => items@.len() == 1 && items@[0].text_field("type"@) == Some("text"@)
            && items@[0].text_field("text"@) == Some(prompt),
        _ => false,
    }
}

/// `j` is the submission `id` that hands the agent the user input `prompt`.
pub open spec fn is_submission(j: Json, id: Seq<char>, prompt: Seq<char>) -> bool {
    &&& j.text_field("id"@) == Some(id)
    &&& match j.field("op"@) {
        Some(op) => op.text_field("type"@) == Some("user_input"@) && match op.field("items"@) {
            Some(items) => text_items(items, prompt),
            None => false,
        },
        None => false,
    }
}

proof fn lemma_submission_names_differ()
    ensures
        "id"@ != "op"@,
        "type"@ != "items"@,
        "type"@ != "text"@,
{
    reveal_strlit("id");
    reveal_strlit("op");
    reveal_strlit("type");
    reveal_strlit("items");
    reveal_strlit("text");
    assert("id"@[0] != "op"@[0]);
    assert("type"@.len() != "items"@.len());
    assert("type"@[1] != "text"@[1]);
}

/// The line the chat session writes to hand the agent a prompt: submission
/// `id` with one text input.
pub fn submission(id: String, prompt: String) -> (r: Json)
    ensures
        is_submission(r, id@, prompt@),
{
    proof {
        lemma_submission_names_differ();
        reveal_with_fuel(crate::json::member, 3);
    }
    let mut item: Vec<(String, Json)> = Vec::new();
    item.push((String::from_str("type"), Json::Str(String::from_str("text"))));
    item.push((String::from_str("text"), Json::Str(prompt)));
    let mut items: Vec<Json> = Vec::new();
    items.push(Json::Object(item));
    let mut op: Vec<(String, Json)> = Vec::new();
    op.push((String::from_str("type"), Json::Str(String::from_str("user_input"))));
    op.push((String::from_str("items"), Json::Array(items)));
    let mut fields: Vec<(String, Json)> = Vec::new();
    fields.push((String::from_str("id"), Json::Str(id)));
    fields.push((String::from_str("op"), Json::Object(op)));
    Json::Object(fields)
}

} // verus!
