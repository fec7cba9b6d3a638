//! Decisions of the two streaming pulls: until a turn completes, and until
//! a conversation's task ends. Notifications of another scope are passed
//! over here, at the point of consumption.
use vstd::prelude::*;
use vstd::string::StrSliceExecFns;
use crate::json::{Json, to_value};
use crate::message::Notification;
use codex_app_server_protocol::{JSONRPCNotification, ServerNotification};
use codex_protocol::protocol::{Event, EventMsg};

verus! {

/// How a notification reads as one of the server's typed notifications.
pub enum NotificationClass {
    /// It has none of the typed shapes.
    Unknown,
    /// A turn started; the id of the turn.
    TurnStarted(String),
    /// A turn completed; the id of the turn.
    TurnCompleted(String),
    /// Any other typed notification.
    Known,
}

/// The class of a notification, as a mathematical value.
pub enum ClassView {
    Unknown,
    TurnStarted(Seq<char>),
    TurnCompleted(Seq<char>),
    Known,
}

impl View for NotificationClass {
    type V = ClassView;

    open spec fn view(&self) -> ClassView {
        match self {
            NotificationClass::Unknown => ClassView::Unknown,
            NotificationClass::TurnStarted(t) => ClassView::TurnStarted(t@),
            NotificationClass::TurnCompleted(t) => ClassView::TurnCompleted(t@),
            NotificationClass::Known => ClassView::Known,
        }
    }
}

/// How the server's notification types read a method and parameters.
pub uninterp spec fn server_class(method: Seq<char>, params: Json) -> ClassView;

/// Relies on `ServerNotification::try_from(JSONRPCNotification)`: reads the
/// notification as one of the server's typed notifications.
#[verifier::external_body]
fn classify(n: &Notification) -> (r: NotificationClass)
    ensures
        r@ == server_class(n.method@, n.params),
{
    let raw = JSONRPCNotification { method: n.method.clone(), params: Some(to_value(&n.params)) };
    match ServerNotification::try_from(raw) {
        Ok(ServerNotification::TurnStarted(started)) => NotificationClass::TurnStarted(started.turn.id),
        Ok(ServerNotification::TurnCompleted(done)) => NotificationClass::TurnCompleted(done.turn.id),
        Ok(_) => NotificationClass::Known,
        Err(_) => NotificationClass::Unknown,
    }
}

/// What a streaming pull does with one notification.
#[derive(PartialEq, Eq, Structural, Clone, Copy, Debug)]
pub enum StreamStep {
    /// Not for this consumer: pass over it and go on.
    Skip,
    /// Hand it to the collaborator as a typed notification and go on.
    Forward,
    /// Hand it to the collaborator as raw JSON and go on.
    ForwardRaw,
    /// Hand it on; the stream ends after it.
    Finish,
}

/// The step of the pull that streams turn `turn_id`: every notification is
/// handed on, and the completion of that turn ends the stream.
pub open spec fn turn_step_of(class: ClassView, turn_id: Seq<char>) -> StreamStep {
    match class {
        ClassView::Unknown => StreamStep::ForwardRaw,
        ClassView::TurnCompleted(t) => if t == turn_id { StreamStep::Finish } else { StreamStep::Forward },
        ClassView::TurnStarted(_) | ClassView::Known => StreamStep::Forward,
    }
}

/// Decides what the pull that streams turn `turn_id` does with `n`.
pub fn turn_step(n: &Notification, turn_id: &String) -> (r: StreamStep)
    ensures
        r == turn_step_of(server_class(n.method@, n.params), turn_id@),
{
    match classify(n) {
        NotificationClass::Unknown => StreamStep::ForwardRaw,
        NotificationClass::TurnCompleted(t) => if t == *turn_id { StreamStep::Finish } else { StreamStep::Forward },
        NotificationClass::TurnStarted(_) | NotificationClass::Known => StreamStep::Forward,
    }
}

/// The turn that a notification announces as started.
pub open spec fn started_turn_of(class: ClassView) -> Option<Seq<char>> {
    match class {
        ClassView::TurnStarted(t) => Some(t),
        _ => None,
    }
}

/// The id of the turn that `n` announces as started, if it does; a
/// conversation stream reports it to the collaborator with the
/// conversation's id.
pub fn started_turn(n: &Notification) -> (r: Option<String>)
    ensures
        match r {
            Some(t) => started_turn_of(server_class(n.method@, n.params)) == Some(t@),
            None => started_turn_of(server_class(n.method@, n.params)).is_none(),
        },
{
    match classify(n) {
        NotificationClass::TurnStarted(t) => Some(t),
        _ => None,
    }
}

/// `s` begins with `prefix`.
pub open spec fn starts_with(s: Seq<char>, prefix: Seq<char>) -> bool {
    s.len() >= prefix.len() && s.subrange(0, prefix.len() as int) == prefix
}

/// Whether `s` begins with `prefix`.
pub fn has_prefix(s: &str, prefix: &str) -> (r: bool)
    ensures
        r == starts_with(s@, prefix@),
{
    let n = s.unicode_len();
    let m = prefix.unicode_len();
    if n < m {
        return false;
    }
    let mut i: usize = 0;
    while i < m
        invariant
            m == prefix@.len(),
            n == s@.len(),
            m <= n,
            i <= m,
            forall|j: int| 0 <= j < i ==> s@[j] == prefix@[j],
        decreases m - i,
    {
        if s.get_char(i) != prefix.get_char(i) {
            assert(s@.subrange(0, m as int)[i as int] != prefix@[i as int]);
            return false;
        }
        i = i + 1;
    }
    assert(s@.subrange(0, m as int) =~= prefix@);
    true
}

/// The number that `Uuid::parse_str` reads from a text.
pub uninterp spec fn uuid_of_text(text: Seq<char>) -> Option<u128>;

/// Relies on `uuid::Uuid::parse_str`, by which conversation ids are read:
/// the id as a 128-bit number.
#[verifier::external_body]
fn parse_uuid(text: &str) -> (r: Option<u128>)
    ensures
        r == uuid_of_text(text@),
{
    uuid::Uuid::parse_str(text).ok().map(|u| u.as_u128())
}

/// Reads a conversation id.
pub fn conversation_id(text: &str) -> (r: Option<u128>)
    ensures
        r == uuid_of_text(text@),
{
    parse_uuid(text)
}

/// The kind of an agent event, as far as a conversation stream cares.
#[derive(PartialEq, Eq, Structural, Clone, Copy, Debug)]
pub enum EventKind {
    TaskComplete,
    TurnAborted,
    Other,
}

/// How the agent's event type reads the parameters of an event
/// notification; nothing when they are not an event.
pub uninterp spec fn event_kind_of(params: Json) -> Option<EventKind>;

/// Relies on `serde_json::from_value::<Event>`: reads the parameters as an
/// agent event and tells its message apart. Members the event does not
/// declare, such as `conversationId`, are not read.
#[verifier::external_body]
fn read_event(params: &Json) -> (r: Option<EventKind>)
    ensures
        r == event_kind_of(*params),
{
    serde_json::from_value::<Event>(to_value(params)).ok().map(|e| match e.msg {
        EventMsg::TaskComplete(_) => EventKind::TaskComplete,
        EventMsg::TurnAborted(_) => EventKind::TurnAborted,
        _ => EventKind::Other,
    })
}

/// Why an event notification of a conversation stream could not be read.
#[derive(PartialEq, Eq, Structural, Clone, Copy, Debug)]
pub enum EventError {
    /// The parameters are not an object.
    UnexpectedShape,
    /// The parameters name no conversation.
    MissingConversationId,
    /// The conversation id is not a UUID.
    InvalidConversationId,
    /// The parameters are not an agent event.
    InvalidEvent,
}

/// The step of the pull that streams conversation `conversation`: only
/// event notifications of that conversation are handed on, and the end of
/// its task or turn ends the stream.
pub open spec fn conversation_step_of(n: Notification, conversation: u128) -> Result<StreamStep, EventError> {
    if !starts_with(n.method@, "codex/event/"@) {
        Ok(StreamStep::Skip)
    } else if !(n.params is Object) {
        Err(EventError::UnexpectedShape)
    } else {
        match n.params.field("conversationId"@) {
            None => Err(EventError::MissingConversationId),
            Some(c) => match c {
                Json::Str(t) => match uuid_of_text(t@) {
                    None => Err(EventError::InvalidConversationId),
                    Some(u) => if u != conversation {
                        Ok(StreamStep::Skip)
                    } else {
                        match event_kind_of(n.params) {
                            None => Err(EventError::InvalidEvent),
                            Some(EventKind::Other) => Ok(StreamStep::Forward),
                            Some(_) => Ok(StreamStep::Finish),
                        }
                    },
                },
                _ => Err(EventError::InvalidConversationId),
            },
        }
    }
}

/// Decides what the pull that streams conversation `conversation` does
/// with `n`.
pub fn conversation_step(n: &Notification, conversation: u128) -> (r: Result<StreamStep, EventError>)
    ensures
        r == conversation_step_of(*n, conversation),
{
    if !has_prefix(n.method.as_str(), "codex/event/") {
        return Ok(StreamStep::Skip);
    }
    match &n.params {
        Json::Object(_) => {},
        _ => {
            return Err(EventError::UnexpectedShape);
        },
    }
    match n.params.get("conversationId") {
        None => Err(EventError::MissingConversationId),
        Some(Json::Str(t)) => match parse_uuid(t.as_str()) {
            None => Err(EventError::InvalidConversationId),
            Some(u) => if u != conversation {
                Ok(StreamStep::Skip)
            } else {
                match read_event(&n.params) {
                    None => Err(EventError::InvalidEvent),
                    Some(EventKind::Other) => Ok(StreamStep::Forward),
                    Some(_) => Ok(StreamStep::Finish),
                }
            },
        },
        Some(_) => Err(EventError::InvalidConversationId),
    }
}

} // verus!
