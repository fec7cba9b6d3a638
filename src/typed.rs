//! Typed reading of a response's result, with the one fallback for servers
//! that wrap the result once more.
use vstd::prelude::*;
use vstd::string::StringExecFns;
use crate::json::{Json, to_value, write_json, text_of_json};
use codex_app_server_protocol::{ThreadStartResponse, TurnStartResponse};

verus! {

/// A result shape that a response can be read as.
pub trait Decode: Sized + View {
    /// What `j` reads as, if it has the shape.
    spec fn decoded(j: Json) -> Option<Self::V>;

    fn decode(j: &Json) -> (r: Option<Self>)
        ensures
            match r {
                Some(v) => Self::decoded(*j) == Some(v@),
                None => Self::decoded(*j).is_none(),
            };
}

/// The value that a doubly wrapped result carries: its member `payload`,
/// else its member `result`.
pub open spec fn nested(j: Json) -> Option<Json> {
    match j.field("payload"@) {
        Some(p) => Some(p),
        None => j.field("result"@),
    }
}

/// What a result reads as: itself if it has the shape, else the value it
/// carries if that has the shape.
pub open spec fn typed_outcome<T: Decode>(j: Json) -> Option<T::V> {
    match T::decoded(j) {
        Some(v) => Some(v),
        None => match nested(j) {
            Some(inner) => T::decoded(inner),
            None => None,
        },
    }
}

/// The result of request `method` has the expected shape neither itself
/// nor in what it carries; `raw` is its JSON text.
pub struct DecodeFailure {
    pub method: String,
    pub raw: String,
}

impl DecodeFailure {
    /// The failure as the caller is told it, naming the method and the raw
    /// result.
    pub fn message(&self) -> (r: String)
        ensures
            r@ == self.method@ + " response missing payload; raw result: "@ + self.raw@,
    {
        self.method.clone().concat(" response missing payload; raw result: ").concat(self.raw.as_str())
    }
}

/// How the error answering request `method` is told to its caller.
pub fn failure_message(method: &str, error: &Json) -> (r: String)
    ensures
        r@ == method@ + " failed: "@ + text_of_json(*error),
{
    String::from_str(method).concat(" failed: ").concat(write_json(error).as_str())
}

/// Reads the result of request `method` as `T`, trying the value it
/// carries when the result itself does not have the shape.
pub fn decode_result<T: Decode>(method: &str, result: &Json) -> (r: Result<T, DecodeFailure>)
    ensures
        match r {
            Ok(v) => typed_outcome::<T>(*result) == Some(v@),
            Err(e) => typed_outcome::<T>(*result).is_none() && e.method@ == method@
                && e.raw@ == text_of_json(*result),
        },
{
    match T::decode(result) {
        Some(v) => Ok(v),
        None => {
            let inner = match result.get("payload") {
                Some(p) => Some(p),
                None => result.get("result"),
            };
            let second = match inner {
                Some(p) => T::decode(p),
                None => None,
            };
            match second {
                Some(v) => Ok(v),
                None => Err(DecodeFailure { method: String::from_str(method), raw: write_json(result) }),
            }
        },
    }
}

/// The id of the thread that `thread/start` started.
pub struct ThreadStarted {
    pub thread_id: String,
}

/// The id of the turn that `turn/start` started.
pub struct TurnStarted {
    pub turn_id: String,
}

impl View for ThreadStarted {
    type V = Seq<char>;

    open spec fn view(&self) -> Seq<char> {
        self.thread_id@
    }
}

impl View for TurnStarted {
    type V = Seq<char>;

    open spec fn view(&self) -> Seq<char> {
        self.turn_id@
    }
}

/// The thread id that a value read as a `thread/start` response gives.
pub uninterp spec fn started_thread_id(result: Json) -> Option<Seq<char>>;

/// The turn id that a value read as a `turn/start` response gives.
pub uninterp spec fn started_turn_id(result: Json) -> Option<Seq<char>>;

/// Relies on `serde_json::from_value::<ThreadStartResponse>`: reads the
/// response and keeps the id of its thread.
#[verifier::external_body]
fn read_thread_start(result: &Json) -> (r: Option<String>)
    ensures
        match r {
            Some(s) => started_thread_id(*result) == Some(s@),
            None => started_thread_id(*result).is_none(),
        },
{
    serde_json::from_value::<ThreadStartResponse>(to_value(result)).ok().map(|r| r.thread.id)
}

/// Relies on `serde_json::from_value::<TurnStartResponse>`: reads the
/// response and keeps the id of its turn.
#[verifier::external_body]
fn read_turn_start(result: &Json) -> (r: Option<String>)
    ensures
        match r {
            Some(s) => started_turn_id(*result) == Some(s@),
            None => started_turn_id(*result).is_none(),
        },
{
    serde_json::from_value::<TurnStartResponse>(to_value(result)).ok().map(|r| r.turn.id)
}

impl Decode for ThreadStarted {
    open spec fn decoded(j: Json) -> Option<Seq<char>> {
        started_thread_id(j)
    }

    fn decode(j: &Json) -> (r: Option<ThreadStarted>) {
        match read_thread_start(j) {
            Some(thread_id) => Some(ThreadStarted { thread_id }),
            None => None,
        }
    }
}

impl Decode for TurnStarted {
    open spec fn decoded(j: Json) -> Option<Seq<char>> {
        started_turn_id(j)
    }

    fn decode(j: &Json) -> (r: Option<TurnStarted>) {
        match read_turn_start(j) {
            Some(turn_id) => Some(TurnStarted { turn_id }),
            None => None,
        }
    }
}

} // verus!
