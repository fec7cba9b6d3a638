//! The four kinds of JSON-RPC message and their JSON shape on the wire.
use vstd::prelude::*;
use vstd::string::StringExecFns;
use crate::json::{Json, read_json, write_json, json_of_text, text_of_json};

verus! {

/// Identifies one request and the response or error that answers it.
pub enum RequestId {
    Text(String),
    Integer(i64),
}

/// A request id as a mathematical value.
pub enum IdKey {
    Text(Seq<char>),
    Integer(i64),
}

impl View for RequestId {
    type V = IdKey;

    open spec fn view(&self) -> IdKey {
        match self {
            RequestId::Text(s) => IdKey::Text(s@),
            RequestId::Integer(i) => IdKey::Integer(*i),
        }
    }
}

impl RequestId {
    /// Structural equality of two ids.
    pub fn same(&self, other: &RequestId) -> (r: bool)
        ensures
            r == (self@ == other@),
    {
        match (self, other) {
            (RequestId::Text(a), RequestId::Text(b)) => *a == *b,
            (RequestId::Integer(a), RequestId::Integer(b)) => *a == *b,
            _ => false,
        }
    }

    /// A second id equal to this one.
    pub fn duplicate(&self) -> (r: RequestId)
        ensures
            r@ == self@,
    {
        match self {
            RequestId::Text(s) => RequestId::Text(s.clone()),
            RequestId::Integer(i) => RequestId::Integer(*i),
        }
    }

    /// The JSON form of an id: a string or an integer.
    pub open spec fn json(self) -> Json {
        match self {
            RequestId::Text(s) => Json::Str(s),
            RequestId::Integer(i) => Json::Int(i),
        }
    }

    pub fn to_json(&self) -> (r: Json)
        ensures
            r == self.json(),
    {
        match self {
            RequestId::Text(s) => Json::Str(s.clone()),
            RequestId::Integer(i) => Json::Int(*i),
        }
    }
}

/// The id that a JSON value denotes, if it is a string or an integer.
pub open spec fn id_of(value: Json) -> Option<RequestId> {
    match value {
        Json::Str(s) => Some(RequestId::Text(s)),
        Json::Int(i) => Some(RequestId::Integer(i)),
        _ => None,
    }
}

/// A request from one side that expects exactly one answer.
pub struct Request {
    pub id: RequestId,
    pub method: String,
    pub params: Json,
}

/// A message that is never answered.
pub struct Notification {
    pub method: String,
    pub params: Json,
}

/// One line of the protocol.
pub enum Message {
    Request(Request),
    Response { id: RequestId, result: Json },
    Error { id: RequestId, error: Json },
    Notification(Notification),
}

/// Which message a JSON object is: `id`, `method` and `params` make a
/// request; `id` and `result` a response; `id` and `error` an error;
/// `method` and `params` without `id` a notification. The id must be a
/// string or an integer and the method a string.
pub open spec fn message_of(value: Json) -> Option<Message> {
    let id = value.field("id"@);
    let method = value.field("method"@);
    let params = value.field("params"@);
    let result = value.field("result"@);
    let error = value.field("error"@);
    if id.is_some() && method.is_some() && params.is_some() {
        match (id_of(id.unwrap()), method.unwrap()) {
            (Some(i), Json::Str(m)) => Some(Message::Request(Request { id: i, method: m, params: params.unwrap() })),
            _ => None,
        }
    } else if id.is_some() && result.is_some() {
        match id_of(id.unwrap()) {
            Some(i) => Some(Message::Response { id: i, result: result.unwrap() }),
            None => None,
        }
    } else if id.is_some() && error.is_some() {
        match id_of(id.unwrap()) {
            Some(i) => Some(Message::Error { id: i, error: error.unwrap() }),
            None => None,
        }
    } else if id.is_none() && method.is_some() && params.is_some() {
        match method.unwrap() {
            Json::Str(m) => Some(Message::Notification(Notification { method: m, params: params.unwrap() })),
            _ => None,
        }
    } else {
        None
    }
}

} // verus!

verus! {

/// The character of a decimal digit.
pub open spec fn digit_char(d: nat) -> char {
    if d == 0 { '0' } else if d == 1 { '1' } else if d == 2 { '2' } else if d == 3 { '3' }
    else if d == 4 { '4' } else if d == 5 { '5' } else if d == 6 { '6' } else if d == 7 { '7' }
    else if d == 8 { '8' } else { '9' }
}

/// The decimal digits of a natural number.
pub open spec fn digits(n: nat) -> Seq<char>
    decreases n,
{
    let c = digit_char(n % 10);
    if n < 10 {
        seq![c]
    } else {
        digits(n / 10).push(c)
    }
}

/// The decimal text of an integer, with `-` before a negative one.
pub open spec fn decimal_of(i: int) -> Seq<char> {
    if i < 0 {
        seq!['-'] + digits((-i) as nat)
    } else {
        digits(i as nat)
    }
}

/// Relies on `i64::to_string`: the decimal text of the integer.
#[verifier::external_body]
fn decimal_text(i: i64) -> (r: String)
    ensures
        r@ == decimal_of(i as int),
{
    i.to_string()
}

/// The text of an id: a string id as it is, an integer id in decimal.
pub open spec fn id_text(k: IdKey) -> Seq<char> {
    match k {
        IdKey::Text(s) => s,
        IdKey::Integer(i) => decimal_of(i as int),
    }
}

impl RequestId {
    /// The text of this id.
    pub fn text(&self) -> (r: String)
        ensures
            r@ == id_text(self@),
    {
        match self {
            RequestId::Text(s) => s.clone(),
            RequestId::Integer(i) => decimal_text(*i),
        }
    }
}

/// Why a line is not a message.
#[derive(PartialEq, Eq, Structural, Clone, Copy, Debug)]
pub enum ProtocolError {
    /// The line is not one JSON document.
    NotJson,
    /// The document has none of the four message shapes.
    NotMessage,
}

proof fn lemma_member_names_differ()
    ensures
        "id"@ != "method"@,
        "id"@ != "params"@,
        "id"@ != "result"@,
        "id"@ != "error"@,
        "method"@ != "params"@,
        "method"@ != "result"@,
        "method"@ != "error"@,
        "params"@ != "result"@,
        "params"@ != "error"@,
        "result"@ != "error"@,
{
    reveal_strlit("id");
    reveal_strlit("method");
    reveal_strlit("params");
    reveal_strlit("result");
    reveal_strlit("error");
    assert("id"@.len() != "error"@.len());
    assert("method"@[0] != "params"@[0]);
    assert("method"@[0] != "result"@[0]);
    assert("params"@[0] != "result"@[0]);
}

/// The id that a JSON value denotes.
pub fn id_from_json(value: &Json) -> (r: Option<RequestId>)
    ensures
        r == id_of(*value),
{
    match value {
        Json::Str(s) => Some(RequestId::Text(s.clone())),
        Json::Int(i) => Some(RequestId::Integer(*i)),
        _ => None,
    }
}

/// Reads a message out of a JSON value.
pub fn decode_message(value: Json) -> (r: Option<Message>)
    ensures
        r == message_of(value),
{
    let id = match value.get("id") {
        Some(v) => id_from_json(v),
        None => None,
    };
    let method = match value.get("method") {
        Some(Json::Str(m)) => Some(m.clone()),
        _ => None,
    };
    let has_id = value.get("id").is_some();
    let has_method = value.get("method").is_some();
    let has_params = value.get("params").is_some();
    let has_result = value.get("result").is_some();
    let has_error = value.get("error").is_some();
    if has_id && has_method && has_params {
        match (id, method) {
            (Some(i), Some(m)) => {
                let params = value.into_field("params").unwrap();
                Some(Message::Request(Request { id: i, method: m, params }))
            },
            _ => None,
        }
    } else if has_id && has_result {
        match id {
            Some(i) => Some(Message::Response { id: i, result: value.into_field("result").unwrap() }),
            None => None,
        }
    } else if has_id && has_error {
        match id {
            Some(i) => Some(Message::Error { id: i, error: value.into_field("error").unwrap() }),
            None => None,
        }
    } else if !has_id && has_method && has_params {
        match method {
            Some(m) => {
                let params = value.into_field("params").unwrap();
                Some(Message::Notification(Notification { method: m, params }))
            },
            None => None,
        }
    } else {
        None
    }
}

/// The JSON object of a message: the members that its kind calls for and
/// no others.
pub fn encode_message(m: Message) -> (r: Json)
    ensures
        message_of(r) == Some(m),
        r is Object,
{
    proof {
        lemma_member_names_differ();
        reveal_with_fuel(crate::json::member, 4);
    }
    let mut fields: Vec<(String, Json)> = Vec::new();
    match m {
        Message::Request(req) => {
            fields.push((String::from_str("id"), req.id.to_json()));
            fields.push((String::from_str("method"), Json::Str(req.method)));
            fields.push((String::from_str("params"), req.params));
        },
        Message::Response { id, result } => {
            fields.push((String::from_str("id"), id.to_json()));
            fields.push((String::from_str("result"), result));
        },
        Message::Error { id, error } => {
            fields.push((String::from_str("id"), id.to_json()));
            fields.push((String::from_str("error"), error));
        },
        Message::Notification(n) => {
            fields.push((String::from_str("method"), Json::Str(n.method)));
            fields.push((String::from_str("params"), n.params));
        },
    }
    Json::Object(fields)
}

/// Reads a message from one line of the wire.
pub fn decode_line(line: &str) -> (r: Result<Message, ProtocolError>)
    ensures
        match json_of_text(line@) {
            None => r == Err::<Message, ProtocolError>(ProtocolError::NotJson),
            Some(v) => match message_of(v) {
                Some(m) => r == Ok::<Message, ProtocolError>(m),
                None => r == Err::<Message, ProtocolError>(ProtocolError::NotMessage),
            },
        },
{
    match read_json(line) {
        None => Err(ProtocolError::NotJson),
        Some(v) => match decode_message(v) {
            Some(m) => Ok(m),
            None => Err(ProtocolError::NotMessage),
        },
    }
}

/// The line that carries a message: the text of a JSON object that reads
/// back as that same message.
pub fn encode_line(m: Message) -> (r: String)
    ensures
        exists|v: Json| v is Object && message_of(v) == Some(m) && r@ == text_of_json(v),
{
    let v = encode_message(m);
    write_json(&v)
}

} // verus!
