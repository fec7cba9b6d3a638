//! A JSON document as plain values, and the bridge to `serde_json`.
use vstd::prelude::*;
use vstd::string::StringExecFns;

verus! {

/// A JSON value. Integers that fit in `i64` are held as such; any other
/// number keeps its JSON text. A `Number` whose text is not a JSON number
/// is written out as `null`.
pub enum Json {
    Null,
    Bool(bool),
    Int(i64),
    Number(String),
    Str(String),
    Array(Vec<Json>),
    Object(Vec<(String, Json)>),
}

/// The value of the first member of `fields` named `key`.
pub open spec fn member(fields: Seq<(String, Json)>, key: Seq<char>) -> Option<Json>
    decreases fields.len(),
{
    if fields.len() == 0 {
        None
    } else if fields[0].0@ == key {
        Some(fields[0].1)
    } else {
        member(fields.drop_first(), key)
    }
}

impl Json {
    /// The member `key` of an object; nothing for any other value.
    pub open spec fn field(self, key: Seq<char>) -> Option<Json> {
        match self {
            Json::Object(fields) => member(fields@, key),
            _ => None,
        }
    }

    /// The text of a string value.
    pub open spec fn text(self) -> Option<Seq<char>> {
        match self {
            Json::Str(s) => Some(s@),
            _ => None,
        }
    }

    /// The text of the string member `key`.
    pub open spec fn text_field(self, key: Seq<char>) -> Option<Seq<char>> {
        match self.field(key) {
            Some(v) => v.text(),
            None => None,
        }
    }

    /// Looks up the member `key` of an object.
    pub fn get(&self, key: &str) -> (r: Option<&Json>)
        ensures
            match r {
                Some(v) => self.field(key@) == Some(*v),
                None => self.field(key@).is_none(),
            },
    {
        match self {
            Json::Object(fields) => {
                let name = String::from_str(key);
                let mut i: usize = 0;
                assert(fields@.subrange(0, fields@.len() as int) =~= fields@);
                while i < fields.len()
                    invariant
                        i <= fields@.len(),
                        name@ == key@,
                        self.field(key@) == member(fields@, key@),
                        member(fields@, key@) == member(fields@.subrange(i as int, fields@.len() as int), key@),
                    decreases fields@.len() - i,
                {
                    let ghost rest = fields@.subrange(i as int, fields@.len() as int);
                    assert(rest.drop_first() =~= fields@.subrange(i + 1, fields@.len() as int));
                    assert(rest[0] == fields@[i as int]);
                    if fields[i].0 == name {
                        return Some(&fields[i].1);
                    }
                    i = i + 1;
                }
                assert(fields@.subrange(i as int, fields@.len() as int) =~= Seq::<(String, Json)>::empty());
                None
            },
            _ => None,
        }
    }

    /// Takes the member `key` out of an object.
    #[verifier::loop_isolation(false)]
    pub fn into_field(self, key: &str) -> (r: Option<Json>)
        ensures
            r == self.field(key@),
    {
        let ghost whole = self;
        match self {
            Json::Object(mut fields) => {
                let name = String::from_str(key);
                let mut i: usize = 0;
                assert(fields@.subrange(0, fields@.len() as int) =~= fields@);
                while i < fields.len()
                    invariant
                        i <= fields@.len(),
                        name@ == key@,
                        whole.field(key@) == member(fields@, key@),
                        member(fields@, key@) == member(fields@.subrange(i as int, fields@.len() as int), key@),
                    decreases fields@.len() - i,
                {
                    let ghost rest = fields@.subrange(i as int, fields@.len() as int);
                    assert(rest.drop_first() =~= fields@.subrange(i + 1, fields@.len() as int));
                    assert(rest[0] == fields@[i as int]);
                    if fields[i].0 == name {
                        assert(member(rest, key@) == Some(rest[0].1));
                        let ghost before = fields@;
                        let (_, v) = fields.swap_remove(i);
                        assert(v == before[i as int].1);
                        return Some(v);
                    }
                    i = i + 1;
                }
                assert(fields@.subrange(i as int, fields@.len() as int) =~= Seq::<(String, Json)>::empty());
                None
            },
            _ => None,
        }
    }

    /// The text of a string value.
    pub fn as_text(&self) -> (r: Option<&String>)
        ensures
            match r {
                Some(s) => self.text() == Some(s@),
                None => self.text().is_none(),
            },
    {
        match self {
            Json::Str(s) => Some(s),
            _ => None,
        }
    }

    /// The text of the string member `key`.
    pub fn get_text(&self, key: &str) -> (r: Option<&String>)
        ensures
            match r {
                Some(s) => self.text_field(key@) == Some(s@),
                None => self.text_field(key@).is_none(),
            },
    {
        match self.get(key) {
            Some(v) => v.as_text(),
            None => None,
        }
    }
}

#[verifier::external_type_specification]
#[verifier::external_body]
pub struct ExJsonValue(serde_json::Value);

/// What `serde_json` reads from a text, in the form of [`Json`]; nothing
/// where the text is not one JSON document.
pub uninterp spec fn json_of_text(text: Seq<char>) -> Option<Json>;

/// The compact text that `serde_json` writes for a value.
pub uninterp spec fn text_of_json(value: Json) -> Seq<char>;

/// Relies on the variants of `serde_json::Value` and on `Number::as_i64`:
/// moves a value into the library's form, node for node.
#[verifier::external_body]
pub(crate) fn from_value(v: serde_json::Value) -> Json {
    match v {
        serde_json::Value::Null => Json::Null,
        serde_json::Value::Bool(b) => Json::Bool(b),
        serde_json::Value::Number(n) => n.as_i64().map(Json::Int).unwrap_or(Json::Number(n.to_string())),
        serde_json::Value::String(s) => Json::Str(s),
        serde_json::Value::Array(a) => Json::Array(a.into_iter().map(from_value).collect()),
        serde_json::Value::Object(m) => Json::Object(m.into_iter().map(|(k, x)| (k, from_value(x))).collect()),
    }
}

/// Relies on the constructors of `serde_json::Value` and on `Number`'s
/// `FromStr`: builds the value of a [`Json`], node for node.
#[verifier::external_body]
pub(crate) fn to_value(j: &Json) -> serde_json::Value {
    match j {
        Json::Null => serde_json::Value::Null,
        Json::Bool(b) => serde_json::Value::Bool(*b),
        Json::Int(i) => serde_json::Value::from(*i),
        Json::Number(t) => t.parse().map(serde_json::Value::Number).unwrap_or(serde_json::Value::Null),
        Json::Str(s) => serde_json::Value::String(s.clone()),
        Json::Array(a) => serde_json::Value::Array(a.iter().map(to_value).collect()),
        Json::Object(m) => serde_json::Value::Object(m.iter().map(|(k, x)| (k.clone(), to_value(x))).collect()),
    }
}

/// Relies on `serde_json::from_str`: reads one JSON document from a text.
#[verifier::external_body]
pub(crate) fn read_json(text: &str) -> (r: Option<Json>)
    ensures
        r == json_of_text(text@),
{
    serde_json::from_str::<serde_json::Value>(text).ok().map(from_value)
}

/// Relies on `serde_json::to_string`: writes a value as compact JSON text.
#[verifier::external_body]
pub(crate) fn write_json(value: &Json) -> (r: String)
    ensures
        r@ == text_of_json(*value),
{
    serde_json::to_string(&to_value(value)).unwrap_or_default()
}

/// Reads one JSON document from a line of text.
pub fn parse_json(text: &str) -> (r: Option<Json>)
    ensures
        r == json_of_text(text@),
{
    read_json(text)
}

/// The compact JSON text of a value.
pub fn render_json(value: &Json) -> (r: String)
    ensures
        r@ == text_of_json(*value),
{
    write_json(value)
}

} // verus!
