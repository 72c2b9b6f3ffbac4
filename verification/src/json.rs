//! JSON documents as the handlers read them.
use vstd::prelude::*;
use crate::text::str_eq;

verus! {

/// A JSON document. Numbers keep only what the handlers read of them: their value
/// as an `i64`, when they have one. An object holds its members in order; a member
/// is looked up by its first occurrence.
#[derive(Debug)]
pub enum JsonValue {
    Null,
    Bool(bool),
    Number(Option<i64>),
    String(String),
    Array(Vec<JsonValue>),
    Object(Vec<(String, JsonValue)>),
}

/// The value of the first member of `fields` named `key`.
pub open spec fn field_value(fields: Seq<(String, JsonValue)>, key: Seq<char>) -> Option<JsonValue>
    decreases fields.len(),
{
    if fields.len() == 0 {
        None
    } else if fields[0].0@ == key {
        Some(fields[0].1)
    } else {
        field_value(fields.drop_first(), key)
    }
}

impl JsonValue {
    /// The member `key` of an object; `None` where `self` is no object or has no such member.
    pub open spec fn spec_member(self, key: Seq<char>) -> Option<JsonValue> {
        match self {
            JsonValue::Object(fields) => field_value(fields@, key),
            _ => None,
        }
    }

    /// The member `key` of an object, as `value[key]` gives it, with `None` for `Null`.
    pub fn member(&self, key: &str) -> (res: Option<&JsonValue>)
        ensures
            match res {
                Some(v) => self.spec_member(key@) == Some(*v),
                None => self.spec_member(key@) is None,
            },
    {
        match self {
            JsonValue::Object(fields) => {
                let mut i: usize = 0;
                assert(fields@.skip(0) =~= fields@);
                while i < fields.len()
                    invariant
                        i <= fields.len(),
                        self.spec_member(key@) == field_value(fields@, key@),
                        field_value(fields@, key@) == field_value(fields@.skip(i as int), key@),
                    decreases fields.len() - i,
                {
                    assert(fields@.skip(i as int).drop_first() =~= fields@.skip(i + 1));
                    assert(fields@.skip(i as int)[0] == fields@[i as int]);
                    if str_eq(fields[i].0.as_str(), key) {
                        return Some(&fields[i].1);
                    }
                    i = i + 1;
                }
                None
            },
            _ => None,
        }
    }
}

/// The keys of a path, each as its characters.
pub open spec fn keys_view(path: Seq<&str>) -> Seq<Seq<char>> {
    path.map_values(|k: &str| k@)
}

/// `v[k1][k2]..` as serde_json indexes a value by keys: `None` stands for the
/// `Null` that indexing gives where a value is no object or lacks the key.
pub open spec fn value_at(v: JsonValue, path: Seq<Seq<char>>) -> Option<JsonValue>
    decreases path.len(),
{
    if path.len() == 0 {
        Some(v)
    } else {
        match v.spec_member(path[0]) {
            Some(m) => value_at(m, path.drop_first()),
            None => None,
        }
    }
}

/// `v[k1][k2]..as_str()`.
pub open spec fn str_at(v: JsonValue, path: Seq<Seq<char>>) -> Option<Seq<char>> {
    match value_at(v, path) {
        Some(m) => m.spec_as_str(),
        None => None,
    }
}

/// `v[k1][k2]..as_i64()`.
pub open spec fn i64_at(v: JsonValue, path: Seq<Seq<char>>) -> Option<i64> {
    match value_at(v, path) {
        Some(m) => m.spec_as_i64(),
        None => None,
    }
}

/// The text in `v`, or `default` where there is none.
pub open spec fn text_or(v: Option<Seq<char>>, default: Seq<char>) -> Seq<char> {
    match v {
        Some(t) => t,
        None => default,
    }
}

impl JsonValue {
    /// The string in a `String` value.
    pub open spec fn spec_as_str(self) -> Option<Seq<char>> {
        match self {
            JsonValue::String(s) => Some(s@),
            _ => None,
        }
    }

    /// The `i64` in a `Number` value that has one.
    pub open spec fn spec_as_i64(self) -> Option<i64> {
        match self {
            JsonValue::Number(n) => n,
            _ => None,
        }
    }

    /// The string of a `String` value; `None` for any other value.
    pub fn as_str(&self) -> (res: Option<&str>)
        ensures
            match res {
                Some(s) => self.spec_as_str() == Some(s@),
                None => self.spec_as_str() is None,
            },
    {
        match self {
            JsonValue::String(s) => Some(s.as_str()),
            _ => None,
        }
    }

    /// The number of a `Number` value that fits in an `i64`; `None` otherwise.
    pub fn as_i64(&self) -> (res: Option<i64>)
        ensures
            res == self.spec_as_i64(),
    {
        match self {
            JsonValue::Number(n) => *n,
            _ => None,
        }
    }

    /// The value reached from `self` through the members named in `path`.
    pub fn at<'a>(&'a self, path: &[&str]) -> (res: Option<&'a JsonValue>)
        ensures
            match res {
                Some(m) => value_at(*self, keys_view(path@)) == Some(*m),
                None => value_at(*self, keys_view(path@)) is None,
            },
    {
        let mut cur: &JsonValue = self;
        let mut i: usize = 0;
        assert(keys_view(path@).skip(0) =~= keys_view(path@));
        while i < path.len()
            invariant
                i <= path.len(),
                value_at(*self, keys_view(path@)) == value_at(*cur, keys_view(path@).skip(i as int)),
            decreases path.len() - i,
        {
            assert(keys_view(path@).skip(i as int).drop_first() =~= keys_view(path@).skip(i + 1));
            assert(keys_view(path@).skip(i as int)[0] == path@[i as int]@);
            match cur.member(path[i]) {
                Some(m) => {
                    cur = m;
                },
                None => {
                    return None;
                },
            }
            i = i + 1;
        }
        Some(cur)
    }

    /// `self[k1][k2]..as_str()`, or `default` where that is `None`.
    pub fn str_at_or(&self, path: &[&str], default: &str) -> (res: String)
        ensures
            res@ == text_or(str_at(*self, keys_view(path@)), default@),
    {
        match self.at(path) {
            Some(m) => match m.as_str() {
                Some(t) => t.to_owned(),
                None => default.to_owned(),
            },
            None => default.to_owned(),
        }
    }

    /// `self[k1][k2]..as_i64()`.
    pub fn i64_at(&self, path: &[&str]) -> (res: Option<i64>)
        ensures
            res == i64_at(*self, keys_view(path@)),
    {
        match self.at(path) {
            Some(m) => m.as_i64(),
            None => None,
        }
    }

    /// `self[k1][k2]..as_str()`, copied.
    pub fn str_at(&self, path: &[&str]) -> (res: Option<String>)
        ensures
            match res {
                Some(t) => str_at(*self, keys_view(path@)) == Some(t@),
                None => str_at(*self, keys_view(path@)) is None,
            },
    {
        match self.at(path) {
            Some(m) => match m.as_str() {
                Some(t) => Some(t.to_owned()),
                None => None,
            },
            None => None,
        }
    }
}

/// A document as serde_json holds it.
#[verifier::external_type_specification]
#[verifier::external_body]
pub struct ExValue(serde_json::Value);

/// What serde_json reads from `text` as a document, or the message of its error.
pub uninterp spec fn json_document(text: Seq<char>) -> Result<JsonValue, Seq<char>>;

/// Converts a `serde_json::Value` into a document, variant for variant: a number
/// keeps what `Number::as_i64` gives, an object its members in the order serde_json
/// holds them.
#[verifier::external_body]
fn document_from(value: serde_json::Value) -> JsonValue {
    match value {
        serde_json::Value::Null => JsonValue::Null,
        serde_json::Value::Bool(b) => JsonValue::Bool(b),
        serde_json::Value::Number(n) => JsonValue::Number(n.as_i64()),
        serde_json::Value::String(s) => JsonValue::String(s),
        serde_json::Value::Array(items) => JsonValue::Array(items.into_iter().map(document_from).collect()),
        serde_json::Value::Object(members) => JsonValue::Object(
            members.into_iter().map(|(key, member)| (key, document_from(member))).collect(),
        ),
    }
}

/// Parses `text` with `serde_json::from_str` into a `serde_json::Value`, converted
/// into a document; on failure, the message of serde_json's error. The claim is
/// that this is `json_document(text)`: serde_json's reading depends on the text alone.
#[verifier::external_body]
pub(crate) fn parse_document(text: &str) -> (res: Result<JsonValue, String>)
    ensures
        match res {
            Ok(d) => json_document(text@) == Ok::<JsonValue, Seq<char>>(d),
            Err(e) => json_document(text@) == Err::<JsonValue, Seq<char>>(e@),
        },
{
    serde_json::from_str::<serde_json::Value>(text).map(document_from).map_err(|e| e.to_string())
}

} // verus!
