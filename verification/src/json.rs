//! The library's model of a parsed JSON document, the trusted bridge to
//! `serde_json`, and accessors over the model.
//!
//! Upstream replies arrive as text. `serde_json` parses the text; the parse
//! result is translated, behind trusted items, into [`JsonVal`], a tree of
//! plain values that every normalizer reads. All logic past the parse is
//! verified over `JsonVal`.

use vstd::prelude::*;
use vstd::string::*;

verus! {

/// A JSON document as plain values. A number that fits `i64` is held as
/// `Int`; any other number keeps its textual form in `Num`.
pub enum JsonVal {
    Null,
    Bool(bool),
    Int(i64),
    Num(String),
    Str(String),
    Arr(Vec<JsonVal>),
    Obj(Vec<(String, JsonVal)>),
}

#[verifier::external_type_specification]
#[verifier::external_body]
pub struct ExJsonValue(serde_json::Value);

/// What parsing a text as JSON yields, as a `JsonVal` tree: the result of
/// `serde_json::from_str::<serde_json::Value>` depends on the text alone.
pub uninterp spec fn parsed_json(s: Seq<char>) -> Option<JsonVal>;

/// The `JsonVal` tree that stands for a given `serde_json::Value`: each
/// variant mapped to its counterpart, numbers outside `i64` kept as text.
pub uninterp spec fn value_model(v: serde_json::Value) -> JsonVal;

/// Relies on `serde_json::from_str::<serde_json::Value>`: the parse succeeds
/// exactly on well-formed JSON text, and its result is a function of the text.
#[verifier::external_body]
fn parse_json_value(text: &str) -> (r: Result<serde_json::Value, String>)
    ensures
        match r {
            Ok(v) => parsed_json(text@) == Some(value_model(v)),
            Err(_) => parsed_json(text@) is None,
        },
{
    match serde_json::from_str::<serde_json::Value>(text) {
        Ok(v) => Ok(v),
        Err(e) => Err(e.to_string()),
    }
}

/// Relies on the public shape of `serde_json::Value`: each variant is moved
/// into its `JsonVal` counterpart, using `serde_json::Number::as_i64` for
/// integers and `to_string` for the remaining numbers.
#[verifier::external_body]
fn from_json_value(v: serde_json::Value) -> (r: JsonVal)
    ensures
        r == value_model(v),
{
    match v {
        serde_json::Value::Null => JsonVal::Null,
        serde_json::Value::Bool(b) => JsonVal::Bool(b),
        serde_json::Value::Number(n) => match n.as_i64() {
            Some(i) => JsonVal::Int(i),
            None => JsonVal::Num(n.to_string()),
        },
        serde_json::Value::String(s) => JsonVal::Str(s),
        serde_json::Value::Array(a) => JsonVal::Arr(a.into_iter().map(from_json_value).collect()),
        serde_json::Value::Object(o) => JsonVal::Obj(
            o.into_iter().map(|(k, x)| (k, from_json_value(x))).collect(),
        ),
    }
}

/// Parses upstream reply text into the library's JSON model. On failure the
/// error text is reported to the user, never trusted for anything else.
pub fn parse_json(text: &str) -> (r: Result<JsonVal, String>)
    ensures
        match r {
            Ok(v) => parsed_json(text@) == Some(v),
            Err(_) => parsed_json(text@) is None,
        },
{
    match parse_json_value(text) {
        Ok(v) => Ok(from_json_value(v)),
        Err(e) => Err(e),
    }
}

/// The value under `key` in an association list: first match wins.
pub open spec fn assoc_get(pairs: Seq<(String, JsonVal)>, key: Seq<char>) -> Option<JsonVal>
    decreases pairs.len(),
{
    if pairs.len() == 0 {
        None
    } else if pairs[0].0@ == key {
        Some(pairs[0].1)
    } else {
        assoc_get(pairs.drop_first(), key)
    }
}

/// The member `key` of an object value; `None` on anything else.
pub open spec fn jget(v: JsonVal, key: Seq<char>) -> Option<JsonVal> {
    match v {
        JsonVal::Obj(pairs) => assoc_get(pairs@, key),
        _ => None,
    }
}

/// The chars of a string value; `None` on anything else.
pub open spec fn jstr(v: JsonVal) -> Option<Seq<char>> {
    match v {
        JsonVal::Str(s) => Some(s@),
        _ => None,
    }
}

/// The `i64` of an integer number value; `None` on anything else.
pub open spec fn jint(v: JsonVal) -> Option<i64> {
    match v {
        JsonVal::Int(i) => Some(i),
        _ => None,
    }
}

/// Whether the chars of two strings are the same.
pub fn str_eq(a: &str, b: &str) -> (r: bool)
    ensures
        r == (a@ == b@),
{
    let n = a.unicode_len();
    if n != b.unicode_len() {
        return false;
    }
    let mut i: usize = 0;
    while i < n
        invariant
            i <= n,
            n == a@.len() == b@.len(),
            a@.take(i as int) == b@.take(i as int),
        decreases n - i,
    {
        if a.get_char(i) != b.get_char(i) {
            assert(a@ != b@) by {
                assert(a@[i as int] != b@[i as int]);
            }
            return false;
        }
        assert(a@.take(i + 1) =~= b@.take(i + 1)) by {
            assert(a@.take(i + 1) =~= a@.take(i as int).push(a@[i as int]));
            assert(b@.take(i + 1) =~= b@.take(i as int).push(b@[i as int]));
        }
        i = i + 1;
    }
    assert(a@ =~= b@) by {
        assert(a@.take(n as int) =~= a@);
        assert(b@.take(n as int) =~= b@);
    }
    true
}

impl JsonVal {
    /// The member `key`, when this is an object that has it.
    pub fn get<'a>(&'a self, key: &str) -> (r: Option<&'a JsonVal>)
        ensures
            match r {
                Some(x) => jget(*self, key@) == Some(*x),
                None => jget(*self, key@) is None,
            },
    {
        match self {
            JsonVal::Obj(pairs) => {
                assert(pairs@.skip(0) =~= pairs@);
                let mut i: usize = 0;
                while i < pairs.len()
                    invariant
                        i <= pairs@.len(),
                        jget(*self, key@) == assoc_get(pairs@, key@),
                        forall|j: int| 0 <= j < i ==> pairs@[j].0@ != key@,
                        assoc_get(pairs@, key@) == assoc_get(pairs@.skip(i as int), key@),
                    decreases pairs@.len() - i,
                {
                    if str_eq(pairs[i].0.as_str(), key) {
                        assert(assoc_get(pairs@.skip(i as int), key@) == Some(pairs@[i as int].1));
                        return Some(&pairs[i].1);
                    }
                    assert(pairs@.skip(i as int).drop_first() =~= pairs@.skip(i + 1));
                    i = i + 1;
                }
                assert(pairs@.skip(i as int).len() == 0);
                None
            },
            _ => None,
        }
    }

    /// The string chars, when this is a string.
    pub fn as_str<'a>(&'a self) -> (r: Option<&'a str>)
        ensures
            match r {
                Some(s) => jstr(*self) == Some(s@),
                None => jstr(*self) is None,
            },
    {
        match self {
            JsonVal::Str(s) => Some(s.as_str()),
            _ => None,
        }
    }

    /// The integer, when this is a number that fits `i64`.
    pub fn as_i64(&self) -> (r: Option<i64>)
        ensures
            r == jint(*self),
    {
        match self {
            JsonVal::Int(i) => Some(*i),
            _ => None,
        }
    }

    /// The items, when this is an array.
    pub fn as_array<'a>(&'a self) -> (r: Option<&'a Vec<JsonVal>>)
        ensures
            match r {
                Some(items) => self is Arr && items@ == self->Arr_0@,
                None => !(self is Arr),
            },
    {
        match self {
            JsonVal::Arr(items) => Some(items),
            _ => None,
        }
    }

    /// The members, when this is an object.
    pub fn as_object<'a>(&'a self) -> (r: Option<&'a Vec<(String, JsonVal)>>)
        ensures
            match r {
                Some(pairs) => self is Obj && pairs@ == self->Obj_0@,
                None => !(self is Obj),
            },
    {
        match self {
            JsonVal::Obj(pairs) => Some(pairs),
            _ => None,
        }
    }

    /// Whether this is an object with at least one member.
    pub fn is_nonempty_object(&self) -> (r: bool)
        ensures
            r == (self is Obj && self->Obj_0@.len() > 0),
    {
        match self {
            JsonVal::Obj(pairs) => pairs.len() > 0,
            _ => false,
        }
    }
}

} // verus!
