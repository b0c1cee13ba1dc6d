//! A JSON document as the widgets read it.
//!
//! The text is parsed outside the library; the widgets only walk the tree.
//! The accessors mirror what the dashboard asks of a document: a member of
//! an object, a string, an array, a non-negative integer, or a number.
use vstd::prelude::*;
use crate::text::{concat3, str_concat, str_eq};
use serde_json::Value;
use self::JsonNumber::{Float, NegInt, PosInt};

verus! {

/// A JSON number as it was written: a non-negative integer, a negative
/// integer, or a floating-point number carried by its IEEE-754 bit pattern
/// (the library never computes with it).
#[derive(Clone, Copy, Debug, PartialEq, Eq, Structural)]
pub enum JsonNumber {
    PosInt(u64),
    NegInt(i64),
    Float(u64),
}

/// A JSON value. Objects keep their members in document order.
#[derive(Debug)]
pub enum Json {
    Null,
    Bool(bool),
    Number(JsonNumber),
    Str(String),
    Array(Vec<Json>),
    Object(Vec<(String, Json)>),
}

/// The value of the first member named `key` among `members`.
pub open spec fn member(members: Seq<(String, Json)>, key: Seq<char>) -> Option<Json>
    decreases members.len(),
{
    if members.len() == 0 {
        None
    } else if members[0].0@ == key {
        Some(members[0].1)
    } else {
        member(members.drop_first(), key)
    }
}

/// The member `key` of `j` when `j` is an object that has it.
pub open spec fn get(j: Json, key: Seq<char>) -> Option<Json> {
    match j {
        Json::Object(members) => member(members@, key),
        _ => None,
    }
}

/// The member `key` of `o` when `o` is an object that has it.
pub open spec fn get_in(o: Option<Json>, key: Seq<char>) -> Option<Json> {
    match o {
        Some(j) => get(j, key),
        None => None,
    }
}

/// The chars of `j` when it is a string.
pub open spec fn str_of(j: Json) -> Option<Seq<char>> {
    match j {
        Json::Str(s) => Some(s@),
        _ => None,
    }
}

/// The chars of `o` when it holds a string.
pub open spec fn str_in(o: Option<Json>) -> Option<Seq<char>> {
    match o {
        Some(j) => str_of(j),
        None => None,
    }
}

/// The elements of `j` when it is an array.
pub open spec fn array_of(j: Json) -> Option<Seq<Json>> {
    match j {
        Json::Array(v) => Some(v@),
        _ => None,
    }
}

/// The elements of `o` when it holds an array.
pub open spec fn array_in(o: Option<Json>) -> Option<Seq<Json>> {
    match o {
        Some(j) => array_of(j),
        None => None,
    }
}

/// The value of `j` when it is a non-negative integer.
pub open spec fn u64_of(j: Json) -> Option<u64> {
    match j {
        Json::Number(JsonNumber::PosInt(n)) => Some(n),
        _ => None,
    }
}

/// The value of `o` when it holds a non-negative integer.
pub open spec fn u64_in(o: Option<Json>) -> Option<u64> {
    match o {
        Some(j) => u64_of(j),
        None => None,
    }
}

/// The number of `o` when it holds one.
pub open spec fn number_in(o: Option<Json>) -> Option<JsonNumber> {
    match o {
        Some(Json::Number(n)) => Some(n),
        _ => None,
    }
}

/// The chars of a borrowed string, when there is one.
pub open spec fn opt_chars(o: Option<&String>) -> Option<Seq<char>> {
    match o {
        Some(s) => Some(s@),
        None => None,
    }
}

/// `o`'s chars, or `default` when there are none.
pub open spec fn chars_or(o: Option<Seq<char>>, default: Seq<char>) -> Seq<char> {
    match o {
        Some(s) => s,
        None => default,
    }
}

impl Json {
    /// The member `key` of this value when it is an object that has it
    /// (the first such member).
    pub fn get(&self, key: &str) -> (r: Option<&Json>)
        ensures
            match r {
                Some(v) => get(*self, key@) == Some(*v),
                None => get(*self, key@) is None,
            },
    {
        match self {
            Json::Object(members) => {
                let mut i: usize = 0;
                assert(members@.skip(0) =~= members@);
                while i < members.len()
                    invariant
                        i <= members.len(),
                        member(members@, key@) == member(members@.skip(i as int), key@),
                        get(*self, key@) == member(members@, key@),
                    decreases members.len() - i,
                {
                    if str_eq(members[i].0.as_str(), key) {
                        proof {
                            let rest = members@.skip(i as int);
                            assert(rest[0] == members@[i as int]);
                            assert(rest.len() > 0);
                            assert(member(rest, key@) == Some(members@[i as int].1));
                        }
                        return Some(&members[i].1);
                    }
                    proof {
                        assert(members@.skip(i as int).drop_first() =~= members@.skip(i + 1));
                    }
                    i = i + 1;
                }
                None
            },
            _ => None,
        }
    }

    /// This value's string, when it is one.
    pub fn as_str(&self) -> (r: Option<&String>)
        ensures
            opt_chars(r) == str_of(*self),
    {
        match self {
            Json::Str(s) => Some(s),
            _ => None,
        }
    }

    /// This value's elements, when it is an array.
    pub fn as_array(&self) -> (r: Option<&Vec<Json>>)
        ensures
            match r {
                Some(v) => array_of(*self) == Some(v@),
                None => array_of(*self) is None,
            },
    {
        match self {
            Json::Array(v) => Some(v),
            _ => None,
        }
    }

    /// This value as a non-negative integer, when it is one.
    pub fn as_u64(&self) -> (r: Option<u64>)
        ensures
            r == u64_of(*self),
    {
        match self {
            Json::Number(JsonNumber::PosInt(n)) => Some(*n),
            _ => None,
        }
    }

    /// This value's number, when it is one.
    pub fn as_number(&self) -> (r: Option<JsonNumber>)
        ensures
            r == number_in(Some(*self)),
    {
        match self {
            Json::Number(n) => Some(*n),
            _ => None,
        }
    }
}

/// The member `key` of `o` when `o` holds an object that has it.
pub fn get_opt<'a>(o: Option<&'a Json>, key: &str) -> (r: Option<&'a Json>)
    ensures
        match r {
            Some(v) => get_in(opt_json(o), key@) == Some(*v),
            None => get_in(opt_json(o), key@) is None,
        },
{
    match o {
        Some(j) => j.get(key),
        None => None,
    }
}

/// The value behind a borrowed option.
pub open spec fn opt_json(o: Option<&Json>) -> Option<Json> {
    match o {
        Some(j) => Some(*j),
        None => None,
    }
}

/// The string held by `o`, when it holds one.
pub fn str_opt<'a>(o: Option<&'a Json>) -> (r: Option<&'a String>)
    ensures
        opt_chars(r) == str_in(opt_json(o)),
{
    match o {
        Some(j) => j.as_str(),
        None => None,
    }
}

/// The elements held by `o`, when it holds an array.
pub fn array_opt<'a>(o: Option<&'a Json>) -> (r: Option<&'a Vec<Json>>)
    ensures
        match r {
            Some(v) => array_in(opt_json(o)) == Some(v@),
            None => array_in(opt_json(o)) is None,
        },
{
    match o {
        Some(j) => j.as_array(),
        None => None,
    }
}

/// The non-negative integer held by `o`, when it holds one.
pub fn u64_opt(o: Option<&Json>) -> (r: Option<u64>)
    ensures
        r == u64_in(opt_json(o)),
{
    match o {
        Some(j) => j.as_u64(),
        None => None,
    }
}

/// The number held by `o`, when it holds one.
pub fn number_opt(o: Option<&Json>) -> (r: Option<JsonNumber>)
    ensures
        r == number_in(opt_json(o)),
{
    match o {
        Some(j) => j.as_number(),
        None => None,
    }
}

/// The JSON value type of `serde_json`.
#[verifier::external_type_specification]
#[verifier::external_body]
pub struct ExJsonValue(Value);

/// What `serde_json::from_str` makes of `text`, as a `Json` taken one for
/// one from the `serde_json::Value` it parses (integers that fit `u64` as
/// `PosInt`, other integers that fit `i64` as `NegInt`, other numbers as
/// `Float` by their bits, object members in the map's order); a failure is
/// the error printed with `Display` and with `Debug`.
pub uninterp spec fn json_document(text: Seq<char>) -> Result<Json, (Seq<char>, Seq<char>)>;

/// Calls `serde_json::from_str` for a `serde_json::Value` and turns the value
/// into a `Json` (`json_from_value`); a failure is printed with `Display` and
/// with `Debug`.
///
/// Trusted: the result is `json_document(text)`; serde_json's grammar and
/// messages are not restated.
#[verifier::external_body]
pub(crate) fn parse_json(text: &str) -> (r: Result<Json, (String, String)>)
    ensures
        match r {
            Ok(j) => json_document(text@) == Ok::<Json, (Seq<char>, Seq<char>)>(j),
            Err((shown, debugged)) => json_document(text@) == Err::<Json, (Seq<char>, Seq<char>)>(
                (shown@, debugged@),
            ),
        },
{
    serde_json::from_str::<Value>(text).map(|v| json_from_value(&v)).map_err(
        |e| (e.to_string(), format!("{e:?}")),
    )
}

/// Turns a `serde_json::Value` into a `Json`, variant for variant, the half
/// of `parse_json` after the parse; nothing is stated of it apart from what
/// `parse_json` states.
#[verifier::external_body]
fn json_from_value(v: &Value) -> Json {
    match v {
        Value::Null => Json::Null,
        Value::Bool(b) => Json::Bool(*b),
        Value::Number(n) => Json::Number(match (n.as_u64(), n.as_i64()) {
            (Some(u), _) => PosInt(u),
            (None, Some(i)) => NegInt(i),
            _ => Float(n.as_f64().map_or(0, |x| x.to_bits())),
        }),
        Value::String(s) => Json::Str(s.clone()),
        Value::Array(a) => Json::Array(a.iter().map(json_from_value).collect()),
        Value::Object(m) => Json::Object(m.iter().map(|(k, x)| (k.clone(), json_from_value(x))).collect()),
    }
}

/// The message of a response body that does not parse as JSON.
pub open spec fn parse_failure(url: Seq<char>, message: Seq<char>) -> Seq<char> {
    "failed to parse JSON from "@ + url + ": "@ + message
}

/// The JSON document of a response body fetched from `url`, or the message
/// of why it does not parse.
pub open spec fn response_json_of(body: Seq<char>, url: Seq<char>) -> Result<Json, Seq<char>> {
    match json_document(body) {
        Ok(j) => Ok(j),
        Err((m, _)) => Err(parse_failure(url, m)),
    }
}

/// The JSON document of a response body fetched from `url`.
pub fn response_json(body: &str, url: &str) -> (r: Result<Json, String>)
    ensures
        match r {
            Ok(j) => response_json_of(body@, url@) == Ok::<Json, Seq<char>>(j),
            Err(m) => response_json_of(body@, url@) == Err::<Json, Seq<char>>(m@),
        },
{
    match parse_json(body) {
        Ok(j) => Ok(j),
        Err((m, _)) => {
            let tail = str_concat(": ", m.as_str());
            let e = concat3("failed to parse JSON from ", url, tail.as_str());
            assert(e@ =~= parse_failure(url@, m@));
            Err(e)
        },
    }
}

} // verus!
