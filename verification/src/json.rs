//! JSON documents as the decoders read them. The text is parsed by
//! `serde_json`; the tree that comes out is copied into `Json`, a type that
//! the rest of the library can look into.

use vstd::prelude::*;
use vstd::string::*;
use crate::util::error::RouxError;
use crate::util::option::text_of;

verus! {

/// `serde_json::Value`, the tree that `serde_json` parses a document into.
/// Nothing of its inside is visible here: `lift` copies it into a `Json`.
#[verifier::external_type_specification]
#[verifier::external_body]
pub struct ExJsonValue(serde_json::Value);

/// `serde_json::Error`, what `serde_json` reports when a text is no JSON
/// document. It is carried in `RouxError::Parse` and never looked into.
#[verifier::external_type_specification]
#[verifier::external_body]
pub struct ExJsonError(serde_json::Error);

/// A JSON value. A number is kept when it is an integer that fits `i64`;
/// of any other number only its presence is kept.
#[derive(Debug)]
pub enum Json {
    Null,
    Bool(bool),
    Number(Option<i64>),
    Str(String),
    Array(Vec<Json>),
    /// The members, each with its name. Where two have one name, the first
    /// is the one that is found.
    Object(Vec<(String, Json)>),
}

/// The value that `serde_json` reads from a text, if the text is a JSON
/// document.
pub uninterp spec fn parsed_value(text: Seq<char>) -> Option<serde_json::Value>;

/// The tree that stands for a value of `serde_json`.
pub uninterp spec fn value_tree(value: serde_json::Value) -> Json;

/// The tree of the JSON document that a text holds, if it holds one.
pub open spec fn document(text: Seq<char>) -> Option<Json> {
    match parsed_value(text) {
        Some(value) => Some(value_tree(value)),
        None => None,
    }
}

/// Calls `serde_json::from_str` for a `serde_json::Value`. Trusted: the call
/// succeeds exactly on the texts for which `parsed_value` is defined, and
/// then returns that value; the same text always gives the same outcome.
#[verifier::external_body]
fn read_value(text: &str) -> (r: Result<serde_json::Value, serde_json::Error>)
    ensures
        r is Ok <==> parsed_value(text@) is Some,
        r matches Ok(value) ==> parsed_value(text@) == Some(value),
{
    serde_json::from_str::<serde_json::Value>(text)
}

/// Takes a `serde_json::Value` apart, variant by variant, and moves what it
/// holds into a `Json`; of a number it keeps what `Number::as_i64` returns.
/// Trusted: the result is `value_tree` of the value.
#[verifier::external_body]
fn lift(value: serde_json::Value) -> (json: Json)
    ensures
        json == value_tree(value),
{
    match value {
        serde_json::Value::Null => Json::Null,
        serde_json::Value::Bool(b) => Json::Bool(b),
        serde_json::Value::Number(n) => Json::Number(n.as_i64()),
        serde_json::Value::String(s) => Json::Str(s),
        serde_json::Value::Array(items) => Json::Array(items.into_iter().map(lift).collect()),
        serde_json::Value::Object(members) => Json::Object(
            members.into_iter().map(|(name, v)| (name, lift(v))).collect(),
        ),
    }
}

/// Calls `serde::de::Error::custom` of `serde_json::Error`, which makes an
/// error that carries the given message. Nothing is claimed of the result.
#[verifier::external_body]
pub(crate) fn shape_error(message: &str) -> serde_json::Error {
    serde::de::Error::custom(message)
}

/// The message that a `serde_json::Error` prints: what went wrong and, for
/// a fault in a text, at which line and column.
pub uninterp spec fn error_text(error: serde_json::Error) -> Seq<char>;

/// Calls `to_string` of a `serde_json::Error`, which writes the error as its
/// `Display` does. Trusted: the text is `error_text` of the error; the same
/// error always prints the same text.
#[verifier::external_body]
pub(crate) fn error_message(error: &serde_json::Error) -> (text: String)
    ensures
        text@ == error_text(*error),
{
    error.to_string()
}

/// Reads a JSON document. Succeeds exactly when the text holds one, with its
/// tree; fails with `Parse` otherwise.
pub fn parse(text: &str) -> (r: Result<Json, RouxError>)
    ensures
        r is Ok <==> document(text@) is Some,
        r matches Ok(json) ==> document(text@) == Some(json),
        r matches Err(e) ==> e is Parse,
{
    match read_value(text) {
        Ok(value) => Ok(lift(value)),
        Err(error) => Err(RouxError::Parse(error)),
    }
}

/// The value of the first member from index `from` on whose name is `key`.
pub open spec fn lookup_from(members: Seq<(String, Json)>, key: Seq<char>, from: int) -> Option<
    Json,
>
    decreases members.len() - from,
{
    if from < 0 || from >= members.len() {
        None
    } else if members[from].0@ == key {
        Some(members[from].1)
    } else {
        lookup_from(members, key, from + 1)
    }
}

impl Json {
    /// The member called `key`, if this is an object that has one.
    pub open spec fn spec_member(self, key: Seq<char>) -> Option<Json> {
        match self {
            Json::Object(members) => lookup_from(members@, key, 0),
            _ => None,
        }
    }

    /// The text, if this is a string.
    pub open spec fn spec_text(self) -> Option<Seq<char>> {
        match self {
            Json::Str(s) => Some(s@),
            _ => None,
        }
    }

    /// The integer, if this is a number that is one and fits `i64`.
    pub open spec fn spec_int(self) -> Option<i64> {
        match self {
            Json::Number(n) => n,
            _ => None,
        }
    }

    /// The elements, if this is an array.
    pub open spec fn spec_items(self) -> Option<Seq<Json>> {
        match self {
            Json::Array(items) => Some(items@),
            _ => None,
        }
    }

    /// The text of the member called `key`, if there is one and it is a
    /// string.
    pub open spec fn text_at(self, key: Seq<char>) -> Option<Seq<char>> {
        match self.spec_member(key) {
            Some(value) => value.spec_text(),
            None => None,
        }
    }

    /// The member called `key` is absent or null.
    pub open spec fn missing(self, key: Seq<char>) -> bool {
        self.spec_member(key) is None || self.spec_member(key) == Some(Json::Null)
    }

    /// The member called `key` is absent, null or a string.
    pub open spec fn optional_text_ok(self, key: Seq<char>) -> bool {
        self.missing(key) || self.text_at(key) is Some
    }

    /// The 32-bit integer, if this is a number that is one.
    pub open spec fn spec_i32(self) -> Option<i32> {
        match self.spec_int() {
            Some(n) => if i32::MIN <= n <= i32::MAX {
                Some(n as i32)
            } else {
                None
            },
            None => None,
        }
    }

    /// The member called `key`, if there is one and it is a 32-bit integer.
    pub open spec fn i32_at(self, key: Seq<char>) -> Option<i32> {
        match self.spec_member(key) {
            Some(value) => value.spec_i32(),
            None => None,
        }
    }

    /// The member called `key`, if there is one and it is an integer that
    /// fits `i64`.
    pub open spec fn int_at(self, key: Seq<char>) -> Option<i64> {
        match self.spec_member(key) {
            Some(value) => value.spec_int(),
            None => None,
        }
    }

    /// The member called `key` is absent, null or a 32-bit integer.
    pub open spec fn optional_i32_ok(self, key: Seq<char>) -> bool {
        self.missing(key) || self.i32_at(key) is Some
    }

    /// The member called `key` is absent, null or a boolean.
    pub open spec fn optional_flag_ok(self, key: Seq<char>) -> bool {
        self.missing(key) || self.flag_at(key) is Some
    }

    /// The elements of the member called `key`, if there is one and it is an
    /// array.
    pub open spec fn items_at(self, key: Seq<char>) -> Option<Seq<Json>> {
        match self.spec_member(key) {
            Some(value) => value.spec_items(),
            None => None,
        }
    }

    /// The member called `key`, if there is one and it is a boolean.
    pub open spec fn flag_at(self, key: Seq<char>) -> Option<bool> {
        match self.spec_member(key) {
            Some(Json::Bool(b)) => Some(b),
            _ => None,
        }
    }

    /// The member called `key`, if this is an object that has one.
    pub fn member(&self, key: &str) -> (r: Option<&Json>)
        ensures
            r is Some <==> self.spec_member(key@) is Some,
            r matches Some(value) ==> self.spec_member(key@) == Some(*value),
    {
        match self {
            Json::Object(members) => {
                let wanted = key.to_owned();
                let mut i: usize = 0;
                while i < members.len()
                    invariant
                        i <= members.len(),
                        wanted@ == key@,
                        self.spec_member(key@) == lookup_from(members@, key@, 0),
                        lookup_from(members@, key@, 0) == lookup_from(members@, key@, i as int),
                    decreases members.len() - i,
                {
                    if members[i].0 == wanted {
                        return Some(&members[i].1);
                    }
                    i += 1;
                }
                None
            },
            _ => None,
        }
    }

    /// The text, if this is a string.
    pub fn as_text(&self) -> (r: Option<&str>)
        ensures
            r is Some <==> self.spec_text() is Some,
            r matches Some(s) ==> self.spec_text() == Some(s@),
    {
        match self {
            Json::Str(s) => Some(s.as_str()),
            _ => None,
        }
    }

    /// The integer, if this is a number that is one and fits `i64`.
    pub fn as_int(&self) -> (r: Option<i64>)
        ensures
            r == self.spec_int(),
    {
        match self {
            Json::Number(n) => *n,
            _ => None,
        }
    }

    /// The elements, if this is an array.
    pub fn as_items(&self) -> (r: Option<&Vec<Json>>)
        ensures
            r is Some <==> self.spec_items() is Some,
            r matches Some(items) ==> self.spec_items() == Some(items@),
    {
        match self {
            Json::Array(items) => Some(items),
            _ => None,
        }
    }

    /// Whether this is `null`.
    pub fn is_null(&self) -> (r: bool)
        ensures
            r == (*self is Null),
    {
        match self {
            Json::Null => true,
            _ => false,
        }
    }

    /// A copy of the text of the member called `key`, if there is one and it
    /// is a string.
    pub fn text_member(&self, key: &str) -> (r: Option<String>)
        ensures
            text_of(r) == self.text_at(key@),
    {
        match self.member(key) {
            Some(value) => match value.as_text() {
                Some(s) => Some(s.to_owned()),
                None => None,
            },
            None => None,
        }
    }

    /// Reads a member that may be left out: `Some(None)` where it is absent
    /// or null, `Some(Some(..))` where it is a string, `None` where it is
    /// anything else.
    pub fn optional_text_member(&self, key: &str) -> (r: Option<Option<String>>)
        ensures
            r is Some <==> self.optional_text_ok(key@),
            r matches Some(text) ==> text_of(text) == self.text_at(key@),
    {
        match self.member(key) {
            Some(value) => match value {
                Json::Null => Some(None),
                Json::Str(s) => Some(Some(s.clone())),
                _ => None,
            },
            None => Some(None),
        }
    }

    /// The 32-bit integer, if this is a number that is one.
    pub fn as_i32(&self) -> (r: Option<i32>)
        ensures
            r == self.spec_i32(),
    {
        match self.as_int() {
            Some(n) => if -2147483648 <= n && n <= 2147483647 {
                Some(n as i32)
            } else {
                None
            },
            None => None,
        }
    }

    /// Reads a member that may be left out: `Some(None)` where it is absent
    /// or null, `Some(Some(..))` where it is a 32-bit integer, `None` where
    /// it is anything else.
    pub fn optional_i32_member(&self, key: &str) -> (r: Option<Option<i32>>)
        ensures
            r is Some <==> self.optional_i32_ok(key@),
            r matches Some(n) ==> n == self.i32_at(key@),
    {
        match self.member(key) {
            Some(value) => match value {
                Json::Null => Some(None),
                _ => match value.as_i32() {
                    Some(n) => Some(Some(n)),
                    None => None,
                },
            },
            None => Some(None),
        }
    }

    /// The elements of the member called `key`, if there is one and it is an
    /// array.
    pub fn items_member(&self, key: &str) -> (r: Option<&Vec<Json>>)
        ensures
            r is Some <==> self.items_at(key@) is Some,
            r matches Some(items) ==> self.items_at(key@) == Some(items@),
    {
        match self.member(key) {
            Some(value) => value.as_items(),
            None => None,
        }
    }

    /// The member called `key`, if there is one and it is an integer that
    /// fits `i64`.
    pub fn int_member(&self, key: &str) -> (r: Option<i64>)
        ensures
            r == self.int_at(key@),
    {
        match self.member(key) {
            Some(value) => value.as_int(),
            None => None,
        }
    }

    /// The member called `key`, if there is one and it is a 32-bit integer.
    pub fn i32_member(&self, key: &str) -> (r: Option<i32>)
        ensures
            r == self.i32_at(key@),
    {
        match self.member(key) {
            Some(value) => value.as_i32(),
            None => None,
        }
    }

    /// Reads a member that may be left out: `Some(None)` where it is absent
    /// or null, `Some(Some(..))` where it is a boolean, `None` where it is
    /// anything else.
    pub fn optional_flag_member(&self, key: &str) -> (r: Option<Option<bool>>)
        ensures
            r is Some <==> self.optional_flag_ok(key@),
            r matches Some(flag) ==> flag == self.flag_at(key@),
    {
        match self.member(key) {
            Some(value) => match value {
                Json::Null => Some(None),
                Json::Bool(b) => Some(Some(*b)),
                _ => None,
            },
            None => Some(None),
        }
    }

    /// The member called `key`, if there is one and it is a boolean.
    pub fn flag_member(&self, key: &str) -> (r: Option<bool>)
        ensures
            r == self.flag_at(key@),
    {
        match self.member(key) {
            Some(Json::Bool(b)) => Some(*b),
            _ => None,
        }
    }
}

/// Looking a name up in a list of members with one more entry behind them
/// finds what it found before, or else the new entry if that has the name.
pub proof fn lemma_lookup_push(
    members: Seq<(String, Json)>,
    entry: (String, Json),
    key: Seq<char>,
    from: int,
)
    requires
        0 <= from <= members.len(),
    ensures
        lookup_from(members.push(entry), key, from) == match lookup_from(members, key, from) {
            Some(value) => Some(value),
            None => if entry.0@ == key {
                Some(entry.1)
            } else {
                None
            },
        },
    decreases members.len() - from,
{
    let longer = members.push(entry);
    if from == members.len() {
        assert(longer[from] == entry);
        assert(lookup_from(longer, key, from + 1) is None);
    } else {
        assert(longer[from] == members[from]);
        if members[from].0@ != key {
            lemma_lookup_push(members, entry, key, from + 1);
        }
    }
}

/// Puts a member behind those of an object under construction. A name that
/// the object has already keeps its first value.
pub fn put(members: &mut Vec<(String, Json)>, key: &str, value: Json)
    ensures
        forall|other: Seq<char>| #[trigger]
            lookup_from(final(members)@, other, 0) == match lookup_from(old(members)@, other, 0) {
                Some(found) => Some(found),
                None => if other == key@ {
                    Some(value)
                } else {
                    None
                },
            },
{
    let name = key.to_owned();
    let ghost entry = (name, value);
    members.push((name, value));
    assert forall|other: Seq<char>| #[trigger]
        lookup_from(members@, other, 0) == match lookup_from(old(members)@, other, 0) {
            Some(found) => Some(found),
            None => if other == key@ {
                Some(value)
            } else {
                None
            },
        } by {
        lemma_lookup_push(old(members)@, entry, other, 0);
    }
}

/// An object without members yet.
pub fn no_members() -> (members: Vec<(String, Json)>)
    ensures
        forall|key: Seq<char>| #[trigger] lookup_from(members@, key, 0) is None,
{
    Vec::new()
}

/// The JSON value of a text that may be left out.
pub open spec fn optional_text_value(text: Option<String>) -> Json {
    match text {
        Some(text) => Json::Str(text),
        None => Json::Null,
    }
}

/// The JSON value of a boolean that may be left out.
pub open spec fn optional_flag_value(flag: Option<bool>) -> Json {
    match flag {
        Some(flag) => Json::Bool(flag),
        None => Json::Null,
    }
}

/// The JSON value of a 32-bit integer.
pub open spec fn i32_value(number: i32) -> Json {
    Json::Number(Some(number as i64))
}

/// The JSON value of a 32-bit integer that may be left out.
pub open spec fn optional_i32_value(number: Option<i32>) -> Json {
    match number {
        Some(number) => i32_value(number),
        None => Json::Null,
    }
}

/// The JSON string of a text.
pub fn text_json(text: &String) -> (json: Json)
    ensures
        json == Json::Str(*text),
        json.spec_text() == Some(text@),
{
    Json::Str(text.clone())
}

/// The JSON value of a text that may be left out: `null` where it is.
pub fn optional_text_json(text: &Option<String>) -> (json: Json)
    ensures
        json == optional_text_value(*text),
        json.spec_text() == text_of(*text),
        text is None ==> json is Null,
{
    match text {
        Some(text) => Json::Str(text.clone()),
        None => Json::Null,
    }
}

/// The JSON value of a number that may be left out: `null` where it is.
pub fn optional_i32_json(number: Option<i32>) -> (json: Json)
    ensures
        json == optional_i32_value(number),
        json.spec_i32() == number,
        number is None ==> json is Null,
{
    match number {
        Some(n) => Json::Number(Some(n as i64)),
        None => Json::Null,
    }
}

/// The JSON value of a boolean.
pub fn flag_json(flag: bool) -> (json: Json)
    ensures
        json == Json::Bool(flag),
{
    Json::Bool(flag)
}

/// The JSON value of a boolean that may be left out: `null` where it is.
pub fn optional_flag_json(flag: Option<bool>) -> (json: Json)
    ensures
        json == optional_flag_value(flag),
{
    match flag {
        Some(b) => Json::Bool(b),
        None => Json::Null,
    }
}

/// The JSON value of a 32-bit integer.
pub fn i32_json(number: i32) -> (json: Json)
    ensures
        json == i32_value(number),
        json.spec_i32() == Some(number),
{
    Json::Number(Some(number as i64))
}

} // verus!
