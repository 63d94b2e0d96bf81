//! JSON documents, as the tools of container runtimes print them.
use vstd::prelude::*;
use vstd::string::*;

use crate::text::{empty_list, outcome, push_deep, same};

verus! {

/// A JSON value. Of a number, the library reads no more than the unsigned
/// integer that it may be.
#[derive(Debug)]
pub enum Json {
    Null,
    Bool(bool),
    Number(Option<u64>),
    Text(String),
    Array(Vec<Json>),
    Object(Vec<(String, Json)>),
}

/// What a JSON value says.
#[verifier::ext_equal]
pub enum JsonView {
    Null,
    Bool(bool),
    Number(Option<u64>),
    Text(Seq<char>),
    Array(Seq<JsonView>),
    Object(Seq<(Seq<char>, JsonView)>),
}

/// What a value says, its parts taken the same way.
pub open spec fn said(value: Json) -> JsonView
    decreases value,
{
    match value {
        Json::Null => JsonView::Null,
        Json::Bool(flag) => JsonView::Bool(flag),
        Json::Number(number) => JsonView::Number(number),
        Json::Text(text) => JsonView::Text(text@),
        Json::Array(items) => JsonView::Array(
            Seq::new(
                items@.len(),
                |i: int|
                    if 0 <= i < items@.len() {
                        said(items@[i])
                    } else {
                        JsonView::Null
                    },
            ),
        ),
        Json::Object(entries) => JsonView::Object(
            Seq::new(
                entries@.len(),
                |i: int|
                    if 0 <= i < entries@.len() {
                        (entries@[i].0@, said(entries@[i].1))
                    } else {
                        (Seq::empty(), JsonView::Null)
                    },
            ),
        ),
    }
}

impl DeepView for Json {
    type V = JsonView;

    open spec fn deep_view(&self) -> JsonView {
        said(*self)
    }
}

/// A JSON value of the `serde_json` crate.
#[verifier::external_type_specification]
#[verifier::external_body]
pub struct ExValue(serde_json::Value);

/// What a value of the `serde_json` crate holds.
pub uninterp spec fn json_contents(value: serde_json::Value) -> JsonView;

/// The array that a JSON text denotes, or the reason why it denotes none.
pub uninterp spec fn parsed_array(text: Seq<char>) -> Result<Seq<JsonView>, Seq<char>>;

/// The value that a JSON text in bytes denotes, or the reason why it denotes
/// none.
pub uninterp spec fn parsed_value(bytes: Seq<u8>) -> Result<JsonView, Seq<char>>;

/// Takes a `serde_json::Value` apart, one variant for one. A number is kept as
/// what `Number::as_u64` makes of it; the entries of an object are kept in the
/// order in which `Map::iter` walks them.
#[verifier::external_body]
fn json_of(value: &serde_json::Value) -> (result: Json)
    ensures
        result.deep_view() == json_contents(*value),
{
    match value {
        serde_json::Value::Null => Json::Null,
        serde_json::Value::Bool(flag) => Json::Bool(*flag),
        serde_json::Value::Number(number) => Json::Number(number.as_u64()),
        serde_json::Value::String(text) => Json::Text(text.clone()),
        serde_json::Value::Array(items) => Json::Array(items.iter().map(json_of).collect()),
        serde_json::Value::Object(entries) => Json::Object(
            entries.iter().map(|(key, item)| (key.clone(), json_of(item))).collect(),
        ),
    }
}

/// `serde_json::from_str` reads an array of values from a text. An error is
/// kept as the text in which `serde_json::Error` displays it.
#[verifier::external_body]
fn values_from_str(text: &str) -> (result: Result<Vec<serde_json::Value>, String>)
    ensures
        parsed_array(text@) == (match result {
            Ok(values) => Ok::<Seq<JsonView>, Seq<char>>(
                values@.map_values(|value: serde_json::Value| json_contents(value)),
            ),
            Err(error) => Err(error@),
        }),
{
    serde_json::from_str::<Vec<serde_json::Value>>(text).map_err(|error| error.to_string())
}

/// `serde_json::from_slice` reads a value from bytes. An error is kept as the
/// text in which `serde_json::Error` displays it.
#[verifier::external_body]
fn value_from_slice(bytes: &[u8]) -> (result: Result<serde_json::Value, String>)
    ensures
        parsed_value(bytes@) == (match result {
            Ok(value) => Ok::<JsonView, Seq<char>>(json_contents(value)),
            Err(error) => Err(error@),
        }),
{
    serde_json::from_slice::<serde_json::Value>(bytes).map_err(|error| error.to_string())
}

/// Reads an array of values from a text.
pub fn parse_array(text: &str) -> (result: Result<Vec<Json>, String>)
    ensures
        outcome(result) == parsed_array(text@),
{
    let values = match values_from_str(text) {
        Ok(values) => values,
        Err(error) => return Err(error),
    };
    let ghost wanted = values@.map_values(|value: serde_json::Value| json_contents(value));
    let mut result: Vec<Json> = empty_list();
    for i in 0..values.len()
        invariant
            wanted == values@.map_values(|value: serde_json::Value| json_contents(value)),
            result.deep_view() == wanted.take(i as int),
    {
        push_deep(&mut result, json_of(&values[i]));
        assert(wanted.take(i + 1) == wanted.take(i as int).push(wanted[i as int]));
    }
    assert(wanted.take(wanted.len() as int) == wanted);
    Ok(result)
}

/// Reads a value from bytes.
pub fn parse_value(bytes: &[u8]) -> (result: Result<Json, String>)
    ensures
        outcome(result) == parsed_value(bytes@),
{
    match value_from_slice(bytes) {
        Ok(value) => Ok(json_of(&value)),
        Err(error) => Err(error),
    }
}

/// The value of the first entry with a key.
pub open spec fn entry_value(entries: Seq<(Seq<char>, JsonView)>, key: Seq<char>) -> Option<
    JsonView,
>
    decreases entries.len(),
{
    if entries.len() == 0 {
        None
    } else if entries.first().0 == key {
        Some(entries.first().1)
    } else {
        entry_value(entries.drop_first(), key)
    }
}

impl JsonView {
    /// The value under a key; none if this is no object or has no such key.
    pub open spec fn field(self, key: Seq<char>) -> Option<JsonView> {
        match self {
            JsonView::Object(entries) => entry_value(entries, key),
            _ => None,
        }
    }

    pub open spec fn text(self) -> Option<Seq<char>> {
        match self {
            JsonView::Text(text) => Some(text),
            _ => None,
        }
    }

    pub open spec fn number(self) -> Option<u64> {
        match self {
            JsonView::Number(number) => number,
            _ => None,
        }
    }

    /// The text under a key.
    pub open spec fn text_field(self, key: Seq<char>) -> Option<Seq<char>> {
        match self.field(key) {
            Some(value) => value.text(),
            None => None,
        }
    }
}

impl Json {
    pub fn get(&self, key: &str) -> (result: Option<&Json>)
        ensures
            result.deep_view() == self.deep_view().field(key@),
    {
        match self {
            Json::Object(entries) => {
                let ghost all = self.deep_view()->Object_0;
                let mut i: usize = 0;
                assert(all.skip(0) == all);
                while i < entries.len()
                    invariant
                        i <= entries.len(),
                        *self == Json::Object(*entries),
                        self.deep_view() == JsonView::Object(all),
                        all.len() == entries@.len(),
                        entry_value(all, key@) == entry_value(all.skip(i as int), key@),
                    decreases entries.len() - i,
                {
                    let pair = &entries[i];
                    assert(all[i as int] == (pair.0@, pair.1.deep_view()));
                    if same(pair.0.as_str(), key) {
                        return Some(&pair.1);
                    }
                    assert(all.skip(i as int).drop_first() == all.skip(i + 1));
                    i += 1;
                }
                None
            },
            _ => None,
        }
    }

    pub fn as_str(&self) -> (result: Option<&str>)
        ensures
            result.deep_view() == self.deep_view().text(),
    {
        match self {
            Json::Text(text) => Some(text.as_str()),
            _ => None,
        }
    }

    pub fn as_u64(&self) -> (result: Option<u64>)
        ensures
            result == self.deep_view().number(),
    {
        match self {
            Json::Number(number) => *number,
            _ => None,
        }
    }

    pub fn as_array(&self) -> (result: Option<&Vec<Json>>)
        ensures
            match result {
                Some(items) => self.deep_view() == JsonView::Array(items.deep_view()),
                None => !(self.deep_view() is Array),
            },
    {
        match self {
            Json::Array(items) => {
                assert(self.deep_view()->Array_0 == items.deep_view());
                Some(items)
            },
            _ => None,
        }
    }

    pub fn get_str(&self, key: &str) -> (result: Option<&str>)
        ensures
            result.deep_view() == self.deep_view().text_field(key@),
    {
        match self.get(key) {
            Some(value) => value.as_str(),
            None => None,
        }
    }
}

} // verus!
