//! Where JSON documents come from: `serde_json` reads them, and this module
//! turns what it hands back into plain values.

use vstd::prelude::*;
use crate::json::{JsonNumber, JsonValue, JsonView};

verus! {

/// `serde_json::Value`, which is opaque here: see [`value_contents`].
#[verifier::external_type_specification]
#[verifier::external_body]
pub struct ExValue(serde_json::Value);

/// `serde_json::Number`, which is opaque here: see [`number_contents`].
#[verifier::external_type_specification]
#[verifier::external_body]
pub struct ExNumber(serde_json::Number);

/// What a `serde_json::Number` holds: an integer from zero up, a negative
/// integer, or the bits of a binary64 number.
pub uninterp spec fn number_contents(number: serde_json::Number) -> JsonNumber;

/// What a `serde_json::Value` holds, the members of an object in the order in
/// which its map walks them.
pub uninterp spec fn value_contents(value: serde_json::Value) -> JsonView;

/// What `serde_json::from_str` makes of a text: the document it writes, or the
/// message of the error.
pub uninterp spec fn json_document(text: Seq<char>) -> Result<JsonView, Seq<char>>;

/// The top layer of a `serde_json::Value`.
enum Layer<'a> {
    Null,
    Bool(bool),
    Number(&'a serde_json::Number),
    Text(&'a String),
    Array(&'a Vec<serde_json::Value>),
    Object(Vec<(&'a String, &'a serde_json::Value)>),
}

/// Tells the variants of `serde_json::Value` apart. Claimed: the variant and
/// its fields are what the value holds, and a map's iterator walks all its
/// members.
#[verifier::external_body]
fn top_layer<'a>(value: &'a serde_json::Value) -> (r: Layer<'a>)
    ensures
        value_contents(*value) == (match r {
            Layer::Null => JsonView::Null,
            Layer::Bool(b) => JsonView::Bool(b),
            Layer::Number(n) => JsonView::Number(number_contents(*n)),
            Layer::Text(s) => JsonView::Text(s@),
            Layer::Array(items) => JsonView::Array(
                items@.map_values(|v: serde_json::Value| value_contents(v)),
            ),
            Layer::Object(members) => JsonView::Object(
                members@.map_values(
                    |m: (&'a String, &'a serde_json::Value)| (m.0@, value_contents(*m.1)),
                ),
            ),
        }),
{
    match value {
        serde_json::Value::Null => Layer::Null,
        serde_json::Value::Bool(b) => Layer::Bool(*b),
        serde_json::Value::Number(n) => Layer::Number(n),
        serde_json::Value::String(s) => Layer::Text(s),
        serde_json::Value::Array(items) => Layer::Array(items),
        serde_json::Value::Object(members) => Layer::Object(members.iter().collect()),
    }
}

/// `serde_json::Number::as_u64`. Claimed: it returns the integer of a number
/// that is an integer from zero up, and nothing of any other.
#[verifier::external_body]
fn number_as_u64(number: &serde_json::Number) -> (r: Option<u64>)
    ensures
        r == number_contents(*number).unsigned(),
{
    number.as_u64()
}

/// `serde_json::Number::as_i64`. Claimed: it returns the integer of a number
/// that is an integer and fits, and nothing of any other.
#[verifier::external_body]
fn number_as_i64(number: &serde_json::Number) -> (r: Option<i64>)
    ensures
        r == number_contents(*number).signed(),
{
    number.as_i64()
}

/// `serde_json::Number::as_f64`, by its bits. Claimed, of a number that is no
/// integer: it returns the binary64 number that is held.
#[verifier::external_body]
fn number_as_bits(number: &serde_json::Number) -> (r: Option<u64>)
    requires
        number_contents(*number) is Binary64,
    ensures
        r == Some(number_contents(*number)->Binary64_0),
{
    number.as_f64().map(|x| x.to_bits())
}

/// `serde_json::from_str`. Claimed: it succeeds on the texts that write a
/// document and returns a value that holds it; on any other text it fails, and
/// the message of the error depends on the text alone.
#[verifier::external_body]
fn read_value(text: &str) -> (r: Result<serde_json::Value, String>)
    ensures
        json_document(text@) == (match r {
            Ok(value) => Ok::<JsonView, Seq<char>>(value_contents(value)),
            Err(message) => Err::<JsonView, Seq<char>>(message@),
        }),
{
    serde_json::from_str::<serde_json::Value>(text).map_err(|e| e.to_string())
}

fn number_from_serde(number: &serde_json::Number) -> (r: JsonNumber)
    ensures
        r == number_contents(*number),
{
    match number_as_u64(number) {
        Some(u) => JsonNumber::Unsigned(u),
        None => match number_as_i64(number) {
            Some(i) => JsonNumber::Negative(i),
            None => JsonNumber::Binary64(number_as_bits(number).unwrap()),
        },
    }
}

impl JsonValue {
    /// Copies a `serde_json::Value`.
    pub fn from_serde(value: &serde_json::Value) -> (r: JsonValue)
        ensures
            r@ == value_contents(*value),
        decreases value_contents(*value),
    {
        match top_layer(value) {
            Layer::Null => JsonValue::Null,
            Layer::Bool(b) => JsonValue::Bool(b),
            Layer::Number(n) => JsonValue::Number(number_from_serde(n)),
            Layer::Text(s) => JsonValue::Text(s.clone()),
            Layer::Array(items) => {
                let ghost expected = value_contents(*value)->Array_0;
                let mut out: Vec<JsonValue> = Vec::new();
                let mut i: usize = 0;
                while i < items.len()
                    invariant
                        i <= items@.len(),
                        value_contents(*value) == JsonView::Array(expected),
                        expected == items@.map_values(
                            |v: serde_json::Value| value_contents(v),
                        ),
                        out@.len() == i,
                        forall|k: int| 0 <= k < i ==> crate::json::json_view(#[trigger] out@[k]) == expected[k],
                    decreases items@.len() - i,
                {
                    assert(decreases_to!(value_contents(*value) => value_contents(*value)->Array_0));
                    assert(decreases_to!(expected => expected[i as int]));
                    out.push(JsonValue::from_serde(&items[i]));
                    i += 1;
                }
                let r = JsonValue::Array(out);
                assert(r@->Array_0 =~= expected);
                r
            },
            Layer::Object(members) => {
                let ghost expected = value_contents(*value)->Object_0;
                let mut out: Vec<(String, JsonValue)> = Vec::new();
                let mut i: usize = 0;
                while i < members.len()
                    invariant
                        i <= members@.len(),
                        value_contents(*value) == JsonView::Object(expected),
                        expected == members@.map_values(
                            |m: (&String, &serde_json::Value)| (m.0@, value_contents(*m.1)),
                        ),
                        out@.len() == i,
                        forall|k: int|
                            0 <= k < i ==> ((#[trigger] out@[k]).0@, crate::json::json_view(out@[k].1))
                                == expected[k],
                    decreases members@.len() - i,
                {
                    assert(decreases_to!(value_contents(*value) => value_contents(*value)->Object_0));
                    assert(decreases_to!(expected => expected[i as int]));
                    assert(decreases_to!(expected[i as int] => expected[i as int].1));
                    let (name, held) = members[i];
                    out.push((name.clone(), JsonValue::from_serde(held)));
                    i += 1;
                }
                let r = JsonValue::Object(out);
                assert(r@->Object_0 =~= expected);
                r
            },
        }
    }
}

/// Reads a JSON document; of a text that writes none, the message that says
/// why.
pub fn read_json(text: &str) -> (r: Result<JsonValue, String>)
    ensures
        json_document(text@) == (match r {
            Ok(value) => Ok::<JsonView, Seq<char>>(value@),
            Err(message) => Err::<JsonView, Seq<char>>(message@),
        }),
{
    match read_value(text) {
        Ok(value) => Ok(JsonValue::from_serde(&value)),
        Err(message) => Err(message),
    }
}

/// A text is read as the document that it writes, a value is copied with all
/// that it holds, and a text that writes no document gives the reason.
pub proof fn law_documents_are_read_as_written(
    text: &str,
    read: Result<JsonValue, String>,
    value: serde_json::Value,
    copied: JsonValue,
)
    requires
        call_ensures(read_json, (text,), read),
        call_ensures(JsonValue::from_serde, (&value,), copied),
    ensures
        json_document(text@) matches Ok(document) ==> read matches Ok(v) && v@ == document,
        json_document(text@) matches Err(cause) ==> read matches Err(message) && message@ == cause,
        copied@ == value_contents(value),
{
}

} // verus!
