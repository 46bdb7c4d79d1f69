//! The trusted boundary around `serde_json`. Decoded header and payload
//! objects are carried as opaque `serde_json::Value`s; what the verified
//! logic reads out of them is named by the uninterpreted functions below,
//! and every access goes through one of the contracted wrappers.

use vstd::prelude::*;

verus! {

#[verifier::external_type_specification]
#[verifier::external_body]
pub struct ExValue(serde_json::Value);

/// Whether a text parses as a JSON document whose top value is an object.
pub uninterp spec fn json_obj_text(s: Seq<char>) -> bool;

/// The fields of a JSON object whose values are strings, by field name.
pub uninterp spec fn json_obj_strs(v: serde_json::Value) -> Map<Seq<char>, Seq<char>>;

/// The fields of a JSON object whose values are integers representable in
/// 64 signed bits, by field name.
pub uninterp spec fn json_obj_ints(v: serde_json::Value) -> Map<Seq<char>, int>;

/// The fields of a JSON object whose values are arrays, by field name; each
/// element is its string value, or `None` where it is not a string.
pub uninterp spec fn json_obj_str_lists(v: serde_json::Value) -> Map<
    Seq<char>,
    Seq<Option<Seq<char>>>,
>;

/// The pretty-printed rendering of a JSON value.
pub uninterp spec fn json_pretty(v: serde_json::Value) -> Seq<char>;

/// The string-valued fields of the object that a text parses to.
pub uninterp spec fn json_text_strs(s: Seq<char>) -> Map<Seq<char>, Seq<char>>;

/// The i64-representable integer fields of the object that a text parses to.
pub uninterp spec fn json_text_ints(s: Seq<char>) -> Map<Seq<char>, int>;

/// The array fields of the object that a text parses to, elements carried as
/// their string value or `None`.
pub uninterp spec fn json_text_str_lists(s: Seq<char>) -> Map<Seq<char>, Seq<Option<Seq<char>>>>;

/// The pretty-printed rendering of the object that a text parses to.
pub uninterp spec fn json_text_pretty(s: Seq<char>) -> Seq<char>;

/// Whether a value's contents and rendering are those of the object the text
/// parses to.
pub open spec fn parsed_object_of(v: serde_json::Value, text: Seq<char>) -> bool {
    &&& json_obj_strs(v) == json_text_strs(text)
    &&& json_obj_ints(v) == json_text_ints(text)
    &&& json_obj_str_lists(v) == json_text_str_lists(text)
    &&& json_pretty(v) == json_text_pretty(text)
}

/// Relies on serde_json::from_str for `Value`: it accepts exactly the texts
/// that are JSON documents, and parsing is a function of the text alone; the
/// result is kept only when its top value is an object, so the value's
/// contents and rendering are those of the text.
#[verifier::external_body]
pub(crate) fn parse_json_object(s: &str) -> (r: Option<serde_json::Value>)
    ensures
        r is Some <==> json_obj_text(s@),
        r matches Some(v) ==> json_obj_strs(v) == json_text_strs(s@),
        r matches Some(v) ==> json_obj_ints(v) == json_text_ints(s@),
        r matches Some(v) ==> json_obj_str_lists(v) == json_text_str_lists(s@),
        r matches Some(v) ==> json_pretty(v) == json_text_pretty(s@),
{
    match serde_json::from_str::<serde_json::Value>(s) {
        Ok(v) => {
            if v.is_object() {
                Some(v)
            } else {
                None
            }
        },
        Err(_) => None,
    }
}

/// Relies on serde_json::Value::get: `Some` exactly for the fields of the
/// object whose value is a string, with that string.
#[verifier::external_body]
pub(crate) fn get_str_field(v: &serde_json::Value, name: &str) -> (r: Option<String>)
    ensures
        r is Some <==> json_obj_strs(*v).dom().contains(name@),
        r matches Some(s) ==> s@ == json_obj_strs(*v)[name@],
{
    match v.get(name) {
        Some(serde_json::Value::String(s)) => Some(s.clone()),
        _ => None,
    }
}

/// Relies on serde_json::Value::get and Value::as_i64: `Some` exactly for the
/// fields whose value is an integer representable as `i64`, with that integer.
#[verifier::external_body]
pub(crate) fn get_int_field(v: &serde_json::Value, name: &str) -> (r: Option<i64>)
    ensures
        r is Some <==> json_obj_ints(*v).dom().contains(name@),
        r matches Some(n) ==> n as int == json_obj_ints(*v)[name@],
{
    match v.get(name) {
        Some(x) => x.as_i64(),
        None => None,
    }
}

/// The element-wise string views of a vector of optional strings.
pub open spec fn opts_view(s: Seq<Option<String>>) -> Seq<Option<Seq<char>>> {
    s.map_values(
        |o: Option<String>|
            match o {
                Some(x) => Some(x@),
                None => None,
            },
    )
}

/// Relies on serde_json::Value::get: `Some` exactly for the fields whose
/// value is an array; each element is carried over as its string value, or
/// `None` where it is not a string.
#[verifier::external_body]
pub(crate) fn get_str_list_field(v: &serde_json::Value, name: &str) -> (r: Option<Vec<Option<String>>>)
    ensures
        r is Some <==> json_obj_str_lists(*v).dom().contains(name@),
        r matches Some(l) ==> opts_view(l@) == json_obj_str_lists(*v)[name@],
{
    match v.get(name) {
        Some(serde_json::Value::Array(a)) => Some(
            a.iter().map(
                |e|
                    match e {
                        serde_json::Value::String(s) => Some(s.clone()),
                        _ => None,
                    },
            ).collect(),
        ),
        _ => None,
    }
}

/// Relies on serde_json::to_string_pretty: the rendering is a function of the
/// value alone, and serializing a `Value` cannot fail (its map keys are
/// strings).
#[verifier::external_body]
pub(crate) fn to_pretty(v: &serde_json::Value) -> (r: String)
    ensures
        r@ == json_pretty(*v),
{
    serde_json::to_string_pretty(v).unwrap_or_default()
}

} // verus!
