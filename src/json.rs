//! JSON documents, as serde_json parses them, and the readers of their parts.

use vstd::prelude::*;

verus! {

/// A JSON document, described as a tree of plain values.
pub enum JsonModel {
    Null,
    Bool(bool),
    /// `text` is the number as serde_json writes it; `unsigned` is the value of a
    /// non-negative integer that fits in a `u64`, and `None` for any other number.
    Number { text: Seq<char>, unsigned: Option<u64> },
    Str(Seq<char>),
    Array(Seq<JsonModel>),
    Object(Map<Seq<char>, JsonModel>),
}

#[verifier::external_type_specification]
#[verifier::external_body]
pub struct ExValue(serde_json::Value);

/// The tree that a `serde_json::Value` holds.
pub uninterp spec fn json_view(v: serde_json::Value) -> JsonModel;

/// What serde_json makes of a text: the document, or the text of its error.
pub uninterp spec fn json_parse_result(s: Seq<char>) -> Result<JsonModel, Seq<char>>;

/// The member `key` of an object; `None` for a missing key or for anything that is
/// not an object.
pub open spec fn member(j: JsonModel, key: Seq<char>) -> Option<JsonModel> {
    match j {
        JsonModel::Object(m) => if m.contains_key(key) {
            Some(m[key])
        } else {
            None
        },
        _ => None,
    }
}

/// Relies on serde_json::from_str into a `Value`; the error is kept as its `Display` text.
#[verifier::external_body]
pub(crate) fn parse_json(s: &str) -> (r: Result<serde_json::Value, String>)
    ensures
        match r {
            Ok(v) => json_parse_result(s@) == Ok::<JsonModel, Seq<char>>(json_view(v)),
            Err(e) => json_parse_result(s@) == Err::<JsonModel, Seq<char>>(e@),
        },
{
    serde_json::from_str::<serde_json::Value>(s).map_err(|e| e.to_string())
}

/// Relies on serde_json::Value::get with a string key: the member of an object.
#[verifier::external_body]
pub(crate) fn json_member<'a>(v: &'a serde_json::Value, key: &str) -> (r: Option<&'a serde_json::Value>)
    ensures
        match r {
            Some(x) => member(json_view(*v), key@) == Some(json_view(*x)),
            None => member(json_view(*v), key@) is None,
        },
{
    v.get(key)
}

/// Relies on serde_json's `Display` for a `Value`: the text that it writes for a number.
#[verifier::external_body]
pub(crate) fn number_text(v: &serde_json::Value) -> (r: String)
    ensures
        json_view(*v) matches JsonModel::Number { text, .. } ==> r@ == text,
{
    v.to_string()
}

pub assume_specification[ serde_json::Value::is_object ](v: &serde_json::Value) -> (r: bool)
    ensures
        r == json_view(*v) is Object,
;

pub assume_specification[ serde_json::Value::is_null ](v: &serde_json::Value) -> (r: bool)
    ensures
        r == json_view(*v) is Null,
;

pub assume_specification[ serde_json::Value::is_number ](v: &serde_json::Value) -> (r: bool)
    ensures
        r == json_view(*v) is Number,
;

pub assume_specification[ serde_json::Value::as_bool ](v: &serde_json::Value) -> (r: Option<bool>)
    ensures
        match json_view(*v) {
            JsonModel::Bool(b) => r == Some(b),
            _ => r is None,
        },
;

pub assume_specification[ serde_json::Value::as_u64 ](v: &serde_json::Value) -> (r: Option<u64>)
    ensures
        match json_view(*v) {
            JsonModel::Number { unsigned, .. } => r == unsigned,
            _ => r is None,
        },
;

pub assume_specification<'a>[ serde_json::Value::as_str ](v: &'a serde_json::Value) -> (r: Option<&'a str>)
    ensures
        match json_view(*v) {
            JsonModel::Str(s) => r is Some && r.unwrap()@ == s,
            _ => r is None,
        },
;

pub assume_specification<'a>[ serde_json::Value::as_array ](v: &'a serde_json::Value) -> (r: Option<&'a Vec<serde_json::Value>>)
    ensures
        match json_view(*v) {
            JsonModel::Array(items) => r is Some && items == r.unwrap()@.map_values(
                |x: serde_json::Value| json_view(x),
            ),
            _ => r is None,
        },
;

/// A string's characters.
pub open spec fn text_value(j: JsonModel) -> Option<Seq<char>> {
    match j {
        JsonModel::Str(s) => Some(s),
        _ => None,
    }
}

/// A non-negative integer that fits in a `u32`.
pub open spec fn count_value(j: JsonModel) -> Option<u32> {
    match j {
        JsonModel::Number { unsigned: Some(n), .. } => if n <= u32::MAX {
            Some(n as u32)
        } else {
            None
        },
        _ => None,
    }
}

/// Any number, as text.
pub open spec fn number_value(j: JsonModel) -> Option<Seq<char>> {
    match j {
        JsonModel::Number { text, .. } => Some(text),
        _ => None,
    }
}

/// A boolean.
pub open spec fn flag_value(j: JsonModel) -> Option<bool> {
    match j {
        JsonModel::Bool(b) => Some(b),
        _ => None,
    }
}

/// Whether a member is missing or null, which optional members treat alike.
pub open spec fn is_absent(m: Option<JsonModel>) -> bool {
    m is None || m == Some(JsonModel::Null)
}

/// A member that must be present and hold a string.
pub open spec fn required_text(j: JsonModel, key: Seq<char>) -> Option<Seq<char>> {
    match member(j, key) {
        Some(x) => text_value(x),
        None => None,
    }
}

/// A member that must be present and hold a count.
pub open spec fn required_count(j: JsonModel, key: Seq<char>) -> Option<u32> {
    match member(j, key) {
        Some(x) => count_value(x),
        None => None,
    }
}

/// An optional member: `Some(None)` when absent, `None` when it holds something
/// other than a string.
pub open spec fn optional_text(j: JsonModel, key: Seq<char>) -> Option<Option<Seq<char>>> {
    if is_absent(member(j, key)) {
        Some(None)
    } else {
        match text_value(member(j, key).unwrap()) {
            Some(s) => Some(Some(s)),
            None => None,
        }
    }
}

/// An optional member holding a count.
pub open spec fn optional_count(j: JsonModel, key: Seq<char>) -> Option<Option<u32>> {
    if is_absent(member(j, key)) {
        Some(None)
    } else {
        match count_value(member(j, key).unwrap()) {
            Some(n) => Some(Some(n)),
            None => None,
        }
    }
}

/// An optional member holding any number.
pub open spec fn optional_number(j: JsonModel, key: Seq<char>) -> Option<Option<Seq<char>>> {
    if is_absent(member(j, key)) {
        Some(None)
    } else {
        match number_value(member(j, key).unwrap()) {
            Some(s) => Some(Some(s)),
            None => None,
        }
    }
}

/// An optional member holding a boolean.
pub open spec fn optional_flag(j: JsonModel, key: Seq<char>) -> Option<Option<bool>> {
    if is_absent(member(j, key)) {
        Some(None)
    } else {
        match flag_value(member(j, key).unwrap()) {
            Some(b) => Some(Some(b)),
            None => None,
        }
    }
}

/// The characters of an optional string.
pub open spec fn text_view(o: Option<String>) -> Option<Seq<char>> {
    match o {
        Some(s) => Some(s@),
        None => None,
    }
}

/// Whether a member is missing or null.
pub(crate) fn member_absent(v: &serde_json::Value, key: &str) -> (r: bool)
    ensures
        r == is_absent(member(json_view(*v), key@)),
{
    match json_member(v, key) {
        None => true,
        Some(x) => x.is_null(),
    }
}

fn string_of(v: &serde_json::Value) -> (r: Option<String>)
    ensures
        text_view(r) == text_value(json_view(*v)),
{
    match v.as_str() {
        Some(s) => Some(s.to_owned()),
        None => None,
    }
}

fn count_of(v: &serde_json::Value) -> (r: Option<u32>)
    ensures
        r == count_value(json_view(*v)),
{
    match v.as_u64() {
        Some(n) => if n <= 4294967295u64 {
            Some(n as u32)
        } else {
            None
        },
        None => None,
    }
}

fn number_of(v: &serde_json::Value) -> (r: Option<String>)
    ensures
        text_view(r) == number_value(json_view(*v)),
{
    if v.is_number() {
        Some(number_text(v))
    } else {
        None
    }
}

/// Reads a member that must be present and hold a string.
pub fn read_required_text(v: &serde_json::Value, key: &str) -> (r: Option<String>)
    ensures
        text_view(r) == required_text(json_view(*v), key@),
{
    match json_member(v, key) {
        Some(x) => string_of(x),
        None => None,
    }
}

/// Reads a member that must be present and hold a count.
pub fn read_required_count(v: &serde_json::Value, key: &str) -> (r: Option<u32>)
    ensures
        r == required_count(json_view(*v), key@),
{
    match json_member(v, key) {
        Some(x) => count_of(x),
        None => None,
    }
}

/// Reads an optional string member.
pub fn read_optional_text(v: &serde_json::Value, key: &str) -> (r: Option<Option<String>>)
    ensures
        match r {
            Some(o) => optional_text(json_view(*v), key@) == Some(text_view(o)),
            None => optional_text(json_view(*v), key@) is None,
        },
{
    if member_absent(v, key) {
        return Some(None);
    }
    match json_member(v, key) {
        Some(x) => match string_of(x) {
            Some(s) => Some(Some(s)),
            None => None,
        },
        None => None,
    }
}

/// Reads an optional count member.
pub fn read_optional_count(v: &serde_json::Value, key: &str) -> (r: Option<Option<u32>>)
    ensures
        r == optional_count(json_view(*v), key@),
{
    if member_absent(v, key) {
        return Some(None);
    }
    match json_member(v, key) {
        Some(x) => match count_of(x) {
            Some(n) => Some(Some(n)),
            None => None,
        },
        None => None,
    }
}

/// Reads an optional member holding any number, as text.
pub fn read_optional_number(v: &serde_json::Value, key: &str) -> (r: Option<Option<String>>)
    ensures
        match r {
            Some(o) => optional_number(json_view(*v), key@) == Some(text_view(o)),
            None => optional_number(json_view(*v), key@) is None,
        },
{
    if member_absent(v, key) {
        return Some(None);
    }
    match json_member(v, key) {
        Some(x) => match number_of(x) {
            Some(s) => Some(Some(s)),
            None => None,
        },
        None => None,
    }
}

/// Reads an optional boolean member.
pub fn read_optional_flag(v: &serde_json::Value, key: &str) -> (r: Option<Option<bool>>)
    ensures
        r == optional_flag(json_view(*v), key@),
{
    if member_absent(v, key) {
        return Some(None);
    }
    match json_member(v, key) {
        Some(x) => match x.as_bool() {
            Some(b) => Some(Some(b)),
            None => None,
        },
        None => None,
    }
}

} // verus!
