//! Reading the fields of an answer by the shape that the catalog's schema
//! gives them. A field that is missing, or holds a value of another kind than
//! the schema says, is not read at all.

use vstd::prelude::*;
use crate::json::{
    as_i64, as_str, child, field, is_null, is_number, json_tree, render, rendered, JsonTree,
};

verus! {

/// The kind of value that a field holds.
#[derive(Clone, Copy, Debug, PartialEq, Eq, Structural)]
pub enum Kind {
    Number,
    Text,
}

/// Whether a value is of the given kind, or is a null where a null may stand
/// in its place.
pub open spec fn fits(value: JsonTree, kind: Kind, nullable: bool) -> bool {
    match kind {
        Kind::Number => value is Number || (nullable && value is Null),
        Kind::Text => value is Text || (nullable && value is Null),
    }
}

/// Whether `parent` is an object that has the field `key` with a value of
/// the given kind.
pub open spec fn holds(parent: JsonTree, key: Seq<char>, kind: Kind) -> bool {
    match parent.field(key) {
        Some(value) => fits(value, kind, false),
        None => false,
    }
}

/// The JSON text of the field `key` of `parent`, where the field is there
/// and fits its kind.
pub open spec fn field_text(parent: JsonTree, key: Seq<char>, kind: Kind, nullable: bool) -> Option<
    Seq<char>,
> {
    match parent.child(key) {
        Some(value) => if fits(value, kind, nullable) {
            Some(rendered(value))
        } else {
            None
        },
        None => None,
    }
}

/// The field `key` of `parent` as an `i64`, where the field is there and is a
/// whole number in that range.
pub open spec fn whole_number(parent: JsonTree, key: Seq<char>) -> Option<i64> {
    match parent.child(key) {
        Some(value) => value.as_i64(),
        None => None,
    }
}

/// What an answer holds under `data` and then under `name`. The answer has
/// to be an object with a member `data`; where that is null, so is what
/// stands under it.
pub open spec fn payload(doc: JsonTree, name: Seq<char>) -> Option<JsonTree> {
    match doc.field("data"@) {
        Some(data) => data.child(name),
        None => None,
    }
}

/// The view of a text that may be missing.
pub open spec fn text_view(text: Option<String>) -> Option<Seq<char>> {
    match text {
        Some(t) => Some(t@),
        None => None,
    }
}

/// Whether `value` is of the given kind, or a null where a null may stand.
pub(crate) fn value_fits(value: &serde_json::Value, kind: Kind, nullable: bool) -> (r: bool)
    ensures
        r == fits(json_tree(*value), kind, nullable),
{
    if nullable && is_null(value) {
        return true;
    }
    match kind {
        Kind::Number => is_number(value),
        Kind::Text => as_str(value).is_some(),
    }
}

/// Reads the JSON text of the field `key` of `parent`, if the field is there
/// and fits its kind.
pub(crate) fn read_text(parent: &serde_json::Value, key: &str, kind: Kind, nullable: bool) -> (r:
    Option<String>)
    ensures
        text_view(r) == field_text(json_tree(*parent), key@, kind, nullable),
{
    match child(parent, key) {
        Some(value) => if value_fits(value, kind, nullable) {
            Some(render(value))
        } else {
            None
        },
        None => None,
    }
}

/// Reads the field `key` of `parent` as an `i64`, if the field is there and
/// is a whole number in that range.
pub(crate) fn read_whole_number(parent: &serde_json::Value, key: &str) -> (r: Option<i64>)
    ensures
        r == whole_number(json_tree(*parent), key@),
{
    match child(parent, key) {
        Some(value) => as_i64(value),
        None => None,
    }
}

/// Finds what an answer holds under `data` and then under `name`.
pub(crate) fn payload_of<'a>(doc: &'a serde_json::Value, name: &str) -> (r: Option<
    &'a serde_json::Value,
>)
    ensures
        match r {
            Some(found) => payload(json_tree(*doc), name@) == Some(json_tree(*found)),
            None => payload(json_tree(*doc), name@) is None,
        },
{
    match field(doc, "data") {
        Some(data) => child(data, name),
        None => None,
    }
}

} // verus!
