//! The catalog answers in JSON, and `serde_json` reads and writes it.
//!
//! A `serde_json::Value` is opaque to the verifier. What it holds is named by
//! [`json_tree`], a mathematical tree of the same shape, and each call into
//! `serde_json` that the crate makes is declared here with a contract over
//! that tree. Those contracts are believed, not proved: each doc comment says
//! which function of `serde_json` stands behind it and what is claimed of it.

use vstd::prelude::*;
use crate::text::{
    decimal, digit, is_plain, lemma_decimal_starts_with_digit, lemma_quote_free_text,
    lemma_quoted_plain_text, quoted, remove_quotes, strip_quotes,
};

verus! {

/// `serde_json::Value`, a JSON document in memory.
#[verifier::external_type_specification]
#[verifier::external_body]
pub struct ExValue(serde_json::Value);

/// `serde_json::Error`, what `serde_json` reports on text that is not JSON.
#[verifier::external_type_specification]
#[verifier::external_body]
pub struct ExError(serde_json::Error);

/// A JSON number as `serde_json` keeps it.
pub enum JsonNumber {
    /// A number written without fraction or exponent that fits 64 bits: any
    /// whole number from -2^63 to 2^64 - 1.
    Integer(int),
    /// Any other number. It is kept as a double, which the bit pattern
    /// identifies.
    Real(int),
}

/// The shape and contents of a JSON value.
pub enum JsonTree {
    Null,
    Bool(bool),
    Number(JsonNumber),
    Text(Seq<char>),
    Array(Seq<JsonTree>),
    Object(Map<Seq<char>, JsonTree>),
}

impl JsonTree {
    /// The member `key` of an object; none where the value is no object or
    /// has no such member.
    pub open spec fn field(self, key: Seq<char>) -> Option<JsonTree> {
        match self {
            JsonTree::Object(members) => if members.dom().contains(key) {
                Some(members[key])
            } else {
                None
            },
            _ => None,
        }
    }

    /// What stands under `key`: under a null a null, under an object its
    /// member of that name, and nothing under anything else or where the
    /// object has no such member.
    pub open spec fn child(self, key: Seq<char>) -> Option<JsonTree> {
        if self is Null {
            Some(JsonTree::Null)
        } else {
            self.field(key)
        }
    }

    /// The value as an `i64`, for a whole number in that range.
    pub open spec fn as_i64(self) -> Option<i64> {
        match self {
            JsonTree::Number(JsonNumber::Integer(n)) => if i64::MIN <= n <= i64::MAX {
                Some(n as i64)
            } else {
                None
            },
            _ => None,
        }
    }
}

/// The trees of a sequence of values, in the same order.
pub open spec fn json_trees(items: Seq<serde_json::Value>) -> Seq<JsonTree> {
    items.map_values(|v: serde_json::Value| json_tree(v))
}

/// What a `serde_json::Value` holds: `Value::Null` is `Null`, `Value::Bool`
/// and `Value::String` carry their payload, `Value::Number` is `Integer` for
/// the variants that hold a `u64` or an `i64` and `Real` for the one that
/// holds a double, `Value::Array` lists the trees of its items, and
/// `Value::Object` maps each key to the tree of its value.
pub uninterp spec fn json_tree(v: serde_json::Value) -> JsonTree;

/// What `serde_json::from_str` reads from a text: the tree of the document,
/// or `None` where it reports an error.
pub uninterp spec fn json_parsed(text: Seq<char>) -> Option<JsonTree>;

/// The compact JSON text that `serde_json` writes for a value.
pub uninterp spec fn json_text(tree: JsonTree) -> Seq<char>;

/// The decimal digits of a whole number, after a `-` where it is negative.
pub open spec fn integer_text(n: int) -> Seq<char> {
    if n < 0 {
        seq!['-'] + decimal((-n) as nat)
    } else {
        decimal(n as nat)
    }
}

/// The compact JSON text of a value, as far as a few lines can say it: `null`
/// for null, the decimal digits of a whole number, and a string between
/// quotes where it is plain, so that `serde_json` escapes none of its
/// characters. For every other value it is [`json_text`].
pub open spec fn rendered(tree: JsonTree) -> Seq<char> {
    match tree {
        JsonTree::Null => "null"@,
        JsonTree::Number(JsonNumber::Integer(n)) => integer_text(n),
        JsonTree::Text(text) => if is_plain(text) {
            quoted(text)
        } else {
            json_text(tree)
        },
        _ => json_text(tree),
    }
}

/// The text of a whole number never reads `null`, and it reads `0` for zero
/// alone.
pub proof fn lemma_integer_text(n: int)
    ensures
        integer_text(n) != "null"@,
        integer_text(n) == "0"@ <==> n == 0,
{
    reveal_strlit("null");
    reveal_strlit("0");
    if n < 0 {
        assert(integer_text(n)[0] == '-');
    } else {
        lemma_decimal_starts_with_digit(n as nat);
        if n < 10 {
            assert(integer_text(n) =~= seq![digit(n)]);
            if n == 0 {
                assert(integer_text(n) =~= "0"@);
            }
        } else {
            lemma_decimal_starts_with_digit((n / 10) as nat);
        }
    }
}

/// What is shown of the JSON text of a simple value: a null reads `null`
/// with or without its quotes taken off, a whole number reads as its digits,
/// and a plain string without its quotes is the string.
pub proof fn lemma_rendered_simple_value(tree: JsonTree)
    ensures
        tree is Null ==> rendered(tree) == "null"@ && strip_quotes(rendered(tree)) == "null"@
            && remove_quotes(rendered(tree)) == "null"@,
        tree matches JsonTree::Number(JsonNumber::Integer(n)) ==> rendered(tree) == integer_text(n)
            && rendered(tree) != "null"@,
        tree matches JsonTree::Text(text) ==> is_plain(text) ==> rendered(tree) == quoted(text)
            && strip_quotes(rendered(tree)) == text && remove_quotes(rendered(tree)) == text,
{
    match tree {
        JsonTree::Null => {
            reveal_strlit("null");
            lemma_quote_free_text("null"@);
        },
        JsonTree::Number(JsonNumber::Integer(n)) => {
            lemma_integer_text(n);
        },
        JsonTree::Text(text) => {
            if is_plain(text) {
                lemma_quoted_plain_text(text);
            }
        },
        _ => {},
    }
}

/// Calls `serde_json::from_str::<serde_json::Value>`. The claim is only that
/// the outcome is a function of the text: the same text gives the same
/// document or fails alike.
#[verifier::external_body]
pub(crate) fn parse(text: &str) -> (r: Result<serde_json::Value, serde_json::Error>)
    ensures
        match r {
            Ok(doc) => json_parsed(text@) == Some(json_tree(doc)),
            Err(_) => json_parsed(text@) is None,
        },
{
    serde_json::from_str::<serde_json::Value>(text)
}

/// Calls `Value::get` with a `&str`, which looks the key up in an object and
/// gives nothing for a missing key and for a value that is no object.
#[verifier::external_body]
pub(crate) fn field<'a>(v: &'a serde_json::Value, key: &str) -> (r: Option<&'a serde_json::Value>)
    ensures
        match r {
            Some(found) => json_tree(*v).field(key@) == Some(json_tree(*found)),
            None => json_tree(*v).field(key@) is None,
        },
{
    v.get(key)
}

/// Calls `Value::is_number`.
#[verifier::external_body]
pub(crate) fn is_number(v: &serde_json::Value) -> (r: bool)
    ensures
        r == (json_tree(*v) is Number),
{
    v.is_number()
}

/// Calls `Value::is_null`.
#[verifier::external_body]
pub(crate) fn is_null(v: &serde_json::Value) -> (r: bool)
    ensures
        r == (json_tree(*v) is Null),
{
    v.is_null()
}

/// Calls `Value::as_i64`, which gives the number where the value is a whole
/// number no greater than `i64::MAX`.
#[verifier::external_body]
pub(crate) fn as_i64(v: &serde_json::Value) -> (r: Option<i64>)
    ensures
        r == json_tree(*v).as_i64(),
{
    v.as_i64()
}

/// Calls `Value::as_str`, which gives the payload of a string.
#[verifier::external_body]
pub(crate) fn as_str<'a>(v: &'a serde_json::Value) -> (r: Option<&'a str>)
    ensures
        match r {
            Some(s) => json_tree(*v) == JsonTree::Text(s@),
            None => !(json_tree(*v) is Text),
        },
{
    v.as_str()
}

/// Calls `Value::as_array`, which gives the items of an array.
#[verifier::external_body]
pub(crate) fn as_array<'a>(v: &'a serde_json::Value) -> (r: Option<&'a Vec<serde_json::Value>>)
    ensures
        match r {
            Some(items) => json_tree(*v) == JsonTree::Array(json_trees(items@)),
            None => !(json_tree(*v) is Array),
        },
{
    v.as_array()
}

/// Calls `to_string` on a `Value`, which goes through its `Display` and
/// writes compact JSON. The text is a function of what the value holds, and
/// for null, whole numbers and strings without escapes it is the text that
/// [`rendered`] spells out.
#[verifier::external_body]
pub(crate) fn render(v: &serde_json::Value) -> (r: String)
    ensures
        r@ == json_text(json_tree(*v)),
        r@ == rendered(json_tree(*v)),
{
    v.to_string()
}

/// Makes `Value::String` of a copy of the text.
#[verifier::external_body]
pub(crate) fn text_value(text: &str) -> (r: serde_json::Value)
    ensures
        json_tree(r) == JsonTree::Text(text@),
{
    serde_json::Value::String(text.to_owned())
}

/// Calls `Value::from` on an `i64`, which makes a whole number of it.
#[verifier::external_body]
pub(crate) fn integer_value(n: i64) -> (r: serde_json::Value)
    ensures
        json_tree(r) == JsonTree::Number(JsonNumber::Integer(n as int)),
{
    serde_json::Value::from(n)
}

/// Makes `Value::Object` of `serde_json::Map::new()`, an object without
/// members.
#[verifier::external_body]
pub(crate) fn empty_object() -> (r: serde_json::Value)
    ensures
        json_tree(r) == JsonTree::Object(Map::empty()),
{
    serde_json::Value::Object(serde_json::Map::new())
}

/// Assigns through `Value`'s `IndexMut<&str>`, which on an object puts the
/// value under the key, in place of what the key held before.
#[verifier::external_body]
pub(crate) fn set_member(object: &mut serde_json::Value, key: &str, value: serde_json::Value)
    requires
        json_tree(*old(object)) is Object,
    ensures
        json_tree(*final(object)) == JsonTree::Object(
            json_tree(*old(object))->Object_0.insert(key@, json_tree(value)),
        ),
{
    object[key] = value;
}

/// Finds what stands under `key`: under a null the null itself, under an
/// object its member of that name.
pub(crate) fn child<'a>(v: &'a serde_json::Value, key: &str) -> (r: Option<&'a serde_json::Value>)
    ensures
        match r {
            Some(found) => json_tree(*v).child(key@) == Some(json_tree(*found)),
            None => json_tree(*v).child(key@) is None,
        },
{
    if is_null(v) {
        Some(v)
    } else {
        field(v, key)
    }
}

} // verus!
