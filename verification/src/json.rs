//! JSON text: how a string is written as a JSON string, and what can be
//! read from a JSON document.

use crate::text::{hex_digit, opt_text, texts};
use vstd::prelude::*;

verus! {

/// How one character stands inside a JSON string: quote and backslash
/// after a backslash, the control characters below U+0020 by their short
/// escape or as `\u00` and two hexadecimal digits, every other character
/// as itself.
pub open spec fn escaped(c: char) -> Seq<char> {
    let u = c as u32;
    if u == 0x22 {
        seq!['\\', '"']
    } else if u == 0x5C {
        seq!['\\', '\\']
    } else if u == 0x08 {
        seq!['\\', 'b']
    } else if u == 0x09 {
        seq!['\\', 't']
    } else if u == 0x0A {
        seq!['\\', 'n']
    } else if u == 0x0C {
        seq!['\\', 'f']
    } else if u == 0x0D {
        seq!['\\', 'r']
    } else if u < 0x20 {
        seq!['\\', 'u', '0', '0', hex_digit((u / 16) as int), hex_digit((u % 16) as int)]
    } else {
        seq![c]
    }
}

/// The characters of `s`, each as it stands inside a JSON string.
pub open spec fn escaped_text(s: Seq<char>) -> Seq<char>
    decreases s.len(),
{
    if s.len() == 0 {
        seq![]
    } else {
        escaped(s[0]) + escaped_text(s.drop_first())
    }
}

/// `s` as a JSON string: its escaped characters between two quotes.
pub open spec fn json_string(s: Seq<char>) -> Seq<char> {
    seq!['"'] + escaped_text(s) + seq!['"']
}

/// Whether `doc` is JSON text.
pub uninterp spec fn is_json(doc: Seq<char>) -> bool;

/// The string that the member `key` of the JSON object `doc` holds; `None`
/// where `doc` is no JSON text or no object, or has no such member, or the
/// member is no string.
pub uninterp spec fn json_string_member(doc: Seq<char>, key: Seq<char>) -> Option<Seq<char>>;

/// The member `key` of the JSON object `doc`, as JSON text; `None` where
/// `doc` is no JSON text or no object, or has no such member.
pub uninterp spec fn json_member(doc: Seq<char>, key: Seq<char>) -> Option<Seq<char>>;

/// The items of the array that the member `key` of the JSON object `doc`
/// holds, each as JSON text; `None` where `doc` is no JSON text or no
/// object, or has no such member, or the member is no array.
pub uninterp spec fn json_array_member(doc: Seq<char>, key: Seq<char>) -> Option<Seq<Seq<char>>>;

/// The views of an optional list of strings.
pub open spec fn opt_texts(o: Option<Vec<String>>) -> Option<Seq<Seq<char>>> {
    match o {
        Some(v) => Some(texts(v@)),
        None => None,
    }
}

/// `serde_json::to_string` on a string: the string between quotes, with
/// the escapes that `escaped` lists.
#[verifier::external_body]
pub(crate) fn quote(s: &str) -> (r: String)
    ensures
        r@ == json_string(s@),
{
    serde_json::to_string(s).unwrap_or_default()
}

/// `serde_json::from_str` into a `serde_json::Value`: whether it succeeds
/// depends on the text alone.
#[verifier::external_body]
pub(crate) fn parses(doc: &str) -> (b: bool)
    ensures
        b == is_json(doc@),
{
    serde_json::from_str::<serde_json::Value>(doc).is_ok()
}

/// `serde_json::from_str` into a `serde_json::Value`, then `Value::get`
/// with a string key and `Value::as_str`: the result depends on the two
/// texts alone.
#[verifier::external_body]
pub(crate) fn string_member(doc: &str, key: &str) -> (r: Option<String>)
    ensures
        opt_text(r) == json_string_member(doc@, key@),
{
    let value = serde_json::from_str::<serde_json::Value>(doc).ok()?;
    value.get(key)?.as_str().map(String::from)
}

/// `serde_json::from_str` into a `serde_json::Value`, then `Value::get`
/// with a string key, written again by `serde_json::to_string`: the result
/// depends on the two texts alone.
#[verifier::external_body]
pub(crate) fn member(doc: &str, key: &str) -> (r: Option<String>)
    ensures
        opt_text(r) == json_member(doc@, key@),
{
    let value = serde_json::from_str::<serde_json::Value>(doc).ok()?;
    serde_json::to_string(value.get(key)?).ok()
}

/// `serde_json::from_str` into a `serde_json::Value`, then `Value::get`
/// with a string key and `Value::as_array`, each item written again by
/// `serde_json::to_string`: the result depends on the two texts alone.
#[verifier::external_body]
pub(crate) fn array_member(doc: &str, key: &str) -> (r: Option<Vec<String>>)
    ensures
        opt_texts(r) == json_array_member(doc@, key@),
{
    let value = serde_json::from_str::<serde_json::Value>(doc).ok()?;
    let items = value.get(key)?.as_array()?;
    items.iter().map(|item| serde_json::to_string(item).ok()).collect()
}

} // verus!
