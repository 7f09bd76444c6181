//! Reading JSON text through `serde_json`.
//!
//! JSON documents travel through the library as text. Whether a text is a
//! JSON document, and what a member of a document holds, is what
//! `serde_json` says; the two names below stand for those answers.

use vstd::prelude::*;
use crate::text::opt_view;

verus! {

/// Whether `serde_json::from_str::<serde_json::Value>` accepts `text`.
pub uninterp spec fn json_text_valid(text: Seq<char>) -> bool;

/// The member `key` of the JSON document `text` as `serde_json` reads it
/// (`Value::get` with a string key): `None` when the document is no object or
/// has no such member; otherwise the member's compact JSON text, its string
/// when it is a JSON string (`Value::as_str`), and its value when it is an
/// integer that fits an `i64` (`Value::as_i64`).
pub uninterp spec fn json_member(text: Seq<char>, key: Seq<char>) -> Option<JsonMemberView>;

/// What a member of a JSON object holds, as plain values.
pub struct JsonMemberView {
    pub json: Seq<char>,
    pub text: Option<Seq<char>>,
    pub integer: Option<i64>,
}

/// A member of a JSON object, as read by `serde_json`.
pub struct JsonMember {
    /// The member's compact JSON text.
    pub json: String,
    /// The member's string, when it is a JSON string.
    pub text: Option<String>,
    /// The member's value, when it is an integer that fits an `i64`.
    pub integer: Option<i64>,
}

impl View for JsonMember {
    type V = JsonMemberView;

    open spec fn view(&self) -> JsonMemberView {
        JsonMemberView { json: self.json@, text: opt_view(self.text), integer: self.integer }
    }
}

/// A member as plain values, if there is one.
pub open spec fn member_view(m: Option<JsonMember>) -> Option<JsonMemberView> {
    match m {
        Some(m) => Some(m@),
        None => None,
    }
}

/// `serde_json::from_str::<serde_json::Value>(text).is_ok()`.
#[verifier::external_body]
pub(crate) fn json_parses(text: &str) -> (ok: bool)
    ensures
        ok == json_text_valid(text@),
{
    serde_json::from_str::<serde_json::Value>(text).is_ok()
}

/// Parses `text` with `serde_json::from_str::<serde_json::Value>` and reads
/// the member `key` with `Value::get`, then the member's text with
/// `Value::to_string`, `Value::as_str` and `Value::as_i64`. Claimed: the
/// result is `None` when the text does not parse, and otherwise what
/// `json_member` names.
#[verifier::external_body]
pub(crate) fn json_lookup(text: &str, key: &str) -> (r: Option<JsonMember>)
    ensures
        member_view(r) == (if json_text_valid(text@) {
            json_member(text@, key@)
        } else {
            None
        }),
{
    let doc: serde_json::Value = match serde_json::from_str(text) {
        Ok(v) => v,
        Err(_) => return None,
    };
    match doc.get(key) {
        Some(m) => Some(
            JsonMember {
                json: m.to_string(),
                text: m.as_str().map(String::from),
                integer: m.as_i64(),
            },
        ),
        None => None,
    }
}

/// The string member `key` of a JSON document, or the empty string when the
/// text is no document, has no such member, or the member is no string
/// (`doc[key].as_str().unwrap_or("")`).
pub open spec fn member_str_or_empty(doc: Seq<char>, key: Seq<char>) -> Seq<char> {
    if json_text_valid(doc) {
        match json_member(doc, key) {
            Some(m) => match m.text {
                Some(t) => t,
                None => Seq::empty(),
            },
            None => Seq::empty(),
        }
    } else {
        Seq::empty()
    }
}

/// The string member `key`, when there is one (`doc.get(key).and_then(as_str)`).
pub open spec fn member_str(doc: Seq<char>, key: Seq<char>) -> Option<Seq<char>> {
    if json_text_valid(doc) {
        match json_member(doc, key) {
            Some(m) => m.text,
            None => None,
        }
    } else {
        None
    }
}

/// The integer member `key`, when there is one (`doc.get(key).and_then(as_i64)`).
pub open spec fn member_i64(doc: Seq<char>, key: Seq<char>) -> Option<i64> {
    if json_text_valid(doc) {
        match json_member(doc, key) {
            Some(m) => m.integer,
            None => None,
        }
    } else {
        None
    }
}

/// The string member `key` of a JSON document, or the empty string.
pub fn get_str_or_empty(doc: &str, key: &str) -> (r: String)
    ensures
        r@ == member_str_or_empty(doc@, key@),
{
    match json_lookup(doc, key) {
        Some(m) => match m.text {
            Some(t) => t,
            None => String::new(),
        },
        None => String::new(),
    }
}

/// The string member `key` of a JSON document, if it has one.
pub fn get_str(doc: &str, key: &str) -> (r: Option<String>)
    ensures
        opt_view(r) == member_str(doc@, key@),
{
    match json_lookup(doc, key) {
        Some(m) => m.text,
        None => None,
    }
}

/// The integer member `key` of a JSON document, if it has one that fits an `i64`.
pub fn get_i64(doc: &str, key: &str) -> (r: Option<i64>)
    ensures
        r == member_i64(doc@, key@),
{
    match json_lookup(doc, key) {
        Some(m) => m.integer,
        None => None,
    }
}

} // verus!
