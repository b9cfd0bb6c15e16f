//! Pulling the completion text out of a response body.

use vstd::prelude::*;
use crate::ToolError;

verus! {

#[verifier::external_type_specification]
#[verifier::external_body]
pub struct ExValue(serde_json::Value);

#[verifier::external_type_specification]
#[verifier::external_body]
pub struct ExJsonError(serde_json::Error);

#[verifier::external_type_specification]
#[verifier::external_body]
pub struct ExUnescapeError(snailquote::UnescapeError);

/// A JSON value as plain values: a number as the text serde_json writes for
/// it, and an object as its members in the map's (sorted) key order, each
/// key once.
pub enum JsonTree {
    Null,
    Bool(bool),
    Number(Seq<char>),
    Str(Seq<char>),
    Array(Seq<JsonTree>),
    Object(Seq<(Seq<char>, JsonTree)>),
}

/// Whether `serde_json::from_str` accepts the text as a JSON value.
pub uninterp spec fn is_json(s: Seq<char>) -> bool;

/// The value that `serde_json::from_str` reads from the text.
pub uninterp spec fn parsed(s: Seq<char>) -> JsonTree;

/// What a `serde_json::Value` holds.
pub uninterp spec fn tree_of(v: serde_json::Value) -> JsonTree;

/// The compact JSON text that serde_json writes for a value.
pub uninterp spec fn written(t: JsonTree) -> Seq<char>;

/// What `snailquote::unescape` makes of the text, `None` where it fails.
pub uninterp spec fn unescape_of(s: Seq<char>) -> Option<Seq<char>>;

/// The value of the first member named `key`.
pub open spec fn find_member(ps: Seq<(Seq<char>, JsonTree)>, key: Seq<char>) -> Option<JsonTree>
    decreases ps.len(),
{
    if ps.len() == 0 {
        None
    } else if ps[0].0 == key {
        Some(ps[0].1)
    } else {
        find_member(ps.drop_first(), key)
    }
}

/// The member `key` of an object; `None` for a missing key or another kind
/// of value.
pub open spec fn member_of(t: JsonTree, key: Seq<char>) -> Option<JsonTree> {
    match t {
        JsonTree::Object(ps) => find_member(ps, key),
        _ => None,
    }
}

/// The element `i` of an array; `None` past its end or for another kind of
/// value.
pub open spec fn element_of(t: JsonTree, i: int) -> Option<JsonTree> {
    match t {
        JsonTree::Array(xs) => if 0 <= i < xs.len() {
            Some(xs[i])
        } else {
            None
        },
        _ => None,
    }
}

/// The value at `choices[0].message.content`, `None` where a step is
/// missing.
pub open spec fn content_path(doc: JsonTree) -> Option<JsonTree> {
    match member_of(doc, "choices"@) {
        None => None,
        Some(choices) => match element_of(choices, 0) {
            None => None,
            Some(first) => match member_of(first, "message"@) {
                None => None,
                Some(message) => member_of(message, "content"@),
            },
        },
    }
}

/// Relies on `serde_json::from_str`: whether it succeeds, and the value it
/// reads, depend on the text alone (valid JSON, nested at most 128 levels
/// deep).
#[verifier::external_body]
fn parse_json(s: &str) -> (r: Result<serde_json::Value, serde_json::Error>)
    ensures
        r is Ok <==> is_json(s@),
        r is Ok ==> tree_of(r->Ok_0) == parsed(s@),
{
    serde_json::from_str(s)
}

/// Relies on `serde_json::Value::get` with a key: the member of an object,
/// `None` where the value is no object or has no such member.
#[verifier::external_body]
fn member<'a>(v: &'a serde_json::Value, key: &str) -> (r: Option<&'a serde_json::Value>)
    ensures
        r is Some <==> member_of(tree_of(*v), key@) is Some,
        r is Some ==> member_of(tree_of(*v), key@) == Some(tree_of(*r->Some_0)),
{
    v.get(key)
}

/// Relies on `serde_json::Value::get` with an index: the element of an
/// array, `None` where the value is no array or is too short.
#[verifier::external_body]
fn element(v: &serde_json::Value, index: usize) -> (r: Option<&serde_json::Value>)
    ensures
        r is Some <==> element_of(tree_of(*v), index as int) is Some,
        r is Some ==> element_of(tree_of(*v), index as int) == Some(tree_of(*r->Some_0)),
{
    v.get(index)
}

/// Relies on serde_json's `Display` for `Value`: the value as compact JSON
/// text (a string comes quoted and escaped), which depends on what the value
/// holds alone.
#[verifier::external_body]
fn json_text(v: &serde_json::Value) -> (r: String)
    ensures
        r@ == written(tree_of(*v)),
{
    v.to_string()
}

/// Relies on `serde_json::Value::as_str`: the text of a string value, `None`
/// for any other kind of value.
#[verifier::external_body]
fn string_text(v: &serde_json::Value) -> (r: Option<&str>)
    ensures
        r is Some <==> tree_of(*v) is Str,
        r is Some ==> tree_of(*v) == JsonTree::Str(r->Some_0@),
{
    v.as_str()
}

/// Relies on `snailquote::unescape`. Its result depends on the text alone,
/// and text with no quote character is copied as it is (backslashes only
/// escape inside double quotes).
#[verifier::external_body]
fn unescape(s: &str) -> (r: Result<String, snailquote::UnescapeError>)
    ensures
        r is Ok <==> unescape_of(s@) is Some,
        r is Ok ==> unescape_of(s@) == Some(r->Ok_0@),
        (forall|i: int| 0 <= i < s@.len() ==> s@[i] != '"' && s@[i] != '\'') ==> r is Ok
            && r->Ok_0@ == s@,
{
    snailquote::unescape(s)
}

/// The characters that `char::is_whitespace` accepts: Unicode `White_Space`.
pub open spec fn is_white_space(c: char) -> bool {
    let u = c as u32;
    (0x9 <= u <= 0xd) || u == 0x20 || u == 0x85 || u == 0xa0 || u == 0x1680 || (0x2000 <= u
        <= 0x200a) || u == 0x2028 || u == 0x2029 || u == 0x202f || u == 0x205f || u == 0x3000
}

pub open spec fn trim_start(s: Seq<char>) -> Seq<char>
    decreases s.len(),
{
    if s.len() > 0 && is_white_space(s[0]) {
        trim_start(s.drop_first())
    } else {
        s
    }
}

pub open spec fn trim_end(s: Seq<char>) -> Seq<char>
    decreases s.len(),
{
    if s.len() > 0 && is_white_space(s.last()) {
        trim_end(s.drop_last())
    } else {
        s
    }
}

/// The text without leading and trailing white space.
pub open spec fn trimmed(s: Seq<char>) -> Seq<char> {
    trim_end(trim_start(s))
}

/// Relies on `str::trim`: leading and trailing Unicode `White_Space` removed.
#[verifier::external_body]
fn trim(s: &str) -> (r: &str)
    ensures
        r@ == trimmed(s@),
{
    s.trim()
}

/// The JSON text that stands for a missing value.
pub open spec fn absent_text() -> Seq<char> {
    "null"@
}

/// What the completion text is, given the raw text of the content field
/// (`None` where the path to it is missing).
pub open spec fn content_result(content: Option<&str>) -> Result<Seq<char>, ToolError> {
    match content {
        Some(t) => text_result(t@),
        None => text_result(absent_text()),
    }
}

/// What the completion text is, given the raw text of the content.
pub open spec fn text_result(raw: Seq<char>) -> Result<Seq<char>, ToolError> {
    match unescape_of(raw) {
        Some(u) => Ok(trimmed(u)),
        None => Err(ToolError::Unescape),
    }
}

/// What `extract_text` gives for a response body.
pub open spec fn extracted(body: Seq<char>) -> Result<Seq<char>, ToolError> {
    if !is_json(body) {
        Err(ToolError::Parse)
    } else {
        match content_path(parsed(body)) {
            Some(JsonTree::Str(c)) => text_result(c),
            Some(c) => text_result(written(c)),
            None => text_result(absent_text()),
        }
    }
}

/// Turns the raw text of the content field into the completion text: the
/// text is unescaped and trimmed. A missing field reads as `null`.
pub fn content_text(content: Option<&str>) -> (r: Result<String, ToolError>)
    ensures
        match (r, content_result(content)) {
            (Ok(s), Ok(t)) => s@ == t,
            (Err(e), Err(f)) => e == f,
            _ => false,
        },
        content is None ==> r is Ok && r->Ok_0@ == absent_text(),
{
    proof {
        reveal_strlit("null");
        assert(trim_start(absent_text()) == absent_text());
        assert(trim_end(absent_text()) == absent_text());
    }
    let raw = match content {
        Some(t) => t,
        None => "null",
    };
    match unescape(raw) {
        Ok(u) => Ok(trim(u.as_str()).to_owned()),
        Err(_) => Err(ToolError::Unescape),
    }
}

/// The value at `choices[0].message.content`, if every step of that path is
/// there.
pub fn completion_content(doc: &serde_json::Value) -> (r: Option<&serde_json::Value>)
    ensures
        r is Some <==> content_path(tree_of(*doc)) is Some,
        r is Some ==> content_path(tree_of(*doc)) == Some(tree_of(*r->Some_0)),
{
    proof {
        reveal_strlit("choices");
        reveal_strlit("message");
        reveal_strlit("content");
    }
    match member(doc, "choices") {
        None => None,
        Some(choices) => match element(choices, 0) {
            None => None,
            Some(first) => match member(first, "message") {
                None => None,
                Some(message) => member(message, "content"),
            },
        },
    }
}

/// Extracts the completion text from a response body: the value at
/// `choices[0].message.content` (a string's own text, any other value's
/// JSON text), unescaped and trimmed. A missing path is not an error: it
/// reads as `null`. Fails with `Parse` exactly when the body is
/// not JSON, else with `Unescape` where the content is not validly escaped.
pub fn extract_text(body: &str) -> (r: Result<String, ToolError>)
    ensures
        match (r, extracted(body@)) {
            (Ok(s), Ok(t)) => s@ == t,
            (Err(e), Err(f)) => e == f,
            _ => false,
        },
        is_json(body@) && content_path(parsed(body@)) is None ==> r is Ok && r->Ok_0@
            == absent_text(),
{
    match parse_json(body) {
        Err(_) => Err(ToolError::Parse),
        Ok(doc) => match completion_content(&doc) {
            Some(v) => match string_text(v) {
                Some(t) => content_text(Some(t)),
                None => {
                    let t = json_text(v);
                    content_text(Some(t.as_str()))
                },
            },
            None => content_text(None),
        },
    }
}

} // verus!
