//! The request sent to the completion service.

use vstd::prelude::*;

verus! {

/// A lowercase hexadecimal digit.
pub open spec fn hex_digit(n: u32) -> char {
    seq!['0', '1', '2', '3', '4', '5', '6', '7', '8', '9', 'a', 'b', 'c', 'd', 'e', 'f'][n as int]
}

/// How one character is written inside a JSON string: quote, backslash and
/// the usual control characters with a short escape, other control
/// characters as `\u00xx`, everything else as it is.
pub open spec fn escaped_char(c: char) -> Seq<char> {
    if c == '"' {
        seq!['\\', '"']
    } else if c == '\\' {
        seq!['\\', '\\']
    } else if c == '\u{8}' {
        seq!['\\', 'b']
    } else if c == '\t' {
        seq!['\\', 't']
    } else if c == '\n' {
        seq!['\\', 'n']
    } else if c == '\u{c}' {
        seq!['\\', 'f']
    } else if c == '\r' {
        seq!['\\', 'r']
    } else if (c as u32) < 0x20 {
        seq!['\\', 'u', '0', '0', hex_digit((c as u32) / 16), hex_digit((c as u32) % 16)]
    } else {
        seq![c]
    }
}

/// The characters of a text, each written as inside a JSON string.
pub open spec fn escaped(s: Seq<char>) -> Seq<char>
    decreases s.len(),
{
    if s.len() == 0 {
        Seq::empty()
    } else {
        escaped_char(s[0]) + escaped(s.drop_first())
    }
}

/// The text as a JSON string literal.
pub open spec fn json_string(s: Seq<char>) -> Seq<char> {
    seq!['"'] + escaped(s) + seq!['"']
}

/// Relies on serde_json's `Display` for `Value::String`: the text in
/// double quotes, escaped as `escaped_char` says.
#[verifier::external_body]
fn quote_json(s: &str) -> (r: String)
    ensures
        r@ == json_string(s@),
{
    serde_json::Value::String(s.to_owned()).to_string()
}

/// The model that every request names. The model chosen on the command line
/// is accepted but not sent.
pub open spec fn request_model() -> Seq<char> {
    "gpt-3.5-turbo"@
}

/// The request body for a prompt: one user message, a fixed model and a
/// sampling temperature of 0.8, with the keys in sorted order. No token
/// limit is sent.
pub open spec fn request_body_of(prompt: Seq<char>) -> Seq<char> {
    "{\"messages\":[{\"content\":"@ + json_string(prompt) + ",\"role\":\"user\"}],\"model\":\""@
        + request_model() + "\",\"temperature\":0.8}"@
}

/// The JSON request body that carries `prompt`.
pub fn request_body(prompt: &str) -> (r: String)
    ensures
        r@ == request_body_of(prompt@),
{
    let quoted = quote_json(prompt);
    let mut s = String::from_str("{\"messages\":[{\"content\":");
    s.append(quoted.as_str());
    s.append(",\"role\":\"user\"}],\"model\":\"");
    s.append("gpt-3.5-turbo");
    s.append("\",\"temperature\":0.8}");
    assert(s@ =~= request_body_of(prompt@));
    s
}

/// The value of the `Authorization` header for an API key.
pub fn authorization(api_key: &str) -> (r: String)
    ensures
        r@ == "Bearer "@ + api_key@,
{
    let mut s = String::from_str("Bearer ");
    s.append(api_key);
    s
}

/// How the tool reaches the service, with the defaults in one place.
#[derive(Debug, Clone)]
pub struct Settings {
    /// The model name given by the user; not sent with the request.
    pub model: String,
    /// The token limit given by the user; not sent with the request.
    pub max_tokens: i32,
    /// The URL that requests are posted to.
    pub endpoint: String,
}

impl Settings {
    /// The settings where the user chose nothing.
    pub fn defaults() -> (r: Settings)
        ensures
            r.model@ == "text-davinci-001"@,
            r.max_tokens == 1024,
            r.endpoint@ == "https://api.openai.com/v1/chat/completions"@,
    {
        Settings {
            model: String::from_str("text-davinci-001"),
            max_tokens: 1024,
            endpoint: String::from_str("https://api.openai.com/v1/chat/completions"),
        }
    }
}

} // verus!
