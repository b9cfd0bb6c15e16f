use codegpt::request::{authorization, request_body, Settings};
use codegpt::response::{content_text, extract_text};
use codegpt::ToolError;

#[test]
fn extract_quoted_content() {
    let body = r#"{"choices":[{"message":{"content":"\"hello\""}}]}"#;
    assert_eq!(extract_text(body), Ok("hello".to_string()));
}

#[test]
fn extract_plain_content() {
    let body = r#"{"choices":[{"message":{"content":"hello"}}]}"#;
    assert_eq!(extract_text(body), Ok("hello".to_string()));
}

#[test]
fn extract_unescapes_and_trims() {
    let body = r#"{"choices":[{"message":{"content":"  line one\nline two\n"}}]}"#;
    assert_eq!(extract_text(body), Ok("line one\nline two".to_string()));
}

#[test]
fn extract_missing_choices_reads_null() {
    assert_eq!(extract_text(r#"{"id":"x"}"#), Ok("null".to_string()));
    assert_eq!(extract_text(r#"{"choices":[]}"#), Ok("null".to_string()));
    assert_eq!(extract_text(r#"{"choices":[{"message":{}}]}"#), Ok("null".to_string()));
}

#[test]
fn extract_not_json() {
    assert_eq!(extract_text("not json"), Err(ToolError::Parse));
    assert_eq!(extract_text(""), Err(ToolError::Parse));
}

#[test]
fn extract_number_content() {
    let body = r#"{"choices":[{"message":{"content":5}}]}"#;
    assert_eq!(extract_text(body), Ok("5".to_string()));
}

#[test]
fn extract_bad_escape() {
    let body = r#"{"choices":[{"message":{"content":"\"abc\\"}}]}"#;
    assert_eq!(extract_text(body), Err(ToolError::Unescape));
}

#[test]
fn content_text_cases() {
    assert_eq!(content_text(None), Ok("null".to_string()));
    assert_eq!(content_text(Some("\"a\\tb\"  ")), Ok("a\tb".to_string()));
    assert_eq!(content_text(Some("\"abc\\")), Err(ToolError::Unescape));
}

#[test]
fn request_body_frames_prompt() {
    assert_eq!(
        request_body("say \"hi\"\n"),
        r#"{"messages":[{"content":"say \"hi\"\n","role":"user"}],"model":"gpt-3.5-turbo","temperature":0.8}"#
    );
}

#[test]
fn request_body_escapes_control_characters() {
    assert_eq!(
        request_body("a\u{1}\t\\b"),
        r#"{"messages":[{"content":"a\u0001\t\\b","role":"user"}],"model":"gpt-3.5-turbo","temperature":0.8}"#
    );
}

#[test]
fn authorization_header() {
    assert_eq!(authorization("k-123"), "Bearer k-123");
}

#[test]
fn default_settings() {
    let s = Settings::defaults();
    assert_eq!(s.model, "text-davinci-001");
    assert_eq!(s.max_tokens, 1024);
    assert_eq!(s.endpoint, "https://api.openai.com/v1/chat/completions");
}
