use codegpt::comment::{comment_marker, into_comment, into_formatted, LineStarts, comment_with, format_with};
use codegpt::ToolError;

#[test]
fn comment_curly_brace_languages() {
    for lang in ["rust", "c", "javascript", "typescript", "solidity"] {
        let r = into_comment("let a = 1;\nlet b = 2;".to_string(), lang.to_string());
        assert_eq!(r, Ok("// let a = 1;\n// let b = 2;".to_string()));
    }
}

#[test]
fn comment_shell_languages() {
    for lang in ["dockerfile", "bash", "zsh", "sh", "python", "ruby"] {
        let r = into_comment("echo hi\n\necho bye".to_string(), lang.to_string());
        assert_eq!(r, Ok("# echo hi\n# \n# echo bye".to_string()));
    }
}

#[test]
fn comment_lua_and_sql() {
    for lang in ["lua", "sql"] {
        let r = into_comment("select 1".to_string(), lang.to_string());
        assert_eq!(r, Ok("-- select 1".to_string()));
    }
}

#[test]
fn comment_trailing_newline_marks_last_line_start() {
    let r = into_comment("x\n".to_string(), "rust".to_string());
    assert_eq!(r, Ok("// x\n// ".to_string()));
}

#[test]
fn comment_empty_text() {
    let r = into_comment(String::new(), "python".to_string());
    assert_eq!(r, Ok("# ".to_string()));
}

#[test]
fn comment_unknown_language_unchanged() {
    for lang in ["go", "", "Rust", "haskell", "rust "] {
        let text = "fn main() {}\n// done".to_string();
        assert_eq!(into_comment(text.clone(), lang.to_string()), Ok(text));
    }
}

#[test]
fn comment_marker_lookup() {
    assert_eq!(comment_marker("solidity"), Some("// "));
    assert_eq!(comment_marker("zsh"), Some("# "));
    assert_eq!(comment_marker("sql"), Some("-- "));
    assert_eq!(comment_marker("java"), None);
}

#[test]
fn comment_with_compiled_pattern() {
    let starts = LineStarts::new().unwrap();
    assert_eq!(comment_with(&starts, "a\nb", "lua"), "-- a\n-- b");
    assert_eq!(comment_with(&starts, "a\nb", "kotlin"), "a\nb");
}

#[test]
fn formatted_doubles_line_breaks() {
    assert_eq!(into_formatted("a\nb".to_string()), Ok("\n\ra\n\n\rb".to_string()));
    assert_eq!(into_formatted(String::new()), Ok("\n\r".to_string()));
    assert_eq!(into_formatted("a\n".to_string()), Ok("\n\ra\n\n\r".to_string()));
    let starts = LineStarts::new().unwrap();
    assert_eq!(format_with(&starts, "x"), "\n\rx");
}

#[test]
fn error_variants_are_distinct() {
    assert_ne!(ToolError::Pattern, ToolError::Parse);
    assert_ne!(ToolError::Parse, ToolError::Unescape);
}
