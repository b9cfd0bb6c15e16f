//! Turning text into source comments, and doubling its line breaks.

use vstd::prelude::*;
use crate::ToolError;
use crate::text::{mark_lines, split_lines, has_no_newline, lemma_mark_lines_prefixes_each_line};

verus! {

#[verifier::external_type_specification]
#[verifier::external_body]
pub struct ExRegex(regex::Regex);

#[verifier::external_type_specification]
#[verifier::external_body]
pub struct ExRegexError(regex::Error);

/// The single-line comment marker, trailing space included, of a language
/// that this library knows.
pub open spec fn marker_of(lang: Seq<char>) -> Option<Seq<char>> {
    if lang == "rust"@ || lang == "c"@ || lang == "javascript"@ || lang == "typescript"@
        || lang == "solidity"@ {
        Some("// "@)
    } else if lang == "dockerfile"@ || lang == "bash"@ || lang == "zsh"@ || lang == "sh"@
        || lang == "python"@ || lang == "ruby"@ {
        Some("# "@)
    } else if lang == "lua"@ || lang == "sql"@ {
        Some("-- "@)
    } else {
        None
    }
}

/// What `into_comment` makes of `text` for `lang`.
pub open spec fn commented(text: Seq<char>, lang: Seq<char>) -> Seq<char> {
    match marker_of(lang) {
        Some(m) => mark_lines(text, m),
        None => text,
    }
}

/// For a known language every line of the commented text, the first and
/// the empty ones included, is the matching line of the original behind the
/// language's marker and one space; an unknown language leaves the text as
/// it is.
pub proof fn lemma_commented_lines(text: Seq<char>, lang: Seq<char>)
    ensures
        match marker_of(lang) {
            Some(m) => split_lines(commented(text, lang)) == split_lines(text).map_values(
                |l: Seq<char>| m + l,
            ),
            None => commented(text, lang) == text,
        },
        marker_of(lang) is Some ==> marker_of(lang) == Some("// "@) || marker_of(lang) == Some(
            "# "@,
        ) || marker_of(lang) == Some("-- "@),
{
    reveal_strlit("// ");
    reveal_strlit("# ");
    reveal_strlit("-- ");
    if let Some(m) = marker_of(lang) {
        assert(has_no_newline(m));
        lemma_mark_lines_prefixes_each_line(text, m);
    }
}

/// The text that `into_formatted` inserts at every line start.
pub open spec fn line_break_marker() -> Seq<char> {
    "\n\r"@
}

/// A compiled multi-line start-of-line pattern, `(?m)^`.
///
/// Values come only from `LineStarts::compile`, so every value holds that
/// pattern.
pub struct LineStarts {
    re: regex::Regex,
}

impl LineStarts {
    /// Relies on `regex::Regex::new` to compile `(?m)^`. It fails only on a
    /// pattern that is invalid or over the size limit, which this fixed
    /// pattern is not.
    #[verifier::external_body]
    fn compile() -> (r: Result<LineStarts, regex::Error>)
        ensures
            r is Ok,
    {
        match regex::Regex::new(r"(?m)^") {
            Ok(re) => Ok(LineStarts { re }),
            Err(e) => Err(e),
        }
    }

    /// Compiles the line-start pattern; this always succeeds.
    pub fn new() -> (r: Result<LineStarts, ToolError>)
        ensures
            r is Ok,
    {
        match LineStarts::compile() {
            Ok(starts) => Ok(starts),
            Err(_) => Err(ToolError::Pattern),
        }
    }

    /// Relies on `regex::Regex::replace_all`: `(?m)^` matches the empty
    /// string at offset 0 and right after every `\n`, the end of the text
    /// included, and a replacement without `$` is inserted literally.
    #[verifier::external_body]
    fn insert_at_line_starts(&self, text: &str, rep: &str) -> (r: String)
        requires
            forall|i: int| 0 <= i < rep@.len() ==> rep@[i] != '$',
        ensures
            r@ == mark_lines(text@, rep@),
    {
        self.re.replace_all(text, rep).into_owned()
    }
}

fn same_text(a: &str, b: &str) -> (r: bool)
    ensures
        r == (a@ == b@),
{
    let x = String::from_str(a);
    let y = String::from_str(b);
    x.eq(&y)
}

/// The comment marker of `lang`, if this library knows the language.
pub fn comment_marker(lang: &str) -> (r: Option<&'static str>)
    ensures
        match r {
            Some(m) => marker_of(lang@) == Some(m@),
            None => marker_of(lang@) is None,
        },
        r is Some ==> forall|i: int| 0 <= i < r->Some_0@.len() ==> r->Some_0@[i] != '$',
{
    proof {
        reveal_strlit("// ");
        reveal_strlit("# ");
        reveal_strlit("-- ");
    }
    if same_text(lang, "rust") || same_text(lang, "c") || same_text(lang, "javascript")
        || same_text(lang, "typescript") || same_text(lang, "solidity") {
        Some("// ")
    } else if same_text(lang, "dockerfile") || same_text(lang, "bash") || same_text(lang, "zsh")
        || same_text(lang, "sh") || same_text(lang, "python") || same_text(lang, "ruby") {
        Some("# ")
    } else if same_text(lang, "lua") || same_text(lang, "sql") {
        Some("-- ")
    } else {
        None
    }
}

/// Comments out every line of `text` with the marker of `lang`, using an
/// already compiled line-start pattern; text in an unknown language comes
/// back unchanged.
pub fn comment_with(starts: &LineStarts, text: &str, lang: &str) -> (r: String)
    ensures
        r@ == commented(text@, lang@),
{
    match comment_marker(lang) {
        Some(m) => starts.insert_at_line_starts(text, m),
        None => String::from_str(text),
    }
}

/// Comments out every line of `text` with the single-line comment marker of
/// `lang` (`// `, `# ` or `-- `); text in an unknown language comes back
/// unchanged. It always succeeds: the one failure it could report, the
/// line-start pattern not compiling, cannot occur.
pub fn into_comment(text: String, lang: String) -> (r: Result<String, ToolError>)
    ensures
        r is Ok,
        r->Ok_0@ == commented(text@, lang@),
        marker_of(lang@) is None ==> r->Ok_0@ == text@,
{
    match comment_marker(lang.as_str()) {
        None => Ok(text),
        Some(_) => match LineStarts::new() {
            Ok(starts) => Ok(comment_with(&starts, text.as_str(), lang.as_str())),
            Err(e) => Err(e),
        },
    }
}

/// Inserts a line break (`"\n\r"`) at every line start of `text`, using an
/// already compiled line-start pattern.
pub fn format_with(starts: &LineStarts, text: &str) -> (r: String)
    ensures
        r@ == mark_lines(text@, line_break_marker()),
{
    proof {
        reveal_strlit("\n\r");
    }
    starts.insert_at_line_starts(text, "\n\r")
}

/// Inserts a line break (`"\n\r"`) at every line start of `text`, so that
/// every line break is doubled and the text starts with one. It always
/// succeeds.
pub fn into_formatted(text: String) -> (r: Result<String, ToolError>)
    ensures
        r is Ok,
        r->Ok_0@ == mark_lines(text@, line_break_marker()),
{
    match LineStarts::new() {
        Ok(starts) => Ok(format_with(&starts, text.as_str())),
        Err(e) => Err(e),
    }
}

} // verus!
