//! Re-flowing an answer to a fixed line width for display.

use vstd::prelude::*;
use crate::text::{split_lines, join_lines};
use crate::prompt::Action;

verus! {

/// The column width that answers are re-flowed to.
pub const DISPLAY_WIDTH: usize = 80;

/// What `textwrap::wrap` makes of one line at the given width, wrapping
/// greedily (first fit) without breaking words.
pub uninterp spec fn wrapped(line: Seq<char>, width: nat) -> Seq<Seq<char>>;

/// Relies on `str::split` with `'\n'`: the pieces between newlines, in order.
#[verifier::external_body]
fn split_at_newlines(s: &str) -> (r: Vec<String>)
    ensures
        r@.map_values(|l: String| l@) == split_lines(s@),
{
    s.split('\n').map(|l| l.to_owned()).collect()
}

/// Relies on `textwrap::wrap` at the given width with the first-fit
/// (greedy) algorithm, words never broken, and its other default options.
#[verifier::external_body]
fn wrap_line(line: &str, width: usize) -> (r: Vec<String>)
    ensures
        r@.map_values(|l: String| l@) == wrapped(line@, width as nat),
{
    let options = textwrap::Options::new(width)
        .wrap_algorithm(textwrap::WrapAlgorithm::FirstFit)
        .break_words(false);
    textwrap::wrap(line, options).into_iter().map(|l| l.into_owned()).collect()
}

/// The wrapped lines of every line, in order.
pub open spec fn wrap_all(lines: Seq<Seq<char>>, width: nat) -> Seq<Seq<char>>
    decreases lines.len(),
{
    if lines.len() == 0 {
        Seq::empty()
    } else {
        wrap_all(lines.drop_last(), width) + wrapped(lines.last(), width)
    }
}

/// What `wrap_for_display` makes of a text.
pub open spec fn displayed(text: Seq<char>) -> Seq<char> {
    join_lines(wrap_all(split_lines(text), DISPLAY_WIDTH as nat))
}

/// The lines joined with `'\n'` between neighbours.
pub fn join_with_newlines(lines: &Vec<String>) -> (r: String)
    ensures
        r@ == join_lines(lines@.map_values(|l: String| l@)),
{
    let ghost views = lines@.map_values(|l: String| l@);
    let mut s = String::new();
    let mut i: usize = 0;
    while i < lines.len()
        invariant
            i <= lines.len(),
            views == lines@.map_values(|l: String| l@),
            s@ == join_lines(views.take(i as int)),
        decreases lines.len() - i,
    {
        assert(views.take(i + 1).drop_last() =~= views.take(i as int));
        if i > 0 {
            s.append("\n");
            proof {
                reveal_strlit("\n");
            }
        }
        s.append(lines[i].as_str());
        i = i + 1;
    }
    assert(views.take(lines.len() as int) =~= views);
    s
}

/// Re-flows every line of `text` to `DISPLAY_WIDTH` columns with greedy
/// (first-fit) word wrapping and joins the results with single newlines.
/// A word wider than the line is not broken: it overflows on a line of its
/// own.
pub fn wrap_for_display(text: &str) -> (r: String)
    ensures
        r@ == displayed(text@),
{
    let lines = split_at_newlines(text);
    let ghost views = lines@.map_values(|l: String| l@);
    let mut out: Vec<String> = Vec::new();
    let mut i: usize = 0;
    while i < lines.len()
        invariant
            i <= lines.len(),
            views == lines@.map_values(|l: String| l@),
            out@.map_values(|l: String| l@) == wrap_all(views.take(i as int), DISPLAY_WIDTH as nat),
        decreases lines.len() - i,
    {
        let ghost before = out@;
        let mut pieces = wrap_line(lines[i].as_str(), DISPLAY_WIDTH);
        let ghost added = pieces@;
        out.append(&mut pieces);
        assert(views.take(i + 1).drop_last() =~= views.take(i as int));
        assert(out@ == before + added);
        assert(out@.map_values(|l: String| l@) =~= before.map_values(|l: String| l@)
            + added.map_values(|l: String| l@));
        i = i + 1;
    }
    assert(views.take(lines.len() as int) =~= views);
    join_with_newlines(&out)
}

/// The text to print for `action`: re-flowed where the action asks for it,
/// else as it is.
pub fn render_answer(action: &Action, text: String) -> (r: String)
    ensures
        r@ == if action is Explain || action is Walkthrough {
            displayed(text@)
        } else {
            text@
        },
{
    if action.wraps_output() {
        wrap_for_display(text.as_str())
    } else {
        text
    }
}

} // verus!
