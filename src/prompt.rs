//! The four request modes and the prompt each one sends.

use vstd::prelude::*;

verus! {

/// A request mode, with the text that the user supplied.
#[derive(Debug, Clone)]
pub enum Action {
    /// Write code from a description.
    Write(String),
    /// Refactor the given code.
    Refactor(String),
    /// Explain the given code.
    Explain(String),
    /// Walk through the given code step by step.
    Walkthrough(String),
}

/// The user's text of an action.
pub open spec fn body_of(action: &Action) -> Seq<char> {
    match action {
        Action::Write(b) => b@,
        Action::Refactor(b) => b@,
        Action::Explain(b) => b@,
        Action::Walkthrough(b) => b@,
    }
}

pub open spec fn preamble() -> Seq<char> {
    "Don't start the sentence with as an AI language model. As an expert in "@
}

/// The prompt that `action` sends for code in `lang`.
pub open spec fn prompt_of(action: &Action, lang: Seq<char>) -> Seq<char> {
    let body = body_of(action);
    match action {
        Action::Write(_) => "write "@ + lang + ", "@ + body
            + ". Don't write explanations or anything else other than code"@,
        Action::Refactor(_) => "refactor this "@ + lang + " code: ```\n"@ + body + "```"@,
        Action::Explain(_) => preamble() + lang + ", explain this "@ + lang + " code: ```\n"@
            + body + "```"@,
        Action::Walkthrough(_) => preamble() + lang
            + ", walkthrough indepth step by step with explanations on what this "@ + lang
            + " code does: ```\n"@ + body + "```"@,
    }
}

impl Action {
    /// The text the user supplied.
    pub fn body(&self) -> (r: &String)
        ensures
            r@ == body_of(self),
    {
        match self {
            Action::Write(b) => b,
            Action::Refactor(b) => b,
            Action::Explain(b) => b,
            Action::Walkthrough(b) => b,
        }
    }

    /// Whether the answer to this action is re-flowed for display.
    pub fn wraps_output(&self) -> (r: bool)
        ensures
            r == (self is Explain || self is Walkthrough),
    {
        match self {
            Action::Explain(_) | Action::Walkthrough(_) => true,
            _ => false,
        }
    }
}

/// The prompt for `action` on code in `language`; total, and a function of
/// its arguments alone.
pub fn build_prompt(action: &Action, language: &str) -> (r: String)
    ensures
        r@ == prompt_of(action, language@),
{
    let body = action.body().as_str();
    let mut s: String;
    match action {
        Action::Write(_) => {
            s = String::from_str("write ");
            s.append(language);
            s.append(", ");
            s.append(body);
            s.append(". Don't write explanations or anything else other than code");
        },
        Action::Refactor(_) => {
            s = String::from_str("refactor this ");
            s.append(language);
            s.append(" code: ```\n");
            s.append(body);
            s.append("```");
        },
        Action::Explain(_) => {
            s = String::from_str(
                "Don't start the sentence with as an AI language model. As an expert in ",
            );
            s.append(language);
            s.append(", explain this ");
            s.append(language);
            s.append(" code: ```\n");
            s.append(body);
            s.append("```");
        },
        Action::Walkthrough(_) => {
            s = String::from_str(
                "Don't start the sentence with as an AI language model. As an expert in ",
            );
            s.append(language);
            s.append(", walkthrough indepth step by step with explanations on what this ");
            s.append(language);
            s.append(" code does: ```\n");
            s.append(body);
            s.append("```");
        },
    }
    assert(s@ =~= prompt_of(action, language@));
    s
}

} // verus!
