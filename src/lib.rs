//! A small prompt tool for a chat-completion service: prompt templates,
//! comment and line formatting, request framing, response extraction and
//! display wrapping.

use vstd::prelude::*;

pub mod text;
pub mod comment;
pub mod response;
pub mod prompt;
pub mod display;
pub mod request;

verus! {

/// What can go wrong in the library's own steps.
#[derive(Debug, Clone, Copy, PartialEq, Eq, Structural)]
pub enum ToolError {
    /// The line-start pattern did not compile.
    Pattern,
    /// The response body is not JSON.
    Parse,
    /// The extracted text holds an invalid escape sequence.
    Unescape,
}

} // verus!
