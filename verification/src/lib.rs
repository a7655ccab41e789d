//! A library for finding files by the tags declared on their first line.
//!
//! A tagged file opens with a tagline such as `tags: [#work #draft]`. A user
//! query is a boolean expression over tag names, for example
//! `#work & !#draft`. This crate holds the verified core of the tool: the
//! tagline grammar, the query grammar, the resolved boolean expression tree,
//! and its evaluator. Directory walking, command execution and terminal
//! rendering live outside the library and only hand plain values in and out.

use vstd::prelude::*;

pub mod text;
pub mod tagline;
pub mod query;
pub mod ast;
pub mod search;
pub mod laws;

verus! {

/// The views of a sequence of strings, as sequences of characters.
pub open spec fn string_views(ss: Seq<String>) -> Seq<Seq<char>> {
    ss.map_values(|s: String| s@)
}

/// What a grammar expected at the place where the input stopped matching it.
#[derive(Clone, Copy, Debug, PartialEq, Eq)]
pub enum Expected {
    /// The literal keyword `tags:` opening a tagline.
    Keyword,
    /// The `[` opening the tag list of a tagline.
    OpenBracket,
    /// A tag, or the `]` closing the tag list of a tagline.
    TagOrClose,
    /// At least one identifier character after a `#`.
    Identifier,
    /// Any token of the query grammar.
    Token,
    /// A primary: a tag reference or a parenthesized sub-expression.
    Primary,
    /// The `)` closing a parenthesized sub-expression.
    CloseParen,
    /// The end of the input.
    EndOfInput,
}

/// A structural parse error: what was expected, and the offset at which the
/// input stopped matching the grammar instead. The offset counts characters
/// while the input is being read as text, tokens once it has been read as
/// tokens. Both fields are informative context for the caller's report,
/// nothing more.
#[derive(Clone, Copy, Debug, PartialEq, Eq)]
pub struct ParseError {
    pub pos: usize,
    pub expected: Expected,
}

} // verus!
