//! The query grammar.
//!
//! A query is a boolean expression over tag references: `#` followed by an
//! identifier as a terminal, prefix `!` for negation, infix `&` and `|` at
//! one shared precedence level grouped left to right, and parentheses around
//! sub-expressions. Whitespace, newlines included, is insignificant between
//! tokens.
//!
//! Parsing runs in two steps, each specified by a recursive spec function and
//! carried out by an executable function proved to return exactly what the
//! spec function says: [`spec_tokenize`] reads the characters as tokens, and
//! [`spec_expr`] reads the tokens as a [`QueryTree`].

use vstd::prelude::*;

use crate::ast::Op;
use crate::text::{ident_end, is_space_char, scan_ident, space_char};
use crate::{Expected, ParseError};

verus! {

/// A token of the query grammar, at the specification level: the tag text is
/// a sequence of characters.
pub enum TokenView {
    Tag(Seq<char>),
    And,
    Or,
    Not,
    LParen,
    RParen,
}

/// A token of the query grammar. A `Tag` token holds the tag text, `#`
/// included.
#[derive(Debug, PartialEq, Eq)]
pub enum Token {
    Tag(String),
    And,
    Or,
    Not,
    LParen,
    RParen,
}

impl View for Token {
    type V = TokenView;

    open spec fn view(&self) -> TokenView {
        match self {
            Token::Tag(t) => TokenView::Tag(t@),
            Token::And => TokenView::And,
            Token::Or => TokenView::Or,
            Token::Not => TokenView::Not,
            Token::LParen => TokenView::LParen,
            Token::RParen => TokenView::RParen,
        }
    }
}

/// The views of a sequence of tokens.
pub open spec fn token_views(ts: Seq<Token>) -> Seq<TokenView> {
    ts.map_values(|t: Token| t@)
}

/// Prepends a token to a tokenization that may have failed.
pub open spec fn cons_token(t: TokenView, rest: Option<Seq<TokenView>>) -> Option<
    Seq<TokenView>,
> {
    match rest {
        Some(ts) => Some(seq![t] + ts),
        None => None,
    }
}

/// The tokens of `s` from position `i` on, or `None` where some character
/// fits no token: a tag mark `#` must be followed by at least one identifier
/// character, and only operators, parentheses, tags and whitespace may occur.
pub open spec fn spec_tokenize_from(s: Seq<char>, i: int) -> Option<Seq<TokenView>>
    decreases s.len() - i,
{
    if !(0 <= i <= s.len()) {
        None
    } else if i == s.len() {
        Some(Seq::empty())
    } else if is_space_char(s[i]) {
        spec_tokenize_from(s, i + 1)
    } else if s[i] == '&' {
        cons_token(TokenView::And, spec_tokenize_from(s, i + 1))
    } else if s[i] == '|' {
        cons_token(TokenView::Or, spec_tokenize_from(s, i + 1))
    } else if s[i] == '!' {
        cons_token(TokenView::Not, spec_tokenize_from(s, i + 1))
    } else if s[i] == '(' {
        cons_token(TokenView::LParen, spec_tokenize_from(s, i + 1))
    } else if s[i] == ')' {
        cons_token(TokenView::RParen, spec_tokenize_from(s, i + 1))
    } else if s[i] == '#' {
        let e = ident_end(s, i + 1);
        if i + 1 < e && e <= s.len() {
            cons_token(TokenView::Tag(s.subrange(i, e)), spec_tokenize_from(s, e))
        } else {
            None
        }
    } else {
        None
    }
}

/// The tokens of the whole of `s`.
pub open spec fn spec_tokenize(s: Seq<char>) -> Option<Seq<TokenView>> {
    spec_tokenize_from(s, 0)
}

/// Reads the characters of `s` from position `i` on as query tokens.
fn tokenize_from(s: &str, i: usize) -> (r: Result<Vec<Token>, ParseError>)
    requires
        i <= s@.len(),
    ensures
        match r {
            Ok(toks) => spec_tokenize_from(s@, i as int) == Some(token_views(toks@)),
            Err(_) => spec_tokenize_from(s@, i as int) is None,
        },
    decreases s@.len() - i,
{
    let n = s.unicode_len();
    if i == n {
        let toks: Vec<Token> = Vec::new();
        proof {
            assert(token_views(toks@) =~= Seq::<TokenView>::empty());
        }
        return Ok(toks);
    }
    let c = s.get_char(i);
    if space_char(c) {
        return tokenize_from(s, i + 1);
    }
    if c == '&' || c == '|' || c == '!' || c == '(' || c == ')' {
        let tok = if c == '&' {
            Token::And
        } else if c == '|' {
            Token::Or
        } else if c == '!' {
            Token::Not
        } else if c == '(' {
            Token::LParen
        } else {
            Token::RParen
        };
        let ghost tv = tok@;
        match tokenize_from(s, i + 1) {
            Ok(mut rest) => {
                let ghost prev = rest@;
                rest.insert(0, tok);
                proof {
                    assert(token_views(rest@) =~= seq![tv] + token_views(prev));
                }
                return Ok(rest);
            },
            Err(e) => {
                return Err(e);
            },
        }
    }
    if c == '#' {
        let e = scan_ident(s, i + 1);
        if e == i + 1 {
            return Err(ParseError { pos: i, expected: Expected::Identifier });
        }
        let text = s.substring_char(i, e).to_owned();
        match tokenize_from(s, e) {
            Ok(mut rest) => {
                let ghost prev = rest@;
                let ghost tv = TokenView::Tag(text@);
                rest.insert(0, Token::Tag(text));
                proof {
                    assert(token_views(rest@) =~= seq![tv] + token_views(prev));
                }
                return Ok(rest);
            },
            Err(err) => {
                return Err(err);
            },
        }
    }
    Err(ParseError { pos: i, expected: Expected::Token })
}

/// Reads the whole of `s` as query tokens.
pub fn tokenize(s: &str) -> (r: Result<Vec<Token>, ParseError>)
    ensures
        match r {
            Ok(toks) => spec_tokenize(s@) == Some(token_views(toks@)),
            Err(_) => spec_tokenize(s@) is None,
        },
{
    tokenize_from(s, 0)
}

/// The parse tree of a query, at the specification level.
pub enum QueryTreeView {
    Tag(Seq<char>),
    Not(Box<QueryTreeView>),
    Operation { lhs: Box<QueryTreeView>, op: Op, rhs: Box<QueryTreeView> },
}

/// The parse tree of a query: tag references as terminals, prefix negation,
/// and left-grouped infix operations. It carries no resolved values, so one
/// tree can be resolved against the tag set of each file in turn.
#[derive(Debug, PartialEq)]
pub enum QueryTree {
    Tag(String),
    Not(Box<QueryTree>),
    Operation { lhs: Box<QueryTree>, op: Op, rhs: Box<QueryTree> },
}

/// The view of a parse tree: the same tree with each tag text as a sequence
/// of characters.
pub open spec fn query_tree_view(t: QueryTree) -> QueryTreeView
    decreases t,
{
    match t {
        QueryTree::Tag(name) => QueryTreeView::Tag(name@),
        QueryTree::Not(sub) => QueryTreeView::Not(Box::new(query_tree_view(*sub))),
        QueryTree::Operation { lhs, op, rhs } => QueryTreeView::Operation {
            lhs: Box::new(query_tree_view(*lhs)),
            op,
            rhs: Box::new(query_tree_view(*rhs)),
        },
    }
}

impl View for QueryTree {
    type V = QueryTreeView;

    open spec fn view(&self) -> QueryTreeView {
        query_tree_view(*self)
    }
}

/// A primary: a tag reference, or a parenthesized sub-expression. On success
/// the result holds the tree read and the position after it.
pub open spec fn spec_primary(toks: Seq<TokenView>, i: int) -> Option<(QueryTreeView, int)>
    decreases toks.len() - i, 0int,
{
    if !(0 <= i < toks.len()) {
        None
    } else {
        match toks[i] {
            TokenView::Tag(name) => Some((QueryTreeView::Tag(name), i + 1)),
            TokenView::LParen => match spec_expr(toks, i + 1) {
                Some((t, j)) => if 0 <= j < toks.len() && toks[j] == TokenView::RParen {
                    Some((t, j + 1))
                } else {
                    None
                },
                None => None,
            },
            _ => None,
        }
    }
}

/// A term: a primary under any number of prefix negations. Negation binds
/// tighter than the infix operators.
pub open spec fn spec_term(toks: Seq<TokenView>, i: int) -> Option<(QueryTreeView, int)>
    decreases toks.len() - i, 1int,
{
    if !(0 <= i < toks.len()) {
        None
    } else if toks[i] == TokenView::Not {
        match spec_term(toks, i + 1) {
            Some((t, j)) => Some((QueryTreeView::Not(Box::new(t)), j)),
            None => None,
        }
    } else {
        spec_primary(toks, i)
    }
}

/// The rest of an expression after a first term: `&` and `|` share one
/// precedence level, so each further term is folded onto the tree built so
/// far, which groups chained operations strictly left to right.
pub open spec fn spec_expr_rest(toks: Seq<TokenView>, i: int, lhs: QueryTreeView) -> Option<
    (QueryTreeView, int),
>
    decreases toks.len() - i, 2int,
{
    if !(0 <= i <= toks.len()) {
        None
    } else if i < toks.len() && (toks[i] == TokenView::And || toks[i] == TokenView::Or) {
        let op = if toks[i] == TokenView::And {
            Op::And
        } else {
            Op::Or
        };
        match spec_term(toks, i + 1) {
            Some((rhs, j)) => if i < j <= toks.len() {
                spec_expr_rest(
                    toks,
                    j,
                    QueryTreeView::Operation { lhs: Box::new(lhs), op, rhs: Box::new(rhs) },
                )
            } else {
                None
            },
            None => None,
        }
    } else {
        Some((lhs, i))
    }
}

/// An expression: a term followed by any number of infix operations.
pub open spec fn spec_expr(toks: Seq<TokenView>, i: int) -> Option<(QueryTreeView, int)>
    decreases toks.len() - i, 3int,
{
    match spec_term(toks, i) {
        Some((t, j)) => if i < j <= toks.len() {
            spec_expr_rest(toks, j, t)
        } else {
            None
        },
        None => None,
    }
}

/// The parse tree of the query `s`, or `None` where `s` does not read as one
/// expression spanning the whole input.
pub open spec fn spec_parse_query(s: Seq<char>) -> Option<QueryTreeView> {
    match spec_tokenize(s) {
        Some(toks) => match spec_expr(toks, 0) {
            Some((t, j)) => if j == toks.len() {
                Some(t)
            } else {
                None
            },
            None => None,
        },
        None => None,
    }
}

/// Reads one primary at token position `i`.
fn parse_primary(toks: &Vec<Token>, i: usize) -> (r: Result<(QueryTree, usize), ParseError>)
    requires
        i <= toks@.len(),
    ensures
        match r {
            Ok((t, j)) => spec_primary(token_views(toks@), i as int) == Some((t@, j as int)) && i
                < j <= toks@.len(),
            Err(_) => spec_primary(token_views(toks@), i as int) is None,
        },
    decreases toks@.len() - i, 0int,
{
    if i >= toks.len() {
        return Err(ParseError { pos: i, expected: Expected::Primary });
    }
    proof {
        assert(token_views(toks@)[i as int] == toks@[i as int]@);
    }
    match &toks[i] {
        Token::Tag(name) => Ok((QueryTree::Tag(name.clone()), i + 1)),
        Token::LParen => {
            match parse_expr(toks, i + 1) {
                Ok((t, j)) => {
                    if j < toks.len() {
                        proof {
                            assert(token_views(toks@)[j as int] == toks@[j as int]@);
                        }
                        match &toks[j] {
                            Token::RParen => Ok((t, j + 1)),
                            _ => Err(ParseError { pos: j, expected: Expected::CloseParen }),
                        }
                    } else {
                        Err(ParseError { pos: j, expected: Expected::CloseParen })
                    }
                },
                Err(e) => Err(e),
            }
        },
        _ => Err(ParseError { pos: i, expected: Expected::Primary }),
    }
}

/// Reads one term at token position `i`.
fn parse_term(toks: &Vec<Token>, i: usize) -> (r: Result<(QueryTree, usize), ParseError>)
    requires
        i <= toks@.len(),
    ensures
        match r {
            Ok((t, j)) => spec_term(token_views(toks@), i as int) == Some((t@, j as int)) && i < j
                <= toks@.len(),
            Err(_) => spec_term(token_views(toks@), i as int) is None,
        },
    decreases toks@.len() - i, 1int,
{
    if i < toks.len() {
        proof {
            assert(token_views(toks@)[i as int] == toks@[i as int]@);
        }
        let is_not = match &toks[i] {
            Token::Not => true,
            _ => false,
        };
        if is_not {
            match parse_term(toks, i + 1) {
                Ok((t, j)) => {
                    return Ok((QueryTree::Not(Box::new(t)), j));
                },
                Err(e) => {
                    return Err(e);
                },
            }
        }
    }
    parse_primary(toks, i)
}

/// Folds further infix operations onto `lhs` from token position `i` on.
fn parse_expr_rest(toks: &Vec<Token>, i: usize, lhs: QueryTree) -> (r: Result<
    (QueryTree, usize),
    ParseError,
>)
    requires
        i <= toks@.len(),
    ensures
        match r {
            Ok((t, j)) => spec_expr_rest(token_views(toks@), i as int, lhs@) == Some(
                (t@, j as int),
            ) && i <= j <= toks@.len(),
            Err(_) => spec_expr_rest(token_views(toks@), i as int, lhs@) is None,
        },
    decreases toks@.len() - i, 2int,
{
    if i < toks.len() {
        proof {
            assert(token_views(toks@)[i as int] == toks@[i as int]@);
        }
        let op_opt = match &toks[i] {
            Token::And => Some(Op::And),
            Token::Or => Some(Op::Or),
            _ => None,
        };
        if let Some(op) = op_opt {
            match parse_term(toks, i + 1) {
                Ok((rhs, j)) => {
                    let combined = QueryTree::Operation {
                        lhs: Box::new(lhs),
                        op,
                        rhs: Box::new(rhs),
                    };
                    return parse_expr_rest(toks, j, combined);
                },
                Err(e) => {
                    return Err(e);
                },
            }
        }
    }
    Ok((lhs, i))
}

/// Reads one expression at token position `i`.
fn parse_expr(toks: &Vec<Token>, i: usize) -> (r: Result<(QueryTree, usize), ParseError>)
    requires
        i <= toks@.len(),
    ensures
        match r {
            Ok((t, j)) => spec_expr(token_views(toks@), i as int) == Some((t@, j as int)) && i < j
                <= toks@.len(),
            Err(_) => spec_expr(token_views(toks@), i as int) is None,
        },
    decreases toks@.len() - i, 3int,
{
    match parse_term(toks, i) {
        Ok((t, j)) => parse_expr_rest(toks, j, t),
        Err(e) => Err(e),
    }
}

/// `QueryParser` is responsible for parsing the search query.
pub struct QueryParser;

impl QueryParser {
    /// Parses a query string. `Ok` holds the parse tree of the whole input
    /// exactly when [`spec_parse_query`] reads one; any malformed input, an
    /// unmatched parenthesis, an operator with a missing operand or a
    /// malformed tag token among it, is a structural parse error.
    pub fn parse(query: &str) -> (r: Result<QueryTree, ParseError>)
        ensures
            match r {
                Ok(t) => spec_parse_query(query@) == Some(t@),
                Err(_) => spec_parse_query(query@) is None,
            },
    {
        let toks = match tokenize(query) {
            Ok(t) => t,
            Err(e) => {
                return Err(e);
            },
        };
        match parse_expr(&toks, 0) {
            Ok((t, j)) => {
                if j == toks.len() {
                    Ok(t)
                } else {
                    Err(ParseError { pos: j, expected: Expected::EndOfInput })
                }
            },
            Err(e) => Err(e),
        }
    }
}

} // verus!
