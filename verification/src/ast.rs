//! The resolved boolean expression tree and its evaluator.
//!
//! A [`QueryTree`](crate::query::QueryTree) carries tag names; an [`Expr`]
//! carries none. [`construct_query_ast`] resolves every tag reference of a
//! parse tree against one file's tag set, so an `Expr` is specific to one
//! (query, tag set) pair and is rebuilt for each file tested. The parse tree
//! admits only tag references, negations and the two operations, so
//! resolution and evaluation are total: no arm is left for an unexpected
//! token kind.

use vstd::prelude::*;

use crate::query::{QueryTree, QueryTreeView};
use crate::string_views;

verus! {

/// An operation that can be used in a query.
#[derive(Debug, PartialEq, Eq, Clone, Copy)]
pub enum Op {
    And,
    Or,
}

/// A resolved boolean expression tree. A `Bool` leaf is the truth of "this
/// tag is present in the file's tag set"; the tree holds no unresolved tag
/// reference.
#[derive(Debug, PartialEq)]
pub enum Expr {
    Bool(bool),
    UnaryNot(Box<Expr>),
    Operation { lhs: Box<Expr>, op: Op, rhs: Box<Expr> },
}

impl Clone for Expr {
    /// A clone is structurally equal to the original.
    fn clone(&self) -> (res: Self)
        ensures
            res == *self,
        decreases self,
    {
        match self {
            Expr::Bool(v) => Expr::Bool(*v),
            Expr::UnaryNot(sub) => Expr::UnaryNot(Box::new((**sub).clone())),
            Expr::Operation { lhs, op, rhs } => Expr::Operation {
                lhs: Box::new((**lhs).clone()),
                op: *op,
                rhs: Box::new((**rhs).clone()),
            },
        }
    }
}

/// The expression tree that resolving `t` against the tag set `tags` yields:
/// each tag reference becomes the truth of its membership in `tags`, and the
/// operators are kept in place.
pub open spec fn spec_resolve(t: QueryTreeView, tags: Seq<Seq<char>>) -> Expr
    decreases t,
{
    match t {
        QueryTreeView::Tag(name) => Expr::Bool(tags.contains(name)),
        QueryTreeView::Not(sub) => Expr::UnaryNot(Box::new(spec_resolve(*sub, tags))),
        QueryTreeView::Operation { lhs, op, rhs } => Expr::Operation {
            lhs: Box::new(spec_resolve(*lhs, tags)),
            op,
            rhs: Box::new(spec_resolve(*rhs, tags)),
        },
    }
}

/// The truth value of a resolved expression tree: a total structural
/// recursion with no error path.
pub open spec fn spec_eval(e: Expr) -> bool
    decreases e,
{
    match e {
        Expr::Bool(v) => v,
        Expr::UnaryNot(sub) => !spec_eval(*sub),
        Expr::Operation { lhs, op, rhs } => match op {
            Op::And => spec_eval(*lhs) && spec_eval(*rhs),
            Op::Or => spec_eval(*lhs) || spec_eval(*rhs),
        },
    }
}

/// Whether some string of `tags` reads as `name`.
fn contains_string(tags: &Vec<String>, name: &String) -> (b: bool)
    ensures
        b == string_views(tags@).contains(name@),
{
    let n = tags.len();
    let mut k: usize = 0;
    while k < n
        invariant
            k <= n,
            n == tags@.len(),
            forall|m: int| 0 <= m < k ==> tags@[m]@ != name@,
        decreases n - k,
    {
        if tags[k].eq(name) {
            proof {
                assert(string_views(tags@)[k as int] == name@);
            }
            return true;
        }
        k = k + 1;
    }
    proof {
        assert forall|m: int| 0 <= m < string_views(tags@).len() implies string_views(tags@)[m]
            != name@ by {
            assert(string_views(tags@)[m] == tags@[m]@);
        }
    }
    false
}

/// Creates an expression tree from a query parse tree and a list of tags:
/// the resolution that [`spec_resolve`] states. Resolving the same tree
/// against the same tags always yields the same expression tree.
pub fn construct_query_ast(tree: &QueryTree, tags: &Vec<String>) -> (e: Expr)
    ensures
        e == spec_resolve(tree@, string_views(tags@)),
    decreases *tree,
{
    match tree {
        QueryTree::Tag(name) => Expr::Bool(contains_string(tags, name)),
        QueryTree::Not(sub) => Expr::UnaryNot(Box::new(construct_query_ast(&**sub, tags))),
        QueryTree::Operation { lhs, op, rhs } => {
            let left = construct_query_ast(&**lhs, tags);
            let right = construct_query_ast(&**rhs, tags);
            Expr::Operation { lhs: Box::new(left), op: *op, rhs: Box::new(right) }
        },
    }
}

/// Evaluates an expression tree created by [`construct_query_ast`] and
/// returns the result. Both sides of an operation are always evaluated; no
/// branch is short-circuited.
pub fn evaluate_ast(ast: Expr) -> (b: bool)
    ensures
        b == spec_eval(ast),
    decreases ast,
{
    match ast {
        Expr::Bool(value) => value,
        Expr::UnaryNot(expr) => !evaluate_ast(*expr),
        Expr::Operation { lhs, op, rhs } => {
            let left = evaluate_ast(*lhs);
            let right = evaluate_ast(*rhs);
            match op {
                Op::And => left && right,
                Op::Or => left || right,
            }
        },
    }
}

/// Idempotence of resolution: resolving one parse tree against one tag set
/// twice yields structurally equal expression trees. [`construct_query_ast`]
/// returns exactly [`spec_resolve`] of its arguments, so two of its calls on
/// equal arguments return equal trees.
pub proof fn lemma_resolve_idempotent(t: QueryTreeView, tags: Seq<Seq<char>>, e1: Expr, e2: Expr)
    requires
        e1 == spec_resolve(t, tags),
        e2 == spec_resolve(t, tags),
    ensures
        e1 == e2,
{
}

} // verus!
