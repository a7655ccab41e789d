//! Laws of the query engine, stated over whole query strings.
//!
//! Each law quantifies over every tag set and fixes a concrete query, so it
//! ties the grammar, the resolution and the evaluation together: the proofs
//! run the specification parser over the query text itself.

use vstd::prelude::*;

use crate::ast::{spec_eval, spec_resolve, Expr, Op};
use crate::query::{
    spec_expr, spec_expr_rest, spec_parse_query, spec_primary, spec_term, spec_tokenize,
    spec_tokenize_from, QueryTreeView, TokenView,
};
use crate::search::spec_matches;
use crate::text::ident_end;

verus! {

/// The tokens of the query `#a`.
proof fn lemma_tokenize_tag_a()
    ensures
        spec_tokenize("#a"@) == Some(seq![TokenView::Tag("#a"@)]),
{
    reveal_strlit("#a");
    let s = "#a"@;
    assert(spec_tokenize_from(s, 2) == Some(Seq::<TokenView>::empty()));
    assert(ident_end(s, 2) == 2);
    assert(ident_end(s, 1) == 2);
    assert(s.subrange(0, 2) =~= s);
    assert(seq![TokenView::Tag(s)] + Seq::<TokenView>::empty() =~= seq![TokenView::Tag(s)]);
    assert(spec_tokenize_from(s, 0) == Some(seq![TokenView::Tag(s)]));
}

/// The parse tree of the query `#a`: one tag reference.
proof fn lemma_parse_tag_a()
    ensures
        spec_parse_query("#a"@) == Some(QueryTreeView::Tag("#a"@)),
{
    lemma_tokenize_tag_a();
    let toks = seq![TokenView::Tag("#a"@)];
    let leaf = QueryTreeView::Tag("#a"@);
    assert(spec_primary(toks, 0) == Some((leaf, 1int)));
    assert(spec_term(toks, 0) == Some((leaf, 1int)));
    assert(spec_expr_rest(toks, 1, leaf) == Some((leaf, 1int)));
    assert(spec_expr(toks, 0) == Some((leaf, 1int)));
}

/// The tag-membership law: for every tag set, the query `#a` holds exactly
/// when the set contains the tag `#a`.
pub proof fn lemma_tag_membership_law(tags: Seq<Seq<char>>)
    ensures
        spec_parse_query("#a"@) matches Some(t) && spec_matches(t, tags) == tags.contains("#a"@),
{
    lemma_parse_tag_a();
}

/// The tokens of the query `!#a`.
proof fn lemma_tokenize_not_tag_a()
    ensures
        spec_tokenize("!#a"@) == Some(seq![TokenView::Not, TokenView::Tag("#a"@)]),
{
    reveal_strlit("!#a");
    reveal_strlit("#a");
    let s = "!#a"@;
    assert(spec_tokenize_from(s, 3) == Some(Seq::<TokenView>::empty()));
    assert(ident_end(s, 3) == 3);
    assert(ident_end(s, 2) == 3);
    assert(s.subrange(1, 3) =~= "#a"@);
    assert(seq![TokenView::Tag("#a"@)] + Seq::<TokenView>::empty() =~= seq![
        TokenView::Tag("#a"@),
    ]);
    assert(spec_tokenize_from(s, 1) == Some(seq![TokenView::Tag("#a"@)]));
    assert(seq![TokenView::Not] + seq![TokenView::Tag("#a"@)] =~= seq![
        TokenView::Not,
        TokenView::Tag("#a"@),
    ]);
    assert(spec_tokenize_from(s, 0) == Some(seq![TokenView::Not, TokenView::Tag("#a"@)]));
}

/// The parse tree of the query `!#a`: a negated tag reference.
proof fn lemma_parse_not_tag_a()
    ensures
        spec_parse_query("!#a"@) == Some(
            QueryTreeView::Not(Box::new(QueryTreeView::Tag("#a"@))),
        ),
{
    lemma_tokenize_not_tag_a();
    let toks = seq![TokenView::Not, TokenView::Tag("#a"@)];
    let leaf = QueryTreeView::Tag("#a"@);
    let tree = QueryTreeView::Not(Box::new(leaf));
    assert(spec_primary(toks, 1) == Some((leaf, 2int)));
    assert(spec_term(toks, 1) == Some((leaf, 2int)));
    assert(spec_term(toks, 0) == Some((tree, 2int)));
    assert(spec_expr_rest(toks, 2, tree) == Some((tree, 2int)));
    assert(spec_expr(toks, 0) == Some((tree, 2int)));
}

/// The negation law: for every tag set, the query `!#a` holds exactly when
/// the set does not contain the tag `#a`.
pub proof fn lemma_negation_law(tags: Seq<Seq<char>>)
    ensures
        spec_parse_query("!#a"@) matches Some(t) && spec_matches(t, tags) == !tags.contains(
            "#a"@,
        ),
{
    lemma_parse_not_tag_a();
    let leaf = QueryTreeView::Tag("#a"@);
    let tree = QueryTreeView::Not(Box::new(leaf));
    assert(spec_resolve(leaf, tags) == Expr::Bool(tags.contains("#a"@)));
    assert(spec_resolve(tree, tags) == Expr::UnaryNot(
        Box::new(Expr::Bool(tags.contains("#a"@))),
    ));
    assert(spec_eval(Expr::Bool(tags.contains("#a"@))) == tags.contains("#a"@));
    assert(spec_eval(spec_resolve(tree, tags)) == !tags.contains("#a"@));
}

/// The tokens of the query `#a & #b | #c`.
proof fn lemma_tokenize_chain()
    ensures
        spec_tokenize("#a & #b | #c"@) == Some(
            seq![
                TokenView::Tag("#a"@),
                TokenView::And,
                TokenView::Tag("#b"@),
                TokenView::Or,
                TokenView::Tag("#c"@),
            ],
        ),
{
    reveal_strlit("#a & #b | #c");
    reveal_strlit("#a");
    reveal_strlit("#b");
    reveal_strlit("#c");
    let s = "#a & #b | #c"@;
    let e0 = Seq::<TokenView>::empty();
    let r4 = seq![TokenView::Tag("#c"@)] + e0;
    let r3 = seq![TokenView::Or] + r4;
    let r2 = seq![TokenView::Tag("#b"@)] + r3;
    let r1 = seq![TokenView::And] + r2;
    let r0 = seq![TokenView::Tag("#a"@)] + r1;
    assert(spec_tokenize_from(s, 12) == Some(e0));
    assert(ident_end(s, 12) == 12);
    assert(ident_end(s, 11) == 12);
    assert(s.subrange(10, 12) =~= "#c"@);
    assert(spec_tokenize_from(s, 10) == Some(r4));
    assert(spec_tokenize_from(s, 9) == Some(r4));
    assert(spec_tokenize_from(s, 8) == Some(r3));
    assert(spec_tokenize_from(s, 7) == Some(r3));
    assert(ident_end(s, 7) == 7);
    assert(ident_end(s, 6) == 7);
    assert(s.subrange(5, 7) =~= "#b"@);
    assert(spec_tokenize_from(s, 5) == Some(r2));
    assert(spec_tokenize_from(s, 4) == Some(r2));
    assert(spec_tokenize_from(s, 3) == Some(r1));
    assert(spec_tokenize_from(s, 2) == Some(r1));
    assert(ident_end(s, 2) == 2);
    assert(ident_end(s, 1) == 2);
    assert(s.subrange(0, 2) =~= "#a"@);
    assert(spec_tokenize_from(s, 0) == Some(r0));
    assert(r0 =~= seq![
        TokenView::Tag("#a"@),
        TokenView::And,
        TokenView::Tag("#b"@),
        TokenView::Or,
        TokenView::Tag("#c"@),
    ]);
}

/// The parse tree of `#a & #b | #c`: the operators share one precedence
/// level and group left to right, `(#a & #b) | #c`.
proof fn lemma_parse_chain()
    ensures
        spec_parse_query("#a & #b | #c"@) == Some(
            QueryTreeView::Operation {
                lhs: Box::new(
                    QueryTreeView::Operation {
                        lhs: Box::new(QueryTreeView::Tag("#a"@)),
                        op: Op::And,
                        rhs: Box::new(QueryTreeView::Tag("#b"@)),
                    },
                ),
                op: Op::Or,
                rhs: Box::new(QueryTreeView::Tag("#c"@)),
            },
        ),
{
    lemma_tokenize_chain();
    let toks = seq![
        TokenView::Tag("#a"@),
        TokenView::And,
        TokenView::Tag("#b"@),
        TokenView::Or,
        TokenView::Tag("#c"@),
    ];
    let a = QueryTreeView::Tag("#a"@);
    let b = QueryTreeView::Tag("#b"@);
    let c = QueryTreeView::Tag("#c"@);
    let ab = QueryTreeView::Operation { lhs: Box::new(a), op: Op::And, rhs: Box::new(b) };
    let abc = QueryTreeView::Operation { lhs: Box::new(ab), op: Op::Or, rhs: Box::new(c) };
    assert(spec_primary(toks, 0) == Some((a, 1int)));
    assert(spec_term(toks, 0) == Some((a, 1int)));
    assert(spec_primary(toks, 2) == Some((b, 3int)));
    assert(spec_term(toks, 2) == Some((b, 3int)));
    assert(spec_primary(toks, 4) == Some((c, 5int)));
    assert(spec_term(toks, 4) == Some((c, 5int)));
    assert(spec_expr_rest(toks, 5, abc) == Some((abc, 5int)));
    assert(spec_expr_rest(toks, 3, ab) == Some((abc, 5int)));
    assert(spec_expr_rest(toks, 1, a) == Some((abc, 5int)));
    assert(spec_expr(toks, 0) == Some((abc, 5int)));
}

/// The tokens of the query `(#a & #b) | #c`.
proof fn lemma_tokenize_grouped()
    ensures
        spec_tokenize("(#a & #b) | #c"@) == Some(
            seq![
                TokenView::LParen,
                TokenView::Tag("#a"@),
                TokenView::And,
                TokenView::Tag("#b"@),
                TokenView::RParen,
                TokenView::Or,
                TokenView::Tag("#c"@),
            ],
        ),
{
    reveal_strlit("(#a & #b) | #c");
    reveal_strlit("#a");
    reveal_strlit("#b");
    reveal_strlit("#c");
    let s = "(#a & #b) | #c"@;
    let e0 = Seq::<TokenView>::empty();
    let r6 = seq![TokenView::Tag("#c"@)] + e0;
    let r5 = seq![TokenView::Or] + r6;
    let r4 = seq![TokenView::RParen] + r5;
    let r3 = seq![TokenView::Tag("#b"@)] + r4;
    let r2 = seq![TokenView::And] + r3;
    let r1 = seq![TokenView::Tag("#a"@)] + r2;
    let r0 = seq![TokenView::LParen] + r1;
    assert(spec_tokenize_from(s, 14) == Some(e0));
    assert(ident_end(s, 14) == 14);
    assert(ident_end(s, 13) == 14);
    assert(s.subrange(12, 14) =~= "#c"@);
    assert(spec_tokenize_from(s, 12) == Some(r6));
    assert(spec_tokenize_from(s, 11) == Some(r6));
    assert(spec_tokenize_from(s, 10) == Some(r5));
    assert(spec_tokenize_from(s, 9) == Some(r5));
    assert(spec_tokenize_from(s, 8) == Some(r4));
    assert(ident_end(s, 8) == 8);
    assert(ident_end(s, 7) == 8);
    assert(s.subrange(6, 8) =~= "#b"@);
    assert(spec_tokenize_from(s, 6) == Some(r3));
    assert(spec_tokenize_from(s, 5) == Some(r3));
    assert(spec_tokenize_from(s, 4) == Some(r2));
    assert(spec_tokenize_from(s, 3) == Some(r2));
    assert(ident_end(s, 3) == 3);
    assert(ident_end(s, 2) == 3);
    assert(s.subrange(1, 3) =~= "#a"@);
    assert(spec_tokenize_from(s, 1) == Some(r1));
    assert(spec_tokenize_from(s, 0) == Some(r0));
    assert(r0 =~= seq![
        TokenView::LParen,
        TokenView::Tag("#a"@),
        TokenView::And,
        TokenView::Tag("#b"@),
        TokenView::RParen,
        TokenView::Or,
        TokenView::Tag("#c"@),
    ]);
}

/// The parse tree of `(#a & #b) | #c`: the same tree as `#a & #b | #c`.
proof fn lemma_parse_grouped()
    ensures
        spec_parse_query("(#a & #b) | #c"@) == Some(
            QueryTreeView::Operation {
                lhs: Box::new(
                    QueryTreeView::Operation {
                        lhs: Box::new(QueryTreeView::Tag("#a"@)),
                        op: Op::And,
                        rhs: Box::new(QueryTreeView::Tag("#b"@)),
                    },
                ),
                op: Op::Or,
                rhs: Box::new(QueryTreeView::Tag("#c"@)),
            },
        ),
{
    lemma_tokenize_grouped();
    let toks = seq![
        TokenView::LParen,
        TokenView::Tag("#a"@),
        TokenView::And,
        TokenView::Tag("#b"@),
        TokenView::RParen,
        TokenView::Or,
        TokenView::Tag("#c"@),
    ];
    let a = QueryTreeView::Tag("#a"@);
    let b = QueryTreeView::Tag("#b"@);
    let c = QueryTreeView::Tag("#c"@);
    let ab = QueryTreeView::Operation { lhs: Box::new(a), op: Op::And, rhs: Box::new(b) };
    let abc = QueryTreeView::Operation { lhs: Box::new(ab), op: Op::Or, rhs: Box::new(c) };
    assert(spec_primary(toks, 1) == Some((a, 2int)));
    assert(spec_term(toks, 1) == Some((a, 2int)));
    assert(spec_primary(toks, 3) == Some((b, 4int)));
    assert(spec_term(toks, 3) == Some((b, 4int)));
    assert(spec_expr_rest(toks, 4, ab) == Some((ab, 4int)));
    assert(spec_expr_rest(toks, 2, a) == Some((ab, 4int)));
    assert(spec_expr(toks, 1) == Some((ab, 4int)));
    assert(spec_primary(toks, 0) == Some((ab, 5int)));
    assert(spec_term(toks, 0) == Some((ab, 5int)));
    assert(spec_primary(toks, 6) == Some((c, 7int)));
    assert(spec_term(toks, 6) == Some((c, 7int)));
    assert(spec_expr_rest(toks, 7, abc) == Some((abc, 7int)));
    assert(spec_expr_rest(toks, 5, ab) == Some((abc, 7int)));
    assert(spec_expr(toks, 0) == Some((abc, 7int)));
}

/// The grouping law, first half: for every tag set, the query
/// `#a & #b | #c` and the query `(#a & #b) | #c` agree, because the chained
/// operators group left to right.
pub proof fn lemma_grouping_law(tags: Seq<Seq<char>>)
    ensures
        spec_parse_query("#a & #b | #c"@) matches Some(t1) && spec_parse_query(
            "(#a & #b) | #c"@,
        ) matches Some(t2) && spec_matches(t1, tags) == spec_matches(t2, tags),
{
    lemma_parse_chain();
    lemma_parse_grouped();
}

/// The tokens of the query `#a & (#b | #c)`.
proof fn lemma_tokenize_right_grouped()
    ensures
        spec_tokenize("#a & (#b | #c)"@) == Some(
            seq![
                TokenView::Tag("#a"@),
                TokenView::And,
                TokenView::LParen,
                TokenView::Tag("#b"@),
                TokenView::Or,
                TokenView::Tag("#c"@),
                TokenView::RParen,
            ],
        ),
{
    reveal_strlit("#a & (#b | #c)");
    reveal_strlit("#a");
    reveal_strlit("#b");
    reveal_strlit("#c");
    let s = "#a & (#b | #c)"@;
    let e0 = Seq::<TokenView>::empty();
    let r6 = seq![TokenView::RParen] + e0;
    let r5 = seq![TokenView::Tag("#c"@)] + r6;
    let r4 = seq![TokenView::Or] + r5;
    let r3 = seq![TokenView::Tag("#b"@)] + r4;
    let r2 = seq![TokenView::LParen] + r3;
    let r1 = seq![TokenView::And] + r2;
    let r0 = seq![TokenView::Tag("#a"@)] + r1;
    assert(spec_tokenize_from(s, 14) == Some(e0));
    assert(spec_tokenize_from(s, 13) == Some(r6));
    assert(ident_end(s, 13) == 13);
    assert(ident_end(s, 12) == 13);
    assert(s.subrange(11, 13) =~= "#c"@);
    assert(spec_tokenize_from(s, 11) == Some(r5));
    assert(spec_tokenize_from(s, 10) == Some(r5));
    assert(spec_tokenize_from(s, 9) == Some(r4));
    assert(spec_tokenize_from(s, 8) == Some(r4));
    assert(ident_end(s, 8) == 8);
    assert(ident_end(s, 7) == 8);
    assert(s.subrange(6, 8) =~= "#b"@);
    assert(spec_tokenize_from(s, 6) == Some(r3));
    assert(spec_tokenize_from(s, 5) == Some(r2));
    assert(spec_tokenize_from(s, 4) == Some(r2));
    assert(spec_tokenize_from(s, 3) == Some(r1));
    assert(spec_tokenize_from(s, 2) == Some(r1));
    assert(ident_end(s, 2) == 2);
    assert(ident_end(s, 1) == 2);
    assert(s.subrange(0, 2) =~= "#a"@);
    assert(spec_tokenize_from(s, 0) == Some(r0));
    assert(r0 =~= seq![
        TokenView::Tag("#a"@),
        TokenView::And,
        TokenView::LParen,
        TokenView::Tag("#b"@),
        TokenView::Or,
        TokenView::Tag("#c"@),
        TokenView::RParen,
    ]);
}

/// The parse tree of `#a & (#b | #c)`: the parentheses force the grouping
/// that the bare chain does not have.
proof fn lemma_parse_right_grouped()
    ensures
        spec_parse_query("#a & (#b | #c)"@) == Some(
            QueryTreeView::Operation {
                lhs: Box::new(QueryTreeView::Tag("#a"@)),
                op: Op::And,
                rhs: Box::new(
                    QueryTreeView::Operation {
                        lhs: Box::new(QueryTreeView::Tag("#b"@)),
                        op: Op::Or,
                        rhs: Box::new(QueryTreeView::Tag("#c"@)),
                    },
                ),
            },
        ),
{
    lemma_tokenize_right_grouped();
    let toks = seq![
        TokenView::Tag("#a"@),
        TokenView::And,
        TokenView::LParen,
        TokenView::Tag("#b"@),
        TokenView::Or,
        TokenView::Tag("#c"@),
        TokenView::RParen,
    ];
    let a = QueryTreeView::Tag("#a"@);
    let b = QueryTreeView::Tag("#b"@);
    let c = QueryTreeView::Tag("#c"@);
    let bc = QueryTreeView::Operation { lhs: Box::new(b), op: Op::Or, rhs: Box::new(c) };
    let abc = QueryTreeView::Operation { lhs: Box::new(a), op: Op::And, rhs: Box::new(bc) };
    assert(spec_primary(toks, 3) == Some((b, 4int)));
    assert(spec_term(toks, 3) == Some((b, 4int)));
    assert(spec_primary(toks, 5) == Some((c, 6int)));
    assert(spec_term(toks, 5) == Some((c, 6int)));
    assert(spec_expr_rest(toks, 6, bc) == Some((bc, 6int)));
    assert(spec_expr_rest(toks, 4, b) == Some((bc, 6int)));
    assert(spec_expr(toks, 3) == Some((bc, 6int)));
    assert(spec_primary(toks, 2) == Some((bc, 7int)));
    assert(spec_term(toks, 2) == Some((bc, 7int)));
    assert(spec_expr_rest(toks, 7, abc) == Some((abc, 7int)));
    assert(spec_expr_rest(toks, 1, a) == Some((abc, 7int)));
    assert(spec_primary(toks, 0) == Some((a, 1int)));
    assert(spec_term(toks, 0) == Some((a, 1int)));
    assert(spec_expr(toks, 0) == Some((abc, 7int)));
}

/// The grouping law, second half: `#a & #b | #c` differs in general from
/// `#a & (#b | #c)`. The tag set holding `#c` alone tells them apart.
pub proof fn lemma_grouping_differs()
    ensures
        spec_parse_query("#a & #b | #c"@) matches Some(t1) && spec_parse_query(
            "#a & (#b | #c)"@,
        ) matches Some(t3) && exists|tags: Seq<Seq<char>>|
            spec_matches(t1, tags) != spec_matches(t3, tags),
{
    lemma_parse_chain();
    lemma_parse_right_grouped();
    reveal_strlit("#a");
    reveal_strlit("#b");
    reveal_strlit("#c");
    let a = QueryTreeView::Tag("#a"@);
    let b = QueryTreeView::Tag("#b"@);
    let c = QueryTreeView::Tag("#c"@);
    let ab = QueryTreeView::Operation { lhs: Box::new(a), op: Op::And, rhs: Box::new(b) };
    let t1 = QueryTreeView::Operation { lhs: Box::new(ab), op: Op::Or, rhs: Box::new(c) };
    let bc = QueryTreeView::Operation { lhs: Box::new(b), op: Op::Or, rhs: Box::new(c) };
    let t3 = QueryTreeView::Operation { lhs: Box::new(a), op: Op::And, rhs: Box::new(bc) };
    let w = seq!["#c"@];
    assert(w[0] == "#c"@);
    assert(w.contains("#c"@));
    assert("#a"@[1] != "#c"@[1]);
    assert(!w.contains("#a"@)) by {
        assert forall|i: int| 0 <= i < w.len() implies w[i] != "#a"@ by {
            assert(w[i] == "#c"@);
        }
    }
    assert("#b"@[1] != "#c"@[1]);
    assert(!w.contains("#b"@)) by {
        assert forall|i: int| 0 <= i < w.len() implies w[i] != "#b"@ by {
            assert(w[i] == "#c"@);
        }
    }
    assert(spec_resolve(a, w) == Expr::Bool(false));
    assert(spec_resolve(b, w) == Expr::Bool(false));
    assert(spec_resolve(c, w) == Expr::Bool(true));
    assert(spec_eval(Expr::Bool(false)) == false);
    assert(spec_eval(Expr::Bool(true)) == true);
    let e_ab = Expr::Operation {
        lhs: Box::new(Expr::Bool(false)),
        op: Op::And,
        rhs: Box::new(Expr::Bool(false)),
    };
    let e_bc = Expr::Operation {
        lhs: Box::new(Expr::Bool(false)),
        op: Op::Or,
        rhs: Box::new(Expr::Bool(true)),
    };
    assert(spec_resolve(ab, w) == e_ab);
    assert(spec_resolve(bc, w) == e_bc);
    assert(spec_eval(e_ab) == false);
    assert(spec_eval(e_bc) == true);
    assert(spec_resolve(t1, w) == Expr::Operation {
        lhs: Box::new(e_ab),
        op: Op::Or,
        rhs: Box::new(Expr::Bool(true)),
    });
    assert(spec_resolve(t3, w) == Expr::Operation {
        lhs: Box::new(Expr::Bool(false)),
        op: Op::And,
        rhs: Box::new(e_bc),
    });
    assert(spec_eval(spec_resolve(t1, w)) == true);
    assert(spec_eval(spec_resolve(t3, w)) == false);
    assert(spec_matches(t1, w) != spec_matches(t3, w));
}

} // verus!
