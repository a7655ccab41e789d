//! The tagline grammar.
//!
//! A tagged file declares its tags on its first line, in the fixed form
//! `tags: [#tag1 #tag2 ...]`: the literal keyword `tags:`, optional
//! whitespace, a bracketed list of zero or more tags, optional whitespace
//! between and around them, and nothing else on the line. A tag is `#`
//! followed by one or more identifier characters; `##` is invalid.
//!
//! [`spec_tagline`] states which lines are taglines and which tags they
//! declare; [`TaglineParser::parse`] is proved to return exactly that.
//! [`format_tagline`] writes a tag list back as a tagline, and
//! [`lemma_tagline_round_trip`] shows that parsing what it writes yields the
//! written tags again, in order.

use vstd::prelude::*;

use crate::text::{
    ident_end, is_space_char, is_tag_char, lemma_ident_end_run, scan_ident, skip_spaces, skip_ws,
};
use crate::{string_views, Expected, ParseError};

verus! {

/// The tags between a `[` and its `]`, read from position `i`, and the
/// position after the `]`. `None` where the text from `i` is not a
/// whitespace-separated list of tags closed by `]`.
pub open spec fn spec_tag_list(s: Seq<char>, i: int) -> Option<(Seq<Seq<char>>, int)>
    decreases s.len() - i,
{
    if !(0 <= i <= s.len()) {
        None
    } else {
        let j = skip_ws(s, i);
        if !(i <= j <= s.len()) {
            None
        } else if j < s.len() && s[j] == ']' {
            Some((Seq::empty(), j + 1))
        } else if j < s.len() && s[j] == '#' {
            let e = ident_end(s, j + 1);
            if j + 1 < e && e <= s.len() {
                match spec_tag_list(s, e) {
                    Some((rest, k)) => Some((seq![s.subrange(j, e)] + rest, k)),
                    None => None,
                }
            } else {
                None
            }
        } else {
            None
        }
    }
}

/// The tags that the line `s` declares, or `None` where `s` is not a
/// tagline: the keyword `tags:`, optional whitespace, a tag list in
/// brackets, optional trailing whitespace, and nothing more.
pub open spec fn spec_tagline(s: Seq<char>) -> Option<Seq<Seq<char>>> {
    if s.len() >= 5 && s.subrange(0, 5) == seq!['t', 'a', 'g', 's', ':'] {
        let i = skip_ws(s, 5);
        if 5 <= i < s.len() && s[i] == '[' {
            match spec_tag_list(s, i + 1) {
                Some((tags, k)) => if skip_ws(s, k) == s.len() {
                    Some(tags)
                } else {
                    None
                },
                None => None,
            }
        } else {
            None
        }
    } else {
        None
    }
}

/// `TaglineParser` is responsible for parsing the taglines at the start of
/// each searched file.
pub struct TaglineParser;

impl TaglineParser {
    /// Reads the tag list of a tagline from position `i` on, `]` included.
    fn parse_tags(s: &str, i: usize) -> (r: Result<(Vec<String>, usize), ParseError>)
        requires
            i <= s@.len(),
        ensures
            match r {
                Ok((tags, k)) => spec_tag_list(s@, i as int) == Some(
                    (string_views(tags@), k as int),
                ) && i <= k <= s@.len(),
                Err(_) => spec_tag_list(s@, i as int) is None,
            },
        decreases s@.len() - i,
    {
        let n = s.unicode_len();
        let j = skip_spaces(s, i);
        if j < n && s.get_char(j) == ']' {
            let tags: Vec<String> = Vec::new();
            proof {
                assert(string_views(tags@) =~= Seq::<Seq<char>>::empty());
            }
            return Ok((tags, j + 1));
        }
        if j < n && s.get_char(j) == '#' {
            let e = scan_ident(s, j + 1);
            if e == j + 1 {
                return Err(ParseError { pos: j, expected: Expected::Identifier });
            }
            let text = s.substring_char(j, e).to_owned();
            match Self::parse_tags(s, e) {
                Ok((mut tags, k)) => {
                    let ghost prev = tags@;
                    tags.insert(0, text);
                    proof {
                        assert(string_views(tags@) =~= seq![s@.subrange(j as int, e as int)]
                            + string_views(prev));
                    }
                    return Ok((tags, k));
                },
                Err(err) => {
                    return Err(err);
                },
            }
        }
        Err(ParseError { pos: j, expected: Expected::TagOrClose })
    }

    /// Parses one line. `Ok` holds the declared tags, in source order and
    /// without deduplication, exactly when [`spec_tagline`] reads the line as
    /// a tagline; any other line is a structural parse error.
    pub fn parse(line: &str) -> (r: Result<Vec<String>, ParseError>)
        ensures
            match r {
                Ok(tags) => spec_tagline(line@) == Some(string_views(tags@)),
                Err(_) => spec_tagline(line@) is None,
            },
    {
        let n = line.unicode_len();
        if n < 5 {
            return Err(ParseError { pos: 0, expected: Expected::Keyword });
        }
        if !(line.get_char(0) == 't' && line.get_char(1) == 'a' && line.get_char(2) == 'g'
            && line.get_char(3) == 's' && line.get_char(4) == ':') {
            proof {
                assert(line@.subrange(0, 5) != seq!['t', 'a', 'g', 's', ':']) by {
                    assert(line@.subrange(0, 5)[0] == line@[0]);
                    assert(line@.subrange(0, 5)[1] == line@[1]);
                    assert(line@.subrange(0, 5)[2] == line@[2]);
                    assert(line@.subrange(0, 5)[3] == line@[3]);
                    assert(line@.subrange(0, 5)[4] == line@[4]);
                }
            }
            return Err(ParseError { pos: 0, expected: Expected::Keyword });
        }
        proof {
            assert(line@.subrange(0, 5) =~= seq!['t', 'a', 'g', 's', ':']);
        }
        let i = skip_spaces(line, 5);
        if !(i < n && line.get_char(i) == '[') {
            return Err(ParseError { pos: i, expected: Expected::OpenBracket });
        }
        match Self::parse_tags(line, i + 1) {
            Ok((tags, k)) => {
                let end = skip_spaces(line, k);
                if end == n {
                    Ok(tags)
                } else {
                    Err(ParseError { pos: end, expected: Expected::EndOfInput })
                }
            },
            Err(e) => Err(e),
        }
    }
}

/// A well-formed tag text: `#` followed by one or more identifier
/// characters.
pub open spec fn valid_tag(t: Seq<char>) -> bool {
    t.len() >= 2 && t[0] == '#' && forall|k: int| 1 <= k < t.len() ==> is_tag_char(#[trigger] t[k])
}

/// The tag texts joined by single spaces.
pub open spec fn spec_join_tags(tags: Seq<Seq<char>>) -> Seq<char>
    decreases tags.len(),
{
    if tags.len() == 0 {
        Seq::empty()
    } else if tags.len() == 1 {
        tags[0]
    } else {
        tags[0] + seq![' '] + spec_join_tags(tags.skip(1))
    }
}

/// The canonical tagline that declares `tags`: the keyword, one space, and
/// the bracketed space-separated list.
pub open spec fn spec_format_tagline(tags: Seq<Seq<char>>) -> Seq<char> {
    seq!['t', 'a', 'g', 's', ':', ' ', '['] + spec_join_tags(tags) + seq![']']
}

/// Joins the tags from position `k` on by single spaces.
fn join_tags_from(tags: &Vec<String>, k: usize) -> (r: String)
    requires
        k <= tags@.len(),
    ensures
        r@ == spec_join_tags(string_views(tags@).skip(k as int)),
    decreases tags@.len() - k,
{
    let ghost vs = string_views(tags@);
    if k == tags.len() {
        let r = String::new();
        proof {
            assert(vs.skip(k as int) =~= Seq::<Seq<char>>::empty());
        }
        r
    } else if k + 1 == tags.len() {
        let r = tags[k].clone();
        proof {
            assert(vs.skip(k as int).len() == 1);
            assert(vs.skip(k as int)[0] == vs[k as int]);
        }
        r
    } else {
        let mut r = tags[k].clone();
        r.append(" ");
        let rest = join_tags_from(tags, k + 1);
        r.append(rest.as_str());
        proof {
            reveal_strlit(" ");
            assert(" "@ =~= seq![' ']);
            assert(vs.skip(k as int).len() >= 2);
            assert(vs.skip(k as int)[0] == vs[k as int]);
            assert(vs.skip(k as int).skip(1) =~= vs.skip(k as int + 1));
        }
        r
    }
}

/// Writes `tags` as the tagline `tags: [#tag1 #tag2 ...]`, the form that
/// [`spec_format_tagline`] states and [`TaglineParser::parse`] reads back.
pub fn format_tagline(tags: &Vec<String>) -> (r: String)
    ensures
        r@ == spec_format_tagline(string_views(tags@)),
{
    let mut r = String::from_str("tags: [");
    let joined = join_tags_from(tags, 0);
    r.append(joined.as_str());
    r.append("]");
    proof {
        reveal_strlit("tags: [");
        reveal_strlit("]");
        assert("tags: ["@ =~= seq!['t', 'a', 'g', 's', ':', ' ', '[']);
        assert("]"@ =~= seq![']']);
        assert(string_views(tags@).skip(0) =~= string_views(tags@));
    }
    r
}

/// Whitespace before a tag list does not change how it reads.
proof fn lemma_tag_list_skips_space(s: Seq<char>, i: int)
    requires
        0 <= i < s.len(),
        is_space_char(s[i]),
    ensures
        spec_tag_list(s, i) == spec_tag_list(s, i + 1),
{
    assert(skip_ws(s, i) == skip_ws(s, i + 1));
}

/// Parsing a joined tag list closed by `]` yields the joined tags and stops
/// at the end of the text.
proof fn lemma_tag_list_round_trip(s: Seq<char>, i: int, tags: Seq<Seq<char>>)
    requires
        0 <= i <= s.len(),
        forall|k: int| 0 <= k < tags.len() ==> valid_tag(#[trigger] tags[k]),
        s.subrange(i, s.len() as int) == spec_join_tags(tags) + seq![']'],
    ensures
        spec_tag_list(s, i) == Some((tags, s.len() as int)),
    decreases tags.len(),
{
    let suffix = s.subrange(i, s.len() as int);
    assert(suffix.len() == s.len() - i);
    assert(suffix.len() == spec_join_tags(tags).len() + 1);
    if tags.len() == 0 {
        assert(suffix[0] == s[i]);
        assert(suffix.len() == 1 && suffix[0] == ']');
        assert(skip_ws(s, i) == i);
        assert(s.len() == i + 1);
        assert(tags =~= Seq::<Seq<char>>::empty());
    } else {
        let t0 = tags[0];
        assert(valid_tag(t0));
        let m = t0.len() as int;
        let join = spec_join_tags(tags);
        assert(join.len() >= m);
        assert(forall|q: int| 0 <= q < m ==> join[q] == t0[q]);
        assert(suffix[0] == s[i]);
        assert(s[i] == '#');
        assert(skip_ws(s, i) == i);
        assert forall|q: int| i + 1 <= q < i + m implies is_tag_char(#[trigger] s[q]) by {
            assert(suffix[q - i] == s[q]);
            assert(suffix[q - i] == join[q - i]);
            assert(join[q - i] == t0[q - i]);
        }
        assert(suffix[m] == s[i + m]);
        if tags.len() == 1 {
            assert(s[i + m] == ']');
        } else {
            assert(join[m] == ' ');
            assert(s[i + m] == ' ');
        }
        assert(!is_tag_char(s[i + m]));
        lemma_ident_end_run(s, i + 1, i + m);
        assert(ident_end(s, i + 1) == i + m);
        assert forall|q: int| 0 <= q < m implies s.subrange(i, i + m)[q] == t0[q] by {
            assert(s.subrange(i, i + m)[q] == s[i + q]);
            assert(suffix[q] == s[i + q]);
            assert(suffix[q] == join[q]);
        }
        assert(s.subrange(i, i + m) =~= t0);
        let rest = tags.skip(1);
        assert forall|k: int| 0 <= k < rest.len() implies valid_tag(#[trigger] rest[k]) by {
            assert(rest[k] == tags[k + 1]);
        }
        if tags.len() == 1 {
            assert(s.len() == i + m + 1);
            assert(rest.len() == 0);
            assert forall|q: int|
                0 <= q < s.len() - (i + m) implies s.subrange(i + m, s.len() as int)[q] == (
            spec_join_tags(rest) + seq![']'])[q] by {
                assert(suffix[m + q] == s[i + m + q]);
            }
            assert(s.subrange(i + m, s.len() as int) =~= spec_join_tags(rest) + seq![']']);
            lemma_tag_list_round_trip(s, i + m, rest);
        } else {
            let join1 = spec_join_tags(rest);
            assert(join == t0 + seq![' '] + join1);
            assert(s.len() == i + m + 1 + join1.len() + 1);
            assert forall|q: int|
                0 <= q < join1.len() + 1 implies s.subrange(i + m + 1, s.len() as int)[q] == (join1
                + seq![']'])[q] by {
                assert(s.subrange(i + m + 1, s.len() as int)[q] == s[i + m + 1 + q]);
                assert(suffix[m + 1 + q] == s[i + m + 1 + q]);
                assert(suffix[m + 1 + q] == (join1 + seq![']'])[q]);
            }
            assert(s.subrange(i + m + 1, s.len() as int) =~= join1 + seq![']']);
            lemma_tag_list_round_trip(s, i + m + 1, rest);
            lemma_tag_list_skips_space(s, i + m);
        }
        assert(seq![t0] + rest =~= tags);
    }
}

/// The tagline round trip: a list of well-formed tags, written as a tagline
/// by [`spec_format_tagline`], reads back as the same list in the same
/// order.
pub proof fn lemma_tagline_round_trip(tags: Seq<Seq<char>>)
    requires
        forall|k: int| 0 <= k < tags.len() ==> valid_tag(#[trigger] tags[k]),
    ensures
        spec_tagline(spec_format_tagline(tags)) == Some(tags),
{
    let s = spec_format_tagline(tags);
    let header = seq!['t', 'a', 'g', 's', ':', ' ', '['];
    assert(forall|q: int| 0 <= q < 7 ==> s[q] == header[q]);
    assert(s.subrange(0, 5) =~= seq!['t', 'a', 'g', 's', ':']);
    assert(skip_ws(s, 6) == 6);
    assert(skip_ws(s, 5) == 6);
    assert(s.subrange(7, s.len() as int) =~= spec_join_tags(tags) + seq![']']);
    lemma_tag_list_round_trip(s, 7, tags);
    assert(skip_ws(s, s.len() as int) == s.len());
}

} // verus!
