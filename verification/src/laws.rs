//! Laws of the library, stated and proved once for all inputs: how the
//! parser treats sigil-free input, that parsing inverts the canonical
//! serialization of a query, and that a forwarding cycle always ends in
//! `TooManyForward`.

use crate::engine::NodeView;
use crate::parse::{
    blank_end, finish, ident_end, lemma_blank_end, lemma_nonblank_end, ltrim,
    mention_at, mention_rest, nonblank_end, parse_from, parse_spec, rtrim, trim_blanks, Acc,
};
use crate::query::{mention_head_spec, QueryView};
use crate::reaction::{ErrView, VerbView};
use crate::registry::{get_node, RegView};
use crate::unicode::{
    is_blank, is_id_continue, is_id_start, is_mention_sigil, is_path_sep, is_scope_sigil, is_sigil,
};
use crate::{resolve_spec, rewrite_query, run_loop, MAX_FORWARD_DEPTH};
use vstd::prelude::*;

verus! {

// ---------------------------------------------------------------------
// Trim algebra.
// ---------------------------------------------------------------------
proof fn lemma_rtrim_all_blank(s: Seq<char>)
    requires
        forall|j: int| 0 <= j < s.len() ==> is_blank(s[j]),
    ensures
        rtrim(s) == Seq::<char>::empty(),
    decreases s.len(),
{
    if s.len() > 0 {
        assert(is_blank(s.last()));
        lemma_rtrim_all_blank(s.drop_last());
    } else {
        assert(s =~= Seq::<char>::empty());
    }
}

/// Dropping a blank prefix does not change the trimmed string.
proof fn lemma_trim_skip_blanks(s: Seq<char>, b: int)
    requires
        0 <= b <= s.len(),
        forall|j: int| 0 <= j < b ==> is_blank(s[j]),
    ensures
        trim_blanks(s.skip(b)) == trim_blanks(s),
    decreases s.len(),
{
    if s.len() > 0 && is_blank(s.last()) {
        if b == s.len() {
            lemma_rtrim_all_blank(s);
            lemma_rtrim_all_blank(s.skip(b));
        } else {
            assert(s.skip(b).last() == s.last());
            assert(s.skip(b).drop_last() =~= s.drop_last().skip(b));
            lemma_trim_skip_blanks(s.drop_last(), b);
        }
    } else {
        // The last character is non-blank (or `s` is empty), so `rtrim`
        // keeps both strings whole; peel the blank prefix with `ltrim`.
        assert(rtrim(s) == s);
        if s.len() == 0 {
            assert(s.skip(b) =~= s);
        } else {
            assert(b < s.len());
            assert(s.skip(b).last() == s.last());
            assert(rtrim(s.skip(b)) == s.skip(b));
        }
        crate::parse::lemma_ltrim_blank_prefix(s, b);
    }
}

// ---------------------------------------------------------------------
// Parsing sigil-free input.
// ---------------------------------------------------------------------
/// Scanning a sigil-free suffix only gathers content: the rest of the
/// string when the scan is already inside content, and the rest after
/// the leading blank run otherwise.
proof fn lemma_parse_from_no_sigils(s: Seq<char>, i: int, acc: Acc)
    requires
        0 <= i <= s.len(),
        forall|j: int| i <= j < s.len() ==> !is_sigil(s[j]),
    ensures
        parse_from(s, i, acc) == Some(
            finish(
                Acc {
                    mention: acc.mention,
                    scope: acc.scope,
                    content: acc.content + (if acc.in_content {
                        s.skip(i)
                    } else {
                        s.skip(blank_end(s, i))
                    }),
                    in_content: acc.in_content,
                },
            ),
        ),
    decreases s.len() - i,
{
    lemma_blank_end(s, i);
    if i == s.len() {
        assert(s.skip(i) =~= Seq::<char>::empty());
        assert(acc.content + Seq::<char>::empty() =~= acc.content);
    } else {
        let c = s[i];
        assert(!is_mention_sigil(c) && !is_scope_sigil(c));
        if is_blank(c) {
            let j = blank_end(s, i);
            lemma_parse_from_no_sigils(
                s,
                j,
                Acc {
                    mention: acc.mention,
                    scope: acc.scope,
                    content: if acc.in_content {
                        acc.content + s.subrange(i, j)
                    } else {
                        acc.content
                    },
                    in_content: acc.in_content,
                },
            );
            if acc.in_content {
                assert(acc.content + s.subrange(i, j) + s.skip(j) =~= acc.content + s.skip(i));
            } else {
                assert(blank_end(s, j) == j);
            }
        } else {
            let j = nonblank_end(s, i);
            lemma_nonblank_end(s, i);
            lemma_parse_from_no_sigils(
                s,
                j,
                Acc {
                    mention: acc.mention,
                    scope: acc.scope,
                    content: acc.content + s.subrange(i, j),
                    in_content: true,
                },
            );
            assert(acc.content + s.subrange(i, j) + s.skip(j) =~= acc.content + s.skip(i));
            assert(blank_end(s, i) == i);
        }
    }
}

/// An input with no mention and no scope sigil parses to a query with an
/// empty mention path, no scope, and the trimmed input as its content.
pub proof fn lemma_parse_no_sigils(s: Seq<char>)
    requires
        forall|j: int| 0 <= j < s.len() ==> !is_sigil(s[j]),
    ensures
        parse_spec(s) == Some(
            QueryView { mention: Seq::empty(), content: trim_blanks(s), scope: None },
        ),
{
    let acc = Acc { mention: None, scope: None, content: Seq::empty(), in_content: false };
    lemma_parse_from_no_sigils(s, 0, acc);
    lemma_blank_end(s, 0);
    let b = blank_end(s, 0);
    assert(Seq::<char>::empty() + s.skip(b) =~= s.skip(b));
    lemma_trim_skip_blanks(s, b);
}

// ---------------------------------------------------------------------
// Parsing inverts the canonical serialization.
// ---------------------------------------------------------------------
/// A string the mention grammar accepts as one segment: a non-empty
/// identifier.
pub open spec fn identifier_shaped(seg: Seq<char>) -> bool {
    &&& seg.len() > 0
    &&& is_id_start(seg[0])
    &&& forall|j: int| 1 <= j < seg.len() ==> is_id_continue(seg[j])
}

/// The mention path joined with `.` between consecutive segments.
pub open spec fn join_dots(m: Seq<Seq<char>>) -> Seq<char>
    decreases m.len(),
{
    if m.len() == 0 {
        Seq::empty()
    } else if m.len() == 1 {
        m[0]
    } else {
        m[0] + seq!['.'] + join_dots(m.skip(1))
    }
}

/// The segments each prefixed with a `.`, as they follow the first
/// segment of a mention.
pub open spec fn dots_prefixed(m: Seq<Seq<char>>) -> Seq<char>
    decreases m.len(),
{
    if m.len() == 0 {
        Seq::empty()
    } else {
        seq!['.'] + m[0] + dots_prefixed(m.skip(1))
    }
}

/// The canonical re-serialization of a query: the mention path joined
/// with `.` and prefixed with `@`, then a space and the content. An
/// empty mention or empty content drops its part.
pub open spec fn canonical_spec(q: QueryView) -> Seq<char> {
    if q.mention.len() == 0 {
        q.content
    } else if q.content.len() == 0 {
        seq!['@'] + join_dots(q.mention)
    } else {
        seq!['@'] + join_dots(q.mention) + seq![' '] + q.content
    }
}

/// What may follow a complete mention: the end of the input, or a
/// character that neither continues an identifier nor opens another
/// `.`-separated segment.
pub open spec fn mention_terminator(s: Seq<char>, end: int) -> bool {
    end == s.len() || (!is_id_continue(s[end]) && !(is_path_sep(s[end]) && end + 1 < s.len()
        && is_id_start(s[end + 1])))
}

proof fn lemma_subrange_index(s: Seq<char>, i: int, t: Seq<char>, j: int)
    requires
        0 <= i,
        i + t.len() <= s.len(),
        s.subrange(i, i + t.len() as int) == t,
        0 <= j < t.len(),
    ensures
        s[i + j] == t[j],
{
    assert(s.subrange(i, i + t.len() as int)[j] == s[i + j]);
}

proof fn lemma_ident_end_exact(s: Seq<char>, i: int, e: int)
    requires
        0 <= i <= e <= s.len(),
        forall|j: int| i <= j < e ==> is_id_continue(s[j]),
        e == s.len() || !is_id_continue(s[e]),
    ensures
        ident_end(s, i) == e,
    decreases e - i,
{
    if i < e {
        lemma_ident_end_exact(s, i + 1, e);
    }
}

proof fn lemma_join_dots_decomp(m: Seq<Seq<char>>)
    requires
        m.len() >= 1,
    ensures
        join_dots(m) == m[0] + dots_prefixed(m.skip(1)),
    decreases m.len(),
{
    if m.len() == 1 {
        assert(m.skip(1) =~= Seq::<Seq<char>>::empty());
        assert(m[0] + dots_prefixed(m.skip(1)) =~= m[0]);
    } else {
        lemma_join_dots_decomp(m.skip(1));
        assert(m.skip(1)[0] == m[1]);
        assert(m.skip(1).skip(1) =~= m.skip(2));
        assert(m[0] + seq!['.'] + (m[1] + dots_prefixed(m.skip(2))) =~= m[0] + (seq!['.'] + m[1]
            + dots_prefixed(m.skip(2))));
    }
}

proof fn lemma_mention_rest_roundtrip(
    s: Seq<char>,
    i: int,
    acc: Seq<Seq<char>>,
    rest: Seq<Seq<char>>,
)
    requires
        0 <= i,
        i + dots_prefixed(rest).len() <= s.len(),
        forall|k: int| 0 <= k < rest.len() ==> identifier_shaped(#[trigger] rest[k]),
        s.subrange(i, i + dots_prefixed(rest).len()) == dots_prefixed(rest),
        mention_terminator(s, i + dots_prefixed(rest).len()),
    ensures
        mention_rest(s, i, acc) == (acc + rest, i + dots_prefixed(rest).len()),
    decreases rest.len(),
{
    let dp = dots_prefixed(rest);
    let end = i + dp.len();
    if rest.len() == 0 {
        assert(acc + rest =~= acc);
    } else {
        let seg = rest[0];
        let tail = dots_prefixed(rest.skip(1));
        assert(dp == seq!['.'] + seg + tail);
        assert(dp.len() == 1 + seg.len() + tail.len());
        lemma_subrange_index(s, i, dp, 0);
        assert(s[i] == '.');
        assert(identifier_shaped(seg));
        lemma_subrange_index(s, i, dp, 1);
        assert(s[i + 1] == seg[0]);
        let e = i + 1 + seg.len() as int;
        assert forall|j: int| i + 2 <= j < e implies is_id_continue(s[j]) by {
            lemma_subrange_index(s, i, dp, j - i);
            assert(dp[j - i] == seg[j - i - 1]);
        }
        assert(e == s.len() || !is_id_continue(s[e])) by {
            if e < s.len() {
                if rest.len() > 1 {
                    assert(tail[0] == '.');
                    lemma_subrange_index(s, i, dp, e - i);
                    assert(dp[e - i] == tail[0]);
                } else {
                    assert(tail =~= Seq::<char>::empty());
                    assert(e == end);
                }
            }
        }
        lemma_ident_end_exact(s, i + 2, e);
        assert(s.subrange(i + 1, e) =~= seg) by {
            assert forall|j: int| 0 <= j < seg.len() implies s.subrange(i + 1, e)[j] == seg[j] by {
                lemma_subrange_index(s, i, dp, 1 + j);
                assert(dp[1 + j] == seg[j]);
            }
        }
        assert(s.subrange(e, e + tail.len() as int) =~= tail) by {
            assert forall|j: int| 0 <= j < tail.len() implies s.subrange(e, e + tail.len() as int)[
                j
            ] == tail[j] by {
                lemma_subrange_index(s, i, dp, (e - i) + j);
                assert(dp[(e - i) + j] == tail[j]);
            }
        }
        assert forall|k: int| 0 <= k < rest.skip(1).len() implies identifier_shaped(
            #[trigger] rest.skip(1)[k],
        ) by {
            assert(rest.skip(1)[k] == rest[k + 1]);
        }
        lemma_mention_rest_roundtrip(s, e, acc.push(seg), rest.skip(1));
        assert(acc.push(seg) + rest.skip(1) =~= acc + rest);
    }
}

proof fn lemma_mention_roundtrip(s: Seq<char>, i: int, m: Seq<Seq<char>>)
    requires
        0 <= i,
        m.len() >= 1,
        i + join_dots(m).len() <= s.len(),
        forall|k: int| 0 <= k < m.len() ==> identifier_shaped(#[trigger] m[k]),
        s.subrange(i, i + join_dots(m).len()) == join_dots(m),
        mention_terminator(s, i + join_dots(m).len()),
    ensures
        mention_at(s, i) == Some((m, i + join_dots(m).len())),
{
    let jd = join_dots(m);
    let end: int = i + jd.len() as int;
    lemma_join_dots_decomp(m);
    let seg = m[0];
    let tail = dots_prefixed(m.skip(1));
    assert(jd == seg + tail);
    assert(identifier_shaped(seg));
    lemma_subrange_index(s, i, jd, 0);
    assert(s[i] == seg[0]);
    let e = i + seg.len() as int;
    assert forall|j: int| i + 1 <= j < e implies is_id_continue(s[j]) by {
        lemma_subrange_index(s, i, jd, j - i);
        assert(jd[j - i] == seg[j - i]);
    }
    assert(e == s.len() || !is_id_continue(s[e])) by {
        if e < s.len() {
            if m.len() > 1 {
                assert(tail[0] == '.');
                lemma_subrange_index(s, i, jd, e - i);
                assert(jd[e - i] == tail[0]);
            } else {
                assert(tail =~= Seq::<char>::empty());
                assert(e == end);
            }
        }
    }
    lemma_ident_end_exact(s, i + 1, e);
    assert(s.subrange(i, e) =~= seg) by {
        assert forall|j: int| 0 <= j < seg.len() implies s.subrange(i, e)[j] == seg[j] by {
            lemma_subrange_index(s, i, jd, j);
        }
    }
    assert(s.subrange(e, e + tail.len() as int) =~= tail) by {
        assert forall|j: int| 0 <= j < tail.len() implies s.subrange(e, e + tail.len() as int)[j]
            == tail[j] by {
            lemma_subrange_index(s, i, jd, (e - i) + j);
            assert(jd[(e - i) + j] == tail[j]);
        }
    }
    assert forall|k: int| 0 <= k < m.skip(1).len() implies identifier_shaped(
        #[trigger] m.skip(1)[k],
    ) by {
        assert(m.skip(1)[k] == m[k + 1]);
    }
    lemma_mention_rest_roundtrip(s, e, seq![seg], m.skip(1));
    assert(seq![seg] + m.skip(1) =~= m);
}

/// Parsing is idempotent on its own output: parsing the canonical
/// re-serialization of a resolved query yields an equal query. The
/// query must be one the parser could have produced: identifier-shaped
/// mention segments, content that is trimmed and free of sigils, and no
/// scope, since the canonical form carries none.
pub proof fn lemma_parse_canonical(q: QueryView)
    requires
        q.scope is None,
        forall|k: int| 0 <= k < q.mention.len() ==> identifier_shaped(#[trigger] q.mention[k]),
        forall|j: int| 0 <= j < q.content.len() ==> !is_sigil(q.content[j]),
        q.content.len() > 0 ==> !is_blank(q.content[0]) && !is_blank(
            q.content[q.content.len() - 1],
        ),
    ensures
        parse_spec(canonical_spec(q)) == Some(q),
{
    let s = canonical_spec(q);
    let acc0 = Acc { mention: None, scope: None, content: Seq::empty(), in_content: false };
    if q.mention.len() == 0 {
        assert forall|j: int| 0 <= j < s.len() implies !is_sigil(s[j]) by {}
        lemma_parse_no_sigils(s);
        if q.content.len() > 0 {
            assert(!is_blank(s.last()));
        }
        assert(rtrim(s) == s);
        assert(ltrim(s) == s);
        assert(QueryView { mention: Seq::empty(), content: trim_blanks(s), scope: None } =~= q);
    } else {
        let m = q.mention;
        let jd = join_dots(m);
        let end: int = 1 + jd.len() as int;
        // Character layout of the serialization.
        assert(s[0] == '@');
        assert(is_mention_sigil(s[0]));
        assert(s.subrange(1, end) =~= jd) by {
            assert forall|j: int| 0 <= j < jd.len() implies s.subrange(1, end)[j] == jd[j] by {}
        }
        assert(mention_terminator(s, end)) by {
            if q.content.len() > 0 {
                assert(s[end] == ' ');
            }
        }
        lemma_mention_roundtrip(s, 1, m);
        let acc1 = Acc { mention: Some(m), scope: None, content: Seq::empty(), in_content: false };
        assert(parse_from(s, 0, acc0) == parse_from(s, end, acc1));
        if q.content.len() == 0 {
            assert(end == s.len());
            assert(rtrim(Seq::<char>::empty()) == Seq::<char>::empty());
            assert(ltrim(Seq::<char>::empty()) == Seq::<char>::empty());
            assert(finish(acc1) =~= q);
        } else {
            assert(s[end] == ' ');
            assert(!is_sigil(' '));
            assert(is_blank(' '));
            assert(s.len() == end + 1 + q.content.len());
            assert forall|j: int| 0 <= j < q.content.len() implies s[end + 1 + j] == q.content[
                j
            ] by {}
            assert(!is_blank(s[end + 1]));
            assert(blank_end(s, end + 1) == end + 1);
            assert(blank_end(s, end) == end + 1);
            assert(parse_from(s, end, acc1) == parse_from(s, end + 1, acc1));
            assert forall|j: int| end + 1 <= j < s.len() implies !is_sigil(s[j]) by {
                assert(s[j] == q.content[j - (end + 1)]);
            }
            lemma_parse_from_no_sigils(s, end + 1, acc1);
            assert(s.skip(end + 1) =~= q.content);
            assert(Seq::<char>::empty() + q.content =~= q.content);
            assert(!is_blank(q.content.last()));
            assert(rtrim(q.content) == q.content);
            assert(ltrim(q.content) == q.content);
            assert(finish(
                Acc {
                    mention: Some(m),
                    scope: None,
                    content: q.content,
                    in_content: false,
                },
            ) =~= q);
        }
    }
}

// ---------------------------------------------------------------------
// A forwarding cycle exhausts the hop budget.
// ---------------------------------------------------------------------
proof fn lemma_alias_cycle_run(
    reg: RegView,
    q: QueryView,
    a: Seq<char>,
    b: Seq<char>,
    ida: Seq<char>,
    idb: Seq<char>,
    hops: nat,
)
    requires
        get_node(reg, a) == Some(NodeView::Alias { identifier: ida, to: b }),
        get_node(reg, b) == Some(NodeView::Alias { identifier: idb, to: a }),
    ensures
        run_loop(reg, q, NodeView::Alias { identifier: ida, to: b }, hops) == Err::<
            VerbView,
            ErrView,
        >(ErrView::TooManyForward),
    decreases hops,
{
    if hops > 0 {
        lemma_alias_cycle_run(
            reg,
            rewrite_query(q, b, 1),
            b,
            a,
            idb,
            ida,
            (hops - 1) as nat,
        );
    }
}

/// Two aliases that point at each other make every resolution that
/// reaches either of them abort with `TooManyForward`: the loop runs its
/// whole hop budget, never returns another outcome, and never diverges.
pub proof fn lemma_alias_cycle_too_many_forward(
    reg: RegView,
    q: QueryView,
    a: Seq<char>,
    b: Seq<char>,
    ida: Seq<char>,
    idb: Seq<char>,
)
    requires
        get_node(reg, a) == Some(NodeView::Alias { identifier: ida, to: b }),
        get_node(reg, b) == Some(NodeView::Alias { identifier: idb, to: a }),
        mention_head_spec(q) == a,
    ensures
        resolve_spec(reg, q) == Err::<VerbView, ErrView>(ErrView::TooManyForward),
{
    lemma_alias_cycle_run(reg, q, a, b, ida, idb, MAX_FORWARD_DEPTH as nat);
}

} // verus!
