//! The query parser.
//!
//! The input is scanned left to right as a sequence of segments: a
//! mention (`@` followed by identifiers separated by `.`), a scope (`!`
//! followed by the non-blank run), a blank run, or a content run (any
//! other non-blank run). The segments are then reduced into a
//! [`Query`](crate::query::Query): the last mention and the last scope
//! win, content runs are concatenated, and a blank run joins the content
//! only when the previous non-blank segment was itself content. The
//! assembled content is finally trimmed of leading and trailing blanks.

use crate::query::{Query, QueryView};
use core::str::FromStr;
use crate::unicode::{
    char_is_blank, char_is_id_continue, char_is_id_start, is_blank, is_id_continue, is_id_start,
    is_mention_sigil, is_path_sep, is_scope_sigil,
};
use vstd::prelude::*;

verus! {

/// The position where the blank run beginning at `i` ends.
pub open spec fn blank_end(s: Seq<char>, i: int) -> int
    decreases s.len() - i,
{
    if 0 <= i < s.len() && is_blank(s[i]) {
        blank_end(s, i + 1)
    } else {
        i
    }
}

/// The position where the non-blank run beginning at `i` ends.
pub open spec fn nonblank_end(s: Seq<char>, i: int) -> int
    decreases s.len() - i,
{
    if 0 <= i < s.len() && !is_blank(s[i]) {
        nonblank_end(s, i + 1)
    } else {
        i
    }
}

/// The position where the identifier-continue run beginning at `i` ends.
pub open spec fn ident_end(s: Seq<char>, i: int) -> int
    decreases s.len() - i,
{
    if 0 <= i < s.len() && is_id_continue(s[i]) {
        ident_end(s, i + 1)
    } else {
        i
    }
}

pub proof fn lemma_blank_end(s: Seq<char>, i: int)
    requires
        0 <= i <= s.len(),
    ensures
        i <= blank_end(s, i) <= s.len(),
        forall|j: int| i <= j < blank_end(s, i) ==> is_blank(s[j]),
        blank_end(s, i) < s.len() ==> !is_blank(s[blank_end(s, i)]),
    decreases s.len() - i,
{
    if i < s.len() && is_blank(s[i]) {
        lemma_blank_end(s, i + 1);
    }
}

pub proof fn lemma_nonblank_end(s: Seq<char>, i: int)
    requires
        0 <= i <= s.len(),
    ensures
        i <= nonblank_end(s, i) <= s.len(),
        forall|j: int| i <= j < nonblank_end(s, i) ==> !is_blank(s[j]),
        nonblank_end(s, i) < s.len() ==> is_blank(s[nonblank_end(s, i)]),
    decreases s.len() - i,
{
    if i < s.len() && !is_blank(s[i]) {
        lemma_nonblank_end(s, i + 1);
    }
}

pub proof fn lemma_ident_end(s: Seq<char>, i: int)
    requires
        0 <= i <= s.len(),
    ensures
        i <= ident_end(s, i) <= s.len(),
        forall|j: int| i <= j < ident_end(s, i) ==> is_id_continue(s[j]),
        ident_end(s, i) < s.len() ==> !is_id_continue(s[ident_end(s, i)]),
    decreases s.len() - i,
{
    if i < s.len() && is_id_continue(s[i]) {
        lemma_ident_end(s, i + 1);
    }
}

fn scan_blank_end(s: &str, start: usize) -> (j: usize)
    requires
        start <= s@.len(),
        s@.len() <= usize::MAX,
    ensures
        j == blank_end(s@, start as int),
        start <= j <= s@.len(),
{
    let n = s.unicode_len();
    let mut j = start;
    while j < n
        invariant
            start <= j <= n,
            n == s@.len(),
            blank_end(s@, start as int) == blank_end(s@, j as int),
        decreases n - j,
    {
        if !char_is_blank(s.get_char(j)) {
            return j;
        }
        j += 1;
    }
    j
}

fn scan_nonblank_end(s: &str, start: usize) -> (j: usize)
    requires
        start <= s@.len(),
        s@.len() <= usize::MAX,
    ensures
        j == nonblank_end(s@, start as int),
        start <= j <= s@.len(),
{
    let n = s.unicode_len();
    let mut j = start;
    while j < n
        invariant
            start <= j <= n,
            n == s@.len(),
            nonblank_end(s@, start as int) == nonblank_end(s@, j as int),
        decreases n - j,
    {
        if char_is_blank(s.get_char(j)) {
            return j;
        }
        j += 1;
    }
    j
}

fn scan_ident_end(s: &str, start: usize) -> (j: usize)
    requires
        start <= s@.len(),
        s@.len() <= usize::MAX,
    ensures
        j == ident_end(s@, start as int),
        start <= j <= s@.len(),
{
    let n = s.unicode_len();
    let mut j = start;
    while j < n
        invariant
            start <= j <= n,
            n == s@.len(),
            ident_end(s@, start as int) == ident_end(s@, j as int),
        decreases n - j,
    {
        if !char_is_id_continue(s.get_char(j)) {
            return j;
        }
        j += 1;
    }
    j
}

/// The segments of a mention after its first identifier: a `(`.`
/// identifier)*` run accumulated onto `acc`. Returns the accumulated
/// segments and the position where the run ends. A separator not
/// followed by an identifier-start character ends the run and is left
/// unconsumed.
pub open spec fn mention_rest(s: Seq<char>, i: int, acc: Seq<Seq<char>>) -> (Seq<Seq<char>>, int)
    decreases s.len() - i,
        when 0 <= i <= s.len()
        via mention_rest_dec
{
    if i + 1 < s.len() && is_path_sep(s[i]) && is_id_start(s[i + 1]) {
        let e = ident_end(s, i + 2);
        mention_rest(s, e, acc.push(s.subrange(i + 1, e)))
    } else {
        (acc, i)
    }
}

#[via_fn]
proof fn mention_rest_dec(s: Seq<char>, i: int, acc: Seq<Seq<char>>) {
    if 0 <= i <= s.len() && i + 1 < s.len() && is_path_sep(s[i]) && is_id_start(s[i + 1]) {
        lemma_ident_end(s, i + 2);
    }
}

pub proof fn lemma_mention_rest(s: Seq<char>, i: int, acc: Seq<Seq<char>>)
    requires
        0 <= i <= s.len(),
    ensures
        i <= mention_rest(s, i, acc).1 <= s.len(),
    decreases s.len() - i,
{
    if i + 1 < s.len() && is_path_sep(s[i]) && is_id_start(s[i + 1]) {
        lemma_ident_end(s, i + 2);
        lemma_mention_rest(s, ident_end(s, i + 2), acc.push(s.subrange(i + 1, ident_end(s, i + 2))));
    }
}

/// The mention read at position `i`, just after a mention sigil: one or
/// more identifiers separated by path separators. `None` when no valid
/// identifier follows the sigil, which fails the whole parse.
pub open spec fn mention_at(s: Seq<char>, i: int) -> Option<(Seq<Seq<char>>, int)> {
    if 0 <= i < s.len() && is_id_start(s[i]) {
        let e = ident_end(s, i + 1);
        Some(mention_rest(s, e, seq![s.subrange(i, e)]))
    } else {
        None
    }
}

/// Read a mention at `start` (just after the sigil), as [`mention_at`]
/// describes it.
fn scan_mention(s: &str, start: usize) -> (r: Option<(Vec<String>, usize)>)
    requires
        start <= s@.len(),
        s@.len() <= usize::MAX,
    ensures
        match r {
            Some(p) => {
                &&& mention_at(s@, start as int) == Some((p.0.deep_view(), p.1 as int))
                &&& start < p.1 <= s@.len()
            },
            None => mention_at(s@, start as int) is None,
        },
{
    let n = s.unicode_len();
    if start >= n {
        return None;
    }
    if !char_is_id_start(s.get_char(start)) {
        return None;
    }
    let e0 = scan_ident_end(s, start + 1);
    let ghost acc0 = seq![s@.subrange(start as int, e0 as int)];
    let mut segs: Vec<String> = Vec::new();
    segs.push(s.substring_char(start, e0).to_owned());
    proof {
        assert(segs.deep_view() =~= acc0);
    }
    let mut i = e0;
    loop
        invariant
            e0 <= i <= n,
            n == s@.len(),
            start < e0,
            start < n,
            is_id_start(s@[start as int]),
            e0 == ident_end(s@, start + 1),
            acc0 == seq![s@.subrange(start as int, e0 as int)],
            mention_rest(s@, i as int, segs.deep_view()) == mention_rest(s@, e0 as int, acc0),
        decreases n - i,
    {
        let mut advanced = false;
        if n - i > 1 {
            let c = s.get_char(i);
            if c == '.' || c == '\u{3002}' {
                if char_is_id_start(s.get_char(i + 1)) {
                    let e = scan_ident_end(s, i + 2);
                    let ghost old_dv = segs.deep_view();
                    segs.push(s.substring_char(i + 1, e).to_owned());
                    proof {
                        assert(segs.deep_view() =~= old_dv.push(s@.subrange(i + 1, e as int)));
                    }
                    i = e;
                    advanced = true;
                }
            }
        }
        if !advanced {
            return Some((segs, i));
        }
    }
}

/// `s` without its trailing blanks.
pub open spec fn rtrim(s: Seq<char>) -> Seq<char>
    decreases s.len(),
{
    if s.len() > 0 && is_blank(s.last()) {
        rtrim(s.drop_last())
    } else {
        s
    }
}

/// `s` without its leading blanks.
pub open spec fn ltrim(s: Seq<char>) -> Seq<char>
    decreases s.len(),
{
    if s.len() > 0 && is_blank(s[0]) {
        ltrim(s.skip(1))
    } else {
        s
    }
}

/// `s` without leading and trailing blanks.
pub open spec fn trim_blanks(s: Seq<char>) -> Seq<char> {
    ltrim(rtrim(s))
}

pub proof fn lemma_rtrim_blank_suffix(s: Seq<char>, e: int)
    requires
        0 <= e <= s.len(),
        forall|j: int| e <= j < s.len() ==> is_blank(s[j]),
    ensures
        rtrim(s) == rtrim(s.take(e)),
    decreases s.len() - e,
{
    if e < s.len() {
        assert(is_blank(s.last()));
        assert(s.drop_last() =~= s.take(s.len() - 1));
        lemma_rtrim_blank_suffix(s.take(s.len() - 1), e);
        assert(s.take(s.len() - 1).take(e) =~= s.take(e));
    } else {
        assert(s.take(e) =~= s);
    }
}

pub proof fn lemma_rtrim_nonblank_last(s: Seq<char>)
    requires
        s.len() == 0 || !is_blank(s.last()),
    ensures
        rtrim(s) == s,
{
}

pub proof fn lemma_ltrim_blank_prefix(s: Seq<char>, b: int)
    requires
        0 <= b <= s.len(),
        forall|j: int| 0 <= j < b ==> is_blank(s[j]),
    ensures
        ltrim(s) == ltrim(s.skip(b)),
    decreases b,
{
    if b > 0 {
        assert(is_blank(s[0]));
        lemma_ltrim_blank_prefix(s.skip(1), b - 1);
        assert(s.skip(1).skip(b - 1) =~= s.skip(b));
    } else {
        assert(s.skip(0) =~= s);
    }
}

pub proof fn lemma_ltrim_nonblank_first(s: Seq<char>)
    requires
        s.len() == 0 || !is_blank(s[0]),
    ensures
        ltrim(s) == s,
{
}

/// The end of the last non-blank run of `s`, scanning backwards from the
/// end; `start` must point at a non-blank character.
fn scan_last_nonblank(s: &str, start: usize) -> (end: usize)
    requires
        start < s@.len(),
        s@.len() <= usize::MAX,
        !is_blank(s@[start as int]),
    ensures
        start < end <= s@.len(),
        !is_blank(s@[end - 1]),
        forall|j: int| end <= j < s@.len() ==> is_blank(s@[j]),
{
    let n = s.unicode_len();
    let mut end = n;
    while end > start
        invariant
            start <= end <= n,
            n == s@.len(),
            start < n,
            !is_blank(s@[start as int]),
            forall|j: int| end <= j < n ==> is_blank(s@[j]),
        decreases end,
    {
        if !char_is_blank(s.get_char(end - 1)) {
            return end;
        }
        end -= 1;
    }
    proof {
        assert(is_blank(s@[start as int]));
    }
    end
}

/// `s` with leading and trailing blanks removed.
pub fn trim_str(s: &str) -> (r: String)
    ensures
        r@ == trim_blanks(s@),
{
    let n = s.unicode_len();
    let start = scan_blank_end(s, 0);
    if start == n {
        proof {
            lemma_blank_end(s@, 0);
            lemma_rtrim_blank_suffix(s@, 0);
            assert(s@.take(0) =~= Seq::<char>::empty());
        }
        return String::new();
    }
    proof {
        lemma_blank_end(s@, 0);
    }
    let end = scan_last_nonblank(s, start);
    proof {
        lemma_rtrim_blank_suffix(s@, end as int);
        let t = s@.take(end as int);
        lemma_rtrim_nonblank_last(t);
        lemma_ltrim_blank_prefix(t, start as int);
        lemma_ltrim_nonblank_first(t.skip(start as int));
        assert(t.skip(start as int) =~= s@.subrange(start as int, end as int));
    }
    let piece = s.substring_char(start, end);
    piece.to_owned()
}

/// The reduction state carried across segments: the last mention seen,
/// the last scope seen, the content gathered so far, and whether the
/// previous non-blank segment was content.
pub ghost struct Acc {
    pub mention: Option<Seq<Seq<char>>>,
    pub scope: Option<Seq<char>>,
    pub content: Seq<char>,
    pub in_content: bool,
}

/// The query that a finished scan yields: a missing mention becomes the
/// empty path, and the gathered content is trimmed.
pub open spec fn finish(acc: Acc) -> QueryView {
    QueryView {
        mention: match acc.mention {
            Some(m) => m,
            None => Seq::empty(),
        },
        content: trim_blanks(acc.content),
        scope: acc.scope,
    }
}

/// Scan `s` from position `i` with reduction state `acc`. Each step
/// consumes one segment: a mention or scope introduced by its sigil, a
/// blank run, or a content run. `None` means a syntax error: a mention
/// sigil not followed by a valid identifier.
pub open spec fn parse_from(s: Seq<char>, i: int, acc: Acc) -> Option<QueryView>
    decreases s.len() - i,
        when 0 <= i <= s.len()
        via parse_from_dec
{
    if i == s.len() {
        Some(finish(acc))
    } else {
        let c = s[i];
        if is_mention_sigil(c) {
            match mention_at(s, i + 1) {
                Some(p) => parse_from(
                    s,
                    p.1,
                    Acc { mention: Some(p.0), scope: acc.scope, content: acc.content, in_content: false },
                ),
                None => None,
            }
        } else if is_scope_sigil(c) {
            let j = nonblank_end(s, i + 1);
            parse_from(
                s,
                j,
                Acc {
                    mention: acc.mention,
                    scope: Some(s.subrange(i + 1, j)),
                    content: acc.content,
                    in_content: false,
                },
            )
        } else if is_blank(c) {
            let j = blank_end(s, i);
            parse_from(
                s,
                j,
                Acc {
                    mention: acc.mention,
                    scope: acc.scope,
                    content: if acc.in_content {
                        acc.content + s.subrange(i, j)
                    } else {
                        acc.content
                    },
                    in_content: acc.in_content,
                },
            )
        } else {
            let j = nonblank_end(s, i);
            parse_from(
                s,
                j,
                Acc {
                    mention: acc.mention,
                    scope: acc.scope,
                    content: acc.content + s.subrange(i, j),
                    in_content: true,
                },
            )
        }
    }
}

#[via_fn]
proof fn parse_from_dec(s: Seq<char>, i: int, acc: Acc) {
    if 0 <= i < s.len() {
        let c = s[i];
        if is_mention_sigil(c) {
            if mention_at(s, i + 1) is Some {
                lemma_ident_end(s, i + 2);
                let e = ident_end(s, i + 2);
                lemma_mention_rest(s, e, seq![s.subrange(i + 1, e)]);
            }
        } else if is_scope_sigil(c) {
            lemma_nonblank_end(s, i + 1);
        } else if is_blank(c) {
            lemma_blank_end(s, i + 1);
        } else {
            lemma_nonblank_end(s, i + 1);
        }
    }
}

/// What parsing `s` yields: a query, or `None` on a syntax error.
pub open spec fn parse_spec(s: Seq<char>) -> Option<QueryView> {
    parse_from(
        s,
        0,
        Acc { mention: None, scope: None, content: Seq::empty(), in_content: false },
    )
}

/// A query that could not be parsed.
#[derive(Clone, Copy, Debug, PartialEq, Eq, Structural)]
pub struct ParseErr;

/// Parse a raw query string, as [`parse_spec`] describes it.
pub fn parse_query(input: &str) -> (r: Result<Query, ParseErr>)
    ensures
        (match r {
            Ok(q) => parse_spec(input@) == Some(q@),
            Err(_) => parse_spec(input@) is None,
        }),
{
    let n = input.unicode_len();
    let mut mention: Option<Vec<String>> = None;
    let mut scope: Option<String> = None;
    let mut content = String::new();
    let mut in_content = false;
    let mut i: usize = 0;
    while i < n
        invariant
            i <= n,
            n == input@.len(),
            parse_from(
                input@,
                i as int,
                (Acc {
                    mention: mention.deep_view(),
                    scope: scope.deep_view(),
                    content: content@,
                    in_content: in_content,
                }),
            ) == parse_spec(input@),
        decreases n - i,
    {
        let c = input.get_char(i);
        if c == '@' || c == '\u{FF20}' {
            match scan_mention(input, i + 1) {
                Some(p) => {
                    let (segs, j) = p;
                    mention = Some(segs);
                    in_content = false;
                    i = j;
                },
                None => {
                    return Err(ParseErr);
                },
            }
        } else if c == '!' || c == '\u{FF01}' {
            let j = scan_nonblank_end(input, i + 1);
            scope = Some(input.substring_char(i + 1, j).to_owned());
            in_content = false;
            i = j;
        } else if char_is_blank(c) {
            let j = scan_blank_end(input, i + 1);
            if in_content {
                content.append(input.substring_char(i, j));
            }
            i = j;
        } else {
            let j = scan_nonblank_end(input, i + 1);
            content.append(input.substring_char(i, j));
            in_content = true;
            i = j;
        }
    }
    let trimmed = trim_str(content.as_str());
    let ghost had_mention = mention.deep_view();
    let mention_vec = match mention {
        Some(v) => v,
        None => Vec::new(),
    };
    proof {
        if had_mention is None {
            assert(mention_vec.deep_view() =~= Seq::<Seq<char>>::empty());
        }
    }
    let q = Query { mention: mention_vec, content: trimmed, scope };
    Ok(q)
}

impl FromStr for Query {
    type Err = ParseErr;

    fn from_str(s: &str) -> Result<Self, Self::Err> {
        parse_query(s)
    }
}

} // verus!
