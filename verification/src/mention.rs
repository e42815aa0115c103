//! A query against the router-and-engines pipeline: a mention path with
//! a resolution cursor, and free-text content.
//!
//! The pipeline's own query grammar is plainer than the resolution
//! core's: `@` followed by ASCII-alphanumeric segments separated by
//! `.`, then spaces, then the content. An input that does not open with
//! a well-formed mention is all content.

use vstd::prelude::*;

verus! {

/// ASCII letters and digits: the characters a routed mention segment
/// may hold.
pub open spec fn is_ascii_alnum(c: char) -> bool {
    ('a' <= c && c <= 'z') || ('A' <= c && c <= 'Z') || ('0' <= c && c <= '9')
}

/// The ASCII blanks that separate a routed mention from the content.
pub open spec fn is_space_char(c: char) -> bool {
    c == ' ' || c == '\t'
}

/// The position where the alphanumeric run beginning at `i` ends.
pub open spec fn alnum_end(s: Seq<char>, i: int) -> int
    decreases s.len() - i,
{
    if 0 <= i < s.len() && is_ascii_alnum(s[i]) {
        alnum_end(s, i + 1)
    } else {
        i
    }
}

/// The position where the space run beginning at `i` ends.
pub open spec fn space_end(s: Seq<char>, i: int) -> int
    decreases s.len() - i,
{
    if 0 <= i < s.len() && is_space_char(s[i]) {
        space_end(s, i + 1)
    } else {
        i
    }
}

pub proof fn lemma_alnum_end(s: Seq<char>, i: int)
    requires
        0 <= i <= s.len(),
    ensures
        i <= alnum_end(s, i) <= s.len(),
    decreases s.len() - i,
{
    if i < s.len() && is_ascii_alnum(s[i]) {
        lemma_alnum_end(s, i + 1);
    }
}

pub proof fn lemma_space_end(s: Seq<char>, i: int)
    requires
        0 <= i <= s.len(),
    ensures
        i <= space_end(s, i) <= s.len(),
    decreases s.len() - i,
{
    if i < s.len() && is_space_char(s[i]) {
        lemma_space_end(s, i + 1);
    }
}

/// The segments of a routed mention after the first one: a `(`.`
/// alphanumeric-run)*` run accumulated onto `acc`, and the position
/// where it ends.
pub open spec fn routed_rest(s: Seq<char>, i: int, acc: Seq<Seq<char>>) -> (Seq<Seq<char>>, int)
    decreases s.len() - i,
        when 0 <= i <= s.len()
        via routed_rest_dec
{
    if i + 1 < s.len() && s[i] == '.' && is_ascii_alnum(s[i + 1]) {
        let e = alnum_end(s, i + 2);
        routed_rest(s, e, acc.push(s.subrange(i + 1, e)))
    } else {
        (acc, i)
    }
}

#[via_fn]
proof fn routed_rest_dec(s: Seq<char>, i: int, acc: Seq<Seq<char>>) {
    if 0 <= i <= s.len() && i + 1 < s.len() && s[i] == '.' && is_ascii_alnum(s[i + 1]) {
        lemma_alnum_end(s, i + 2);
    }
}

/// What parsing a routed query yields: the mention segments and the
/// content. An input that does not open with `@` and an alphanumeric
/// character has no mention and is all content; otherwise the mention
/// runs to the first character that fits neither a segment nor a
/// separator, and the content is what follows the spaces after it.
pub open spec fn routed_parse(s: Seq<char>) -> (Seq<Seq<char>>, Seq<char>) {
    if s.len() >= 2 && s[0] == '@' && is_ascii_alnum(s[1]) {
        let e = alnum_end(s, 2);
        let segs_j = routed_rest(s, e, seq![s.subrange(1, e)]);
        let k = space_end(s, segs_j.1);
        (segs_j.0, s.skip(k))
    } else {
        (Seq::empty(), s)
    }
}

/// The mention of a routed query: a sequence of segments, resolved left
/// to right. The router moves the cursor forward as it routes and may
/// move it back when it backtracks; the segments before the cursor are
/// the *resolved* part, the rest is the *residue* the engine may consume
/// further.
pub struct QueryMention {
    seq: Vec<String>,
    resolved: usize,
}

impl QueryMention {
    /// The mention segments.
    pub closed spec fn seq_view(&self) -> Seq<Seq<char>> {
        self.seq.deep_view()
    }

    /// How many leading segments have been resolved.
    pub closed spec fn resolved_count(&self) -> int {
        self.resolved as int
    }

    /// The cursor never leaves the sequence.
    pub open spec fn wf(&self) -> bool {
        0 <= self.resolved_count() <= self.seq_view().len()
    }

    /// A mention with nothing resolved yet.
    pub fn new(seq: Vec<String>) -> (r: Self)
        ensures
            r.seq_view() == seq.deep_view(),
            r.resolved_count() == 0,
            r.wf(),
    {
        QueryMention { seq, resolved: 0 }
    }

    /// Resolve one segment; called when the router routes a segment.
    /// With nothing left to resolve, the cursor stays put.
    pub fn resolve_one(&mut self)
        requires
            old(self).wf(),
        ensures
            final(self).wf(),
            final(self).seq_view() == old(self).seq_view(),
            final(self).resolved_count() == if old(self).resolved_count() < old(
                self,
            ).seq_view().len() {
                old(self).resolved_count() + 1
            } else {
                old(self).resolved_count()
            },
    {
        if self.resolved < self.seq.len() {
            self.resolved += 1;
        }
    }

    /// Unresolve one segment; called when the router backtracks. With
    /// nothing resolved, the cursor stays put.
    pub fn unresolve_one(&mut self)
        requires
            old(self).wf(),
        ensures
            final(self).wf(),
            final(self).seq_view() == old(self).seq_view(),
            final(self).resolved_count() == if old(self).resolved_count() > 0 {
                old(self).resolved_count() - 1
            } else {
                0
            },
    {
        if self.resolved > 0 {
            self.resolved -= 1;
        }
    }

    /// The resolved part of the mention: what was successfully routed.
    pub fn resolved(&self) -> (r: Vec<String>)
        requires
            self.wf(),
        ensures
            r.deep_view() == self.seq_view().take(self.resolved_count()),
    {
        copy_range(&self.seq, 0, self.resolved)
    }

    /// The residue of the mention: what the router left unused.
    pub fn residue(&self) -> (r: Vec<String>)
        requires
            self.wf(),
        ensures
            r.deep_view() == self.seq_view().skip(self.resolved_count()),
    {
        copy_range(&self.seq, self.resolved, self.seq.len())
    }
}

/// The elements of `v` from `from` to `to`, cloned.
fn copy_range(v: &Vec<String>, from: usize, to: usize) -> (r: Vec<String>)
    requires
        from <= to <= v.len(),
    ensures
        r.deep_view() == v.deep_view().subrange(from as int, to as int),
{
    let mut out: Vec<String> = Vec::new();
    let mut k = from;
    proof {
        assert(out.deep_view() =~= v.deep_view().subrange(from as int, from as int));
    }
    while k < to
        invariant
            from <= k <= to <= v.len(),
            out.deep_view() == v.deep_view().subrange(from as int, k as int),
        decreases to - k,
    {
        let ghost old_dv = out.deep_view();
        out.push(v[k].clone());
        proof {
            assert(out.deep_view() =~= old_dv.push(v.deep_view()[k as int]));
            assert(old_dv.push(v.deep_view()[k as int]) =~= v.deep_view().subrange(
                from as int,
                k + 1,
            ));
        }
        k += 1;
    }
    out
}

/// Test a character for the routed segment alphabet, as
/// [`is_ascii_alnum`] describes it.
fn char_is_ascii_alnum(c: char) -> (r: bool)
    ensures
        r == is_ascii_alnum(c),
{
    ('a' <= c && c <= 'z') || ('A' <= c && c <= 'Z') || ('0' <= c && c <= '9')
}

fn scan_alnum_end(s: &str, start: usize) -> (j: usize)
    requires
        start <= s@.len(),
        s@.len() <= usize::MAX,
    ensures
        j == alnum_end(s@, start as int),
        start <= j <= s@.len(),
{
    let n = s.unicode_len();
    let mut j = start;
    while j < n
        invariant
            start <= j <= n,
            n == s@.len(),
            alnum_end(s@, start as int) == alnum_end(s@, j as int),
        decreases n - j,
    {
        if !char_is_ascii_alnum(s.get_char(j)) {
            return j;
        }
        j += 1;
    }
    j
}

fn scan_space_end(s: &str, start: usize) -> (j: usize)
    requires
        start <= s@.len(),
        s@.len() <= usize::MAX,
    ensures
        j == space_end(s@, start as int),
        start <= j <= s@.len(),
{
    let n = s.unicode_len();
    let mut j = start;
    while j < n
        invariant
            start <= j <= n,
            n == s@.len(),
            space_end(s@, start as int) == space_end(s@, j as int),
        decreases n - j,
    {
        let c = s.get_char(j);
        if !(c == ' ' || c == '\t') {
            return j;
        }
        j += 1;
    }
    j
}

/// Gather the remaining `.`-separated segments, as [`routed_rest`]
/// describes them.
#[verifier::loop_isolation(false)]
fn scan_routed_rest(s: &str, e0: usize, segs: Vec<String>) -> (r: (Vec<String>, usize))
    requires
        e0 <= s@.len(),
        s@.len() <= usize::MAX,
    ensures
        routed_rest(s@, e0 as int, segs.deep_view()) == (r.0.deep_view(), r.1 as int),
        e0 <= r.1 <= s@.len(),
{
    let n = s.unicode_len();
    let mut segs = segs;
    let mut i = e0;
    let ghost target = routed_rest(s@, e0 as int, segs.deep_view());
    loop
        invariant
            e0 <= i <= n,
            routed_rest(s@, i as int, segs.deep_view()) == target,
        decreases n - i,
    {
        let mut advanced = false;
        if n - i > 1 {
            if s.get_char(i) == '.' {
                if char_is_ascii_alnum(s.get_char(i + 1)) {
                    let e = scan_alnum_end(s, i + 2);
                    let ghost old_dv = segs.deep_view();
                    segs.push(s.substring_char(i + 1, e).to_owned());
                    proof {
                        assert(segs.deep_view() =~= old_dv.push(s@.subrange(i + 1, e as int)));
                    }
                    i = e;
                    advanced = true;
                }
            }
        }
        if !advanced {
            return (segs, i);
        }
    }
}

/// A query against the router and engines.
pub struct Query {
    pub mention: QueryMention,
    pub content: String,
}

impl Query {
    /// A query with no mention, for driving an engine directly.
    pub fn from_content(content: String) -> (r: Self)
        ensures
            r.mention.seq_view() == Seq::<Seq<char>>::empty(),
            r.mention.resolved_count() == 0,
            r.mention.wf(),
            r.content@ == content@,
    {
        let empty: Vec<String> = Vec::new();
        proof {
            assert(empty.deep_view() =~= Seq::<Seq<char>>::empty());
        }
        let mention = QueryMention::new(empty);
        Query { mention, content }
    }

    /// Parse a routed query, as [`routed_parse`] describes it; the
    /// grammar itself never rejects an input.
    pub fn try_from_str(input: &str) -> (r: Result<Query, ()>)
        ensures
            (match r {
                Ok(q) => {
                    &&& q.mention.seq_view() == routed_parse(input@).0
                    &&& q.mention.resolved_count() == 0
                    &&& q.mention.wf()
                    &&& q.content@ == routed_parse(input@).1
                },
                Err(_) => false,
            }),
    {
        let n = input.unicode_len();
        if n >= 2 && input.get_char(0) == '@' && char_is_ascii_alnum(input.get_char(1)) {
            let e0 = scan_alnum_end(input, 2);
            let mut segs: Vec<String> = Vec::new();
            segs.push(input.substring_char(1, e0).to_owned());
            proof {
                assert(segs.deep_view() =~= seq![input@.subrange(1, e0 as int)]);
            }
            let pair = scan_routed_rest(input, e0, segs);
            let (segs, j) = pair;
            let k = scan_space_end(input, j);
            let content = input.substring_char(k, n).to_owned();
            proof {
                assert(content@ =~= input@.skip(k as int));
            }
            Ok(Query { mention: QueryMention::new(segs), content })
        } else {
            let empty: Vec<String> = Vec::new();
            proof {
                assert(empty.deep_view() =~= Seq::<Seq<char>>::empty());
            }
            Ok(Query { mention: QueryMention::new(empty), content: input.to_owned() })
        }
    }

    /// See [`QueryMention::resolved`].
    pub fn resolved(&self) -> (r: Vec<String>)
        requires
            self.mention.wf(),
        ensures
            r.deep_view() == self.mention.seq_view().take(self.mention.resolved_count()),
    {
        self.mention.resolved()
    }

    /// See [`QueryMention::residue`].
    pub fn residue(&self) -> (r: Vec<String>)
        requires
            self.mention.wf(),
        ensures
            r.deep_view() == self.mention.seq_view().skip(self.mention.resolved_count()),
    {
        self.mention.residue()
    }

    /// The free-text content of the query.
    pub fn content(&self) -> (r: &str)
        ensures
            r@ == self.content@,
    {
        self.content.as_str()
    }
}

/// The shape of a search request's URL query string.
pub struct SearchUrlQuery {
    pub q: String,
}

} // verus!
