//! Verified utilities on strings: character-wise comparison and
//! left-to-right pattern substitution.

use vstd::prelude::*;

verus! {

/// Replace every non-overlapping occurrence of `pat` in `t` with `v`,
/// scanning left to right. This is the behaviour of `str::replace` for a
/// non-empty pattern.
pub open spec fn replace_spec(t: Seq<char>, pat: Seq<char>, v: Seq<char>) -> Seq<char>
    decreases t.len(),
{
    if pat.len() == 0 || t.len() < pat.len() {
        t
    } else if t.subrange(0, pat.len() as int) == pat {
        v + replace_spec(t.skip(pat.len() as int), pat, v)
    } else {
        seq![t[0]] + replace_spec(t.skip(1), pat, v)
    }
}

/// Whether `pat` occurs in `t` at position `i`.
pub open spec fn occurs_at(t: Seq<char>, pat: Seq<char>, i: int) -> bool {
    0 <= i && i + pat.len() <= t.len() && t.subrange(i, i + pat.len()) == pat
}

/// Character-wise test that `t` contains `pat` starting at `i`.
pub fn str_occurs_at(t: &str, pat: &str, i: usize) -> (r: bool)
    requires
        i + pat@.len() <= t@.len(),
        t@.len() <= usize::MAX,
    ensures
        r == occurs_at(t@, pat@, i as int),
{
    let plen = pat.unicode_len();
    let mut k: usize = 0;
    while k < plen
        invariant
            k <= plen,
            plen == pat@.len(),
            i + plen <= t@.len(),
            t@.len() <= usize::MAX,
            forall|j: int| 0 <= j < k ==> t@[i + j] == pat@[j],
        decreases plen - k,
    {
        if t.get_char(i + k) != pat.get_char(k) {
            assert(t@.subrange(i as int, i + pat@.len())[k as int] != pat@[k as int]);
            return false;
        }
        k += 1;
    }
    assert(t@.subrange(i as int, i + pat@.len()) =~= pat@);
    true
}

/// Character-wise string equality.
pub fn str_eq(a: &str, b: &str) -> (r: bool)
    ensures
        r == (a@ == b@),
{
    let alen = a.unicode_len();
    let blen = b.unicode_len();
    if alen != blen {
        return false;
    }
    let r = str_occurs_at(a, b, 0);
    proof {
        assert(a@.subrange(0, a@.len() as int) =~= a@);
    }
    r
}

proof fn lemma_skip_skip(t: Seq<char>, i: int, k: int)
    requires
        0 <= i,
        0 <= k,
        i + k <= t.len(),
    ensures
        t.skip(i).skip(k) =~= t.skip(i + k),
{
}

/// Replace every non-overlapping occurrence of `pat` in `t` with `v`.
pub fn replace_all(t: &str, pat: &str, v: &str) -> (r: String)
    requires
        pat@.len() >= 1,
    ensures
        r@ == replace_spec(t@, pat@, v@),
{
    let tlen = t.unicode_len();
    let plen = pat.unicode_len();
    let mut out = String::new();
    let mut i: usize = 0;
    proof {
        assert(t@.skip(0) =~= t@);
        assert(Seq::<char>::empty() + replace_spec(t@, pat@, v@) =~= replace_spec(t@, pat@, v@));
    }
    while i < tlen
        invariant
            i <= tlen,
            tlen == t@.len(),
            plen == pat@.len(),
            plen >= 1,
            out@ + replace_spec(t@.skip(i as int), pat@, v@) == replace_spec(t@, pat@, v@),
        decreases tlen - i,
    {
        let ghost tail = t@.skip(i as int);
        if plen <= tlen - i && str_occurs_at(t, pat, i) {
            out.append(v);
            proof {
                assert(tail.subrange(0, pat@.len() as int) =~= t@.subrange(
                    i as int,
                    i + pat@.len(),
                ));
                lemma_skip_skip(t@, i as int, plen as int);
            }
            i += plen;
        } else {
            let piece = t.substring_char(i, i + 1);
            out.append(piece);
            proof {
                assert(piece@ =~= seq![t@[i as int]]);
                if plen <= tail.len() {
                    assert(tail.subrange(0, pat@.len() as int) != pat@) by {
                        if tail.subrange(0, pat@.len() as int) == pat@ {
                            assert(tail.subrange(0, pat@.len() as int) =~= t@.subrange(
                                i as int,
                                i + pat@.len(),
                            ));
                        }
                    }
                }
                lemma_skip_skip(t@, i as int, 1);
                assert(seq![tail[0]] + tail.skip(1) =~= tail);
            }
            i += 1;
        }
    }
    proof {
        assert(t@.skip(tlen as int) =~= Seq::<char>::empty());
        assert(out@ + Seq::<char>::empty() =~= out@);
    }
    out
}

/// `parts` joined with a single space between consecutive elements.
pub open spec fn join_spaced(parts: Seq<Seq<char>>) -> Seq<char>
    decreases parts.len(),
{
    if parts.len() == 0 {
        Seq::empty()
    } else if parts.len() == 1 {
        parts[0]
    } else {
        parts[0] + seq![' '] + join_spaced(parts.skip(1))
    }
}

/// Join the strings of `parts` with single spaces.
pub fn join_with_spaces(parts: &Vec<String>) -> (r: String)
    ensures
        r@ == join_spaced(parts.deep_view()),
{
    let mut out = String::new();
    let n = parts.len();
    let mut i: usize = 0;
    proof {
        assert(parts.deep_view().skip(0) =~= parts.deep_view());
        assert(Seq::<char>::empty() + join_spaced(parts.deep_view()) =~= join_spaced(
            parts.deep_view(),
        ));
    }
    while i < n
        invariant
            i <= n,
            n == parts.len(),
            out@ + join_spaced(parts.deep_view().skip(i as int)) == join_spaced(
                parts.deep_view(),
            ),
        decreases n - i,
    {
        out.append(parts[i].as_str());
        if i + 1 < n {
            out.append(" ");
            proof {
                reveal_strlit(" ");
                let pv = parts.deep_view();
                assert(pv.skip(i as int)[0] == pv[i as int]);
                assert(pv.skip(i as int).skip(1) =~= pv.skip(i + 1));
                assert(pv.skip(i + 1)[0] == pv[i + 1]);
                assert(pv.skip(i + 1).skip(1) =~= pv.skip(i + 2));
            }
        } else {
            proof {
                let pv = parts.deep_view();
                assert(pv.skip(i as int)[0] == pv[i as int]);
                assert(pv.skip(i as int).len() == 1);
                assert(pv.skip(i + 1) =~= Seq::<Seq<char>>::empty());
            }
        }
        i += 1;
    }
    proof {
        if n > 0 {
            assert(parts.deep_view().skip(n as int) =~= Seq::<Seq<char>>::empty());
        } else {
            assert(parts.deep_view().skip(0) =~= parts.deep_view());
        }
        assert(out@ + Seq::<char>::empty() =~= out@);
    }
    out
}

} // verus!
