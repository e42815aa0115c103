//! A structured query: a mention path, free-text content and an
//! optional scope.

use vstd::prelude::*;

verus! {

/// Mathematical content of a [`Query`].
#[verifier::ext_equal]
pub ghost struct QueryView {
    pub mention: Seq<Seq<char>>,
    pub content: Seq<char>,
    pub scope: Option<Seq<char>>,
}

/// A parsed query.
///
/// `mention` is the `@a.b.c`-style path that routes the query to an
/// engine; `content` is the remaining free text, trimmed of leading and
/// trailing blanks; `scope` is the optional `!`-marked field consumed
/// only by scope-aware engines.
#[derive(Clone, Debug, PartialEq, Eq)]
pub struct Query {
    pub mention: Vec<String>,
    pub content: String,
    pub scope: Option<String>,
}

impl View for Query {
    type V = QueryView;

    open spec fn view(&self) -> QueryView {
        QueryView {
            mention: self.mention.deep_view(),
            content: self.content@,
            scope: self.scope.deep_view(),
        }
    }
}

/// The first mention segment, or the empty id when the mention is empty.
pub open spec fn mention_head_spec(q: QueryView) -> Seq<char> {
    if q.mention.len() == 0 {
        Seq::empty()
    } else {
        q.mention[0]
    }
}

/// The mention segments after the first one.
pub open spec fn mention_tail_spec(q: QueryView) -> Seq<Seq<char>> {
    if q.mention.len() == 0 {
        Seq::empty()
    } else {
        q.mention.skip(1)
    }
}

impl Query {
    /// The free-text content of the query.
    pub fn content(&self) -> (r: &str)
        ensures
            r@ == self@.content,
    {
        self.content.as_str()
    }

    /// The first mention segment, or the empty id when the mention is empty.
    pub fn mention_head(&self) -> (r: &str)
        ensures
            r@ == mention_head_spec(self@),
    {
        if self.mention.len() == 0 {
            let r = "";
            proof {
                reveal_strlit("");
            }
            r
        } else {
            self.mention[0].as_str()
        }
    }

    /// The mention segments after the first one.
    pub fn mention_tail(&self) -> (r: &[String])
        ensures
            r.deep_view() == mention_tail_spec(self@),
    {
        let s = self.mention.as_slice();
        if s.len() == 0 {
            let r = &s[0..0];
            proof {
                assert(r.deep_view() =~= mention_tail_spec(self@));
            }
            r
        } else {
            let r = &s[1..s.len()];
            proof {
                assert(r.deep_view() =~= mention_tail_spec(self@));
            }
            r
        }
    }

    /// The same query with another mention path.
    pub fn with_mention(&self, mention: Vec<String>) -> (r: Self)
        ensures
            r@.mention == mention.deep_view(),
            r@.content == self@.content,
            r@.scope == self@.scope,
    {
        Self { mention, content: self.content.clone(), scope: clone_scope(&self.scope) }
    }
}

/// Clone an optional string.
fn clone_scope(scope: &Option<String>) -> (r: Option<String>)
    ensures
        r.deep_view() == scope.deep_view(),
{
    match scope {
        Some(s) => Some(s.clone()),
        None => None,
    }
}

} // verus!
