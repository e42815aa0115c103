//! A namespace: routes on the first unresolved mention segment through a
//! child table, optionally falling back to a default target.

use crate::query::{mention_tail_spec, Query, QueryView};
use crate::reaction::{
    reaction_view, AcceptanceErr, ErrView, Forward, Reaction, ReactionErr, ReactionVerb, VerbView,
};
use crate::text::str_eq;
use crate::Instance;
use vstd::prelude::*;

verus! {

pub struct Namespace {
    pub identifier: String,
    pub default: Option<String>,
    pub children: Vec<(String, String)>,
}

/// The value of the first entry of `t` whose key is `key`, if any.
pub open spec fn table_lookup(t: Seq<(Seq<char>, Seq<char>)>, key: Seq<char>) -> Option<Seq<char>>
    decreases t.len(),
{
    if t.len() == 0 {
        None
    } else if t[0].0 == key {
        Some(t[0].1)
    } else {
        table_lookup(t.skip(1), key)
    }
}

/// What a namespace reacts with: a forward to the child matching the
/// first unresolved tail segment, consuming the namespace's own segment
/// and the matched one; otherwise a forward to the default, consuming
/// only the namespace's segment; otherwise nothing found.
pub open spec fn namespace_react_spec(
    default: Option<Seq<char>>,
    children: Seq<(Seq<char>, Seq<char>)>,
    q: QueryView,
) -> Result<VerbView, ErrView> {
    let tail = mention_tail_spec(q);
    let child = if tail.len() > 0 {
        table_lookup(children, tail[0])
    } else {
        None
    };
    match child {
        Some(to) => Ok(VerbView::ForwardMention(to, 2)),
        None => match default {
            Some(d) => Ok(VerbView::ForwardMention(d, 1)),
            None => Err(ErrView::Nothing),
        },
    }
}

/// Whether a namespace accepts a query: it refuses every query when it
/// has no default, so that a routing-only namespace must always resolve
/// a child.
pub open spec fn namespace_accept_spec(default: Option<Seq<char>>) -> Result<(), AcceptanceErr> {
    if default is None {
        Err(AcceptanceErr::NoEngine)
    } else {
        Ok(())
    }
}

/// Look `key` up in the child table, as [`table_lookup`] describes it.
fn children_lookup<'a>(children: &'a Vec<(String, String)>, key: &str) -> (r: Option<&'a String>)
    ensures
        r.deep_view() == table_lookup(children.deep_view(), key@),
{
    let n = children.len();
    let mut k: usize = 0;
    proof {
        assert(children.deep_view().skip(0) =~= children.deep_view());
    }
    while k < n
        invariant
            k <= n,
            n == children.len(),
            table_lookup(children.deep_view(), key@) == table_lookup(
                children.deep_view().skip(k as int),
                key@,
            ),
        decreases n - k,
    {
        proof {
            assert(children.deep_view().skip(k as int)[0] == children.deep_view()[k as int]);
            assert(children.deep_view().skip(k as int).skip(1) =~= children.deep_view().skip(
                k + 1,
            ));
        }
        if str_eq(children[k].0.as_str(), key) {
            return Some(&children[k].1);
        }
        k += 1;
    }
    proof {
        assert(children.deep_view().skip(n as int) =~= Seq::<(Seq<char>, Seq<char>)>::empty());
    }
    None
}

impl Namespace {
    /// The identifier of the engine.
    pub fn identifier(&self) -> (r: &str)
        ensures
            r@ == self.identifier@,
    {
        self.identifier.as_str()
    }

    /// Route on the first unresolved tail segment, as
    /// [`namespace_react_spec`] describes it.
    pub fn react(&self, query: &Query, _instance: &Instance) -> (r: Reaction)
        ensures
            reaction_view(r) == namespace_react_spec(
                self.default.deep_view(),
                self.children.deep_view(),
                query@,
            ),
    {
        let tail = query.mention_tail();
        let child = if tail.len() > 0 {
            children_lookup(&self.children, tail[0].as_str())
        } else {
            None
        };
        match child {
            Some(to) => Ok(ReactionVerb::Forward(Forward::Mention(to.clone(), 2))),
            None => match &self.default {
                Some(d) => Ok(ReactionVerb::Forward(Forward::Mention(d.clone(), 1))),
                None => Err(ReactionErr::Nothing),
            },
        }
    }

    /// Refuse the query when no default is configured.
    pub fn accept(&self, _query: &Query, _instance: &Instance) -> (r: Result<(), AcceptanceErr>)
        ensures
            r == namespace_accept_spec(self.default.deep_view()),
    {
        if self.default.is_none() {
            Err(AcceptanceErr::NoEngine)
        } else {
            Ok(())
        }
    }
}

} // verus!
