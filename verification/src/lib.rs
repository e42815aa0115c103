//! Core of a search-redirection tool: a query parser, a registry of
//! composable resolution engines, and the bounded forward-chasing loop
//! that resolves a query to a terminal reaction.

pub mod arena;
pub mod compose;
pub mod engine;
pub mod laws;
pub mod mention;
pub mod parse;
pub mod plugin;
pub mod query;
pub mod reaction;
pub mod registry;
pub mod router;
pub mod text;
pub mod unicode;
pub mod urls;

use engine::{accept_spec, react_spec, EngineNode, NodeView};
use query::{mention_head_spec, Query, QueryView};
use reaction::{
    reaction_view, AcceptanceErr, ErrView, Forward, Reaction, ReactionErr, ReactionVerb, VerbView,
};
use registry::{get_node, EngineRegistry, RegView};
use vstd::prelude::*;

verus! {

/// Maximum number of engines a single resolution may pass through
/// before it aborts with `TooManyForward`.
pub const MAX_FORWARD_DEPTH: u8 = 16;

/// The mention path after a forward rewrite: `prepend` becomes the new
/// head and the first `skip` old segments are dropped.
///
/// - an empty path becomes `[prepend]`, regardless of `skip`;
/// - `skip == 0` inserts `prepend` at the front;
/// - `skip == 1` replaces the head;
/// - `skip == 2` replaces the head and removes the old second segment,
///   if there is one;
/// - any larger `skip` drops the first `skip` segments and prepends.
pub open spec fn rewrite_mention(m: Seq<Seq<char>>, prepend: Seq<char>, skip: int) -> Seq<
    Seq<char>,
> {
    if m.len() == 0 {
        seq![prepend]
    } else if skip == 0 {
        seq![prepend] + m
    } else if skip == 1 {
        m.update(0, prepend)
    } else if skip == 2 {
        if m.len() > 1 {
            seq![prepend] + m.skip(2)
        } else {
            seq![prepend]
        }
    } else if skip >= m.len() {
        seq![prepend]
    } else {
        seq![prepend] + m.skip(skip)
    }
}

/// The query after a forward rewrite: only the mention path changes.
pub open spec fn rewrite_query(q: QueryView, prepend: Seq<char>, skip: int) -> QueryView {
    QueryView {
        mention: rewrite_mention(q.mention, prepend, skip),
        content: q.content,
        scope: q.scope,
    }
}

/// One run of the resolution loop from `node` with `hops` hops left:
/// gate-check, react, and either stop on a terminal reaction or an
/// error, or follow the forward with the mention rewritten.
pub open spec fn run_loop(reg: RegView, q: QueryView, node: NodeView, hops: nat) -> Result<
    VerbView,
    ErrView,
>
    decreases hops,
{
    if hops == 0 {
        Err(ErrView::TooManyForward)
    } else {
        match accept_spec(node, q) {
            Err(e) => Err(ErrView::NotAccepted(e)),
            Ok(()) => match react_spec(node, q) {
                Err(e) => Err(e),
                Ok(VerbView::Navigate(u)) => Ok(VerbView::Navigate(u)),
                Ok(VerbView::ForwardMention(prepend, skip)) => match get_node(reg, prepend) {
                    None => Err(ErrView::NotAccepted(AcceptanceErr::NoEngine)),
                    Some(next) => run_loop(
                        reg,
                        rewrite_query(q, prepend, skip),
                        next,
                        (hops - 1) as nat,
                    ),
                },
            },
        }
    }
}

/// What resolving `q` against `reg` yields: the engine named by the
/// first mention segment (or the empty id) is looked up and the loop is
/// run with the full hop budget.
pub open spec fn resolve_spec(reg: RegView, q: QueryView) -> Result<VerbView, ErrView> {
    match get_node(reg, mention_head_spec(q)) {
        None => Err(ErrView::NotAccepted(AcceptanceErr::NoEngine)),
        Some(node) => run_loop(reg, q, node, MAX_FORWARD_DEPTH as nat),
    }
}

/// A built, read-only set of engines ready to resolve queries.
pub struct Instance {
    pub engine_registry: EngineRegistry,
}

impl View for Instance {
    type V = RegView;

    open spec fn view(&self) -> RegView {
        self.engine_registry@
    }
}

impl Instance {
    /// The registry's ids resolve to live entries and are unique.
    pub open spec fn wf(&self) -> bool {
        self.engine_registry.wf()
    }

    /// The engine that `id` names, or the error that a resolution
    /// reports for an unknown engine.
    pub(crate) fn engine<'i>(&'i self, id: &str) -> (r: Result<&'i EngineNode, ReactionErr>)
        requires
            self.wf(),
        ensures
            (match r {
                Ok(n) => get_node(self@, id@) == Some(n@),
                Err(e) => get_node(self@, id@) is None && e@ == ErrView::NotAccepted(
                    AcceptanceErr::NoEngine,
                ),
            }),
    {
        match self.engine_registry.get(id) {
            Some(n) => Ok(n),
            None => Err(ReactionErr::NotAccepted(AcceptanceErr::NoEngine)),
        }
    }

    /// Resolve `query` to a terminal reaction, as [`resolve_spec`]
    /// describes it: thread it through engines, rewriting the mention
    /// path on each forward, for at most [`MAX_FORWARD_DEPTH`] hops.
    #[verifier::loop_isolation(false)]
    pub fn react(&self, query: Query) -> (r: Reaction)
        requires
            self.wf(),
        ensures
            reaction_view(r) == resolve_spec(self@, query@),
    {
        let ghost q0 = query@;
        let mut query = query;
        let mut engine: &EngineNode = match self.engine(query.mention_head()) {
            Ok(e) => e,
            Err(e) => {
                return Err(e);
            },
        };
        let mut count: u8 = 0;
        loop
            invariant
                self.wf(),
                count <= MAX_FORWARD_DEPTH,
                run_loop(self@, query@, engine@, (MAX_FORWARD_DEPTH - count) as nat)
                    == resolve_spec(self@, q0),
            decreases MAX_FORWARD_DEPTH - count,
        {
            count += 1;
            if count > MAX_FORWARD_DEPTH {
                return Err(ReactionErr::TooManyForward);
            }
            match engine.accept(&query, self) {
                Err(e) => {
                    return Err(ReactionErr::NotAccepted(e));
                },
                Ok(()) => {},
            }
            let reaction = engine.react(&query, self);
            match reaction {
                Err(e) => {
                    return Err(e);
                },
                Ok(ReactionVerb::Navigate(n)) => {
                    return Ok(ReactionVerb::Navigate(n));
                },
                Ok(ReactionVerb::Forward(Forward::Mention(prepend, skip))) => {
                    engine = match self.engine(prepend.as_str()) {
                        Ok(e) => e,
                        Err(e) => {
                            return Err(e);
                        },
                    };
                    apply_forward(&mut query.mention, prepend, skip);
                },
            }
        }
    }
}

/// Apply the forward rewrite table to a mention path, as
/// [`rewrite_mention`] describes it.
pub fn apply_forward(mention: &mut Vec<String>, prepend: String, skip: usize)
    ensures
        final(mention).deep_view() == rewrite_mention(old(mention).deep_view(), prepend@, skip as int),
{
    let ghost m0 = old(mention).deep_view();
    let len = mention.len();
    if len == 0 {
        mention.push(prepend);
        proof {
            assert(mention.deep_view() =~= seq![prepend@]);
        }
    } else if skip == 0 {
        mention.insert(0, prepend);
        proof {
            assert(mention.deep_view() =~= seq![prepend@] + m0);
        }
    } else if skip == 1 {
        mention.remove(0);
        mention.insert(0, prepend);
        proof {
            assert(mention.deep_view() =~= m0.update(0, prepend@));
        }
    } else if skip == 2 {
        mention.remove(0);
        mention.insert(0, prepend);
        if len > 1 {
            mention.remove(1);
            proof {
                assert(mention.deep_view() =~= seq![prepend@] + m0.skip(2));
            }
        } else {
            proof {
                assert(mention.deep_view() =~= seq![prepend@]);
            }
        }
    } else {
        let mut out: Vec<String> = Vec::new();
        out.push(prepend);
        let mut k: usize = skip;
        if k > len {
            k = len;
        }
        let ghost start = k as int;
        while k < len
            invariant
                start <= k <= len,
                len == mention.len(),
                mention.deep_view() == m0,
                out.deep_view().len() == 1 + k - start,
                out.deep_view()[0] == prepend@,
                forall|i: int| 0 <= i < k - start ==> #[trigger] out.deep_view()[i + 1] == m0[start + i],
            decreases len - k,
        {
            let ghost old_dv = out.deep_view();
            out.push(mention[k].clone());
            proof {
                assert(out.deep_view() =~= old_dv.push(m0[k as int]));
            }
            k += 1;
        }
        proof {
            let rhs = seq![prepend@] + m0.subrange(start, len as int);
            assert forall|j: int| 0 <= j < out.deep_view().len() implies out.deep_view()[j] == rhs[
                j
            ] by {
                if j >= 1 {
                    assert(out.deep_view()[(j - 1) + 1] == m0[start + (j - 1)]);
                }
            }
            assert(out.deep_view() =~= rhs);
        }
        *mention = out;
        proof {
            if skip >= m0.len() {
                assert(mention.deep_view() =~= seq![prepend@]);
            } else {
                assert(m0.subrange(start, len as int) =~= m0.skip(skip as int));
            }
        }
    }
}

} // verus!
