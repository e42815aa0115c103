//! Routers: they resolve a query's mention, segment by segment, to an
//! engine handle. Routing is deterministic and must not touch the
//! query's content; only the mention's resolution cursor moves.

use crate::arena::{Fail, HandleEngine};
use crate::mention::Query;
use crate::text::str_eq;
use vstd::prelude::*;

verus! {

/// The type of a routing result.
#[derive(Clone, Copy, Debug, PartialEq, Eq, Structural)]
pub enum RouteTy {
    /// Another query sharing the same prefix routes to the same engine.
    Static,
    /// No assumption can be made about other queries.
    Dynamic,
}

/// A routing result: the engine to route to, and how stable the choice
/// is.
#[derive(Clone, Copy, Debug, PartialEq, Eq, Structural)]
pub struct Route {
    pub ty: RouteTy,
    pub engine: HandleEngine,
}

impl Route {
    /// A static route to `engine`.
    pub fn new_static(engine: HandleEngine) -> (r: Self)
        ensures
            r == (Route { ty: RouteTy::Static, engine }),
    {
        Route { ty: RouteTy::Static, engine }
    }

    /// A dynamic route to `engine`.
    pub fn new_dynamic(engine: HandleEngine) -> (r: Self)
        ensures
            r == (Route { ty: RouteTy::Dynamic, engine }),
    {
        Route { ty: RouteTy::Dynamic, engine }
    }
}

impl HandleEngine {
    /// A bare handle routes everything to itself, statically.
    pub fn route(&self, _query: &mut Query) -> (r: Result<Option<Route>, Fail>)
        ensures
            r == Ok::<Option<Route>, Fail>(Some(Route { ty: RouteTy::Static, engine: *self })),
    {
        Ok(Some(Route::new_static(*self)))
    }
}

/// The handle bound to `key` in the table, taking the latest binding
/// when a key was bound twice.
pub open spec fn leaves_lookup(t: Seq<(Seq<char>, HandleEngine)>, key: Seq<char>) -> Option<
    HandleEngine,
>
    decreases t.len(),
{
    if t.len() == 0 {
        None
    } else if t.last().0 == key {
        Some(t.last().1)
    } else {
        leaves_lookup(t.drop_last(), key)
    }
}

/// A router that stores bare engines keyed by one mention segment, as
/// leaves of a routing tree.
pub struct RouterMapLeaves {
    map: Vec<(String, HandleEngine)>,
}

impl RouterMapLeaves {
    /// The bindings, in insertion order; later bindings shadow earlier
    /// ones.
    pub closed spec fn map_view(&self) -> Seq<(Seq<char>, HandleEngine)> {
        Seq::new(self.map@.len(), |i: int| (self.map@[i].0@, self.map@[i].1))
    }

    /// A router over the given bindings.
    pub fn new(map: Vec<(String, HandleEngine)>) -> (r: Self)
        ensures
            r.map_view() == Seq::new(map@.len(), |i: int| (map@[i].0@, map@[i].1)),
    {
        RouterMapLeaves { map }
    }

    /// Take over every binding of `other`; its bindings shadow this
    /// router's own.
    pub fn merge(&mut self, other: Self)
        ensures
            final(self).map_view() == old(self).map_view() + other.map_view(),
    {
        let ghost other_view = other.map_view();
        let ghost base = old(self).map_view();
        let mut other = other;
        while other.map.len() > 0
            invariant
                self.map_view() + Seq::new(
                    other.map@.len(),
                    |i: int| (other.map@[i].0@, other.map@[i].1),
                ) == base + other_view,
            decreases other.map.len(),
        {
            let ghost pre_self = self.map_view();
            let ghost pre_other = Seq::new(
                other.map@.len(),
                |i: int| (other.map@[i].0@, other.map@[i].1),
            );
            let entry = other.map.remove(0);
            self.map.push(entry);
            proof {
                assert(self.map_view() =~= pre_self.push(pre_other[0]));
                assert(Seq::new(other.map@.len(), |i: int| (other.map@[i].0@, other.map@[i].1))
                    =~= pre_other.skip(1));
                assert(pre_self.push(pre_other[0]) + pre_other.skip(1) =~= pre_self + pre_other);
            }
        }
        proof {
            assert(Seq::new(other.map@.len(), |i: int| (other.map@[i].0@, other.map@[i].1))
                =~= Seq::<(Seq<char>, HandleEngine)>::empty());
            assert(self.map_view() + Seq::<(Seq<char>, HandleEngine)>::empty() =~= self.map_view());
        }
    }

    /// Look a key up, as [`leaves_lookup`] describes it.
    fn lookup(&self, key: &str) -> (r: Option<HandleEngine>)
        ensures
            r == leaves_lookup(self.map_view(), key@),
    {
        let n = self.map.len();
        let mut k = n;
        proof {
            assert(self.map_view().take(n as int) =~= self.map_view());
        }
        while k > 0
            invariant
                k <= n,
                n == self.map.len(),
                leaves_lookup(self.map_view(), key@) == leaves_lookup(
                    self.map_view().take(k as int),
                    key@,
                ),
            decreases k,
        {
            proof {
                assert(self.map_view().take(k as int).last() == self.map_view()[k - 1]);
                assert(self.map_view().take(k as int).drop_last() =~= self.map_view().take(k - 1));
            }
            if str_eq(self.map[k - 1].0.as_str(), key) {
                return Some(self.map[k - 1].1);
            }
            k -= 1;
        }
        proof {
            assert(self.map_view().take(0) =~= Seq::<(Seq<char>, HandleEngine)>::empty());
        }
        None
    }

    /// Route on the first residue segment: no residue or no binding
    /// routes nothing; a bound segment is resolved and its engine
    /// returned statically.
    pub fn route(&self, query: &mut Query) -> (r: Result<Option<Route>, Fail>)
        requires
            old(query).mention.wf(),
        ensures
            final(query).mention.wf(),
            final(query).mention.seq_view() == old(query).mention.seq_view(),
            final(query).content@ == old(query).content@,
            ({
                let residue = old(query).mention.seq_view().skip(
                    old(query).mention.resolved_count(),
                );
                if residue.len() == 0 {
                    &&& r == Ok::<Option<Route>, Fail>(None)
                    &&& final(query).mention.resolved_count() == old(
                        query,
                    ).mention.resolved_count()
                } else {
                    match leaves_lookup(self.map_view(), residue[0]) {
                        None => {
                            &&& r == Ok::<Option<Route>, Fail>(None)
                            &&& final(query).mention.resolved_count() == old(
                                query,
                            ).mention.resolved_count()
                        },
                        Some(h) => {
                            &&& r == Ok::<Option<Route>, Fail>(
                                Some(Route { ty: RouteTy::Static, engine: h }),
                            )
                            &&& final(query).mention.resolved_count() == old(
                                query,
                            ).mention.resolved_count() + 1
                        },
                    }
                }
            }),
    {
        let residue = query.residue();
        if residue.len() == 0 {
            return Ok(None);
        }
        match self.lookup(residue[0].as_str()) {
            None => Ok(None),
            Some(engine) => {
                query.mention.resolve_one();
                Ok(Some(Route::new_static(engine)))
            },
        }
    }
}

} // verus!
