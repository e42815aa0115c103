//! The engine registry: an arena of engine nodes, a table from every
//! human-facing id to its arena index, and an optional description per
//! node.

use crate::engine::{EngineNode, NodeView};
use crate::text::str_eq;
use vstd::prelude::*;

verus! {

/// Mathematical content of an [`EngineRegistry`].
#[verifier::ext_equal]
pub ghost struct RegView {
    pub engines: Seq<NodeView>,
    pub ids: Seq<(Seq<char>, int)>,
    pub descriptions: Seq<Option<Seq<char>>>,
}

/// The index bound to the first entry of `ids` whose key is `id`, if
/// any. Keys are unique in a well-formed registry, so the first entry is
/// the only one.
pub open spec fn id_lookup(ids: Seq<(Seq<char>, int)>, id: Seq<char>) -> Option<int>
    decreases ids.len(),
{
    if ids.len() == 0 {
        None
    } else if ids[0].0 == id {
        Some(ids[0].1)
    } else {
        id_lookup(ids.skip(1), id)
    }
}

pub proof fn lemma_id_lookup(ids: Seq<(Seq<char>, int)>, id: Seq<char>)
    ensures
        (match id_lookup(ids, id) {
            Some(k) => exists|i: int|
                0 <= i < ids.len() && ids[i].0 == id && ids[i].1 == k,
            None => forall|i: int| 0 <= i < ids.len() ==> ids[i].0 != id,
        }),
    decreases ids.len(),
{
    if ids.len() > 0 {
        if ids[0].0 == id {
            assert(ids[0].0 == id && ids[0].1 == id_lookup(ids, id)->Some_0);
        } else {
            lemma_id_lookup(ids.skip(1), id);
            match id_lookup(ids.skip(1), id) {
                Some(k) => {
                    let i = choose|i: int|
                        0 <= i < ids.skip(1).len() && ids.skip(1)[i].0 == id && ids.skip(1)[i].1
                            == k;
                    assert(ids[i + 1].0 == id && ids[i + 1].1 == k);
                },
                None => {
                    assert forall|i: int| 0 <= i < ids.len() implies ids[i].0 != id by {
                        if i > 0 {
                            assert(ids.skip(1)[i - 1] == ids[i]);
                        }
                    }
                },
            }
        }
    }
}

/// The node that `id` names in `reg`, if any.
pub open spec fn get_node(reg: RegView, id: Seq<char>) -> Option<NodeView> {
    match id_lookup(reg.ids, id) {
        Some(k) => if 0 <= k < reg.engines.len() {
            Some(reg.engines[k])
        } else {
            None
        },
        None => None,
    }
}

/// The description that `id` names in `reg`, if any.
pub open spec fn get_description(reg: RegView, id: Seq<char>) -> Option<Seq<char>> {
    match id_lookup(reg.ids, id) {
        Some(k) => if 0 <= k < reg.descriptions.len() {
            reg.descriptions[k]
        } else {
            None
        },
        None => None,
    }
}

/// An error from modifying the registry's id table.
#[derive(Debug)]
pub enum EngineRegistryModifyError {
    /// An engine with this id already exists.
    AlreadyExists(String),
    /// An engine with this id does not exist.
    NotFound(String),
}

pub struct EngineRegistry {
    engines: Vec<EngineNode>,
    ids: Vec<(String, usize)>,
    descriptions: Vec<Option<String>>,
}

impl View for EngineRegistry {
    type V = RegView;

    closed spec fn view(&self) -> RegView {
        RegView {
            engines: Seq::new(self.engines@.len(), |i: int| self.engines@[i]@),
            ids: Seq::new(self.ids@.len(), |i: int| (self.ids@[i].0@, self.ids@[i].1 as int)),
            descriptions: self.descriptions.deep_view(),
        }
    }
}

impl EngineRegistry {
    /// Every id resolves to a live arena entry, ids are unique, and each
    /// node has a description slot.
    pub open spec fn wf(&self) -> bool {
        &&& self@.descriptions.len() == self@.engines.len()
        &&& (forall|i: int| 0 <= i < self@.ids.len() ==> 0 <= #[trigger] self@.ids[i].1
            < self@.engines.len())
        &&& (forall|i: int, j: int|
            0 <= i < j < self@.ids.len() ==> #[trigger] self@.ids[i].0 != #[trigger] self@.ids[j].0)
    }

    /// An empty registry.
    pub fn new() -> (r: Self)
        ensures
            r.wf(),
            r@.engines.len() == 0,
            r@.ids.len() == 0,
            r@.descriptions.len() == 0,
    {
        let r = EngineRegistry { engines: Vec::new(), ids: Vec::new(), descriptions: Vec::new() };
        proof {
            assert(r@.engines =~= Seq::<NodeView>::empty());
            assert(r@.ids =~= Seq::<(Seq<char>, int)>::empty());
            assert(r@.descriptions =~= Seq::<Option<Seq<char>>>::empty());
        }
        r
    }

    /// The position of `id` in the id table, if any; the index it is
    /// bound to equals [`id_lookup`] of the table.
    fn find_id(&self, id: &str) -> (r: Option<usize>)
        ensures
            (match r {
                Some(p) => p < self@.ids.len() && self@.ids[p as int].0 == id@ && id_lookup(
                    self@.ids,
                    id@,
                ) == Some(self@.ids[p as int].1),
                None => id_lookup(self@.ids, id@) is None,
            }),
    {
        let n = self.ids.len();
        let mut k: usize = 0;
        proof {
            assert(self@.ids.skip(0) =~= self@.ids);
        }
        while k < n
            invariant
                k <= n,
                n == self.ids.len(),
                n == self@.ids.len(),
                forall|i: int| 0 <= i < self@.ids.len() ==> self@.ids[i]
                    == (self.ids@[i].0@, self.ids@[i].1 as int),
                forall|i: int| 0 <= i < k ==> self@.ids[i].0 != id@,
                id_lookup(self@.ids, id@) == id_lookup(self@.ids.skip(k as int), id@),
            decreases n - k,
        {
            proof {
                assert(self@.ids.skip(k as int)[0] == self@.ids[k as int]);
                assert(self@.ids.skip(k as int).skip(1) =~= self@.ids.skip(k + 1));
            }
            if str_eq(self.ids[k].0.as_str(), id) {
                return Some(k);
            }
            k += 1;
        }
        proof {
            assert(self@.ids.skip(n as int) =~= Seq::<(Seq<char>, int)>::empty());
        }
        None
    }

    /// The engine node that `id` names, as [`get_node`] describes it.
    pub fn get<'s>(&'s self, id: &str) -> (r: Option<&'s EngineNode>)
        requires
            self.wf(),
        ensures
            (match r {
                Some(n) => get_node(self@, id@) == Some(n@),
                None => get_node(self@, id@) is None,
            }),
    {
        match self.find_id(id) {
            Some(p) => {
                let idx = self.ids[p].1;
                Some(&self.engines[idx])
            },
            None => None,
        }
    }

    /// The description recorded for the node that `id` names, as
    /// [`get_description`] describes it.
    pub fn description<'s>(&'s self, id: &str) -> (r: Option<&'s str>)
        requires
            self.wf(),
        ensures
            (match r {
                Some(d) => get_description(self@, id@) == Some(d@),
                None => get_description(self@, id@) is None,
            }),
    {
        match self.find_id(id) {
            Some(p) => {
                let idx = self.ids[p].1;
                match &self.descriptions[idx] {
                    Some(d) => Some(d.as_str()),
                    None => None,
                }
            },
            None => None,
        }
    }

    /// Every id the registry knows, in table order.
    pub fn iter_ids(&self) -> (r: Vec<String>)
        ensures
            r.deep_view() =~= Seq::new(self@.ids.len(), |i: int| self@.ids[i].0),
    {
        let n = self.ids.len();
        let mut out: Vec<String> = Vec::new();
        let mut k: usize = 0;
        while k < n
            invariant
                k <= n,
                n == self.ids.len(),
                n == self@.ids.len(),
                out.len() == k,
                forall|i: int| 0 <= i < self@.ids.len() ==> self@.ids[i]
                    == (self.ids@[i].0@, self.ids@[i].1 as int),
                forall|i: int| 0 <= i < k ==> out.deep_view()[i] == self@.ids[i].0,
            decreases n - k,
        {
            let ghost old_dv = out.deep_view();
            out.push(self.ids[k].0.clone());
            proof {
                assert(out.deep_view() =~= old_dv.push(self.ids@[k as int].0@));
            }
            k += 1;
        }
        out
    }

    /// Register `id` as a synonym for whatever node `to` already names.
    /// Fails with `AlreadyExists` when `id` is taken, and with
    /// `NotFound` when `to` is unknown; on success the id table gains
    /// exactly the binding of `id` to `to`'s node.
    pub fn alias(&mut self, id: &str, to: &str) -> (r: Result<(), EngineRegistryModifyError>)
        requires
            old(self).wf(),
        ensures
            final(self).wf(),
            final(self)@.engines == old(self)@.engines,
            final(self)@.descriptions == old(self)@.descriptions,
            (match r {
                Ok(()) => {
                    &&& id_lookup(old(self)@.ids, id@) is None
                    &&& id_lookup(old(self)@.ids, to@) is Some
                    &&& final(self)@.ids =~= old(self)@.ids.push(
                        (id@, id_lookup(old(self)@.ids, to@)->Some_0),
                    )
                },
                Err(EngineRegistryModifyError::AlreadyExists(e)) => {
                    &&& e@ == id@
                    &&& id_lookup(old(self)@.ids, id@) is Some
                    &&& final(self)@.ids == old(self)@.ids
                },
                Err(EngineRegistryModifyError::NotFound(e)) => {
                    &&& e@ == to@
                    &&& id_lookup(old(self)@.ids, id@) is None
                    &&& id_lookup(old(self)@.ids, to@) is None
                    &&& final(self)@.ids == old(self)@.ids
                },
            }),
    {
        if self.find_id(id).is_some() {
            return Err(EngineRegistryModifyError::AlreadyExists(id.to_owned()));
        }
        let key = match self.find_id(to) {
            Some(p) => self.ids[p].1,
            None => {
                return Err(EngineRegistryModifyError::NotFound(to.to_owned()));
            },
        };
        proof {
            lemma_id_lookup(old(self)@.ids, id@);
        }
        self.ids.push((id.to_owned(), key));
        proof {
            assert(self@.ids =~= old(self)@.ids.push((id@, key as int)));
            assert(self@.engines =~= old(self)@.engines);
            assert(self@.descriptions =~= old(self)@.descriptions);
        }
        Ok(())
    }

    /// Append a node with its description to the arena, leaving the id
    /// table unchanged; returns the node's index.
    pub(crate) fn register_engine(
        &mut self,
        node: EngineNode,
        description: Option<String>,
    ) -> (idx: usize)
        requires
            old(self).wf(),
        ensures
            final(self).wf(),
            idx as int == old(self)@.engines.len(),
            final(self)@.engines =~= old(self)@.engines.push(node@),
            final(self)@.descriptions =~= old(self)@.descriptions.push(description.deep_view()),
            final(self)@.ids == old(self)@.ids,
    {
        let idx = self.engines.len();
        self.engines.push(node);
        self.descriptions.push(description);
        proof {
            assert(self@.engines =~= old(self)@.engines.push(self.engines@[idx as int]@));
            assert(self@.descriptions =~= old(self)@.descriptions.push(
                self.descriptions@[idx as int].deep_view(),
            ));
            assert(self@.ids =~= old(self)@.ids);
        }
        idx
    }

    /// Bind `id` to the node at `idx` unless `id` is already taken; an
    /// id, once registered, is never overwritten.
    pub(crate) fn register_id(&mut self, id: String, idx: usize) -> (r: bool)
        requires
            old(self).wf(),
            idx < old(self)@.engines.len(),
        ensures
            final(self).wf(),
            final(self)@.engines == old(self)@.engines,
            final(self)@.descriptions == old(self)@.descriptions,
            r == (id_lookup(old(self)@.ids, id@) is None),
            final(self)@.ids =~= if id_lookup(old(self)@.ids, id@) is None {
                old(self)@.ids.push((id@, idx as int))
            } else {
                old(self)@.ids
            },
    {
        if self.find_id(id.as_str()).is_some() {
            return false;
        }
        proof {
            lemma_id_lookup(old(self)@.ids, id@);
        }
        let ghost idv = id@;
        self.ids.push((id, idx));
        proof {
            assert(self@.engines =~= old(self)@.engines);
            assert(self@.descriptions =~= old(self)@.descriptions);
            assert(self@.ids =~= old(self)@.ids.push((idv, idx as int)));
        }
        true
    }
}

} // verus!
