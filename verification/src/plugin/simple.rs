//! A plugin that loads simple replacement rules, one engine per rule.

use crate::arena::{ArenaEngine, HandleEngine, SearchEngine};
use crate::router::RouterMapLeaves;
use vstd::prelude::*;

verus! {

/// One declarative search-engine rule.
pub struct ReplaceRuleEntry {
    /// The name of the search engine.
    pub name: String,
    /// The template string, with `{}` for the query.
    pub template: String,
    /// The shortcuts that reach the engine.
    pub shortcut: Vec<String>,
    /// An optional description.
    pub description: Option<String>,
    /// An optional OpenSearch suggestion URL.
    pub suggestion: Option<String>,
}

/// A plugin holding a list of rules.
pub struct PluginSimple {
    pub rules: Vec<ReplaceRuleEntry>,
}

/// The bindings of one rule: each shortcut bound to the rule's engine.
pub open spec fn shortcut_bindings(sc: Seq<Seq<char>>, h: HandleEngine) -> Seq<
    (Seq<char>, HandleEngine),
> {
    Seq::new(sc.len(), |i: int| (sc[i], h))
}

/// The bindings of a rule list whose engines start at index `base`.
pub open spec fn simple_bindings(rules: Seq<ReplaceRuleEntry>, base: int) -> Seq<
    (Seq<char>, HandleEngine),
>
    decreases rules.len(),
{
    if rules.len() == 0 {
        Seq::empty()
    } else {
        shortcut_bindings(rules[0].shortcut.deep_view(), HandleEngine(base as usize))
            + simple_bindings(rules.skip(1), base + 1)
    }
}

impl PluginSimple {
    /// A plugin over the given rules.
    pub fn new(rules: Vec<ReplaceRuleEntry>) -> (r: Self)
        ensures
            r.rules == rules,
    {
        PluginSimple { rules }
    }

    /// Install one engine per rule into `arena` and return the leaf
    /// table binding every shortcut to its rule's engine.
    #[verifier::loop_isolation(false)]
    pub fn router(&self, arena: &mut ArenaEngine) -> (r: RouterMapLeaves)
        requires
            old(arena).arena_view().len() + self.rules@.len() <= usize::MAX,
        ensures
            final(arena).arena_view().len() == old(arena).arena_view().len() + self.rules@.len(),
            (forall|i: int| 0 <= i < old(arena).arena_view().len() ==> final(arena).arena_view()[i]
                == old(arena).arena_view()[i]),
            (forall|i: int|
                old(arena).arena_view().len() <= i < final(arena).arena_view().len() ==> ((
                #[trigger] final(arena).arena_view()[i]) matches SearchEngine::Simple { template }
                    && template@ == self.rules@[i - old(arena).arena_view().len()].template@)),
            r.map_view() == simple_bindings(self.rules@, old(arena).arena_view().len() as int),
    {
        let ghost base = arena.arena_view().len() as int;
        let mut bindings: Vec<(String, HandleEngine)> = Vec::new();
        let n = self.rules.len();
        let mut k: usize = 0;
        proof {
            assert(self.rules@.skip(0) =~= self.rules@);
        }
        while k < n
            invariant
                k <= n,
                n == self.rules.len(),
                arena.arena_view().len() == base + k,
                (forall|i: int| 0 <= i < base ==> arena.arena_view()[i] == old(
                    arena,
                ).arena_view()[i]),
                (forall|i: int|
                    base <= i < base + k ==> ((#[trigger] arena.arena_view()[i])
                        matches SearchEngine::Simple { template } && template@ == self.rules@[
                        i - base
                    ].template@)),
                Seq::new(bindings@.len(), |i: int| (bindings@[i].0@, bindings@[i].1))
                    + simple_bindings(self.rules@.skip(k as int), base + k) == simple_bindings(
                    self.rules@,
                    base,
                ),
            decreases n - k,
        {
            let ghost pre_bindings = Seq::new(
                bindings@.len(),
                |i: int| (bindings@[i].0@, bindings@[i].1),
            );
            let rule = &self.rules[k];
            let h = arena.insert(SearchEngine::Simple { template: rule.template.clone() });
            let m = rule.shortcut.len();
            let mut j: usize = 0;
            while j < m
                invariant
                    j <= m,
                    m == self.rules@[k as int].shortcut.len(),
                    h.0 == base + k,
                    Seq::new(bindings@.len(), |i: int| (bindings@[i].0@, bindings@[i].1))
                        =~= pre_bindings + shortcut_bindings(
                        self.rules@[k as int].shortcut.deep_view().take(j as int),
                        h,
                    ),
                decreases m - j,
            {
                let ghost before = Seq::new(
                    bindings@.len(),
                    |i: int| (bindings@[i].0@, bindings@[i].1),
                );
                bindings.push((self.rules[k].shortcut[j].clone(), h));
                proof {
                    assert(Seq::new(bindings@.len(), |i: int| (bindings@[i].0@, bindings@[i].1))
                        =~= before.push((self.rules@[k as int].shortcut.deep_view()[j as int], h)));
                    assert(before.push(
                        (self.rules@[k as int].shortcut.deep_view()[j as int], h),
                    ) =~= pre_bindings + shortcut_bindings(
                        self.rules@[k as int].shortcut.deep_view().take(j + 1),
                        h,
                    ));
                }
                j += 1;
            }
            proof {
                assert(self.rules@[k as int].shortcut.deep_view().take(m as int)
                    =~= self.rules@[k as int].shortcut.deep_view());
                assert(self.rules@.skip(k as int)[0] == self.rules@[k as int]);
                assert(self.rules@.skip(k as int).skip(1) =~= self.rules@.skip(k + 1));
                assert(pre_bindings + (shortcut_bindings(
                    self.rules@[k as int].shortcut.deep_view(),
                    h,
                ) + simple_bindings(self.rules@.skip(k + 1), base + k + 1)) =~= (pre_bindings
                    + shortcut_bindings(self.rules@[k as int].shortcut.deep_view(), h))
                    + simple_bindings(self.rules@.skip(k + 1), base + k + 1));
            }
            k += 1;
        }
        proof {
            assert(self.rules@.skip(n as int) =~= Seq::<ReplaceRuleEntry>::empty());
            let bv = Seq::new(bindings@.len(), |i: int| (bindings@[i].0@, bindings@[i].1));
            assert(bv + Seq::<(Seq<char>, HandleEngine)>::empty() =~= bv);
        }
        RouterMapLeaves::new(bindings)
    }
}

} // verus!
