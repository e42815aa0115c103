//! Built-in plugin for Rust search.

use crate::arena::{ArenaEngine, Fail, HandleEngine, SearchEngine};
use crate::mention::Query;
use crate::router::{leaves_lookup, Route, RouteTy, RouterMapLeaves};
use vstd::prelude::*;

verus! {

#[derive(Clone, Copy, Debug, PartialEq, Eq, Structural)]
pub struct PluginRust;

/// The router of the Rust plugin: the standard library docs for an
/// empty residue, a leaf table for the named registries, and the
/// docs.rs engine for anything else.
pub struct RouterRust {
    pub std_docs: HandleEngine,
    pub map: RouterMapLeaves,
    pub docs_rs: HandleEngine,
}

/// The leaf bindings of the Rust router.
pub open spec fn rust_bindings(base: int) -> Seq<(Seq<char>, HandleEngine)> {
    seq![
        ("crates"@, HandleEngine((base + 1) as usize)),
        ("lib"@, HandleEngine((base + 2) as usize)),
        ("docs"@, HandleEngine((base + 3) as usize)),
        ("std"@, HandleEngine(base as usize)),
    ]
}

impl PluginRust {
    pub fn new() -> (r: Self)
        ensures
            r == PluginRust,
    {
        PluginRust
    }

    /// Install the Rust engines into `arena` and return their router.
    pub fn router(&self, arena: &mut ArenaEngine) -> (r: RouterRust)
        requires
            old(arena).arena_view().len() + 4 <= usize::MAX,
        ensures
            final(arena).arena_view() =~= old(arena).arena_view().push(
                SearchEngine::RustStdDocs,
            ).push(SearchEngine::CratesIo).push(SearchEngine::LibRs).push(SearchEngine::DocsRs),
            r.std_docs.0 == old(arena).arena_view().len(),
            r.docs_rs.0 == old(arena).arena_view().len() + 3,
            r.map.map_view() == rust_bindings(old(arena).arena_view().len() as int),
    {
        let handle_std = arena.insert(SearchEngine::RustStdDocs);
        let handle_crates = arena.insert(SearchEngine::CratesIo);
        let handle_lib = arena.insert(SearchEngine::LibRs);
        let handle_docs = arena.insert(SearchEngine::DocsRs);
        let mut bindings: Vec<(String, HandleEngine)> = Vec::new();
        bindings.push(("crates".to_owned(), handle_crates));
        bindings.push(("lib".to_owned(), handle_lib));
        bindings.push(("docs".to_owned(), handle_docs));
        bindings.push(("std".to_owned(), handle_std));
        let map = RouterMapLeaves::new(bindings);
        proof {
            assert(map.map_view() =~= rust_bindings(old(arena).arena_view().len() as int));
        }
        RouterRust { std_docs: handle_std, map, docs_rs: handle_docs }
    }
}

impl Default for PluginRust {
    fn default() -> (r: Self)
        ensures
            r == PluginRust,
    {
        Self::new()
    }
}

impl RouterRust {
    /// Route a query, as the plugin's composition prescribes.
    pub fn route(&self, query: &mut Query) -> (r: Result<Option<Route>, Fail>)
        requires
            old(query).mention.wf(),
        ensures
            final(query).mention.wf(),
            final(query).mention.seq_view() == old(query).mention.seq_view(),
            final(query).content@ == old(query).content@,
            ({
                let residue = old(query).mention.seq_view().skip(
                    old(query).mention.resolved_count(),
                );
                if residue.len() == 0 {
                    &&& r == Ok::<Option<Route>, Fail>(
                        Some(Route { ty: RouteTy::Static, engine: self.std_docs }),
                    )
                    &&& final(query).mention.resolved_count() == old(
                        query,
                    ).mention.resolved_count()
                } else {
                    match leaves_lookup(self.map.map_view(), residue[0]) {
                        Some(h) => {
                            &&& r == Ok::<Option<Route>, Fail>(
                                Some(Route { ty: RouteTy::Static, engine: h }),
                            )
                            &&& final(query).mention.resolved_count() == old(
                                query,
                            ).mention.resolved_count() + 1
                        },
                        None => {
                            &&& r == Ok::<Option<Route>, Fail>(
                                Some(Route { ty: RouteTy::Static, engine: self.docs_rs }),
                            )
                            &&& final(query).mention.resolved_count() == old(
                                query,
                            ).mention.resolved_count()
                        },
                    }
                }
            }),
    {
        let residue = query.residue();
        if residue.len() == 0 {
            return Ok(Some(Route::new_static(self.std_docs)));
        }
        match self.map.route(query) {
            Ok(Some(route)) => Ok(Some(route)),
            Ok(None) => Ok(Some(Route::new_static(self.docs_rs))),
            Err(f) => Err(f),
        }
    }
}

} // verus!
