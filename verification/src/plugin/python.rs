//! Built-in plugin for Python search.

use crate::arena::{ArenaEngine, Fail, HandleEngine, SearchEngine};
use crate::mention::Query;
use crate::router::{Route, RouteTy};
use crate::text::str_eq;
use vstd::prelude::*;

verus! {

#[derive(Clone, Copy, Debug, PartialEq, Eq, Structural)]
pub struct PluginPython;

/// The router of the Python plugin: the standard library docs for an
/// empty residue, PyPI for the `pypi` segment, and the prominent
/// packages engine for anything else.
pub struct RouterPython {
    pub std_docs: HandleEngine,
    pub pypi: HandleEngine,
    pub packages: HandleEngine,
}

impl PluginPython {
    pub fn new() -> (r: Self)
        ensures
            r == PluginPython,
    {
        PluginPython
    }

    /// Install the Python engines into `arena` and return their router.
    pub fn router(&self, arena: &mut ArenaEngine) -> (r: RouterPython)
        ensures
            final(arena).arena_view() =~= old(arena).arena_view().push(
                SearchEngine::PythonStdDocs,
            ).push(SearchEngine::Pypi).push(SearchEngine::PythonPackages),
            r.std_docs.0 == old(arena).arena_view().len(),
            r.pypi.0 == old(arena).arena_view().len() + 1,
            r.packages.0 == old(arena).arena_view().len() + 2,
    {
        let handle_std = arena.insert(SearchEngine::PythonStdDocs);
        let handle_pypi = arena.insert(SearchEngine::Pypi);
        let handle_pkg = arena.insert(SearchEngine::PythonPackages);
        RouterPython { std_docs: handle_std, pypi: handle_pypi, packages: handle_pkg }
    }
}

impl Default for PluginPython {
    fn default() -> (r: Self)
        ensures
            r == PluginPython,
    {
        Self::new()
    }
}

impl RouterPython {
    /// Route a query, as the plugin's composition prescribes.
    pub fn route(&self, query: &mut Query) -> (r: Result<Option<Route>, Fail>)
        requires
            old(query).mention.wf(),
        ensures
            final(query).mention.wf(),
            final(query).mention.seq_view() == old(query).mention.seq_view(),
            final(query).content@ == old(query).content@,
            ({
                let residue = old(query).mention.seq_view().skip(
                    old(query).mention.resolved_count(),
                );
                if residue.len() == 0 {
                    &&& r == Ok::<Option<Route>, Fail>(
                        Some(Route { ty: RouteTy::Static, engine: self.std_docs }),
                    )
                    &&& final(query).mention.resolved_count() == old(
                        query,
                    ).mention.resolved_count()
                } else if residue[0] == "pypi"@ {
                    &&& r == Ok::<Option<Route>, Fail>(
                        Some(Route { ty: RouteTy::Static, engine: self.pypi }),
                    )
                    &&& final(query).mention.resolved_count() == old(
                        query,
                    ).mention.resolved_count() + 1
                } else {
                    &&& r == Ok::<Option<Route>, Fail>(
                        Some(Route { ty: RouteTy::Static, engine: self.packages }),
                    )
                    &&& final(query).mention.resolved_count() == old(
                        query,
                    ).mention.resolved_count()
                }
            }),
    {
        let residue = query.residue();
        if residue.len() == 0 {
            return Ok(Some(Route::new_static(self.std_docs)));
        }
        if str_eq(residue[0].as_str(), "pypi") {
            query.mention.resolve_one();
            return Ok(Some(Route::new_static(self.pypi)));
        }
        Ok(Some(Route::new_static(self.packages)))
    }
}

} // verus!
