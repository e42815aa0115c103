//! Built-in plugin for JavaScript search.

use crate::arena::{ArenaEngine, HandleEngine, SearchEngine};
use vstd::prelude::*;

verus! {

#[derive(Clone, Copy, Debug, PartialEq, Eq, Structural)]
pub struct PluginJavascript;

impl PluginJavascript {
    /// Install the JavaScript engine into `arena`; its bare handle is
    /// the router, routing every query to it.
    pub fn router(&self, arena: &mut ArenaEngine) -> (r: HandleEngine)
        ensures
            final(arena).arena_view() =~= old(arena).arena_view().push(SearchEngine::Javascript),
            r.0 == old(arena).arena_view().len(),
    {
        arena.insert(SearchEngine::Javascript)
    }
}

} // verus!
