//! Built-in plugin for general web search.

use crate::arena::{has_cjk, str_has_cjk, ArenaEngine, Fail, HandleEngine, SearchEngine};
use crate::mention::Query;
use crate::router::{Route, RouteTy, RouterMapLeaves};
use vstd::prelude::*;

verus! {

#[derive(Clone, Copy, Debug, PartialEq, Eq, Structural)]
pub struct PluginSearch;

/// The fallback router of the search plugin: it picks an engine from
/// the content alone and never consumes a mention segment.
pub struct RouterSearchFallback {
    pub ddg_bang: HandleEngine,
    pub ddg_direct: HandleEngine,
    pub bing_china: HandleEngine,
    pub google: HandleEngine,
}

/// The engine the fallback picks: DuckDuckGo's bang or direct form for
/// content opening with `!` or `\`, the China Bing edition for CJK
/// content, and Google otherwise.
pub open spec fn fallback_pick(f: RouterSearchFallback, content: Seq<char>) -> HandleEngine {
    if content.len() > 0 && content[0] == '!' {
        f.ddg_bang
    } else if content.len() > 0 && content[0] == '\\' {
        f.ddg_direct
    } else if has_cjk(content) {
        f.bing_china
    } else {
        f.google
    }
}

/// The leaf bindings of the search plugin, over the handles of the nine
/// engines it installs, in insertion order.
pub open spec fn search_bindings(base: int) -> Seq<(Seq<char>, HandleEngine)> {
    seq![
        ("g"@, HandleEngine(base as usize)),
        ("google"@, HandleEngine(base as usize)),
        ("b"@, HandleEngine((base + 1) as usize)),
        ("bing"@, HandleEngine((base + 1) as usize)),
        ("bd"@, HandleEngine((base + 7) as usize)),
        ("baidu"@, HandleEngine((base + 7) as usize)),
        ("sg"@, HandleEngine((base + 8) as usize)),
        ("sogou"@, HandleEngine((base + 8) as usize)),
        ("d"@, HandleEngine((base + 3) as usize)),
        ("ddg"@, HandleEngine((base + 3) as usize)),
        ("w"@, HandleEngine((base + 6) as usize)),
        ("wiki"@, HandleEngine((base + 6) as usize)),
    ]
}

/// The engines the search plugin installs, in insertion order.
pub open spec fn search_engines() -> Seq<SearchEngine> {
    seq![
        SearchEngine::Google,
        SearchEngine::Bing { china: false },
        SearchEngine::Bing { china: true },
        SearchEngine::DuckDuckGo { bang: false, direct: false },
        SearchEngine::DuckDuckGo { bang: true, direct: false },
        SearchEngine::DuckDuckGo { bang: false, direct: true },
        SearchEngine::Wikipedia,
        SearchEngine::Baidu,
        SearchEngine::Sogou,
    ]
}

impl PluginSearch {
    pub fn new() -> (r: Self)
        ensures
            r == PluginSearch,
    {
        PluginSearch
    }

    /// Install the search engines into `arena` and return the leaf
    /// table together with the content-driven fallback router.
    pub fn router(&self, arena: &mut ArenaEngine) -> (r: (RouterMapLeaves, RouterSearchFallback))
        requires
            old(arena).arena_view().len() + 9 <= usize::MAX,
        ensures
            final(arena).arena_view() =~= old(arena).arena_view() + search_engines(),
            r.0.map_view() == search_bindings(old(arena).arena_view().len() as int),
            r.1.ddg_bang.0 == old(arena).arena_view().len() + 4,
            r.1.ddg_direct.0 == old(arena).arena_view().len() + 5,
            r.1.bing_china.0 == old(arena).arena_view().len() + 2,
            r.1.google.0 == old(arena).arena_view().len(),
    {
        let engine_google = arena.insert(SearchEngine::Google);
        let engine_bing = arena.insert(SearchEngine::Bing { china: false });
        let engine_bing_china = arena.insert(SearchEngine::Bing { china: true });
        let engine_ddg = arena.insert(SearchEngine::DuckDuckGo { bang: false, direct: false });
        let engine_ddg_bang = arena.insert(SearchEngine::DuckDuckGo { bang: true, direct: false });
        let engine_ddg_direct = arena.insert(
            SearchEngine::DuckDuckGo { bang: false, direct: true },
        );
        let engine_wikipedia = arena.insert(SearchEngine::Wikipedia);
        let engine_baidu = arena.insert(SearchEngine::Baidu);
        let engine_sogou = arena.insert(SearchEngine::Sogou);
        let mut bindings: Vec<(String, HandleEngine)> = Vec::new();
        bindings.push(("g".to_owned(), engine_google));
        bindings.push(("google".to_owned(), engine_google));
        bindings.push(("b".to_owned(), engine_bing));
        bindings.push(("bing".to_owned(), engine_bing));
        bindings.push(("bd".to_owned(), engine_baidu));
        bindings.push(("baidu".to_owned(), engine_baidu));
        bindings.push(("sg".to_owned(), engine_sogou));
        bindings.push(("sogou".to_owned(), engine_sogou));
        bindings.push(("d".to_owned(), engine_ddg));
        bindings.push(("ddg".to_owned(), engine_ddg));
        bindings.push(("w".to_owned(), engine_wikipedia));
        bindings.push(("wiki".to_owned(), engine_wikipedia));
        let map = RouterMapLeaves::new(bindings);
        proof {
            assert(map.map_view() =~= search_bindings(old(arena).arena_view().len() as int));
            assert(arena.arena_view() =~= old(arena).arena_view() + search_engines());
        }
        let fallback = RouterSearchFallback {
            ddg_bang: engine_ddg_bang,
            ddg_direct: engine_ddg_direct,
            bing_china: engine_bing_china,
            google: engine_google,
        };
        (map, fallback)
    }
}

impl Default for PluginSearch {
    fn default() -> (r: Self)
        ensures
            r == PluginSearch,
    {
        Self::new()
    }
}

impl RouterSearchFallback {
    /// Route on the content alone, as [`fallback_pick`] describes it;
    /// the query is left untouched.
    pub fn route(&self, query: &mut Query) -> (r: Result<Option<Route>, Fail>)
        requires
            old(query).mention.wf(),
        ensures
            final(query).mention.wf(),
            *final(query) == *old(query),
            r == Ok::<Option<Route>, Fail>(
                Some(Route { ty: RouteTy::Static, engine: fallback_pick(*self, old(query).content@) }),
            ),
    {
        let content = query.content();
        let engine = if content.unicode_len() > 0 && content.get_char(0) == '!' {
            self.ddg_bang
        } else if content.unicode_len() > 0 && content.get_char(0) == '\\' {
            self.ddg_direct
        } else if str_has_cjk(content) {
            self.bing_china
        } else {
            self.google
        };
        Ok(Some(Route::new_static(engine)))
    }
}

} // verus!
