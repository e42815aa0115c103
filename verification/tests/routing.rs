//! Tests of the router-and-engines pipeline: mentions with a resolution
//! cursor, leaf routers, the plugins and their engines.

use est::arena::{ArenaEngine, ExecuteAction, Fail, SearchEngine};
use est::mention::{Query, QueryMention};
use est::plugin::javascript::PluginJavascript;
use est::plugin::python::PluginPython;
use est::plugin::rust::PluginRust;
use est::plugin::search::PluginSearch;
use est::plugin::simple::{PluginSimple, ReplaceRuleEntry};
use est::router::{Route, RouteTy, RouterMapLeaves};

fn query(segments: &[&str], content: &str) -> Query {
    Query {
        mention: QueryMention::new(segments.iter().map(|s| s.to_string()).collect()),
        content: content.to_string(),
    }
}

fn redirect_url(action: ExecuteAction) -> String {
    match action {
        ExecuteAction::Redirect(url) => url,
    }
}

fn route_engine(route: Result<Option<Route>, Fail>) -> usize {
    match route {
        Ok(Some(r)) => r.engine.0,
        other => panic!("expected a route, got {:?}", other),
    }
}

#[test]
fn test_url() {
    let engine = SearchEngine::Pypi;
    let query = Query::from_content("test".to_string());
    let action = engine.execute(&query).unwrap();
    assert_eq!(redirect_url(action), "https://pypi.org/search?q=test");
}

#[test]
fn mention_cursor() {
    let mut mention = QueryMention::new(vec!["a".to_string(), "b".to_string()]);
    assert_eq!(mention.resolved(), Vec::<String>::new());
    assert_eq!(mention.residue(), vec!["a".to_string(), "b".to_string()]);
    mention.resolve_one();
    assert_eq!(mention.resolved(), vec!["a".to_string()]);
    assert_eq!(mention.residue(), vec!["b".to_string()]);
    mention.resolve_one();
    mention.resolve_one();
    assert_eq!(mention.resolved(), vec!["a".to_string(), "b".to_string()]);
    assert!(mention.residue().is_empty());
    mention.unresolve_one();
    assert_eq!(mention.residue(), vec!["b".to_string()]);
    mention.unresolve_one();
    mention.unresolve_one();
    assert_eq!(mention.residue(), vec!["a".to_string(), "b".to_string()]);
}

#[test]
fn router_map_leaves_routes_and_resolves() {
    let mut arena = ArenaEngine::new();
    let google = arena.insert(SearchEngine::Google);
    let map = RouterMapLeaves::new(vec![("g".to_string(), google)]);
    let mut q = query(&["g", "rest"], "text");
    let route = map.route(&mut q).unwrap().unwrap();
    assert_eq!(route.engine, google);
    assert!(matches!(route.ty, RouteTy::Static));
    assert_eq!(q.resolved(), vec!["g".to_string()]);
    assert_eq!(q.residue(), vec!["rest".to_string()]);
    let mut q = query(&["unknown"], "text");
    assert!(map.route(&mut q).unwrap().is_none());
    let mut q = query(&[], "text");
    assert!(map.route(&mut q).unwrap().is_none());
}

#[test]
fn router_map_leaves_merge_shadows() {
    let mut arena = ArenaEngine::new();
    let one = arena.insert(SearchEngine::Google);
    let two = arena.insert(SearchEngine::Baidu);
    let mut map = RouterMapLeaves::new(vec![("g".to_string(), one)]);
    map.merge(RouterMapLeaves::new(vec![("g".to_string(), two)]));
    let mut q = query(&["g"], "text");
    assert_eq!(route_engine(map.route(&mut q)), two.0);
}

#[test]
fn python_plugin_routing() {
    let mut arena = ArenaEngine::new();
    let router = PluginPython::new().router(&mut arena);
    let mut q = query(&[], "x");
    assert_eq!(route_engine(router.route(&mut q)), router.std_docs.0);
    let mut q = query(&["pypi"], "x");
    assert_eq!(route_engine(router.route(&mut q)), router.pypi.0);
    assert!(q.residue().is_empty());
    let mut q = query(&["np"], "x");
    assert_eq!(route_engine(router.route(&mut q)), router.packages.0);
}

#[test]
fn python_package_engine() {
    let engine = SearchEngine::PythonPackages;
    let q = query(&["np"], "argsort");
    assert_eq!(
        redirect_url(engine.execute(&q).unwrap()),
        "https://numpy.org/doc/stable/search.html?q=argsort"
    );
    let q = query(&["unknownpkg"], "thing");
    assert_eq!(
        redirect_url(engine.execute(&q).unwrap()),
        "https://www.google.com/search?q=python+unknownpkg+thing"
    );
    let q = query(&[], "thing");
    assert!(matches!(engine.execute(&q), Err(Fail::Incomplete)));
}

#[test]
fn rust_plugin_routing() {
    let mut arena = ArenaEngine::new();
    let router = PluginRust::new().router(&mut arena);
    let mut q = query(&[], "vec");
    assert_eq!(route_engine(router.route(&mut q)), router.std_docs.0);
    let mut q = query(&["crates"], "serde");
    let crates = route_engine(router.route(&mut q));
    assert!(matches!(arena.get(est::arena::HandleEngine(crates)), Some(SearchEngine::CratesIo)));
    let mut q = query(&["serde"], "de");
    assert_eq!(route_engine(router.route(&mut q)), router.docs_rs.0);
    // The residue is left for the docs.rs engine itself.
    assert_eq!(q.residue(), vec!["serde".to_string()]);
}

#[test]
fn docs_rs_engine() {
    let engine = SearchEngine::DocsRs;
    let q = query(&["serde"], "de");
    assert_eq!(
        redirect_url(engine.execute(&q).unwrap()),
        "https://docs.rs/serde?search=de"
    );
    let q = query(&[], "de");
    assert!(matches!(engine.execute(&q), Err(Fail::Incomplete)));
}

#[test]
fn search_plugin_fallback() {
    let mut arena = ArenaEngine::new();
    let (map, fallback) = PluginSearch::new().router(&mut arena);
    let mut q = query(&["wiki"], "thing");
    let wiki = route_engine(map.route(&mut q));
    assert!(matches!(arena.get(est::arena::HandleEngine(wiki)), Some(SearchEngine::Wikipedia)));
    let mut q = query(&[], "!bang it");
    assert_eq!(route_engine(fallback.route(&mut q)), fallback.ddg_bang.0);
    let mut q = query(&[], "\\direct");
    assert_eq!(route_engine(fallback.route(&mut q)), fallback.ddg_direct.0);
    let mut q = query(&[], "漢字");
    assert_eq!(route_engine(fallback.route(&mut q)), fallback.bing_china.0);
    let mut q = query(&[], "plain");
    assert_eq!(route_engine(fallback.route(&mut q)), fallback.google.0);
}

#[test]
fn wikipedia_engine_languages() {
    let engine = SearchEngine::Wikipedia;
    let q = query(&["zh"], "thing");
    assert!(redirect_url(engine.execute(&q).unwrap()).starts_with("https://zh.wikipedia.org/"));
    let q = query(&["ja"], "thing");
    assert!(redirect_url(engine.execute(&q).unwrap()).starts_with("https://ja.wikipedia.org/"));
    let q = query(&[], "漢字");
    assert!(redirect_url(engine.execute(&q).unwrap()).starts_with("https://zh.wikipedia.org/"));
    let q = query(&[], "plain");
    assert!(redirect_url(engine.execute(&q).unwrap()).starts_with("https://en.wikipedia.org/"));
}

#[test]
fn javascript_engine() {
    let mut arena = ArenaEngine::new();
    let handle = PluginJavascript.router(&mut arena);
    assert!(matches!(arena.get(handle), Some(SearchEngine::Javascript)));
    let engine = SearchEngine::Javascript;
    let q = query(&[], "map");
    assert_eq!(
        redirect_url(engine.execute(&q).unwrap()),
        "https://developer.mozilla.org/en-US/search?q=map"
    );
    let q = query(&["npm"], "lodash");
    assert_eq!(
        redirect_url(engine.execute(&q).unwrap()),
        "https://www.npmjs.com/search?q=lodash"
    );
    let q = query(&["react"], "hooks");
    assert_eq!(
        redirect_url(engine.execute(&q).unwrap()),
        "https://google.com/search?q=site%3Areactjs.org+hooks"
    );
    let q = query(&["something", "else"], "x");
    assert_eq!(
        redirect_url(engine.execute(&q).unwrap()),
        "https://www.google.com/search?q=javascript+something+else+x"
    );
}

#[test]
fn bing_engine_china_marker() {
    let engine = SearchEngine::Bing { china: false };
    let q = query(&["b", "cn"], "thing");
    assert!(redirect_url(engine.execute(&q).unwrap()).starts_with("https://cn.bing.com/"));
    let q = query(&[], "thing");
    assert!(redirect_url(engine.execute(&q).unwrap()).starts_with("https://www.bing.com/"));
    let engine = SearchEngine::Bing { china: true };
    let q = query(&[], "thing");
    assert!(redirect_url(engine.execute(&q).unwrap()).starts_with("https://cn.bing.com/"));
}

#[test]
fn simple_plugin_rules() {
    let rules = vec![
        ReplaceRuleEntry {
            name: "Google".to_string(),
            template: "https://www.google.com/search?q={}".to_string(),
            shortcut: vec!["g".to_string()],
            description: Some("Search with Google".to_string()),
            suggestion: None,
        },
        ReplaceRuleEntry {
            name: "Bing".to_string(),
            template: "https://www.bing.com/search?q={}".to_string(),
            shortcut: vec!["b".to_string(), "bing".to_string()],
            description: Some("Search with Bing".to_string()),
            suggestion: None,
        },
    ];
    let plugin = PluginSimple::new(rules);
    assert_eq!(plugin.rules.len(), 2);
    let mut arena = ArenaEngine::new();
    let map = plugin.router(&mut arena);
    let mut q = query(&["bing"], "rust");
    let h = route_engine(map.route(&mut q));
    let engine = arena.get(est::arena::HandleEngine(h)).unwrap();
    assert_eq!(
        redirect_url(engine.execute(&q).unwrap()),
        "https://www.bing.com/search?q=rust"
    );
}

#[test]
fn redirect_to_rejects_bad_urls() {
    assert!(ExecuteAction::redirect_to("not a url").is_none());
    let action = ExecuteAction::redirect_to("https://example.com/a b").unwrap();
    assert_eq!(redirect_url(action), "https://example.com/a%20b");
}

#[test]
fn routed_query_parsing() {
    let q = Query::try_from_str("@py.np argsort").unwrap();
    assert_eq!(q.residue(), vec!["py".to_string(), "np".to_string()]);
    assert_eq!(q.content, "argsort");

    // Only spaces after the mention are consumed.
    let q = Query::try_from_str("@a.b!rest").unwrap();
    assert_eq!(q.residue(), vec!["a".to_string(), "b".to_string()]);
    assert_eq!(q.content, "!rest");

    // A trailing separator is left to the content.
    let q = Query::try_from_str("@a.").unwrap();
    assert_eq!(q.residue(), vec!["a".to_string()]);
    assert_eq!(q.content, ".");

    // No well-formed mention: everything is content.
    let q = Query::try_from_str("plain text").unwrap();
    assert!(q.residue().is_empty());
    assert_eq!(q.content, "plain text");
    let q = Query::try_from_str("@!x").unwrap();
    assert!(q.residue().is_empty());
    assert_eq!(q.content, "@!x");
}
