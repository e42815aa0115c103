//! Tests of the engines, the registry, the builder and the resolution
//! loop.

use est::compose::{
    Alias, Cloze, ClozeTemplate, Compose, ComposeError, Engine, EngineType, Namespace, Ortho,
    OrthoScript, Shorthand,
};
use est::engine::EngineNode;
use est::query::Query;
use est::reaction::{AcceptanceErr, ReactionErr, ReactionVerb};
use est::registry::{EngineRegistry, EngineRegistryModifyError};
use est::Instance;

fn engine(id: &str, ty: EngineType) -> Engine {
    Engine {
        id: id.to_string(),
        engine: ty,
        shorthand: Shorthand::Multiple(Vec::new()),
        description: None,
    }
}

fn cloze(id: &str, template: &str) -> Engine {
    engine(
        id,
        EngineType::Cloze(Cloze { template: ClozeTemplate::Single(template.to_string()) }),
    )
}

fn alias(id: &str, to: &str) -> Engine {
    engine(id, EngineType::Alias(Alias { to: to.to_string() }))
}

fn instance(engines: Vec<Engine>, default: Option<&str>) -> Instance {
    Instance::from_compose(Compose {
        default: default.map(|d| d.to_string()),
        engines,
    })
    .ok()
    .unwrap()
}

fn react(instance: &Instance, input: &str) -> Result<ReactionVerb, ReactionErr> {
    let query: Query = input.parse().unwrap();
    instance.react(query)
}

fn navigate_url(reaction: Result<ReactionVerb, ReactionErr>) -> String {
    match reaction {
        Ok(ReactionVerb::Navigate(nav)) => nav.url().to_string(),
        other => panic!("expected a navigation, got {:?}", other),
    }
}

// The forward rewrite table, exhaustively on mention ["a", "b", "c"]
// and prepend "d".
#[test]
fn forward_rewrite_table() {
    let base = vec!["a".to_string(), "b".to_string(), "c".to_string()];
    let expect: &[(usize, &[&str])] = &[
        (0, &["d", "a", "b", "c"]),
        (1, &["d", "b", "c"]),
        (2, &["d", "c"]),
        (3, &["d"]),
        (4, &["d"]),
    ];
    for (skip, want) in expect {
        let mut mention = base.clone();
        est::apply_forward(&mut mention, "d".to_string(), *skip);
        let want: Vec<String> = want.iter().map(|s| s.to_string()).collect();
        assert_eq!(mention, want, "skip = {}", skip);
    }
    let mut empty: Vec<String> = Vec::new();
    est::apply_forward(&mut empty, "d".to_string(), 3);
    assert_eq!(empty, vec!["d".to_string()]);
}

// A cloze engine substitutes the content into its template and the URL
// is normalized: the space becomes %20.
#[test]
fn cloze_navigates_with_encoding() {
    let inst = instance(vec![cloze("c", "https://example.com/search?q={}")], None);
    let url = navigate_url(react(&inst, "@c foo bar"));
    assert_eq!(url, "https://example.com/search?q=foo%20bar");
}

// A cloze whose filled template is not a URL blames the configuration.
#[test]
fn cloze_bad_template_is_bad_config() {
    let inst = instance(vec![cloze("c", "not a url {}")], None);
    match react(&inst, "@c x") {
        Err(ReactionErr::BadConfig(detail)) => {
            assert!(detail.starts_with("Invalid url: "), "{}", detail);
        }
        other => panic!("expected a configuration error, got {:?}", other),
    }
}

// Each error carries its fixed message text.
#[test]
fn error_messages() {
    assert_eq!(ReactionErr::Nothing.message(), "Not found.");
    assert_eq!(
        ReactionErr::TooManyForward.message(),
        "Too many forwards before deciding on an engine to process the query."
    );
    assert_eq!(
        ReactionErr::BadConfig("x".to_string()).message(),
        "Invalid configuration: x"
    );
    assert_eq!(
        ReactionErr::NotAccepted(AcceptanceErr::NoEngine).message(),
        "Query not accepted: No such specified engine."
    );
    assert_eq!(ReactionErr::Panic("y".to_string()).message(), "Est core failure: y");
}

// A scoped cloze uses the scoped template when the query carries a
// scope, and the default one otherwise.
#[test]
fn cloze_scoped_templates() {
    let inst = instance(
        vec![engine(
            "s",
            EngineType::Cloze(Cloze {
                template: ClozeTemplate::Scoped {
                    default: "https://example.com/?q={}".to_string(),
                    scoped: "https://example.com/{!}?q={}".to_string(),
                },
            }),
        )],
        None,
    );
    let url = navigate_url(react(&inst, "@s !narrow text"));
    assert_eq!(url, "https://example.com/narrow?q=text");
    let url = navigate_url(react(&inst, "@s text"));
    assert_eq!(url, "https://example.com/?q=text");
}

// An alias behaves exactly as its target.
#[test]
fn alias_forwards_to_target() {
    let inst = instance(
        vec![cloze("g", "https://g.example/?q={}"), alias("a", "g")],
        None,
    );
    assert_eq!(navigate_url(react(&inst, "@a x")), "https://g.example/?q=x");
}

// Two aliases pointing at each other abort with TooManyForward.
#[test]
fn alias_cycle_too_many_forward() {
    let inst = instance(vec![alias("a", "b"), alias("b", "a")], None);
    assert!(matches!(react(&inst, "@a"), Err(ReactionErr::TooManyForward)));
}

// A namespace routes a known child, consuming its own segment and the
// child's; its react step reports Nothing for an unknown child when no
// default exists.
#[test]
fn namespace_routing() {
    let inst = instance(
        vec![
            engine(
                "ns",
                EngineType::Namespace(Namespace {
                    default: None,
                    children: vec![("x".to_string(), "eng1".to_string())],
                }),
            ),
            cloze("eng1", "https://one.example/?q={}"),
        ],
        None,
    );
    // At the react step, an unknown child with no default is Nothing.
    let node = inst.engine_registry.get("ns").unwrap();
    let query: Query = "@ns.y rest".parse().unwrap();
    assert!(matches!(node.react(&query, &inst), Err(ReactionErr::Nothing)));
    // A known child forwards with both segments consumed.
    let query: Query = "@ns.x rest".parse().unwrap();
    match node.react(&query, &inst) {
        Ok(ReactionVerb::Forward(est::reaction::Forward::Mention(to, skip))) => {
            assert_eq!(to, "eng1");
            assert_eq!(skip, 2);
        }
        other => panic!("expected a forward, got {:?}", other),
    }
    // The loop's gate refuses a namespace without a default outright.
    assert!(matches!(
        react(&inst, "@ns.x rest"),
        Err(ReactionErr::NotAccepted(AcceptanceErr::NoEngine))
    ));
}

// With a default, the namespace resolves children through the loop and
// falls back to the default for unknown ones.
#[test]
fn namespace_with_default() {
    let inst = instance(
        vec![
            engine(
                "ns",
                EngineType::Namespace(Namespace {
                    default: Some("fallback".to_string()),
                    children: vec![("x".to_string(), "eng1".to_string())],
                }),
            ),
            cloze("eng1", "https://one.example/?q={}"),
            cloze("fallback", "https://fb.example/?q={}"),
        ],
        None,
    );
    assert_eq!(
        navigate_url(react(&inst, "@ns.x rest")),
        "https://one.example/?q=rest"
    );
    assert_eq!(
        navigate_url(react(&inst, "@ns.y rest")),
        "https://fb.example/?q=rest"
    );
}

// An ortho engine routes on the scripts of the content.
#[test]
fn ortho_routes_on_script() {
    let inst = instance(
        vec![
            engine(
                "o",
                EngineType::Ortho(Ortho::Single {
                    default: "latin-engine".to_string(),
                    script: OrthoScript { script: "Han".to_string(), to: "cjk-engine".to_string() },
                }),
            ),
            cloze("cjk-engine", "https://cjk.example/?q={}"),
            cloze("latin-engine", "https://latin.example/?q={}"),
        ],
        None,
    );
    let url = navigate_url(react(&inst, "@o 漢字"));
    assert!(url.starts_with("https://cjk.example/"), "{}", url);
    let url = navigate_url(react(&inst, "@o hello"));
    assert!(url.starts_with("https://latin.example/"), "{}", url);
}

// A hierarchical ortho engine tests its scripts in order.
#[test]
fn ortho_hierarchical_first_match_wins() {
    let inst = instance(
        vec![
            engine(
                "o",
                EngineType::Ortho(Ortho::Hierarchical {
                    default: "latin-engine".to_string(),
                    scripts: vec![
                        OrthoScript { script: "Hiragana".to_string(), to: "ja-engine".to_string() },
                        OrthoScript { script: "Han".to_string(), to: "cjk-engine".to_string() },
                    ],
                }),
            ),
            cloze("ja-engine", "https://ja.example/?q={}"),
            cloze("cjk-engine", "https://cjk.example/?q={}"),
            cloze("latin-engine", "https://latin.example/?q={}"),
        ],
        None,
    );
    let url = navigate_url(react(&inst, "@o かな漢字"));
    assert!(url.starts_with("https://ja.example/"), "{}", url);
    let url = navigate_url(react(&inst, "@o 漢字"));
    assert!(url.starts_with("https://cjk.example/"), "{}", url);
    let url = navigate_url(react(&inst, "@o abc"));
    assert!(url.starts_with("https://latin.example/"), "{}", url);
}

// An unknown script name in an ortho description fails the build.
#[test]
fn ortho_unknown_script_fails_build() {
    let result = Instance::from_compose(Compose {
        default: None,
        engines: vec![engine(
            "o",
            EngineType::Ortho(Ortho::Single {
                default: "a".to_string(),
                script: OrthoScript {
                    script: "NotAScriptName".to_string(),
                    to: "b".to_string(),
                },
            }),
        )],
    });
    assert!(matches!(result, Err(ComposeError::InvalidScript(s)) if s == "NotAScriptName"));
}

// An unknown engine id fails with NotAccepted(NoEngine), and an empty
// mention uses the default id.
#[test]
fn unknown_engine_and_default() {
    let inst = instance(
        vec![cloze("g", "https://g.example/?q={}")],
        Some("g"),
    );
    assert!(matches!(
        react(&inst, "@nope x"),
        Err(ReactionErr::NotAccepted(AcceptanceErr::NoEngine))
    ));
    assert_eq!(navigate_url(react(&inst, "just text")), "https://g.example/?q=just%20text");
}

// Aliasing the empty id makes it resolve to the same node; a second
// alias of the same id fails with AlreadyExists.
#[test]
fn registry_alias_default() {
    let mut registry = EngineRegistry::from_engines(vec![cloze(
        "google",
        "https://g.example/?q={}",
    )])
    .ok()
    .unwrap();
    registry.alias("", "google").unwrap();
    let by_empty = registry.get("").unwrap().identifier().to_string();
    let by_name = registry.get("google").unwrap().identifier().to_string();
    assert_eq!(by_empty, by_name);
    assert!(matches!(
        registry.alias("", "google"),
        Err(EngineRegistryModifyError::AlreadyExists(s)) if s.is_empty()
    ));
    assert!(matches!(
        registry.alias("x", "missing"),
        Err(EngineRegistryModifyError::NotFound(s)) if s == "missing"
    ));
}

// Shorthands bind additional ids to the same node, and descriptions are
// recorded.
#[test]
fn registry_shorthand_and_description() {
    let registry = EngineRegistry::from_engines(vec![Engine {
        id: "google".to_string(),
        engine: EngineType::Cloze(Cloze {
            template: ClozeTemplate::Single("https://g.example/?q={}".to_string()),
        }),
        shorthand: Shorthand::Single("g".to_string()),
        description: Some("web search".to_string()),
    }])
    .ok()
    .unwrap();
    assert_eq!(registry.get("g").unwrap().identifier(), "google");
    assert_eq!(registry.description("google"), Some("web search"));
    assert_eq!(registry.description("missing"), None);
    let ids = registry.iter_ids();
    assert!(ids.contains(&"google".to_string()));
    assert!(ids.contains(&"g".to_string()));
}

// A duplicate id keeps its first binding: ids are never overwritten.
#[test]
fn registry_first_binding_wins() {
    let registry = EngineRegistry::from_engines(vec![
        cloze("e", "https://one.example/?q={}"),
        Engine {
            id: "e".to_string(),
            engine: EngineType::Alias(Alias { to: "other".to_string() }),
            shorthand: Shorthand::Multiple(Vec::new()),
            description: None,
        },
    ])
    .ok()
    .unwrap();
    assert!(matches!(registry.get("e"), Some(EngineNode::Cloze(_))));
}

// A taken empty id fails the default aliasing with AlreadyExists.
#[test]
fn compose_taken_empty_id_fails() {
    let result = Instance::from_compose(Compose {
        default: Some("g".to_string()),
        engines: vec![cloze("", "https://a.example/?q={}"), cloze("g", "https://g.example/?q={}")],
    });
    assert!(matches!(
        result,
        Err(ComposeError::DefaultAlias(EngineRegistryModifyError::AlreadyExists(s))) if s.is_empty()
    ));
}

// A missing default id fails the compose build.
#[test]
fn compose_missing_default_fails() {
    let result = Instance::from_compose(Compose {
        default: Some("missing".to_string()),
        engines: vec![cloze("g", "https://g.example/?q={}")],
    });
    assert!(matches!(
        result,
        Err(ComposeError::DefaultAlias(EngineRegistryModifyError::NotFound(_)))
    ));
}

// Chained namespaces and aliases resolve within the hop budget.
#[test]
fn chained_resolution() {
    let inst = instance(
        vec![
            alias("r", "rust"),
            engine(
                "rust",
                EngineType::Namespace(Namespace {
                    default: Some("rustdoc".to_string()),
                    children: vec![("crates".to_string(), "crates".to_string())],
                }),
            ),
            cloze("rustdoc", "https://doc.example/?q={}"),
            cloze("crates", "https://crates.example/?q={}"),
        ],
        None,
    );
    assert_eq!(
        navigate_url(react(&inst, "@r.crates serde")),
        "https://crates.example/?q=serde"
    );
    assert_eq!(
        navigate_url(react(&inst, "@r tokio")),
        "https://doc.example/?q=tokio"
    );
}

// A parse failure is distinct from the reaction errors.
#[test]
fn parse_failure_is_its_own_error() {
    assert!("@ x".parse::<Query>().is_err());
}
