//! Declarative descriptions of engines, and the builder that turns a
//! list of them into a registry.

use crate::engine::{EngineNode, NodeView};
use crate::registry::{id_lookup, EngineRegistry, EngineRegistryModifyError, RegView};
use crate::unicode::{script_by_name, script_code_of};
use vstd::prelude::*;

verus! {

/// Additional ids for one engine: one string or a list of strings.
pub enum Shorthand {
    Single(String),
    Multiple(Vec<String>),
}

/// The ids that a shorthand declares.
pub open spec fn shorthand_view(s: Shorthand) -> Seq<Seq<char>> {
    match s {
        Shorthand::Single(x) => seq![x@],
        Shorthand::Multiple(v) => v.deep_view(),
    }
}

impl Default for Shorthand {
    /// No additional ids.
    fn default() -> (r: Self)
        ensures
            shorthand_view(r) == Seq::<Seq<char>>::empty(),
    {
        let r = Shorthand::Multiple(Vec::new());
        proof {
            assert(shorthand_view(r) =~= Seq::<Seq<char>>::empty());
        }
        r
    }
}

/// The template of a cloze engine: one template, or a default and a
/// scoped pair.
pub enum ClozeTemplate {
    Single(String),
    Scoped { default: String, scoped: String },
}

/// Description of an alias engine.
pub struct Alias {
    pub to: String,
}

/// Description of a cloze engine.
pub struct Cloze {
    pub template: ClozeTemplate,
}

/// Description of a namespace engine.
pub struct Namespace {
    pub default: Option<String>,
    pub children: Vec<(String, String)>,
}

/// One (script name, target id) pair of an ortho engine.
pub struct OrthoScript {
    pub script: String,
    pub to: String,
}

/// Description of an ortho engine: a single script or an ordered list.
pub enum Ortho {
    Single { default: String, script: OrthoScript },
    Hierarchical { default: String, scripts: Vec<OrthoScript> },
}

/// The type-specific part of an engine description.
pub enum EngineType {
    Alias(Alias),
    Cloze(Cloze),
    Namespace(Namespace),
    Ortho(Ortho),
}

/// One engine description: a primary id, the engine itself, any
/// shorthand ids, and an optional description.
pub struct Engine {
    pub id: String,
    pub engine: EngineType,
    pub shorthand: Shorthand,
    pub description: Option<String>,
}

/// Why building a registry from descriptions failed.
#[derive(Debug)]
pub enum ComposeError {
    /// An ortho engine names a Unicode script that the script table does
    /// not know.
    InvalidScript(String),
    /// The top-level default id could not be aliased.
    DefaultAlias(EngineRegistryModifyError),
}

/// Mathematical content of a [`ComposeError`].
pub ghost enum ComposeErrView {
    InvalidScript(Seq<char>),
    AliasExists(Seq<char>),
    AliasNotFound(Seq<char>),
}

impl View for ComposeError {
    type V = ComposeErrView;

    open spec fn view(&self) -> ComposeErrView {
        match self {
            ComposeError::InvalidScript(s) => ComposeErrView::InvalidScript(s@),
            ComposeError::DefaultAlias(EngineRegistryModifyError::AlreadyExists(s)) =>
                ComposeErrView::AliasExists(s@),
            ComposeError::DefaultAlias(EngineRegistryModifyError::NotFound(s)) =>
                ComposeErrView::AliasNotFound(s@),
        }
    }
}

/// The script codes of an ordered script list, or the first unknown
/// script name.
pub open spec fn scripts_built(v: Seq<OrthoScript>) -> Result<Seq<(u16, Seq<char>)>, Seq<char>>
    decreases v.len(),
{
    if v.len() == 0 {
        Ok(Seq::empty())
    } else {
        match script_code_of(v[0].script@) {
            None => Err(v[0].script@),
            Some(code) => match scripts_built(v.skip(1)) {
                Ok(rest) => Ok(seq![(code, v[0].to@)] + rest),
                Err(e) => Err(e),
            },
        }
    }
}

/// The node that a description builds, or the unknown script name that
/// makes it invalid.
pub open spec fn built_node(id: Seq<char>, ty: EngineType) -> Result<NodeView, Seq<char>> {
    match ty {
        EngineType::Alias(a) => Ok(NodeView::Alias { identifier: id, to: a.to@ }),
        EngineType::Cloze(c) => match c.template {
            ClozeTemplate::Single(t) => Ok(NodeView::Cloze { identifier: id, template: t@ }),
            ClozeTemplate::Scoped { default, scoped } => Ok(
                NodeView::ClozeScoped {
                    identifier: id,
                    template_default: default@,
                    template_scoped: scoped@,
                },
            ),
        },
        EngineType::Namespace(ns) => Ok(
            NodeView::Namespace {
                identifier: id,
                default: ns.default.deep_view(),
                children: ns.children.deep_view(),
            },
        ),
        EngineType::Ortho(Ortho::Single { default, script }) => match script_code_of(
            script.script@,
        ) {
            Some(code) => Ok(
                NodeView::OrthoSingle {
                    identifier: id,
                    script: code,
                    to: script.to@,
                    default: default@,
                },
            ),
            None => Err(script.script@),
        },
        EngineType::Ortho(Ortho::Hierarchical { default, scripts }) => match scripts_built(
            scripts@,
        ) {
            Ok(pairs) => Ok(
                NodeView::OrthoHierarchical { identifier: id, default: default@, scripts: pairs },
            ),
            Err(e) => Err(e),
        },
    }
}

/// Resolve one script name, as the ortho builder needs it.
pub fn get_script(script: OrthoScript) -> (r: Result<(u16, String), ComposeError>)
    ensures
        (match r {
            Ok(p) => script_code_of(script.script@) == Some(p.0) && p.1@ == script.to@,
            Err(e) => script_code_of(script.script@) is None && e@ == ComposeErrView::InvalidScript(
                script.script@,
            ),
        }),
{
    match script_by_name(script.script.as_str()) {
        Some(code) => Ok((code, script.to)),
        None => Err(ComposeError::InvalidScript(script.script)),
    }
}

impl Alias {
    /// The alias engine this description builds.
    pub fn build(self, identifier: String) -> (r: EngineNode)
        ensures
            built_node(identifier@, EngineType::Alias(self)) == Ok::<NodeView, Seq<char>>(r@),
    {
        EngineNode::Alias(crate::engine::alias::Alias { identifier, to: self.to })
    }
}

impl Cloze {
    /// The cloze or scoped-cloze engine this description builds.
    pub fn build(self, identifier: String) -> (r: EngineNode)
        ensures
            built_node(identifier@, EngineType::Cloze(self)) == Ok::<NodeView, Seq<char>>(r@),
    {
        match self.template {
            ClozeTemplate::Single(template) => EngineNode::Cloze(
                crate::engine::cloze::Cloze { identifier, template },
            ),
            ClozeTemplate::Scoped { default, scoped } => EngineNode::ClozeScoped(
                crate::engine::cloze::ClozeScoped {
                    identifier,
                    template_default: default,
                    template_scoped: scoped,
                },
            ),
        }
    }
}

impl Namespace {
    /// The namespace engine this description builds.
    pub fn build(self, identifier: String) -> (r: EngineNode)
        ensures
            built_node(identifier@, EngineType::Namespace(self)) == Ok::<NodeView, Seq<char>>(r@),
    {
        EngineNode::Namespace(
            crate::engine::namespace::Namespace {
                identifier,
                default: self.default,
                children: self.children,
            },
        )
    }
}

impl Ortho {
    /// The ortho engine this description builds, or the unknown script
    /// name that makes the description invalid.
    #[verifier::loop_isolation(false)]
    pub fn build(self, identifier: String) -> (r: Result<EngineNode, ComposeError>)
        ensures
            (match r {
                Ok(node) => built_node(identifier@, EngineType::Ortho(self)) == Ok::<NodeView, Seq<char>>(node@),
                Err(e) => {
                    &&& built_node(identifier@, EngineType::Ortho(self)) == Err::<
                        NodeView,
                        Seq<char>,
                    >(e@->InvalidScript_0)
                    &&& e@ is InvalidScript
                },
            }),
    {
        match self {
            Ortho::Single { default, script } => match get_script(script) {
                Ok(p) => {
                    let (code, to) = p;
                    Ok(
                        EngineNode::Ortho(
                            crate::engine::ortho::Ortho::Single {
                                identifier,
                                script: code,
                                to,
                                default,
                            },
                        ),
                    )
                },
                Err(e) => Err(e),
            },
            Ortho::Hierarchical { default, scripts } => {
                let ghost scripts0 = scripts@;
                let mut scripts = scripts;
                let mut pairs: Vec<(u16, String)> = Vec::new();
                proof {
                    assert(pairs.deep_view() =~= Seq::<(u16, Seq<char>)>::empty());
                }
                while scripts.len() > 0
                    invariant
                        (match scripts_built(scripts0) {
                            Ok(all) => scripts_built(scripts@) matches Ok(rest) && all
                                =~= pairs.deep_view() + rest,
                            Err(e) => scripts_built(scripts@) == Err::<
                                Seq<(u16, Seq<char>)>,
                                Seq<char>,
                            >(e),
                        }),
                    decreases scripts.len(),
                {
                    let ghost pre = scripts@;
                    let s = scripts.remove(0);
                    proof {
                        assert(pre[0] == s);
                        assert(scripts@ =~= pre.skip(1));
                    }
                    match get_script(s) {
                        Ok(p) => {
                            let ghost old_pairs = pairs.deep_view();
                            pairs.push(p);
                            proof {
                                assert(pairs.deep_view() =~= old_pairs.push((p.0, p.1@)));
                                if scripts_built(scripts0) is Ok {
                                    let all = scripts_built(scripts0)->Ok_0;
                                    let rest = scripts_built(pre)->Ok_0;
                                    let rest2 = scripts_built(pre.skip(1))->Ok_0;
                                    assert(rest =~= seq![(p.0, p.1@)] + rest2);
                                    assert(all =~= pairs.deep_view() + rest2);
                                }
                            }
                        },
                        Err(e) => {
                            return Err(e);
                        },
                    }
                }
                proof {
                    assert(scripts@ =~= Seq::<OrthoScript>::empty());
                    if scripts_built(scripts0) is Ok {
                        let all = scripts_built(scripts0)->Ok_0;
                        assert(all =~= pairs.deep_view() + Seq::<(u16, Seq<char>)>::empty());
                        assert(all =~= pairs.deep_view());
                    }
                }
                Ok(
                    EngineNode::Ortho(
                        crate::engine::ortho::Ortho::Hierarchical {
                            identifier,
                            default,
                            scripts: pairs,
                        },
                    ),
                )
            },
        }
    }
}

/// A registry with no engines and no ids.
pub open spec fn empty_reg() -> RegView {
    RegView {
        engines: Seq::empty(),
        ids: Seq::empty(),
        descriptions: Seq::empty(),
    }
}

/// `reg` with `id` bound to `idx`, unless `id` is already taken: an id,
/// once registered, is never overwritten.
pub open spec fn reg_with_id(reg: RegView, id: Seq<char>, idx: int) -> RegView {
    if id_lookup(reg.ids, id) is Some {
        reg
    } else {
        RegView { engines: reg.engines, ids: reg.ids.push((id, idx)), descriptions: reg.descriptions }
    }
}

/// `reg` with each id of `ids` bound to `idx`, in order, skipping taken
/// ids.
pub open spec fn reg_with_ids(reg: RegView, ids: Seq<Seq<char>>, idx: int) -> RegView
    decreases ids.len(),
{
    if ids.len() == 0 {
        reg
    } else {
        reg_with_ids(reg_with_id(reg, ids[0], idx), ids.skip(1), idx)
    }
}

/// The registry after one description is built into `reg`: the node and
/// its description are appended, and the primary id and every shorthand
/// are bound to it. `Err` carries the unknown script name of an invalid
/// ortho description.
pub open spec fn build_step(reg: RegView, e: Engine) -> Result<RegView, Seq<char>> {
    match built_node(e.id@, e.engine) {
        Err(bad) => Err(bad),
        Ok(node) => {
            let idx = reg.engines.len() as int;
            let reg1 = RegView {
                engines: reg.engines.push(node),
                ids: reg.ids,
                descriptions: reg.descriptions.push(e.description.deep_view()),
            };
            Ok(reg_with_ids(reg_with_id(reg1, e.id@, idx), shorthand_view(e.shorthand), idx))
        },
    }
}

/// The registry after every description of `es` is built into `reg`, in
/// order; the first invalid description fails the whole build.
pub open spec fn build_all(reg: RegView, es: Seq<Engine>) -> Result<RegView, Seq<char>>
    decreases es.len(),
{
    if es.len() == 0 {
        Ok(reg)
    } else {
        match build_step(reg, es[0]) {
            Err(e) => Err(e),
            Ok(r1) => build_all(r1, es.skip(1)),
        }
    }
}

impl Engine {
    /// Build this description into `registry`, as [`build_step`]
    /// describes it.
    #[verifier::loop_isolation(false)]
    pub fn build(self, registry: &mut EngineRegistry) -> (r: Result<(), ComposeError>)
        requires
            old(registry).wf(),
        ensures
            final(registry).wf(),
            (match r {
                Ok(()) => build_step(old(registry)@, self) == Ok::<RegView, Seq<char>>(
                    final(registry)@,
                ),
                Err(e) => {
                    &&& e@ is InvalidScript
                    &&& build_step(old(registry)@, self) == Err::<RegView, Seq<char>>(
                        e@->InvalidScript_0,
                    )
                    &&& final(registry)@ == old(registry)@
                },
            }),
    {
        let Engine { id, engine, shorthand, description } = self;
        let identifier = id.clone();
        let node = match engine {
            EngineType::Alias(a) => a.build(identifier),
            EngineType::Cloze(c) => c.build(identifier),
            EngineType::Namespace(n) => n.build(identifier),
            EngineType::Ortho(o) => match o.build(identifier) {
                Ok(n) => n,
                Err(e) => {
                    return Err(e);
                },
            },
        };
        let idx = registry.register_engine(node, description);
        let ghost reg1 = registry@;
        register_id_silent(registry, id, idx);
        let ghost reg2 = registry@;
        match shorthand {
            Shorthand::Single(s) => {
                register_id_silent(registry, s, idx);
                proof {
                    let sv = shorthand_view(Shorthand::Single(s));
                    assert(sv.skip(1) =~= Seq::<Seq<char>>::empty());
                    let r1 = reg_with_id(reg2, sv[0], idx as int);
                    assert(reg_with_ids(r1, sv.skip(1), idx as int) == r1);
                    assert(reg_with_ids(reg2, sv, idx as int) == r1);
                    assert(registry@ =~= reg_with_ids(reg2, sv, idx as int));
                }
            },
            Shorthand::Multiple(mut v) => {
                let ghost sv = v.deep_view();
                let mut k: usize = 0;
                let n = v.len();
                proof {
                    assert(sv.skip(0) =~= sv);
                }
                while k < n
                    invariant
                        k <= n,
                        n == v.len(),
                        registry.wf(),
                        idx < registry@.engines.len(),
                        v.deep_view() == sv,
                        reg_with_ids(registry@, sv.skip(k as int), idx as int) == reg_with_ids(
                            reg2,
                            sv,
                            idx as int,
                        ),
                    decreases n - k,
                {
                    proof {
                        assert(sv.skip(k as int)[0] == sv[k as int]);
                        assert(sv.skip(k as int).skip(1) =~= sv.skip(k + 1));
                    }
                    register_id_silent(registry, v[k].clone(), idx);
                    k += 1;
                }
                proof {
                    assert(sv.skip(n as int) =~= Seq::<Seq<char>>::empty());
                }
            },
        }
        proof {
            assert(reg1 =~= (RegView {
                engines: old(registry)@.engines.push(node@),
                ids: old(registry)@.ids,
                descriptions: old(registry)@.descriptions.push(description.deep_view()),
            }));
        }
        Ok(())
    }
}

/// Bind `id` to `idx` unless it is taken, as [`reg_with_id`] describes
/// it.
fn register_id_silent(registry: &mut EngineRegistry, id: String, idx: usize)
    requires
        old(registry).wf(),
        idx < old(registry)@.engines.len(),
    ensures
        final(registry).wf(),
        final(registry)@ == reg_with_id(old(registry)@, id@, idx as int),
        final(registry)@.engines == old(registry)@.engines,
{
    let ghost idv = id@;
    let _ = registry.register_id(id, idx);
    proof {
        assert(registry@ =~= reg_with_id(old(registry)@, idv, idx as int));
    }
}

impl EngineRegistry {
    /// Build a registry from a list of engine descriptions, as
    /// [`build_all`] describes it.
    #[verifier::loop_isolation(false)]
    pub fn from_engines(engines: Vec<Engine>) -> (r: Result<EngineRegistry, ComposeError>)
        ensures
            (match r {
                Ok(reg) => reg.wf() && build_all(empty_reg(), engines@) == Ok::<RegView, Seq<char>>(
                    reg@,
                ),
                Err(e) => {
                    &&& e@ is InvalidScript
                    &&& build_all(empty_reg(), engines@) == Err::<RegView, Seq<char>>(
                        e@->InvalidScript_0,
                    )
                },
            }),
    {
        let ghost es0 = engines@;
        let mut engines = engines;
        let mut registry = EngineRegistry::new();
        proof {
            assert(registry@ =~= empty_reg());
        }
        while engines.len() > 0
            invariant
                registry.wf(),
                build_all(registry@, engines@) == build_all(empty_reg(), es0),
            decreases engines.len(),
        {
            let ghost pre = engines@;
            let e = engines.remove(0);
            proof {
                assert(pre[0] == e);
                assert(engines@ =~= pre.skip(1));
            }
            match e.build(&mut registry) {
                Ok(()) => {},
                Err(err) => {
                    return Err(err);
                },
            }
        }
        proof {
            assert(engines@ =~= Seq::<Engine>::empty());
        }
        Ok(registry)
    }
}

/// The declarative description of a whole instance: an optional
/// top-level default id and a list of engine descriptions.
pub struct Compose {
    pub default: Option<String>,
    pub engines: Vec<Engine>,
}

/// The registry that a compose description yields: every engine is
/// built, then the empty id is aliased to the top-level default, if one
/// is given. The empty id must still be free and the default id must
/// exist.
pub open spec fn compose_spec(c: Compose) -> Result<RegView, ComposeErrView> {
    match build_all(empty_reg(), c.engines@) {
        Err(s) => Err(ComposeErrView::InvalidScript(s)),
        Ok(reg) => match c.default {
            None => Ok(reg),
            Some(d) => {
                if id_lookup(reg.ids, Seq::empty()) is Some {
                    Err(ComposeErrView::AliasExists(Seq::empty()))
                } else {
                    match id_lookup(reg.ids, d@) {
                        None => Err(ComposeErrView::AliasNotFound(d@)),
                        Some(k) => Ok(
                            RegView {
                                engines: reg.engines,
                                ids: reg.ids.push((Seq::empty(), k)),
                                descriptions: reg.descriptions,
                            },
                        ),
                    }
                }
            },
        },
    }
}

impl crate::Instance {
    /// Build an instance from a compose description, as [`compose_spec`]
    /// describes it.
    pub fn from_compose(compose: Compose) -> (r: Result<crate::Instance, ComposeError>)
        ensures
            (match r {
                Ok(inst) => inst.wf() && compose_spec(compose) == Ok::<RegView, ComposeErrView>(
                    inst@,
                ),
                Err(e) => compose_spec(compose) == Err::<RegView, ComposeErrView>(e@),
            }),
    {
        let Compose { default, engines } = compose;
        let mut registry = match EngineRegistry::from_engines(engines) {
            Ok(reg) => reg,
            Err(e) => {
                return Err(e);
            },
        };
        if let Some(d) = default {
            proof {
                reveal_strlit("");
                assert(""@ =~= Seq::<char>::empty());
            }
            match registry.alias("", d.as_str()) {
                Ok(()) => {},
                Err(e) => {
                    return Err(ComposeError::DefaultAlias(e));
                },
            }
        }
        Ok(crate::Instance { engine_registry: registry })
    }
}

} // verus!
