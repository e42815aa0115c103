//! The closed set of engine variants, dispatched as a tagged union.

pub mod alias;
pub mod cloze;
pub mod namespace;
pub mod ortho;

use crate::query::{Query, QueryView};
use crate::reaction::{reaction_view, AcceptanceErr, ErrView, Reaction, VerbView};
use crate::Instance;
use alias::{alias_react_spec, Alias};
use cloze::{cloze_react_spec, cloze_scoped_react_spec, Cloze, ClozeScoped};
use namespace::{namespace_accept_spec, namespace_react_spec, Namespace};
use ortho::{ortho_react_spec, Ortho};
use vstd::prelude::*;

verus! {

/// One engine of the registry.
pub enum EngineNode {
    Alias(Alias),
    Namespace(Namespace),
    Cloze(Cloze),
    ClozeScoped(ClozeScoped),
    Ortho(Ortho),
}

/// Mathematical content of an [`EngineNode`].
pub ghost enum NodeView {
    Alias { identifier: Seq<char>, to: Seq<char> },
    Namespace {
        identifier: Seq<char>,
        default: Option<Seq<char>>,
        children: Seq<(Seq<char>, Seq<char>)>,
    },
    Cloze { identifier: Seq<char>, template: Seq<char> },
    ClozeScoped {
        identifier: Seq<char>,
        template_default: Seq<char>,
        template_scoped: Seq<char>,
    },
    OrthoSingle { identifier: Seq<char>, script: u16, to: Seq<char>, default: Seq<char> },
    OrthoHierarchical {
        identifier: Seq<char>,
        default: Seq<char>,
        scripts: Seq<(u16, Seq<char>)>,
    },
}

impl View for Ortho {
    type V = NodeView;

    open spec fn view(&self) -> NodeView {
        match self {
            Ortho::Single { identifier, script, to, default } => NodeView::OrthoSingle {
                identifier: identifier@,
                script: *script,
                to: to@,
                default: default@,
            },
            Ortho::Hierarchical { identifier, default, scripts } => NodeView::OrthoHierarchical {
                identifier: identifier@,
                default: default@,
                scripts: scripts.deep_view(),
            },
        }
    }
}

impl View for EngineNode {
    type V = NodeView;

    open spec fn view(&self) -> NodeView {
        match self {
            EngineNode::Alias(a) => NodeView::Alias { identifier: a.identifier@, to: a.to@ },
            EngineNode::Namespace(ns) => NodeView::Namespace {
                identifier: ns.identifier@,
                default: ns.default.deep_view(),
                children: ns.children.deep_view(),
            },
            EngineNode::Cloze(c) => NodeView::Cloze {
                identifier: c.identifier@,
                template: c.template@,
            },
            EngineNode::ClozeScoped(c) => NodeView::ClozeScoped {
                identifier: c.identifier@,
                template_default: c.template_default@,
                template_scoped: c.template_scoped@,
            },
            EngineNode::Ortho(o) => o@,
        }
    }
}

/// The identifier of an engine.
pub open spec fn identifier_spec(node: NodeView) -> Seq<char> {
    match node {
        NodeView::Alias { identifier, .. } => identifier,
        NodeView::Namespace { identifier, .. } => identifier,
        NodeView::Cloze { identifier, .. } => identifier,
        NodeView::ClozeScoped { identifier, .. } => identifier,
        NodeView::OrthoSingle { identifier, .. } => identifier,
        NodeView::OrthoHierarchical { identifier, .. } => identifier,
    }
}

/// Whether an engine accepts a query before reacting to it. Only a
/// namespace can refuse: one without a default.
pub open spec fn accept_spec(node: NodeView, q: QueryView) -> Result<(), AcceptanceErr> {
    match node {
        NodeView::Namespace { default, .. } => namespace_accept_spec(default),
        _ => Ok(()),
    }
}

/// What an engine reacts with, as a function of the engine and the query
/// alone.
pub open spec fn react_spec(node: NodeView, q: QueryView) -> Result<VerbView, ErrView> {
    match node {
        NodeView::Alias { to, .. } => alias_react_spec(to),
        NodeView::Namespace { default, children, .. } => namespace_react_spec(
            default,
            children,
            q,
        ),
        NodeView::Cloze { template, .. } => cloze_react_spec(template, q),
        NodeView::ClozeScoped { template_default, template_scoped, .. } => cloze_scoped_react_spec(
            template_default,
            template_scoped,
            q,
        ),
        NodeView::OrthoSingle { .. } => ortho_react_spec(node, q),
        NodeView::OrthoHierarchical { .. } => ortho_react_spec(node, q),
    }
}

impl EngineNode {
    /// The identifier of the engine.
    pub fn identifier(&self) -> (r: &str)
        ensures
            r@ == identifier_spec(self@),
    {
        match self {
            Self::Alias(a) => a.identifier(),
            Self::Namespace(ns) => ns.identifier(),
            Self::Cloze(c) => c.identifier(),
            Self::ClozeScoped(c) => c.identifier(),
            Self::Ortho(o) => o.identifier(),
        }
    }

    /// Whether the engine can further handle a query, as [`accept_spec`]
    /// describes it. Every variant but the namespace always accepts.
    pub fn accept(&self, query: &Query, instance: &Instance) -> (r: Result<(), AcceptanceErr>)
        ensures
            r == accept_spec(self@, query@),
    {
        match self {
            Self::Namespace(ns) => ns.accept(query, instance),
            _ => Ok(()),
        }
    }

    /// Process a query and generate a reaction to it, as [`react_spec`]
    /// describes it.
    pub fn react(&self, query: &Query, instance: &Instance) -> (r: Reaction)
        ensures
            reaction_view(r) == react_spec(self@, query@),
    {
        match self {
            Self::Alias(a) => a.react(query, instance),
            Self::Namespace(ns) => ns.react(query, instance),
            Self::Cloze(c) => c.react(query, instance),
            Self::ClozeScoped(c) => c.react(query, instance),
            Self::Ortho(o) => o.react(query, instance),
        }
    }
}

} // verus!
