//! An engine that forwards to other engines based on the Unicode
//! script(s) present in the query's content, independent of the mention
//! path.

use crate::engine::NodeView;
use crate::query::{Query, QueryView};
use crate::reaction::{reaction_view, ErrView, Forward, Reaction, ReactionVerb, VerbView};
use crate::unicode::{char_has_script, char_in_script};
use crate::Instance;
use vstd::prelude::*;

verus! {

pub enum Ortho {
    /// Forward to `to` when any content character has `script`, else to
    /// `default`.
    Single { identifier: String, script: u16, to: String, default: String },
    /// Test an ordered list of (script, target) pairs; the first script
    /// present in the content wins, else `default`.
    Hierarchical { identifier: String, default: String, scripts: Vec<(u16, String)> },
}

/// Whether any character of `content` has the script `script`.
pub open spec fn content_has_script(content: Seq<char>, script: u16) -> bool {
    exists|i: int| 0 <= i < content.len() && char_in_script(content[i], script)
}

/// The target that an ordered script list picks for `content`: the `to`
/// of the first script present in the content, or `default`.
pub open spec fn hier_pick(
    scripts: Seq<(u16, Seq<char>)>,
    content: Seq<char>,
    default: Seq<char>,
) -> Seq<char>
    decreases scripts.len(),
{
    if scripts.len() == 0 {
        default
    } else if content_has_script(content, scripts[0].0) {
        scripts[0].1
    } else {
        hier_pick(scripts.skip(1), content, default)
    }
}

/// The target id an ortho engine forwards to for a query.
pub open spec fn ortho_target_spec(o: NodeView, q: QueryView) -> Seq<char> {
    match o {
        NodeView::OrthoSingle { script, to, default, .. } => if content_has_script(
            q.content,
            script,
        ) {
            to
        } else {
            default
        },
        NodeView::OrthoHierarchical { default, scripts, .. } => hier_pick(
            scripts,
            q.content,
            default,
        ),
        _ => Seq::empty(),
    }
}

/// What an ortho engine reacts with: a forward to the picked target,
/// always with a skip of 1.
pub open spec fn ortho_react_spec(o: NodeView, q: QueryView) -> Result<VerbView, ErrView> {
    Ok(VerbView::ForwardMention(ortho_target_spec(o, q), 1))
}

/// Whether any character of `content` has `script`, as
/// [`content_has_script`] describes it.
fn content_any_script(content: &str, script: u16) -> (r: bool)
    ensures
        r == content_has_script(content@, script),
{
    let n = content.unicode_len();
    let mut i: usize = 0;
    while i < n
        invariant
            i <= n,
            n == content@.len(),
            forall|j: int| 0 <= j < i ==> !char_in_script(content@[j], script),
        decreases n - i,
    {
        if char_has_script(content.get_char(i), script) {
            return true;
        }
        i += 1;
    }
    false
}

/// Pick a target from an ordered script list, as [`hier_pick`]
/// describes it.
fn hier_pick_exec<'a>(
    scripts: &'a Vec<(u16, String)>,
    content: &str,
    default: &'a String,
) -> (r: &'a String)
    ensures
        r@ == hier_pick(scripts.deep_view(), content@, default@),
{
    let n = scripts.len();
    let mut k: usize = 0;
    proof {
        assert(scripts.deep_view().skip(0) =~= scripts.deep_view());
    }
    while k < n
        invariant
            k <= n,
            n == scripts.len(),
            hier_pick(scripts.deep_view(), content@, default@) == hier_pick(
                scripts.deep_view().skip(k as int),
                content@,
                default@,
            ),
        decreases n - k,
    {
        proof {
            assert(scripts.deep_view().skip(k as int)[0] == scripts.deep_view()[k as int]);
            assert(scripts.deep_view().skip(k as int).skip(1) =~= scripts.deep_view().skip(k + 1));
        }
        if content_any_script(content, scripts[k].0) {
            return &scripts[k].1;
        }
        k += 1;
    }
    proof {
        assert(scripts.deep_view().skip(n as int) =~= Seq::<(u16, Seq<char>)>::empty());
    }
    default
}

impl Ortho {
    /// The identifier of the engine.
    pub fn identifier(&self) -> (r: &str)
        ensures
            (match self {
                Ortho::Single { identifier, .. } => r@ == identifier@,
                Ortho::Hierarchical { identifier, .. } => r@ == identifier@,
            }),
    {
        match self {
            Ortho::Single { identifier, .. } => identifier.as_str(),
            Ortho::Hierarchical { identifier, .. } => identifier.as_str(),
        }
    }

    /// Forward on the scripts of the content, as [`ortho_react_spec`]
    /// describes it.
    pub fn react(&self, query: &Query, _instance: &Instance) -> (r: Reaction)
        ensures
            reaction_view(r) == ortho_react_spec(self@, query@),
    {
        let engine_id: &String = match self {
            Ortho::Single { script, to, default, .. } => {
                if content_any_script(query.content(), *script) {
                    to
                } else {
                    default
                }
            },
            Ortho::Hierarchical { default, scripts, .. } => {
                hier_pick_exec(scripts, query.content(), default)
            },
        };
        Ok(ReactionVerb::Forward(Forward::Mention(engine_id.clone(), 1)))
    }
}

} // verus!
