//! An alias to another engine.
//!
//! Except for the identifier, it behaves exactly the same as the engine
//! it forwards to: it always forwards with a skip of 1, replacing its own
//! mention segment with the target id.

use crate::query::Query;
use crate::reaction::{Forward, Reaction, ReactionVerb, VerbView, reaction_view};
use crate::Instance;
use vstd::prelude::*;

verus! {

pub struct Alias {
    pub identifier: String,
    pub to: String,
}

/// What an alias reacts with: an unconditional forward to its target.
pub open spec fn alias_react_spec(to: Seq<char>) -> Result<VerbView, crate::reaction::ErrView> {
    Ok(VerbView::ForwardMention(to, 1))
}

impl Alias {
    /// The identifier of the engine.
    pub fn identifier(&self) -> (r: &str)
        ensures
            r@ == self.identifier@,
    {
        self.identifier.as_str()
    }

    /// Forward to the fixed target, replacing the head mention segment.
    pub fn react(&self, _query: &Query, _instance: &Instance) -> (r: Reaction)
        ensures
            reaction_view(r) == alias_react_spec(self.to@),
    {
        Ok(ReactionVerb::Forward(Forward::Mention(self.to.clone(), 1)))
    }
}

} // verus!
