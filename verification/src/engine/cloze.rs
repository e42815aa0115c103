//! A template engine that fills a designated blank with the query
//! content, like a browser's custom search engine feature, with `{}` as
//! the placeholder. The scoped variant holds a second template with an
//! additional `{!}` placeholder for the query's scope.

use crate::query::{Query, QueryView};
use crate::reaction::{navigate_spec, reaction_view, ErrView, Navigate, Reaction, VerbView};
use crate::text::{replace_all, replace_spec};
use crate::Instance;
use vstd::prelude::*;

verus! {

pub struct Cloze {
    pub identifier: String,
    pub template: String,
}

pub struct ClozeScoped {
    pub identifier: String,
    pub template_default: String,
    pub template_scoped: String,
}

/// The URL string a cloze builds: the template with every `{}` replaced
/// by the content.
pub open spec fn cloze_url_spec(template: Seq<char>, content: Seq<char>) -> Seq<char> {
    replace_spec(template, "{}"@, content)
}

/// What a cloze reacts with: a navigation to the filled template, or a
/// configuration error when the filled template is not a well-formed URL.
pub open spec fn cloze_react_spec(template: Seq<char>, q: QueryView) -> Result<
    VerbView,
    ErrView,
> {
    navigate_spec(cloze_url_spec(template, q.content), true)
}

/// The URL string a scoped cloze builds: with a scope, the scoped
/// template with `{!}` replaced by the scope and then `{}` by the
/// content; without one, the default template as a plain cloze.
pub open spec fn cloze_scoped_url_spec(
    template_default: Seq<char>,
    template_scoped: Seq<char>,
    q: QueryView,
) -> Seq<char> {
    match q.scope {
        Some(scope) => replace_spec(replace_spec(template_scoped, "{!}"@, scope), "{}"@, q.content),
        None => replace_spec(template_default, "{}"@, q.content),
    }
}

/// What a scoped cloze reacts with.
pub open spec fn cloze_scoped_react_spec(
    template_default: Seq<char>,
    template_scoped: Seq<char>,
    q: QueryView,
) -> Result<VerbView, ErrView> {
    navigate_spec(cloze_scoped_url_spec(template_default, template_scoped, q), true)
}

impl Cloze {
    /// The identifier of the engine.
    pub fn identifier(&self) -> (r: &str)
        ensures
            r@ == self.identifier@,
    {
        self.identifier.as_str()
    }

    /// Substitute the content into the template and navigate there.
    pub fn react(&self, query: &Query, _instance: &Instance) -> (r: Reaction)
        ensures
            reaction_view(r) == cloze_react_spec(self.template@, query@),
    {
        proof {
            reveal_strlit("{}");
        }
        let url = replace_all(self.template.as_str(), "{}", query.content());
        Navigate::from_str(url.as_str(), true)
    }
}

impl ClozeScoped {
    /// The identifier of the engine.
    pub fn identifier(&self) -> (r: &str)
        ensures
            r@ == self.identifier@,
    {
        self.identifier.as_str()
    }

    /// Substitute the scope and the content into the appropriate
    /// template and navigate there.
    pub fn react(&self, query: &Query, _instance: &Instance) -> (r: Reaction)
        ensures
            reaction_view(r) == cloze_scoped_react_spec(
                self.template_default@,
                self.template_scoped@,
                query@,
            ),
    {
        proof {
            reveal_strlit("{}");
            reveal_strlit("{!}");
        }
        let url = match &query.scope {
            Some(scope) => {
                let with_scope = replace_all(self.template_scoped.as_str(), "{!}", scope.as_str());
                replace_all(with_scope.as_str(), "{}", query.content())
            },
            None => replace_all(self.template_default.as_str(), "{}", query.content()),
        };
        Navigate::from_str(url.as_str(), true)
    }
}

} // verus!
