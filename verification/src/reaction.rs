//! The result algebra of a resolution: a terminal navigation, a forward
//! instruction, and the error taxonomy.

use crate::urls::{parse_url, url_err, url_norm, url_ok};
use vstd::prelude::*;

verus! {

/// Why an engine refused a query before reacting to it.
#[derive(Clone, Copy, Debug, PartialEq, Eq, Structural)]
pub enum AcceptanceErr {
    /// A referenced engine id does not exist in the registry.
    NoEngine,
}

/// A terminal reaction: navigate to a well-formed URL.
#[derive(Clone, Debug)]
pub struct Navigate {
    url: String,
}

impl View for Navigate {
    type V = Seq<char>;

    closed spec fn view(&self) -> Seq<char> {
        self.url@
    }
}

/// A non-terminal reaction: re-target another engine.
#[derive(Clone, Debug)]
pub enum Forward {
    /// Prepend a new mention segment to the query, and optionally drop
    /// the first `n` mention segments.
    ///
    /// Given a query `@a.b.c`, the effect will be:
    /// - `Mention(d, 0)` -> `@d.a.b.c`
    /// - `Mention(d, 1)` -> `@d.b.c`
    /// - `Mention(d, 2)` -> `@d.c`
    /// - `Mention(d, 3)` -> `@d`
    /// - `Mention(d, 4)` -> `@d`
    Mention(String, usize),
}

/// What a successful reaction instructs.
#[derive(Clone, Debug)]
pub enum ReactionVerb {
    Navigate(Navigate),
    Forward(Forward),
}

/// Why a resolution failed.
#[derive(Clone, Debug)]
pub enum ReactionErr {
    /// Resolution legitimately found nothing for the query.
    Nothing,
    /// An engine's own configuration produced an invalid result.
    BadConfig(String),
    /// An engine's pre-check rejected the query.
    NotAccepted(AcceptanceErr),
    /// An unexpected internal failure.
    Panic(String),
    /// The resolution loop exceeded its hop ceiling.
    TooManyForward,
}

/// The outcome of one `react` step, or of a whole resolution.
pub type Reaction = Result<ReactionVerb, ReactionErr>;

/// Mathematical content of a [`ReactionVerb`].
pub ghost enum VerbView {
    Navigate(Seq<char>),
    ForwardMention(Seq<char>, int),
}

/// Mathematical content of a [`ReactionErr`].
pub ghost enum ErrView {
    Nothing,
    BadConfig(Seq<char>),
    NotAccepted(AcceptanceErr),
    Panic(Seq<char>),
    TooManyForward,
}

impl View for ReactionVerb {
    type V = VerbView;

    open spec fn view(&self) -> VerbView {
        match self {
            ReactionVerb::Navigate(n) => VerbView::Navigate(n@),
            ReactionVerb::Forward(Forward::Mention(id, skip)) => VerbView::ForwardMention(
                id@,
                *skip as int,
            ),
        }
    }
}

impl View for ReactionErr {
    type V = ErrView;

    open spec fn view(&self) -> ErrView {
        match self {
            ReactionErr::Nothing => ErrView::Nothing,
            ReactionErr::BadConfig(s) => ErrView::BadConfig(s@),
            ReactionErr::NotAccepted(e) => ErrView::NotAccepted(*e),
            ReactionErr::Panic(s) => ErrView::Panic(s@),
            ReactionErr::TooManyForward => ErrView::TooManyForward,
        }
    }
}

/// Mathematical content of a [`Reaction`].
pub open spec fn reaction_view(r: Reaction) -> Result<VerbView, ErrView> {
    match r {
        Ok(v) => Ok(v@),
        Err(e) => Err(e@),
    }
}

/// The human-readable message of a resolution error.
pub open spec fn err_message(e: ErrView) -> Seq<char> {
    match e {
        ErrView::Nothing => "Not found."@,
        ErrView::BadConfig(d) => "Invalid configuration: "@ + d,
        ErrView::NotAccepted(AcceptanceErr::NoEngine) => "Query not accepted: No such specified engine."@,
        ErrView::Panic(d) => "Est core failure: "@ + d,
        ErrView::TooManyForward => "Too many forwards before deciding on an engine to process the query."@,
    }
}

impl ReactionErr {
    /// The message of the error, as [`err_message`] describes it.
    pub fn message(&self) -> (r: String)
        ensures
            r@ == err_message(self@),
    {
        match self {
            ReactionErr::Nothing => "Not found.".to_owned(),
            ReactionErr::BadConfig(d) => {
                let mut m = "Invalid configuration: ".to_owned();
                m.append(d.as_str());
                m
            },
            ReactionErr::NotAccepted(AcceptanceErr::NoEngine) => {
                "Query not accepted: No such specified engine.".to_owned()
            },
            ReactionErr::Panic(d) => {
                let mut m = "Est core failure: ".to_owned();
                m.append(d.as_str());
                m
            },
            ReactionErr::TooManyForward => {
                "Too many forwards before deciding on an engine to process the query.".to_owned()
            },
        }
    }
}

/// The detail carried by the configuration error for an invalid URL.
pub open spec fn bad_url_msg(e: Seq<char>) -> Seq<char> {
    "Invalid url: "@ + e
}

/// What turning `s` into a navigation yields: the normalized URL when
/// `s` is well-formed; otherwise a configuration error when the string
/// came from an engine template (`blame_config`), and a plain
/// not-found otherwise.
pub open spec fn navigate_spec(s: Seq<char>, blame_config: bool) -> Result<VerbView, ErrView> {
    if url_ok(s) {
        Ok(VerbView::Navigate(url_norm(s)))
    } else if blame_config {
        Err(ErrView::BadConfig(bad_url_msg(url_err(s))))
    } else {
        Err(ErrView::Nothing)
    }
}

impl Navigate {
    /// Turn `string` into a navigation, as [`navigate_spec`] describes it.
    pub fn from_str(string: &str, blame_config: bool) -> (r: Reaction)
        ensures
            reaction_view(r) == navigate_spec(string@, blame_config),
    {
        match parse_url(string) {
            Ok(u) => Ok(ReactionVerb::Navigate(Navigate { url: u })),
            Err(e) => {
                if blame_config {
                    let mut msg = "Invalid url: ".to_owned();
                    msg.append(e.as_str());
                    Err(ReactionErr::BadConfig(msg))
                } else {
                    Err(ReactionErr::Nothing)
                }
            },
        }
    }

    /// The URL this navigation points at.
    pub fn url(&self) -> (r: &str)
        ensures
            r@ == self@,
    {
        self.url.as_str()
    }
}

} // verus!
