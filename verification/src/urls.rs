//! Trusted boundary to the `url` crate.
//!
//! All URL well-formedness and normalization is delegated to `url`; the
//! wrappers here hand strings in and take strings out, and the
//! uninterpreted functions name the results, which depend on the
//! arguments alone.

use vstd::prelude::*;

verus! {

/// Whether `url::Url::parse` accepts `s`.
pub uninterp spec fn url_ok(s: Seq<char>) -> bool;

/// The serialization of the URL that `url::Url::parse` yields on `s`.
pub uninterp spec fn url_norm(s: Seq<char>) -> Seq<char>;

/// The message of the error that `url::Url::parse` yields on `s`.
pub uninterp spec fn url_err(s: Seq<char>) -> Seq<char>;

/// The views of a sequence of string pairs.
pub open spec fn pairs_view(v: Seq<(String, String)>) -> Seq<(Seq<char>, Seq<char>)> {
    v.map_values(|p: (String, String)| (p.0@, p.1@))
}

/// The serialization of `url::Url::parse_with_params(base, pairs)`,
/// which appends the pairs to the query of the parsed base URL.
pub uninterp spec fn url_with_params_norm(
    base: Seq<char>,
    pairs: Seq<(Seq<char>, Seq<char>)>,
) -> Seq<char>;

/// The serialization of the URL obtained by parsing `base`, resolving
/// `first` and then optionally `second` against it, and appending the
/// query pair `(key, value)`; `None` when a parse or join step fails.
/// The outcome depends on the arguments alone.
pub uninterp spec fn url_join_params_norm(
    base: Seq<char>,
    first: Seq<char>,
    second: Option<Seq<char>>,
    key: Seq<char>,
    value: Seq<char>,
) -> Option<Seq<char>>;

/// Relies on `url::Url::parse` and on the serializations of its result
/// (`Url::as_str`) and of its error (`ParseError`'s message): all three
/// depend on the input alone.
#[verifier::external_body]
pub fn parse_url(s: &str) -> (r: Result<String, String>)
    ensures
        r is Ok <==> url_ok(s@),
        (match r {
            Ok(u) => u@ == url_norm(s@),
            Err(e) => e@ == url_err(s@),
        }),
{
    match url::Url::parse(s) {
        Ok(u) => Ok(u.as_str().to_owned()),
        Err(e) => Err(e.to_string()),
    }
}

/// Relies on `url::Url::parse_with_params`: it fails exactly when
/// `Url::parse` fails on `base`, and its result depends on the base and
/// the pairs alone.
#[verifier::external_body]
pub fn url_with_params(base: &str, pairs: &Vec<(String, String)>) -> (r: Option<String>)
    ensures
        r is Some <==> url_ok(base@),
        (match r {
            Some(u) => u@ == url_with_params_norm(base@, pairs_view(pairs@)),
            None => !url_ok(base@),
        }),
{
    match url::Url::parse_with_params(base, pairs) {
        Ok(u) => Some(u.as_str().to_owned()),
        Err(_) => None,
    }
}

/// Relies on `url::Url::parse`, `Url::join` and `Url::query_pairs_mut`:
/// parse the base, resolve `first` and then optionally `second` against
/// it, append one query pair, and serialize. Every step depends on the
/// arguments alone.
#[verifier::external_body]
pub fn url_join_params(
    base: &str,
    first: &str,
    second: Option<&String>,
    key: &str,
    value: &str,
) -> (r: Option<String>)
    ensures
        r.deep_view() == url_join_params_norm(base@, first@, second.deep_view(), key@, value@),
{
    let u = url::Url::parse(base).ok()?;
    let mut u = match second {
        Some(s) => u.join(first).ok()?.join(s).ok()?,
        None => u.join(first).ok()?,
    };
    u.query_pairs_mut().append_pair(key, value);
    Some(u.as_str().to_owned())
}

} // verus!
