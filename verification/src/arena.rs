//! The search-engine side of the router pipeline: the closed set of
//! built-in engines that the plugins install, an arena that hands out
//! stable handles to them, and the redirect action they produce.

use crate::mention::Query;
use crate::text::{join_spaced, join_with_spaces, replace_all, replace_spec, str_eq};
use crate::urls::{
    pairs_view, url_join_params, url_join_params_norm, url_ok, url_norm, url_with_params,
    url_with_params_norm, parse_url,
};
use vstd::prelude::*;

verus! {

/// A failure in routing or engine execution.
#[derive(Clone, Copy, Debug, PartialEq, Eq, Structural)]
pub enum Fail {
    /// The callee is unable to accept or reject the input; the caller
    /// should propagate this error.
    Incomplete,
    /// The callee rejected the input as recoverable; the caller should
    /// try the next candidate.
    Backtrack,
    /// The callee rejected the input as unrecoverable; the caller
    /// should propagate this error.
    Cut,
}

/// A stable handle into the engine arena.
#[derive(Clone, Copy, Debug, PartialEq, Eq, Structural)]
pub struct HandleEngine(pub usize);

/// What an engine asks the caller to do: redirect to a URL that the
/// constructors have checked for well-formedness.
pub enum ExecuteAction {
    Redirect(String),
}

/// The URL carried by an action.
pub open spec fn action_url(a: ExecuteAction) -> Seq<char> {
    match a {
        ExecuteAction::Redirect(u) => u@,
    }
}

impl ExecuteAction {
    /// A redirect to `url`, normalized; `None` when `url` is not
    /// well-formed.
    pub fn redirect_to(url: &str) -> (r: Option<ExecuteAction>)
        ensures
            r is Some <==> url_ok(url@),
            (match r {
                Some(a) => action_url(a) == url_norm(url@),
                None => !url_ok(url@),
            }),
    {
        match parse_url(url) {
            Ok(u) => Some(ExecuteAction::Redirect(u)),
            Err(_) => None,
        }
    }

    /// A redirect to `base` with the query pairs appended; `None` when
    /// `base` is not well-formed.
    pub fn redirect_to_query(base: &str, pairs: &Vec<(String, String)>) -> (r: Option<
        ExecuteAction,
    >)
        ensures
            r is Some <==> url_ok(base@),
            (match r {
                Some(a) => action_url(a) == url_with_params_norm(base@, pairs_view(pairs@)),
                None => !url_ok(base@),
            }),
    {
        match url_with_params(base, pairs) {
            Some(u) => Some(ExecuteAction::Redirect(u)),
            None => None,
        }
    }
}

/// Whether `c` is a CJK unified ideograph (base block, extension A or
/// extension B).
pub open spec fn is_cjk(c: char) -> bool {
    ('\u{4E00}' <= c && c <= '\u{9FFF}') || ('\u{3400}' <= c && c <= '\u{4DBF}') || (
    '\u{20000}' <= c && c <= '\u{2A6DF}')
}

/// Whether any character of `content` is a CJK ideograph.
pub open spec fn has_cjk(content: Seq<char>) -> bool {
    exists|i: int| 0 <= i < content.len() && is_cjk(content[i])
}

/// Test a character for CJK, as [`is_cjk`] describes it.
pub fn char_is_cjk(c: char) -> (r: bool)
    ensures
        r == is_cjk(c),
{
    ('\u{4E00}' <= c && c <= '\u{9FFF}') || ('\u{3400}' <= c && c <= '\u{4DBF}') || ('\u{20000}'
        <= c && c <= '\u{2A6DF}')
}

/// Test a string for CJK content, as [`has_cjk`] describes it.
pub fn str_has_cjk(content: &str) -> (r: bool)
    ensures
        r == has_cjk(content@),
{
    let n = content.unicode_len();
    let mut i: usize = 0;
    while i < n
        invariant
            i <= n,
            n == content@.len(),
            forall|j: int| 0 <= j < i ==> !is_cjk(content@[j]),
        decreases n - i,
    {
        if char_is_cjk(content.get_char(i)) {
            return true;
        }
        i += 1;
    }
    false
}

/// One of the built-in search engines that the plugins install.
pub enum SearchEngine {
    PythonStdDocs,
    Pypi,
    PythonPackages,
    RustStdDocs,
    CratesIo,
    LibRs,
    DocsRs,
    Javascript,
    Google,
    Bing { china: bool },
    DuckDuckGo { bang: bool, direct: bool },
    Baidu,
    Sogou,
    Wikipedia,
    /// A rule-defined engine: a URL template with `{}` for the query.
    Simple { template: String },
}

/// A redirect to `base` with one query pair, the common shape of most
/// engines; `Incomplete` when the base is not a well-formed URL.
pub open spec fn query_redirect(base: Seq<char>, key: Seq<char>, value: Seq<char>) -> Result<
    Seq<char>,
    Fail,
> {
    if url_ok(base) {
        Ok(url_with_params_norm(base, seq![(key, value)]))
    } else {
        Err(Fail::Incomplete)
    }
}

/// The documentation-search URL for a prominent Python package handle.
pub open spec fn python_package_url(p: Seq<char>) -> Option<Seq<char>> {
    if p == "np"@ {
        Some("https://numpy.org/doc/stable/search.html"@)
    } else if p == "pd"@ {
        Some("https://pandas.pydata.org/docs/search.html"@)
    } else if p == "plt"@ {
        Some("https://matplotlib.org/stable/search.html"@)
    } else if p == "sns"@ {
        Some("https://seaborn.pydata.org/search.html"@)
    } else if p == "torch"@ {
        Some("https://pytorch.org/docs/stable/search.html"@)
    } else if p == "ipy"@ {
        Some("https://ipython.readthedocs.io/en/stable/search.html"@)
    } else if p == "sk"@ {
        Some("https://scikit-learn.org/stable/search.html"@)
    } else if p == "keras"@ {
        Some("https://keras.io/search.html"@)
    } else if p == "sqla"@ {
        Some("https://docs.sqlalchemy.org/en/stable/search.html"@)
    } else {
        None
    }
}

/// The documentation site for a JavaScript ecosystem handle.
pub open spec fn javascript_site(p: Seq<char>) -> Option<Seq<char>> {
    if p == "react"@ {
        Some("reactjs.org"@)
    } else if p == "vue"@ {
        Some("vuejs.org"@)
    } else if p == "svelte"@ {
        Some("svelte.dev"@)
    } else if p == "solid"@ {
        Some("solidjs.com"@)
    } else if p == "alpine"@ {
        Some("alpinejs.dev"@)
    } else if p == "rollup"@ {
        Some("rollupjs.org"@)
    } else if p == "vite"@ {
        Some("vitejs.dev"@)
    } else if p == "next"@ {
        Some("nextjs.org"@)
    } else if p == "nuxt"@ {
        Some("nuxtjs.org"@)
    } else if p == "astro"@ {
        Some("astro.build"@)
    } else if p == "deno"@ {
        Some("deno.land"@)
    } else if p == "bun"@ {
        Some("bun.sh"@)
    } else if p == "vue-router"@ {
        Some("router.vuejs.org"@)
    } else if p == "pinia"@ {
        Some("pinia.vuejs.org"@)
    } else if p == "vueuse"@ {
        Some("vueuse.org"@)
    } else if p == "puppeteer"@ {
        Some("pptr.dev"@)
    } else if p == "playwright"@ {
        Some("playwright.dev"@)
    } else if p == "tailwind"@ {
        Some("tailwindcss.com"@)
    } else if p == "pico"@ {
        Some("picocss.com"@)
    } else if p == "vitest"@ {
        Some("vitest.dev"@)
    } else {
        None
    }
}

/// The Google query that a fallback search issues: the topic word, the
/// residue joined with spaces, another space, and the content.
pub open spec fn fallback_terms(topic: Seq<char>, residue: Seq<Seq<char>>, content: Seq<char>)
    -> Seq<char> {
    topic + join_spaced(residue) + " "@ + content
}

/// What a JavaScript fallback search redirects to: a site-restricted
/// Google search when the first residue segment names a known site, a
/// plain Google search over `javascript` terms otherwise.
pub open spec fn javascript_fallback(residue: Seq<Seq<char>>, content: Seq<char>) -> Result<
    Seq<char>,
    Fail,
> {
    if residue.len() > 0 && javascript_site(residue[0]) is Some {
        query_redirect(
            "https://google.com/search"@,
            "q"@,
            "site:"@ + javascript_site(residue[0])->Some_0 + " "@ + content,
        )
    } else {
        query_redirect(
            "https://www.google.com/search"@,
            "q"@,
            fallback_terms("javascript "@, residue, content),
        )
    }
}

/// What the JavaScript engine redirects to, keyed on the whole residue.
pub open spec fn javascript_execute(residue: Seq<Seq<char>>, content: Seq<char>) -> Result<
    Seq<char>,
    Fail,
> {
    if residue.len() == 0 || residue =~= seq!["mdn"@] {
        query_redirect("https://developer.mozilla.org/en-US/search"@, "q"@, content)
    } else if residue =~= seq!["npm"@] {
        query_redirect("https://www.npmjs.com/search"@, "q"@, content)
    } else if residue =~= seq!["jsr"@] {
        query_redirect("https://jsr.io/packages"@, "search"@, content)
    } else if residue =~= seq!["node"@] {
        query_redirect("https://nodejs.org/en/search"@, "q"@, content)
    } else if residue =~= seq!["uno"@] {
        query_redirect("https://unocss.dev/interactive"@, "s"@, content)
    } else if residue =~= seq!["icones"@] {
        query_redirect("https://icones.netlify.app/collection/all"@, "s"@, content)
    } else if residue =~= seq!["caniuse"@] {
        query_redirect("https://caniuse.com/"@, "search"@, content)
    } else {
        javascript_fallback(residue, content)
    }
}

/// What the docs.rs engine redirects to: the base joined with the crate
/// name and optionally a version, with the search term appended.
pub open spec fn docs_rs_execute(residue: Seq<Seq<char>>, content: Seq<char>) -> Result<
    Seq<char>,
    Fail,
> {
    if residue.len() == 0 {
        Err(Fail::Incomplete)
    } else {
        let second = if residue.len() >= 2 {
            Some(residue[1])
        } else {
            None
        };
        match url_join_params_norm("https://docs.rs/"@, residue[0], second, "search"@, content) {
            Some(u) => Ok(u),
            None => Err(Fail::Incomplete),
        }
    }
}

/// What the prominent-Python-packages engine redirects to: the known
/// package's documentation search, or a Google fallback over `python`
/// terms; `Incomplete` without a residue segment.
pub open spec fn python_packages_execute(residue: Seq<Seq<char>>, content: Seq<char>) -> Result<
    Seq<char>,
    Fail,
> {
    if residue.len() == 0 {
        Err(Fail::Incomplete)
    } else {
        match python_package_url(residue[0]) {
            Some(base) => query_redirect(base, "q"@, content),
            None => query_redirect(
                "https://www.google.com/search"@,
                "q"@,
                fallback_terms("python "@, residue, content),
            ),
        }
    }
}

/// What the Wikipedia engine redirects to: the language edition named by
/// the first residue segment, else Chinese for CJK content and English
/// otherwise.
pub open spec fn wikipedia_execute(residue: Seq<Seq<char>>, content: Seq<char>) -> Result<
    Seq<char>,
    Fail,
> {
    let base = if residue.len() > 0 && residue[0] == "zh"@ {
        "https://zh.wikipedia.org/w/index.php"@
    } else if residue.len() > 0 && residue[0] == "ja"@ {
        "https://ja.wikipedia.org/w/index.php"@
    } else if has_cjk(content) {
        "https://zh.wikipedia.org/w/index.php"@
    } else {
        "https://en.wikipedia.org/w/index.php"@
    };
    query_redirect(base, "search"@, content)
}

/// What the Bing engine redirects to: the China edition for the China
/// engine or a `cn` marker in the second residue segment, the world
/// edition otherwise.
pub open spec fn bing_execute(china: bool, residue: Seq<Seq<char>>, content: Seq<char>) -> Result<
    Seq<char>,
    Fail,
> {
    if china || (residue.len() >= 2 && residue[1] == "cn"@) {
        query_redirect("https://cn.bing.com/search"@, "q"@, content)
    } else {
        query_redirect("https://www.bing.com/search"@, "q"@, content)
    }
}

/// What the rule-defined engine redirects to: its template with `{}`
/// replaced by the content, when that is a well-formed URL.
pub open spec fn simple_execute(template: Seq<char>, content: Seq<char>) -> Result<
    Seq<char>,
    Fail,
> {
    let u = replace_spec(template, "{}"@, content);
    if url_ok(u) {
        Ok(url_norm(u))
    } else {
        Err(Fail::Incomplete)
    }
}

/// What `engine` redirects a query to, as a function of the engine, the
/// query's residue and its content.
pub open spec fn execute_spec(
    engine: SearchEngine,
    residue: Seq<Seq<char>>,
    content: Seq<char>,
) -> Result<Seq<char>, Fail> {
    match engine {
        SearchEngine::PythonStdDocs => query_redirect(
            "https://docs.python.org/3/search.html"@,
            "q"@,
            content,
        ),
        SearchEngine::Pypi => query_redirect("https://pypi.org/search"@, "q"@, content),
        SearchEngine::PythonPackages => python_packages_execute(residue, content),
        SearchEngine::RustStdDocs => query_redirect(
            "https://doc.rust-lang.org/std/index.html"@,
            "search"@,
            content,
        ),
        SearchEngine::CratesIo => query_redirect("https://crates.io/search"@, "q"@, content),
        SearchEngine::LibRs => query_redirect("https://lib.rs/search"@, "q"@, content),
        SearchEngine::DocsRs => docs_rs_execute(residue, content),
        SearchEngine::Javascript => javascript_execute(residue, content),
        SearchEngine::Google => query_redirect("https://www.google.com/search"@, "q"@, content),
        SearchEngine::Bing { china } => bing_execute(china, residue, content),
        SearchEngine::DuckDuckGo { .. } => query_redirect("https://duckduckgo.com"@, "q"@, content),
        SearchEngine::Baidu => query_redirect("https://www.baidu.com/s"@, "wd"@, content),
        SearchEngine::Sogou => query_redirect("https://www.sogou.com/web"@, "query"@, content),
        SearchEngine::Wikipedia => wikipedia_execute(residue, content),
        SearchEngine::Simple { template } => simple_execute(template@, content),
    }
}

/// Redirect to `base` with one query pair, as [`query_redirect`]
/// describes it.
fn do_query_redirect(base: &str, key: &str, value: &str) -> (r: Result<ExecuteAction, Fail>)
    ensures
        (match r {
            Ok(a) => query_redirect(base@, key@, value@) == Ok::<Seq<char>, Fail>(action_url(a)),
            Err(f) => query_redirect(base@, key@, value@) == Err::<Seq<char>, Fail>(f),
        }),
{
    let mut pairs: Vec<(String, String)> = Vec::new();
    pairs.push((key.to_owned(), value.to_owned()));
    proof {
        assert(pairs_view(pairs@) =~= seq![(key@, value@)]);
    }
    match ExecuteAction::redirect_to_query(base, &pairs) {
        Some(a) => Ok(a),
        None => Err(Fail::Incomplete),
    }
}

/// The package documentation base for a handle, as
/// [`python_package_url`] describes it.
fn python_package_base(p: &str) -> (r: Option<&'static str>)
    ensures
        (match r {
            Some(b) => python_package_url(p@) == Some(b@),
            None => python_package_url(p@) is None,
        }),
{
    if str_eq(p, "np") {
        Some("https://numpy.org/doc/stable/search.html")
    } else if str_eq(p, "pd") {
        Some("https://pandas.pydata.org/docs/search.html")
    } else if str_eq(p, "plt") {
        Some("https://matplotlib.org/stable/search.html")
    } else if str_eq(p, "sns") {
        Some("https://seaborn.pydata.org/search.html")
    } else if str_eq(p, "torch") {
        Some("https://pytorch.org/docs/stable/search.html")
    } else if str_eq(p, "ipy") {
        Some("https://ipython.readthedocs.io/en/stable/search.html")
    } else if str_eq(p, "sk") {
        Some("https://scikit-learn.org/stable/search.html")
    } else if str_eq(p, "keras") {
        Some("https://keras.io/search.html")
    } else if str_eq(p, "sqla") {
        Some("https://docs.sqlalchemy.org/en/stable/search.html")
    } else {
        None
    }
}

/// The site for a JavaScript ecosystem handle, as [`javascript_site`]
/// describes it.
fn javascript_site_base(p: &str) -> (r: Option<&'static str>)
    ensures
        (match r {
            Some(b) => javascript_site(p@) == Some(b@),
            None => javascript_site(p@) is None,
        }),
{
    if str_eq(p, "react") {
        Some("reactjs.org")
    } else if str_eq(p, "vue") {
        Some("vuejs.org")
    } else if str_eq(p, "svelte") {
        Some("svelte.dev")
    } else if str_eq(p, "solid") {
        Some("solidjs.com")
    } else if str_eq(p, "alpine") {
        Some("alpinejs.dev")
    } else if str_eq(p, "rollup") {
        Some("rollupjs.org")
    } else if str_eq(p, "vite") {
        Some("vitejs.dev")
    } else if str_eq(p, "next") {
        Some("nextjs.org")
    } else if str_eq(p, "nuxt") {
        Some("nuxtjs.org")
    } else if str_eq(p, "astro") {
        Some("astro.build")
    } else if str_eq(p, "deno") {
        Some("deno.land")
    } else if str_eq(p, "bun") {
        Some("bun.sh")
    } else if str_eq(p, "vue-router") {
        Some("router.vuejs.org")
    } else if str_eq(p, "pinia") {
        Some("pinia.vuejs.org")
    } else if str_eq(p, "vueuse") {
        Some("vueuse.org")
    } else if str_eq(p, "puppeteer") {
        Some("pptr.dev")
    } else if str_eq(p, "playwright") {
        Some("playwright.dev")
    } else if str_eq(p, "tailwind") {
        Some("tailwindcss.com")
    } else if str_eq(p, "pico") {
        Some("picocss.com")
    } else if str_eq(p, "vitest") {
        Some("vitest.dev")
    } else {
        None
    }
}

/// The terms of a fallback Google search, as [`fallback_terms`]
/// describes them.
fn build_fallback_terms(topic: &str, residue: &Vec<String>, content: &str) -> (r: String)
    ensures
        r@ == fallback_terms(topic@, residue.deep_view(), content@),
{
    let mut out = topic.to_owned();
    let joined = join_with_spaces(residue);
    out.append(joined.as_str());
    out.append(" ");
    out.append(content);
    out
}

impl SearchEngine {
    /// Produce the redirect for a query, as [`execute_spec`] describes
    /// it.
    pub fn execute(&self, query: &Query) -> (r: Result<ExecuteAction, Fail>)
        requires
            query.mention.wf(),
        ensures
            (match r {
                Ok(a) => execute_spec(
                    *self,
                    query.mention.seq_view().skip(query.mention.resolved_count()),
                    query.content@,
                ) == Ok::<Seq<char>, Fail>(action_url(a)),
                Err(f) => execute_spec(
                    *self,
                    query.mention.seq_view().skip(query.mention.resolved_count()),
                    query.content@,
                ) == Err::<Seq<char>, Fail>(f),
            }),
    {
        let content = query.content();
        match self {
            SearchEngine::PythonStdDocs => do_query_redirect(
                "https://docs.python.org/3/search.html",
                "q",
                content,
            ),
            SearchEngine::Pypi => do_query_redirect("https://pypi.org/search", "q", content),
            SearchEngine::PythonPackages => {
                let residue = query.residue();
                if residue.len() == 0 {
                    return Err(Fail::Incomplete);
                }
                match python_package_base(residue[0].as_str()) {
                    Some(base) => do_query_redirect(base, "q", content),
                    None => {
                        let terms = build_fallback_terms("python ", &residue, content);
                        do_query_redirect("https://www.google.com/search", "q", terms.as_str())
                    },
                }
            },
            SearchEngine::RustStdDocs => do_query_redirect(
                "https://doc.rust-lang.org/std/index.html",
                "search",
                content,
            ),
            SearchEngine::CratesIo => do_query_redirect("https://crates.io/search", "q", content),
            SearchEngine::LibRs => do_query_redirect("https://lib.rs/search", "q", content),
            SearchEngine::DocsRs => {
                let residue = query.residue();
                if residue.len() == 0 {
                    return Err(Fail::Incomplete);
                }
                let second = if residue.len() >= 2 {
                    Some(&residue[1])
                } else {
                    None
                };
                match url_join_params(
                    "https://docs.rs/",
                    residue[0].as_str(),
                    second,
                    "search",
                    content,
                ) {
                    Some(u) => Ok(ExecuteAction::Redirect(u)),
                    None => Err(Fail::Incomplete),
                }
            },
            SearchEngine::Javascript => {
                let residue = query.residue();
                let ghost rv = residue.deep_view();
                if residue.len() == 0 || (residue.len() == 1 && str_eq(residue[0].as_str(), "mdn"))
                    {
                    proof {
                        if rv.len() == 1 {
                            assert(rv =~= seq!["mdn"@]);
                        }
                    }
                    return do_query_redirect(
                        "https://developer.mozilla.org/en-US/search",
                        "q",
                        content,
                    );
                }
                if residue.len() == 1 {
                    let head = residue[0].as_str();
                    if str_eq(head, "npm") {
                        proof {
                            assert(rv =~= seq!["npm"@]);
                        }
                        return do_query_redirect("https://www.npmjs.com/search", "q", content);
                    }
                    if str_eq(head, "jsr") {
                        proof {
                            assert(rv =~= seq!["jsr"@]);
                        }
                        return do_query_redirect("https://jsr.io/packages", "search", content);
                    }
                    if str_eq(head, "node") {
                        proof {
                            assert(rv =~= seq!["node"@]);
                        }
                        return do_query_redirect("https://nodejs.org/en/search", "q", content);
                    }
                    if str_eq(head, "uno") {
                        proof {
                            assert(rv =~= seq!["uno"@]);
                        }
                        return do_query_redirect("https://unocss.dev/interactive", "s", content);
                    }
                    if str_eq(head, "icones") {
                        proof {
                            assert(rv =~= seq!["icones"@]);
                        }
                        return do_query_redirect(
                            "https://icones.netlify.app/collection/all",
                            "s",
                            content,
                        );
                    }
                    if str_eq(head, "caniuse") {
                        proof {
                            assert(rv =~= seq!["caniuse"@]);
                        }
                        return do_query_redirect("https://caniuse.com/", "search", content);
                    }
                }
                proof {
                    lemma_not_singleton(rv, "mdn"@);
                    lemma_not_singleton(rv, "npm"@);
                    lemma_not_singleton(rv, "jsr"@);
                    lemma_not_singleton(rv, "node"@);
                    lemma_not_singleton(rv, "uno"@);
                    lemma_not_singleton(rv, "icones"@);
                    lemma_not_singleton(rv, "caniuse"@);
                }
                match javascript_site_base(residue[0].as_str()) {
                    Some(site) => {
                        let mut terms = "site:".to_owned();
                        terms.append(site);
                        terms.append(" ");
                        terms.append(content);
                        do_query_redirect("https://google.com/search", "q", terms.as_str())
                    },
                    None => {
                        let terms = build_fallback_terms("javascript ", &residue, content);
                        do_query_redirect("https://www.google.com/search", "q", terms.as_str())
                    },
                }
            },
            SearchEngine::Google => do_query_redirect(
                "https://www.google.com/search",
                "q",
                content,
            ),
            SearchEngine::Bing { china } => {
                let residue = query.residue();
                if *china || (residue.len() >= 2 && str_eq(residue[1].as_str(), "cn")) {
                    do_query_redirect("https://cn.bing.com/search", "q", content)
                } else {
                    do_query_redirect("https://www.bing.com/search", "q", content)
                }
            },
            SearchEngine::DuckDuckGo { .. } => do_query_redirect(
                "https://duckduckgo.com",
                "q",
                content,
            ),
            SearchEngine::Baidu => do_query_redirect("https://www.baidu.com/s", "wd", content),
            SearchEngine::Sogou => do_query_redirect("https://www.sogou.com/web", "query", content),
            SearchEngine::Wikipedia => {
                let residue = query.residue();
                let base = if residue.len() > 0 && str_eq(residue[0].as_str(), "zh") {
                    "https://zh.wikipedia.org/w/index.php"
                } else if residue.len() > 0 && str_eq(residue[0].as_str(), "ja") {
                    "https://ja.wikipedia.org/w/index.php"
                } else if str_has_cjk(content) {
                    "https://zh.wikipedia.org/w/index.php"
                } else {
                    "https://en.wikipedia.org/w/index.php"
                };
                do_query_redirect(base, "search", content)
            },
            SearchEngine::Simple { template } => {
                proof {
                    reveal_strlit("{}");
                }
                let url = replace_all(template.as_str(), "{}", content);
                match ExecuteAction::redirect_to(url.as_str()) {
                    Some(a) => Ok(a),
                    None => Err(Fail::Incomplete),
                }
            },
        }
    }
}

/// A sequence whose length is not one, or whose only element is not
/// `x`, is not the singleton of `x`.
proof fn lemma_not_singleton(s: Seq<Seq<char>>, x: Seq<char>)
    requires
        s.len() != 1 || s[0] != x,
    ensures
        !(s =~= seq![x]),
{
}

/// An arena of engine nodes addressed by stable handles. Engines are
/// only ever added; a handle stays valid for the arena's lifetime.
pub struct ArenaEngine {
    arena: Vec<SearchEngine>,
}

impl ArenaEngine {
    /// The engines, in insertion order; a handle is an index here.
    pub closed spec fn arena_view(&self) -> Seq<SearchEngine> {
        self.arena@
    }

    /// An empty arena.
    pub fn new() -> (r: Self)
        ensures
            r.arena_view() == Seq::<SearchEngine>::empty(),
    {
        let r = ArenaEngine { arena: Vec::new() };
        proof {
            assert(r.arena_view() =~= Seq::<SearchEngine>::empty());
        }
        r
    }

    /// Add an engine, returning its handle.
    pub fn insert(&mut self, engine: SearchEngine) -> (h: HandleEngine)
        ensures
            final(self).arena_view() =~= old(self).arena_view().push(engine),
            h.0 == old(self).arena_view().len(),
    {
        let h = HandleEngine(self.arena.len());
        self.arena.push(engine);
        h
    }

    /// The engine a handle points at, if the handle is live.
    pub fn get<'s>(&'s self, handle: HandleEngine) -> (r: Option<&'s SearchEngine>)
        ensures
            (match r {
                Some(e) => handle.0 < self.arena_view().len() && *e == self.arena_view()[
                    handle.0 as int
                ],
                None => handle.0 >= self.arena_view().len(),
            }),
    {
        if handle.0 < self.arena.len() {
            Some(&self.arena[handle.0])
        } else {
            None
        }
    }
}

} // verus!
