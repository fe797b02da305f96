//! The router: the verified routing algorithm over `UrlParts`, and its
//! entry point over a parsed `url::Url`, whose domain and path are read
//! through trusted wrappers.

use vstd::prelude::*;

use crate::model::lemma_next_slash_at;
use crate::model::lemma_next_slash_props;
use crate::model::next_slash;
use crate::model::route_spec;
use crate::model::route_text;
use crate::model::strip_git;
use crate::model::wf_route;
use crate::model::Platform;
use crate::model::RouteError;
use crate::model::RouteModel;
use crate::route::GitHubUser;
use crate::route::GitlabUser;
use crate::route::RepoName;
use crate::route::Route;
use crate::route::UrlParts;
use crate::route::User;
use crate::route::Username;

verus! {

#[verifier::external_type_specification]
#[verifier::external_body]
pub struct ExUrl(url::Url);

/// The domain of a URL value, when its host is a domain name. A `url::Url`
/// is opaque here, so what `url::Url::domain` reads of it bears a name; it
/// depends on the URL value alone.
pub uninterp spec fn url_domain_of(url: url::Url) -> Option<Seq<char>>;

/// The path of a URL value, query string and fragment excluded. A
/// `url::Url` is opaque here, so what `url::Url::path` reads of it bears a
/// name; it depends on the URL value alone.
pub uninterp spec fn url_path_of(url: url::Url) -> Seq<char>;

/// Relies on `url::Url::domain`: it returns the URL's host when that host is
/// a domain name (which the parser stores lowercased for special schemes),
/// and `None` when the host is an IP address or absent.
#[verifier::external_body]
fn url_domain(url: &url::Url) -> (d: Option<String>)
    ensures
        (url_domain_of(*url) == match d {
            Some(s) => Some::<Seq<char>>(s@),
            None => None::<Seq<char>>,
        }),
{
    url.domain().map(|d| d.to_string())
}

/// Relies on `url::Url::path`: it returns the URL's path, with the query
/// string and fragment excluded.
#[verifier::external_body]
fn url_path(url: &url::Url) -> (p: String)
    ensures
        p@ == url_path_of(*url),
{
    url.path().to_string()
}

/// What `url::Url::parse` returns for a given text, with `None` standing
/// for a parse failure. The result depends on the text alone, so it bears a
/// name.
pub uninterp spec fn parse_of(s: Seq<char>) -> Option<url::Url>;

/// Relies on `url::Url::parse`: it parses the text into a URL value and
/// returns an error (here mapped to `None`) rather than panicking when the
/// text is not a valid URL; the result is a function of the text alone.
#[verifier::external_body]
fn parse_url(s: &str) -> (r: Option<url::Url>)
    ensures
        r == parse_of(s@),
{
    url::Url::parse(s).ok()
}

/// Index of the first `'/'` in `path` at or after `start`, or the length of
/// `path` when there is none.
fn find_slash(path: &str, start: usize) -> (i: usize)
    requires
        start <= path@.len(),
    ensures
        i as int == next_slash(path@, start as int),
        start <= i <= path@.len(),
{
    let n: usize = path.unicode_len();
    let mut i: usize = start;
    while i < n
        invariant
            start <= i <= n,
            n == path@.len(),
            forall|j: int| start <= j < i ==> path@[j] != '/',
        decreases n - i,
    {
        if path.get_char(i) == '/' {
            proof {
                lemma_next_slash_at(path@, start as int, i as int);
            }
            return i;
        }
        i = i + 1;
    }
    proof {
        lemma_next_slash_at(path@, start as int, n as int);
    }
    n
}

/// `seg` with one trailing `.git` removed when the suffix matches exactly;
/// no partial strip, no second strip.
fn strip_git_suffix(seg: &str) -> (r: &str)
    ensures
        r@ == strip_git(seg@),
{
    let n: usize = seg.unicode_len();
    if n >= 4 && seg.get_char(n - 4) == '.' && seg.get_char(n - 3) == 'g' && seg.get_char(n - 2)
        == 'i' && seg.get_char(n - 1) == 't' {
        seg.substring_char(0, n - 4)
    } else {
        seg
    }
}

/// Routes the domain and path of a URL: decides which platform the domain
/// names, then whether the path names a user or a repository, exactly as
/// `route_spec` says.
pub fn route_parts(parts: &UrlParts) -> (r: Result<Route, RouteError>)
    ensures
        (match r {
            Ok(rt) => route_spec(parts@.domain, parts@.path) == Ok::<RouteModel, RouteError>(rt@),
            Err(e) => route_spec(parts@.domain, parts@.path) == Err::<RouteModel, RouteError>(e),
        }),
{
    let domain = match &parts.domain {
        None => {
            return Err(RouteError::NoDomain);
        },
        Some(d) => d,
    };
    let gh = String::from_str("github.com");
    let gl = String::from_str("gitlab.com");
    let platform: Platform = if *domain == gh {
        Platform::GitHub
    } else if *domain == gl {
        Platform::Gitlab
    } else {
        return Err(RouteError::NoRoute);
    };
    let path: &str = parts.path.as_str();
    let n: usize = path.unicode_len();
    if n == 0 {
        return Err(RouteError::NoPath);
    }
    let i0: usize = find_slash(path, 0);
    if i0 == n {
        return Err(RouteError::NoUsername);
    }
    let i1: usize = find_slash(path, i0 + 1);
    let username: &str = path.substring_char(i0 + 1, i1);
    if username.unicode_len() == 0 {
        return Err(RouteError::NoUsername);
    }
    let username = Username(String::from_str(username));
    if i1 == n {
        return Ok(make_user_route(platform, username));
    }
    let i2: usize = find_slash(path, i1 + 1);
    let seg: &str = path.substring_char(i1 + 1, i2);
    if seg.unicode_len() == 0 {
        return Ok(make_user_route(platform, username));
    }
    let repo = RepoName(String::from_str(strip_git_suffix(seg)));
    Ok(make_repo_route(platform, username, repo))
}

/// The user route for `username` on `platform`.
fn make_user_route(platform: Platform, username: Username) -> (r: Route)
    ensures
        (r@ == RouteModel::UserRoute { platform, username: username@ }),
{
    match platform {
        Platform::GitHub => Route::User(User::GitHub(GitHubUser { username })),
        Platform::Gitlab => Route::User(User::Gitlab(GitlabUser { username })),
    }
}

/// The repository route for `repo_name` under `username` on `platform`.
fn make_repo_route(platform: Platform, username: Username, repo_name: RepoName) -> (r: Route)
    ensures
        (r@ == RouteModel::RepoRoute { platform, username: username@, repo_name: repo_name@ }),
{
    match platform {
        Platform::GitHub => Route::GitHubRepo { user: GitHubUser { username }, repo_name },
        Platform::Gitlab => Route::GitlabRepo { user: GitlabUser { username }, repo_name },
    }
}

/// Every route the routing decision can produce is well-formed: the
/// username is non-empty and neither the username nor the repository name
/// contains a `'/'`.
pub proof fn lemma_route_spec_wf(domain: Option<Seq<char>>, path: Seq<char>)
    requires
        route_spec(domain, path) is Ok,
    ensures
        wf_route(route_spec(domain, path)->Ok_0),
{
    let p = path;
    lemma_next_slash_props(p, 0);
    let i0 = next_slash(p, 0);
    if i0 < p.len() {
        lemma_next_slash_props(p, i0 + 1);
        let i1 = next_slash(p, i0 + 1);
        let username = p.subrange(i0 + 1, i1);
        assert(forall|k: int| 0 <= k < username.len() ==> username[k] != '/');
        if username.len() > 0 && i1 < p.len() {
            lemma_next_slash_props(p, i1 + 1);
            let i2 = next_slash(p, i1 + 1);
            let seg = p.subrange(i1 + 1, i2);
            assert(forall|k: int| 0 <= k < seg.len() ==> seg[k] != '/');
            let repo = strip_git(seg);
            assert(forall|k: int| 0 <= k < repo.len() ==> repo[k] != '/');
        }
    }
}

/// Classifies `url` as a user or repository reference on a known platform:
/// exactly `route_spec` on the domain and path that the URL value holds.
/// Any route handed back is well-formed.
pub fn get_route(url: &url::Url) -> (r: Result<Route, RouteError>)
    ensures
        (match r {
            Ok(rt) => route_spec(url_domain_of(*url), url_path_of(*url)) == Ok::<
                RouteModel,
                RouteError,
            >(rt@),
            Err(e) => route_spec(url_domain_of(*url), url_path_of(*url)) == Err::<
                RouteModel,
                RouteError,
            >(e),
        }),
        r matches Ok(rt) ==> wf_route(rt@),
{
    let parts = UrlParts { domain: url_domain(url), path: url_path(url) };
    let r = route_parts(&parts);
    proof {
        assert(parts@.domain == url_domain_of(*url));
        assert(parts@.path == url_path_of(*url));
        if r is Ok {
            lemma_route_spec_wf(parts@.domain, parts@.path);
        }
    }
    r
}

impl Route {
    /// This route as a parsed URL value: exactly the parse of the canonical
    /// text that `to_url_string` renders. Whether that parse succeeds is the
    /// outside parser's own decision — a name whose characters the URL
    /// grammar reserves may make it fail or reshape the URL — so success is
    /// witnessed by tests on concrete routes, not promised here.
    pub fn to_url(&self) -> (r: Option<url::Url>)
        ensures
            r == parse_of(route_text(self@)),
    {
        let s = self.to_url_string();
        parse_url(s.as_str())
    }
}

} // verus!
