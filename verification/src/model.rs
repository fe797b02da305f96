//! The mathematical model of the router: platforms, the routing decision as a
//! spec function over the URL's domain and path, and the canonical text of a
//! route.

use vstd::prelude::*;

verus! {

/// A hosting platform known to the router.
#[derive(Clone, Copy, Debug, PartialEq, Eq, Structural)]
pub enum Platform {
    GitHub,
    Gitlab,
}

/// Why a URL could not be routed. Every variant is terminal: the same input
/// always fails the same way.
#[derive(Clone, Copy, Debug, PartialEq, Eq, Structural)]
pub enum RouteError {
    /// The URL has no host that is a domain name.
    NoDomain,
    /// The host matches no known hosting platform.
    NoRoute,
    /// The URL has no path component at all.
    NoPath,
    /// The path has no non-empty segment after the leading slash.
    NoUsername,
}

/// The abstract value of a routed URL: which platform it names, which user,
/// and, for a repository route, which repository.
#[verifier::ext_equal]
pub enum RouteModel {
    UserRoute { platform: Platform, username: Seq<char> },
    RepoRoute { platform: Platform, username: Seq<char>, repo_name: Seq<char> },
}

impl RouteModel {
    pub open spec fn platform(self) -> Platform {
        match self {
            RouteModel::UserRoute { platform, .. } => platform,
            RouteModel::RepoRoute { platform, .. } => platform,
        }
    }

    pub open spec fn username(self) -> Seq<char> {
        match self {
            RouteModel::UserRoute { username, .. } => username,
            RouteModel::RepoRoute { username, .. } => username,
        }
    }
}

pub open spec fn github_domain() -> Seq<char> {
    "github.com"@
}

pub open spec fn gitlab_domain() -> Seq<char> {
    "gitlab.com"@
}

pub open spec fn github_base() -> Seq<char> {
    "https://github.com/"@
}

pub open spec fn gitlab_base() -> Seq<char> {
    "https://gitlab.com/"@
}

pub open spec fn scheme() -> Seq<char> {
    "https://"@
}

pub open spec fn slash() -> Seq<char> {
    "/"@
}

pub open spec fn git_suffix() -> Seq<char> {
    ".git"@
}

/// The fixed domain string a platform is matched by.
pub open spec fn domain_of(p: Platform) -> Seq<char> {
    match p {
        Platform::GitHub => github_domain(),
        Platform::Gitlab => gitlab_domain(),
    }
}

/// The fixed canonical base URL of a platform.
pub open spec fn base_of(p: Platform) -> Seq<char> {
    match p {
        Platform::GitHub => github_base(),
        Platform::Gitlab => gitlab_base(),
    }
}

/// The platform whose domain string equals `domain`, if any. The comparison
/// is case-sensitive: hosts are expected lowercase, as the URL parser
/// normalizes them.
pub open spec fn platform_for(domain: Seq<char>) -> Option<Platform> {
    if domain == github_domain() {
        Some(Platform::GitHub)
    } else if domain == gitlab_domain() {
        Some(Platform::Gitlab)
    } else {
        None
    }
}

/// Index of the first `'/'` in `p` at or after `i`, or `p.len()` when there
/// is none.
pub open spec fn next_slash(p: Seq<char>, i: int) -> int
    decreases p.len() - i,
{
    if i < 0 || i >= p.len() {
        p.len() as int
    } else if p[i] == '/' {
        i
    } else {
        next_slash(p, i + 1)
    }
}

/// Whether `s` ends with the four characters `.git`.
pub open spec fn ends_with_git(s: Seq<char>) -> bool {
    s.len() >= 4 && s[s.len() - 4] == '.' && s[s.len() - 3] == 'g' && s[s.len() - 2] == 'i'
        && s[s.len() - 1] == 't'
}

/// `s` with one trailing `.git` removed when the suffix matches exactly,
/// otherwise `s` unchanged.
pub open spec fn strip_git(s: Seq<char>) -> Seq<char> {
    if ends_with_git(s) {
        s.subrange(0, s.len() - 4)
    } else {
        s
    }
}

/// The routing decision for a path on a platform already matched by domain.
/// The first slash-delimited segment (everything before the first `'/'`) is
/// discarded; the second is the username; the third, if present and
/// non-empty, is the repository name, minus a trailing `.git`; anything
/// further is ignored.
pub open spec fn route_path_spec(pf: Platform, path: Seq<char>) -> Result<RouteModel, RouteError> {
    if path.len() == 0 {
        Err(RouteError::NoPath)
    } else {
        let i0 = next_slash(path, 0);
        if i0 == path.len() {
            Err(RouteError::NoUsername)
        } else {
            let i1 = next_slash(path, i0 + 1);
            let username = path.subrange(i0 + 1, i1);
            if username.len() == 0 {
                Err(RouteError::NoUsername)
            } else if i1 == path.len() {
                Ok(RouteModel::UserRoute { platform: pf, username })
            } else {
                let i2 = next_slash(path, i1 + 1);
                let seg = path.subrange(i1 + 1, i2);
                if seg.len() == 0 {
                    Ok(RouteModel::UserRoute { platform: pf, username })
                } else {
                    Ok(
                        RouteModel::RepoRoute {
                            platform: pf,
                            username,
                            repo_name: strip_git(seg),
                        },
                    )
                }
            }
        }
    }
}

/// The full routing decision over a URL's domain (if it has one) and path.
pub open spec fn route_spec(domain: Option<Seq<char>>, path: Seq<char>) -> Result<
    RouteModel,
    RouteError,
> {
    match domain {
        None => Err(RouteError::NoDomain),
        Some(d) => match platform_for(d) {
            None => Err(RouteError::NoRoute),
            Some(pf) => route_path_spec(pf, path),
        },
    }
}

/// What every route produced by the router satisfies: the username is a
/// non-empty path segment, and neither name contains a `'/'`.
pub open spec fn wf_route(r: RouteModel) -> bool {
    match r {
        RouteModel::UserRoute { username, .. } => username.len() > 0 && !username.contains('/'),
        RouteModel::RepoRoute { username, repo_name, .. } => username.len() > 0
            && !username.contains('/') && !repo_name.contains('/'),
    }
}

/// The routes whose canonical text routes back to them: on top of
/// `wf_route`, a repository name must be non-empty and must not itself end
/// in `.git` (a second pass would strip it again).
pub open spec fn round_trippable(r: RouteModel) -> bool {
    wf_route(r) && match r {
        RouteModel::UserRoute { .. } => true,
        RouteModel::RepoRoute { repo_name, .. } => repo_name.len() > 0 && !ends_with_git(repo_name),
    }
}

/// The domain of the canonical URL of a route.
pub open spec fn canonical_domain(r: RouteModel) -> Seq<char> {
    domain_of(r.platform())
}

/// The path of the canonical URL of a route: `/<username>[/<repo_name>]`.
pub open spec fn canonical_path(r: RouteModel) -> Seq<char> {
    match r {
        RouteModel::UserRoute { username, .. } => slash() + username,
        RouteModel::RepoRoute { username, repo_name, .. } => slash() + username + slash()
            + repo_name,
    }
}

/// The canonical text of a route: `<base_url><username>[/<repo_name>]`.
pub open spec fn route_text(r: RouteModel) -> Seq<char> {
    match r {
        RouteModel::UserRoute { platform, username } => base_of(platform) + username,
        RouteModel::RepoRoute { platform, username, repo_name } => base_of(platform) + username
            + slash() + repo_name,
    }
}

/// `next_slash(p, start)` lies between `start` and `p.len()`, points at a
/// `'/'` unless it is `p.len()`, and skips no `'/'`.
pub proof fn lemma_next_slash_props(p: Seq<char>, start: int)
    requires
        0 <= start <= p.len(),
    ensures
        start <= next_slash(p, start) <= p.len(),
        next_slash(p, start) < p.len() ==> p[next_slash(p, start)] == '/',
        forall|j: int| start <= j < next_slash(p, start) ==> p[j] != '/',
    decreases p.len() - start,
{
    if start < p.len() && p[start] != '/' {
        lemma_next_slash_props(p, start + 1);
    }
}

/// A position `i` with no `'/'` before it (from `start` on) and a `'/'` at it
/// (or the end of `p`) is exactly `next_slash(p, start)`.
pub proof fn lemma_next_slash_at(p: Seq<char>, start: int, i: int)
    requires
        0 <= start <= i <= p.len(),
        forall|j: int| start <= j < i ==> p[j] != '/',
        i == p.len() || p[i] == '/',
    ensures
        next_slash(p, start) == i,
    decreases i - start,
{
    if start < i {
        lemma_next_slash_at(p, start + 1, i);
    }
}

} // verus!
