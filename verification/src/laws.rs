//! The laws the router obeys, proved against the model in `model`.

use vstd::prelude::*;

use crate::model::base_of;
use crate::model::canonical_domain;
use crate::model::canonical_path;
use crate::model::domain_of;
use crate::model::ends_with_git;
use crate::model::git_suffix;
use crate::model::github_base;
use crate::model::github_domain;
use crate::model::gitlab_base;
use crate::model::gitlab_domain;
use crate::model::lemma_next_slash_at;
use crate::model::platform_for;
use crate::model::round_trippable;
use crate::model::route_spec;
use crate::model::route_text;
use crate::model::scheme;
use crate::model::slash;
use crate::model::strip_git;
use crate::model::Platform;
use crate::model::RouteError;
use crate::model::RouteModel;

verus! {

/// A character position of a sequence that does not contain `'/'` holds no
/// `'/'`.
proof fn lemma_no_slash_index(u: Seq<char>, j: int)
    requires
        !u.contains('/'),
        0 <= j < u.len(),
    ensures
        u[j] != '/',
{
    if u[j] == '/' {
        assert(u.contains('/'));
    }
}

/// Each platform's own domain string matches exactly that platform.
pub proof fn lemma_platform_for_domain(pf: Platform)
    ensures
        platform_for(domain_of(pf)) == Some::<Platform>(pf),
{
    reveal_strlit("github.com");
    reveal_strlit("gitlab.com");
    assert(github_domain()[3] == 'h');
    assert(gitlab_domain()[3] == 'l');
    assert(github_domain() != gitlab_domain());
}

/// A path `/<u>` with `<u>` non-empty and free of `'/'` routes, on any
/// platform the domain matches, to the user route for `<u>`.
pub proof fn lemma_user_route(d: Seq<char>, pf: Platform, u: Seq<char>)
    requires
        platform_for(d) == Some::<Platform>(pf),
        u.len() > 0,
        !u.contains('/'),
    ensures
        (route_spec(Some(d), slash() + u) == Ok::<RouteModel, RouteError>(
            RouteModel::UserRoute { platform: pf, username: u },
        )),
{
    reveal_strlit("/");
    let p = slash() + u;
    assert(p[0] == '/');
    lemma_next_slash_at(p, 0, 0);
    assert forall|j: int| 1 <= j < p.len() implies p[j] != '/' by {
        assert(p[j] == u[j - 1]);
        lemma_no_slash_index(u, j - 1);
    }
    lemma_next_slash_at(p, 1, p.len() as int);
    assert(p.subrange(1, p.len() as int) =~= u);
}

/// For all URLs whose path is `/<u>/<r>` with non-empty `<u>`, `<r>` free of
/// `'/'`, and whose domain names a platform: routing succeeds as a repository
/// route with that platform, username `<u>`, and repository name `<r>` minus
/// any trailing `.git`.
pub proof fn lemma_repo_route(d: Seq<char>, pf: Platform, u: Seq<char>, r: Seq<char>)
    requires
        platform_for(d) == Some::<Platform>(pf),
        u.len() > 0,
        !u.contains('/'),
        r.len() > 0,
        !r.contains('/'),
    ensures
        (route_spec(Some(d), slash() + u + slash() + r) == Ok::<RouteModel, RouteError>(
            RouteModel::RepoRoute { platform: pf, username: u, repo_name: strip_git(r) },
        )),
{
    reveal_strlit("/");
    let p = slash() + u + slash() + r;
    let m: int = 1 + u.len() as int;
    assert(p[0] == '/');
    lemma_next_slash_at(p, 0, 0);
    assert forall|j: int| 1 <= j < m implies p[j] != '/' by {
        assert(p[j] == u[j - 1]);
        lemma_no_slash_index(u, j - 1);
    }
    assert(p[m] == '/');
    lemma_next_slash_at(p, 1, m);
    assert(p.subrange(1, m) =~= u);
    assert forall|j: int| m + 1 <= j < p.len() implies p[j] != '/' by {
        assert(p[j] == r[j - m - 1]);
        lemma_no_slash_index(r, j - m - 1);
    }
    lemma_next_slash_at(p, m + 1, p.len() as int);
    assert(p.subrange(m + 1, p.len() as int) =~= r);
}

/// Path segments beyond the third are ignored: whatever follows
/// `/<u>/<r>/` routes exactly as `/<u>/<r>` does.
pub proof fn lemma_extra_segments_ignored(
    d: Seq<char>,
    pf: Platform,
    u: Seq<char>,
    r: Seq<char>,
    rest: Seq<char>,
)
    requires
        platform_for(d) == Some::<Platform>(pf),
        u.len() > 0,
        !u.contains('/'),
        r.len() > 0,
        !r.contains('/'),
    ensures
        route_spec(Some(d), slash() + u + slash() + r + slash() + rest) == route_spec(
            Some(d),
            slash() + u + slash() + r,
        ),
{
    reveal_strlit("/");
    lemma_repo_route(d, pf, u, r);
    let p = slash() + u + slash() + r + slash() + rest;
    let m: int = 1 + u.len() as int;
    let m2: int = m + 1 + r.len();
    assert(p[0] == '/');
    lemma_next_slash_at(p, 0, 0);
    assert forall|j: int| 1 <= j < m implies p[j] != '/' by {
        assert(p[j] == u[j - 1]);
        lemma_no_slash_index(u, j - 1);
    }
    assert(p[m] == '/');
    lemma_next_slash_at(p, 1, m);
    assert(p.subrange(1, m) =~= u);
    assert forall|j: int| m + 1 <= j < m2 implies p[j] != '/' by {
        assert(p[j] == r[j - m - 1]);
        lemma_no_slash_index(r, j - m - 1);
    }
    assert(p[m2] == '/');
    lemma_next_slash_at(p, m + 1, m2);
    assert(p.subrange(m + 1, m2) =~= r);
}

/// A trailing slash after the username is no repository name: `/<u>/` routes
/// as the user route for `<u>`, exactly as `/<u>` does.
pub proof fn lemma_trailing_slash_is_user_route(d: Seq<char>, pf: Platform, u: Seq<char>)
    requires
        platform_for(d) == Some::<Platform>(pf),
        u.len() > 0,
        !u.contains('/'),
    ensures
        (route_spec(Some(d), slash() + u + slash()) == Ok::<RouteModel, RouteError>(
            RouteModel::UserRoute { platform: pf, username: u },
        )),
{
    reveal_strlit("/");
    let p = slash() + u + slash();
    let m: int = 1 + u.len() as int;
    assert(p[0] == '/');
    lemma_next_slash_at(p, 0, 0);
    assert forall|j: int| 1 <= j < m implies p[j] != '/' by {
        assert(p[j] == u[j - 1]);
        lemma_no_slash_index(u, j - 1);
    }
    assert(p[m] == '/');
    lemma_next_slash_at(p, 1, m);
    assert(p.subrange(1, m) =~= u);
    lemma_next_slash_at(p, m + 1, p.len() as int);
    assert(p.subrange(m + 1, p.len() as int).len() == 0);
}

/// Appending `.git` is undone by exactly one strip: for every `b`,
/// `strip_git(b + ".git") == b`.
pub proof fn lemma_strip_git_of_suffixed(b: Seq<char>)
    ensures
        strip_git(b + git_suffix()) == b,
{
    reveal_strlit(".git");
    let s = b + git_suffix();
    assert(s[s.len() - 4] == '.');
    assert(s[s.len() - 3] == 'g');
    assert(s[s.len() - 2] == 'i');
    assert(s[s.len() - 1] == 't');
    assert(ends_with_git(s));
    assert(s.subrange(0, s.len() - 4) =~= b);
}

/// A name that does not end in the exact suffix `.git` is kept unchanged:
/// no partial strip happens.
pub proof fn lemma_strip_git_no_suffix(s: Seq<char>)
    requires
        !ends_with_git(s),
    ensures
        strip_git(s) == s,
{
}

/// A domain that names no known platform fails with `NoRoute`, whatever the
/// path.
pub proof fn lemma_unknown_domain(d: Seq<char>, p: Seq<char>)
    requires
        platform_for(d) is None,
    ensures
        route_spec(Some(d), p) == Err::<RouteModel, RouteError>(RouteError::NoRoute),
{
}

/// A URL without a domain fails with `NoDomain`, whatever the path.
pub proof fn lemma_no_domain(p: Seq<char>)
    ensures
        route_spec(None, p) == Err::<RouteModel, RouteError>(RouteError::NoDomain),
{
}

/// A root path only (`/`) carries no username and fails with `NoUsername`.
pub proof fn lemma_root_path_no_username(d: Seq<char>, pf: Platform)
    requires
        platform_for(d) == Some::<Platform>(pf),
    ensures
        route_spec(Some(d), slash()) == Err::<RouteModel, RouteError>(RouteError::NoUsername),
{
    reveal_strlit("/");
    let p = slash();
    assert(p[0] == '/');
    lemma_next_slash_at(p, 0, 0);
    lemma_next_slash_at(p, 1, 1);
    assert(p.subrange(1, 1).len() == 0);
}

/// Each platform's base URL is its scheme, domain and a slash, so the
/// canonical text of a route is `https://` + canonical domain + canonical
/// path.
pub proof fn lemma_base_decomposition(pf: Platform)
    ensures
        base_of(pf) == scheme() + domain_of(pf) + slash(),
{
    reveal_strlit("https://github.com/");
    reveal_strlit("https://gitlab.com/");
    reveal_strlit("https://");
    reveal_strlit("github.com");
    reveal_strlit("gitlab.com");
    reveal_strlit("/");
    match pf {
        Platform::GitHub => {
            assert(github_base() =~= scheme() + github_domain() + slash());
        },
        Platform::Gitlab => {
            assert(gitlab_base() =~= scheme() + gitlab_domain() + slash());
        },
    }
}

/// The canonical text of a route splits into `https://`, the canonical
/// domain, and the canonical path.
pub proof fn lemma_route_text_decomposition(r: RouteModel)
    ensures
        route_text(r) == scheme() + canonical_domain(r) + canonical_path(r),
{
    lemma_base_decomposition(r.platform());
    match r {
        RouteModel::UserRoute { platform, username } => {
            assert(route_text(r) =~= scheme() + canonical_domain(r) + canonical_path(r));
        },
        RouteModel::RepoRoute { platform, username, repo_name } => {
            assert(route_text(r) =~= scheme() + canonical_domain(r) + canonical_path(r));
        },
    }
}

/// Round trip: routing the canonical domain and canonical path of any
/// round-trippable route yields that same route again. Together with
/// `lemma_route_text_decomposition`, re-routing the rendered text of a route
/// gives an identical route, provided the URL parser hands back the domain
/// and path that the text spells out.
pub proof fn lemma_round_trip(r: RouteModel)
    requires
        round_trippable(r),
    ensures
        route_spec(Some(canonical_domain(r)), canonical_path(r)) == Ok::<RouteModel, RouteError>(r),
{
    lemma_platform_for_domain(r.platform());
    match r {
        RouteModel::UserRoute { platform, username } => {
            lemma_user_route(domain_of(platform), platform, username);
        },
        RouteModel::RepoRoute { platform, username, repo_name } => {
            lemma_repo_route(domain_of(platform), platform, username, repo_name);
        },
    }
}

} // verus!

