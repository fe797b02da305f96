//! The route data types: path-segment views, per-platform users, the route
//! itself, and its rendering back to canonical URL text.

use vstd::prelude::*;

use crate::model::base_of;
use crate::model::github_base;
use crate::model::gitlab_base;
use crate::model::route_text;
use crate::model::Platform;
use crate::model::RouteError;
use crate::model::RouteModel;

verus! {

/// The path segment identifying a user or organization on a platform.
#[derive(Clone, Debug)]
pub struct Username(pub String);

impl View for Username {
    type V = Seq<char>;

    open spec fn view(&self) -> Seq<char> {
        self.0@
    }
}

impl Username {
    pub fn as_str(&self) -> (s: &str)
        ensures
            s@ == self@,
    {
        self.0.as_str()
    }
}

/// The path segment identifying a repository, stored with any trailing
/// `.git` already stripped.
#[derive(Clone, Debug)]
pub struct RepoName(pub String);

impl View for RepoName {
    type V = Seq<char>;

    open spec fn view(&self) -> Seq<char> {
        self.0@
    }
}

impl RepoName {
    pub fn as_str(&self) -> (s: &str)
        ensures
            s@ == self@,
    {
        self.0.as_str()
    }
}

/// A user or organization on GitHub.
#[derive(Clone, Debug)]
pub struct GitHubUser {
    pub username: Username,
}

impl View for GitHubUser {
    type V = Seq<char>;

    open spec fn view(&self) -> Seq<char> {
        self.username@
    }
}

impl GitHubUser {
    /// The canonical URL text for this user: the GitHub base URL followed by
    /// the username.
    pub fn to_url_string(&self) -> (s: String)
        ensures
            s@ == github_base() + self@,
    {
        let mut s = String::from_str("https://github.com/");
        s.append(self.username.0.as_str());
        s
    }
}

/// A user or organization on GitLab.
#[derive(Clone, Debug)]
pub struct GitlabUser {
    pub username: Username,
}

impl View for GitlabUser {
    type V = Seq<char>;

    open spec fn view(&self) -> Seq<char> {
        self.username@
    }
}

impl GitlabUser {
    /// The canonical URL text for this user: the GitLab base URL followed by
    /// the username.
    pub fn to_url_string(&self) -> (s: String)
        ensures
            s@ == gitlab_base() + self@,
    {
        let mut s = String::from_str("https://gitlab.com/");
        s.append(self.username.0.as_str());
        s
    }
}

/// A user or organization on one of the known platforms.
#[derive(Clone, Debug)]
pub enum User {
    GitHub(GitHubUser),
    Gitlab(GitlabUser),
}

impl View for User {
    type V = (Platform, Seq<char>);

    open spec fn view(&self) -> (Platform, Seq<char>) {
        match self {
            User::GitHub(u) => (Platform::GitHub, u@),
            User::Gitlab(u) => (Platform::Gitlab, u@),
        }
    }
}

impl User {
    pub open spec fn platform(&self) -> Platform {
        self@.0
    }

    /// The canonical URL text for this user: the platform's base URL
    /// followed by the username.
    pub fn to_url_string(&self) -> (s: String)
        ensures
            s@ == base_of(self@.0) + self@.1,
    {
        match self {
            User::GitHub(u) => u.to_url_string(),
            User::Gitlab(u) => u.to_url_string(),
        }
    }
}

/// The classified outcome of routing a URL: either a user reference or a
/// repository reference on a known platform.
#[derive(Clone, Debug)]
pub enum Route {
    User(User),
    GitHubRepo { user: GitHubUser, repo_name: RepoName },
    GitlabRepo { user: GitlabUser, repo_name: RepoName },
}

impl View for Route {
    type V = RouteModel;

    open spec fn view(&self) -> RouteModel {
        match self {
            Route::User(u) => RouteModel::UserRoute { platform: u@.0, username: u@.1 },
            Route::GitHubRepo { user, repo_name } => RouteModel::RepoRoute {
                platform: Platform::GitHub,
                username: user@,
                repo_name: repo_name@,
            },
            Route::GitlabRepo { user, repo_name } => RouteModel::RepoRoute {
                platform: Platform::Gitlab,
                username: user@,
                repo_name: repo_name@,
            },
        }
    }
}

impl Route {
    /// The canonical URL text of this route:
    /// `<base_url><username>[/<repo_name>]`, whatever extra path segments,
    /// domain casing or `.git` suffix the original input carried.
    pub fn to_url_string(&self) -> (s: String)
        ensures
            s@ == route_text(self@),
    {
        match self {
            Route::User(u) => u.to_url_string(),
            Route::GitHubRepo { user, repo_name } => {
                let mut s = user.to_url_string();
                s.append("/");
                s.append(repo_name.0.as_str());
                proof {
                    assert(s@ =~= route_text(self@));
                }
                s
            },
            Route::GitlabRepo { user, repo_name } => {
                let mut s = user.to_url_string();
                s.append("/");
                s.append(repo_name.0.as_str());
                proof {
                    assert(s@ =~= route_text(self@));
                }
                s
            },
        }
    }
}

/// What the router reads of a URL: its domain, when the host is a domain
/// name, and its path.
pub struct UrlParts {
    pub domain: Option<String>,
    pub path: String,
}

/// The abstract value of `UrlParts`.
pub struct UrlPartsModel {
    pub domain: Option<Seq<char>>,
    pub path: Seq<char>,
}

impl View for UrlParts {
    type V = UrlPartsModel;

    open spec fn view(&self) -> UrlPartsModel {
        UrlPartsModel {
            domain: match self.domain {
                Some(d) => Some(d@),
                None => None,
            },
            path: self.path@,
        }
    }
}

/// The diagnostic text of a `RouteError` variant.
pub open spec fn route_error_text(e: RouteError) -> Seq<char> {
    match e {
        RouteError::NoDomain => "No domain found in the provided URL"@,
        RouteError::NoRoute => "No route for the provided URL"@,
        RouteError::NoPath => "No path in the provided URL"@,
        RouteError::NoUsername => "No username in the provided URL"@,
    }
}

impl RouteError {
    /// The diagnostic text for this error.
    pub fn message(&self) -> (s: String)
        ensures
            s@ == route_error_text(*self),
    {
        match self {
            RouteError::NoDomain => String::from_str("No domain found in the provided URL"),
            RouteError::NoRoute => String::from_str("No route for the provided URL"),
            RouteError::NoPath => String::from_str("No path in the provided URL"),
            RouteError::NoUsername => String::from_str("No username in the provided URL"),
        }
    }
}

/// The error surfaced to callers of the router; it carries the routing
/// failure.
#[derive(Clone, Copy, Debug, PartialEq, Eq, Structural)]
pub enum Error {
    Route(RouteError),
}

/// The diagnostic text of an `Error`.
pub open spec fn error_text(e: Error) -> Seq<char> {
    match e {
        Error::Route(r) => "Route: "@ + route_error_text(r),
    }
}

impl Error {
    /// The diagnostic text for this error.
    pub fn message(&self) -> (s: String)
        ensures
            s@ == error_text(*self),
    {
        match self {
            Error::Route(r) => {
                let mut s = String::from_str("Route: ");
                let m = r.message();
                s.append(m.as_str());
                s
            },
        }
    }
}

impl core::convert::From<RouteError> for Error {
    fn from(e: RouteError) -> (r: Error)
        ensures
            r == Error::Route(e),
    {
        Error::Route(e)
    }
}

impl vstd::std_specs::convert::FromSpecImpl<RouteError> for Error {
    open spec fn obeys_from_spec() -> bool {
        true
    }

    open spec fn from_spec(e: RouteError) -> Error {
        Error::Route(e)
    }
}

} // verus!
