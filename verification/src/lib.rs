//! Classification of hosting-platform URLs.
//!
//! Given the domain and path of a URL, the router decides whether the URL
//! names a user/organization or a specific repository on a known hosting
//! platform (GitHub or GitLab), extracts the username and repository name,
//! and renders the result back into a canonical URL of the form
//! `<base_url><username>[/<repo_name>]`.

pub mod model;
pub mod route;
pub mod router;
pub mod laws;

pub use model::Platform;
pub use model::RouteError;
pub use model::RouteModel;
pub use route::Error;
pub use route::GitHubUser;
pub use route::GitlabUser;
pub use route::RepoName;
pub use route::Route;
pub use route::UrlParts;
pub use route::User;
pub use route::Username;
pub use router::get_route;
pub use router::route_parts;
