use goodgit::get_route;
use goodgit::route_parts;
use goodgit::Error;
use goodgit::Route;
use goodgit::RouteError;
use goodgit::UrlParts;
use goodgit::User;
use url::Url;

fn parse_and_route(input: &str) -> Route {
    let url: Url = input.parse().expect("parse URL");
    get_route(&url).expect("get route")
}

fn parse_and_route_err(input: &str) -> RouteError {
    let url: Url = input.parse().expect("parse URL");
    get_route(&url).expect_err("routing should fail")
}

#[test]
fn normal_github_url() {
    let route = parse_and_route("https://github.com/ctsrc/goodgit");
    assert_eq!(route.to_url_string(), "https://github.com/ctsrc/goodgit");
    assert!(matches!(route, Route::GitHubRepo { .. }));
}

#[test]
fn github_url_with_trailing_git() {
    let route = parse_and_route("https://github.com/ctsrc/goodgit.git");
    assert_eq!(route.to_url_string(), "https://github.com/ctsrc/goodgit");
}

#[test]
fn uppercase_github_domain() {
    let route = parse_and_route("https://GITHUB.COM/ctsrc/goodgit");
    assert_eq!(route.to_url_string(), "https://github.com/ctsrc/goodgit");
}

#[test]
fn github_web_ui_path_components() {
    let route = parse_and_route("https://github.com/frondeus/test-case/wiki/Getting-Started");
    assert_eq!(route.to_url_string(), "https://github.com/frondeus/test-case");
}

#[test]
fn normal_gitlab_url() {
    let route = parse_and_route("https://gitlab.com/qemu-project/qemu");
    assert_eq!(route.to_url_string(), "https://gitlab.com/qemu-project/qemu");
    assert!(matches!(route, Route::GitlabRepo { .. }));
}

#[test]
fn gitlab_url_with_trailing_git() {
    let route = parse_and_route("https://gitlab.com/qemu-project/qemu.git");
    assert_eq!(route.to_url_string(), "https://gitlab.com/qemu-project/qemu");
}

#[test]
fn uppercase_gitlab_domain() {
    let route = parse_and_route("https://GITLAB.com/qemu-project/qemu");
    assert_eq!(route.to_url_string(), "https://gitlab.com/qemu-project/qemu");
}

#[test]
fn gitlab_web_ui_path_components() {
    let route = parse_and_route("https://gitlab.com/qemu-project/qemu/activity");
    assert_eq!(route.to_url_string(), "https://gitlab.com/qemu-project/qemu");
}

#[test]
fn gitlab_web_ui_path_components_with_query() {
    let route = parse_and_route("https://gitlab.com/qemu-project/qemu/-/network/master?ref_type=heads");
    assert_eq!(route.to_url_string(), "https://gitlab.com/qemu-project/qemu");
}

#[test]
fn github_user_url() {
    let route = parse_and_route("https://github.com/ctsrc");
    assert_eq!(route.to_url_string(), "https://github.com/ctsrc");
    assert!(matches!(route, Route::User(User::GitHub(_))));
}

#[test]
fn gitlab_user_url() {
    let route = parse_and_route("https://gitlab.com/qemu-project");
    assert_eq!(route.to_url_string(), "https://gitlab.com/qemu-project");
    assert!(matches!(route, Route::User(User::Gitlab(_))));
}

#[test]
fn user_url_with_trailing_slash() {
    let route = parse_and_route("https://github.com/ctsrc/");
    assert_eq!(route.to_url_string(), "https://github.com/ctsrc");
    assert!(matches!(route, Route::User(User::GitHub(_))));
}

#[test]
fn repo_route_fields() {
    let route = parse_and_route("https://github.com/ctsrc/goodgit");
    match route {
        Route::GitHubRepo { user, repo_name } => {
            assert_eq!(user.username.as_str(), "ctsrc");
            assert_eq!(repo_name.as_str(), "goodgit");
        }
        other => panic!("expected a GitHub repo route, got {:?}", other),
    }
}

#[test]
fn git_suffix_stripped_exactly_once() {
    let route = parse_and_route("https://github.com/a/b.git.git");
    assert_eq!(route.to_url_string(), "https://github.com/a/b.git");
}

#[test]
fn git_suffix_not_partially_stripped() {
    let route = parse_and_route("https://github.com/a/b.gitsomething");
    assert_eq!(route.to_url_string(), "https://github.com/a/b.gitsomething");
}

#[test]
fn round_trip_is_identical() {
    let inputs = [
        "https://github.com/ctsrc/goodgit.git",
        "https://GITLAB.com/qemu-project/qemu",
        "https://github.com/frondeus/test-case/wiki/Getting-Started",
        "https://gitlab.com/qemu-project",
    ];
    for input in inputs {
        let route = parse_and_route(input);
        let rendered = route.to_url_string();
        let rerouted = parse_and_route(&rendered);
        assert_eq!(rerouted.to_url_string(), rendered);
    }
}

#[test]
fn unknown_domain_fails_with_no_route() {
    assert_eq!(parse_and_route_err("https://bitbucket.org/a/b"), RouteError::NoRoute);
}

#[test]
fn ip_host_fails_with_no_domain() {
    assert_eq!(parse_and_route_err("https://127.0.0.1/a/b"), RouteError::NoDomain);
}

#[test]
fn root_path_fails_with_no_username() {
    assert_eq!(parse_and_route_err("https://github.com/"), RouteError::NoUsername);
}

#[test]
fn empty_username_segment_fails_with_no_username() {
    assert_eq!(parse_and_route_err("https://github.com//b"), RouteError::NoUsername);
}

#[test]
fn missing_domain_fails_with_no_domain() {
    let parts = UrlParts { domain: None, path: String::from("/a/b") };
    assert_eq!(route_parts(&parts).expect_err("no domain"), RouteError::NoDomain);
}

#[test]
fn empty_path_fails_with_no_path() {
    let parts = UrlParts { domain: Some(String::from("github.com")), path: String::new() };
    assert_eq!(route_parts(&parts).expect_err("no path"), RouteError::NoPath);
}

#[test]
fn route_parts_matches_get_route() {
    let parts = UrlParts {
        domain: Some(String::from("gitlab.com")),
        path: String::from("/qemu-project/qemu.git"),
    };
    let route = route_parts(&parts).expect("route");
    assert_eq!(route.to_url_string(), "https://gitlab.com/qemu-project/qemu");
}

#[test]
fn dot_git_segment_strips_to_empty_repo_name() {
    let route = parse_and_route("https://github.com/a/.git");
    assert_eq!(route.to_url_string(), "https://github.com/a/");
    assert!(matches!(route, Route::GitHubRepo { .. }));
}

#[test]
fn route_error_messages() {
    assert_eq!(RouteError::NoDomain.message(), "No domain found in the provided URL");
    assert_eq!(RouteError::NoRoute.message(), "No route for the provided URL");
    assert_eq!(RouteError::NoPath.message(), "No path in the provided URL");
    assert_eq!(RouteError::NoUsername.message(), "No username in the provided URL");
}

#[test]
fn error_wraps_route_error() {
    let err = Error::from(RouteError::NoRoute);
    assert_eq!(err, Error::Route(RouteError::NoRoute));
    assert_eq!(err.message(), "Route: No route for the provided URL");
}

#[test]
fn route_to_url_value() {
    let route = parse_and_route("https://github.com/ctsrc/goodgit.git");
    let url = route.to_url().expect("canonical text parses as a URL");
    assert_eq!(url.as_str(), "https://github.com/ctsrc/goodgit");
    let rerouted = get_route(&url).expect("re-route the canonical URL");
    assert_eq!(rerouted.to_url_string(), "https://github.com/ctsrc/goodgit");
}

#[test]
fn canonical_text_reparses_as_url() {
    let route = parse_and_route("https://github.com/ctsrc/goodgit.git");
    let rendered = route.to_url_string();
    let reparsed: Url = rendered.parse().expect("canonical text is a valid URL");
    assert_eq!(reparsed.domain(), Some("github.com"));
    assert_eq!(reparsed.path(), "/ctsrc/goodgit");
}
