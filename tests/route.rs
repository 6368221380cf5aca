use ronvoy::route::{Action, ClusterSpecifier, Error, Route, RouteAction, RouteMatch};
use ronvoy::v3;

fn route_msg(path: Option<v3::PathSpecifier>, cluster: Option<v3::ClusterSpecifier>) -> v3::Route {
    v3::Route {
        name: "r".to_owned(),
        route_match: Some(v3::RouteMatch { path_specifier: path }),
        action: Some(v3::RouteActionKind::Route(v3::RouteAction { cluster_specifier: cluster })),
    }
}

fn compiled(m: RouteMatch) -> Route {
    Route {
        name: "r".to_owned(),
        matcher: m,
        action: Action::Route(RouteAction { cluster: ClusterSpecifier::Name("svc".to_owned()) }),
    }
}

#[test]
fn route_compiles() {
    let r = Route::try_from(route_msg(
        Some(v3::PathSpecifier::Prefix("/api".to_owned())),
        Some(v3::ClusterSpecifier::Cluster("svc".to_owned())),
    ));
    assert_eq!(r, Ok(compiled(RouteMatch::Prefix("/api".to_owned()))));
    let r = Route::try_from(route_msg(
        Some(v3::PathSpecifier::Path("/exact".to_owned())),
        Some(v3::ClusterSpecifier::Cluster("svc".to_owned())),
    ));
    assert_eq!(r, Ok(compiled(RouteMatch::ExactPath("/exact".to_owned()))));
}

#[test]
fn route_errors() {
    let missing_match = v3::Route { name: "r".to_owned(), route_match: None, action: None };
    assert_eq!(Route::try_from(missing_match), Err(Error::MissingMatch));
    let missing_action = v3::Route {
        name: "r".to_owned(),
        route_match: Some(v3::RouteMatch { path_specifier: None }),
        action: Some(v3::RouteActionKind::Other),
    };
    assert_eq!(Route::try_from(missing_action), Err(Error::MissingAction));
    let bad_match = route_msg(
        Some(v3::PathSpecifier::Other),
        Some(v3::ClusterSpecifier::Cluster("svc".to_owned())),
    );
    assert_eq!(Route::try_from(bad_match), Err(Error::UnsupportedMatchType));
    let bad_cluster = route_msg(
        Some(v3::PathSpecifier::Prefix("/".to_owned())),
        Some(v3::ClusterSpecifier::Other),
    );
    assert_eq!(Route::try_from(bad_cluster), Err(Error::UnsupportedClusterSpecifier));
    let no_cluster = route_msg(Some(v3::PathSpecifier::Prefix("/".to_owned())), None);
    assert_eq!(Route::try_from(no_cluster), Err(Error::UnsupportedClusterSpecifier));
}

#[test]
fn prefix_matching_is_bytewise() {
    let r = compiled(RouteMatch::Prefix("/api".to_owned()));
    assert!(r.matches("/api").is_some());
    assert!(r.matches("/api/v1").is_some());
    assert!(r.matches("/apix").is_some());
    assert!(r.matches("/ap").is_none());
    assert!(r.matches("/API").is_none());
    assert!(r.matches("").is_none());
    assert_eq!(r.matches("/api/v1"), Some(&r.action));
}

#[test]
fn exact_matching() {
    let r = compiled(RouteMatch::ExactPath("/health".to_owned()));
    assert!(r.matches("/health").is_some());
    assert!(r.matches("/health/").is_none());
    assert!(r.matches("/healt").is_none());
}

#[test]
fn empty_prefix_matches_every_path() {
    let r = compiled(RouteMatch::Prefix(String::new()));
    for p in ["", "/", "/anything", "/é/ü"] {
        assert!(r.matches(p).is_some());
    }
}

#[test]
fn empty_exact_path_matches_only_the_empty_path() {
    let r = compiled(RouteMatch::ExactPath(String::new()));
    assert!(r.matches("").is_some());
    assert!(r.matches("/").is_none());
    assert!(r.matches("/x").is_none());
}

#[test]
fn matching_a_clone_gives_the_same_answer() {
    let r = compiled(RouteMatch::Prefix("/a".to_owned()));
    let path = "/a/b".to_owned();
    let copy = path.clone();
    assert_eq!(r.matches(&path), r.matches(&copy));
    let path = "/b".to_owned();
    let copy = path.clone();
    assert_eq!(r.matches(&path), r.matches(&copy));
}

#[test]
fn route_error_messages() {
    assert_eq!(Error::UnsupportedMatchType.message(), "route: unsupported match type");
    assert_eq!(
        Error::MissingMatch.message(),
        "route: missing match (likely mistake in creating/serializing protobuf)"
    );
}
