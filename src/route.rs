//! Routes: a matcher on the request path and the action taken on a match.

use vstd::prelude::*;
use crate::text::{utf8, bytes_start_with, bytes_equal};
use crate::cluster::RequestHead;
use crate::v3;

verus! {

/// Why a route message does not compile.
#[derive(Clone, Copy, Debug, PartialEq, Eq)]
pub enum Error {
    MissingMatch,
    MissingAction,
    UnsupportedMatchType,
    UnsupportedClusterSpecifier,
}

impl Error {
    /// A description of the error, for logs.
    pub fn message(&self) -> (r: &'static str)
        ensures
            r@ == match *self {
                Error::MissingMatch => "route: missing match (likely mistake in creating/serializing protobuf)"@,
                Error::MissingAction => "route: missing action (likely mistake in creating/serializing protobuf)"@,
                Error::UnsupportedMatchType => "route: unsupported match type"@,
                Error::UnsupportedClusterSpecifier => "route: unsupported cluster specifier type"@,
            },
    {
        match self {
            Error::MissingMatch => "route: missing match (likely mistake in creating/serializing protobuf)",
            Error::MissingAction => "route: missing action (likely mistake in creating/serializing protobuf)",
            Error::UnsupportedMatchType => "route: unsupported match type",
            Error::UnsupportedClusterSpecifier => "route: unsupported cluster specifier type",
        }
    }
}

/// How a route names its upstream cluster.
#[derive(Clone, Debug, PartialEq, Eq)]
pub enum ClusterSpecifier {
    Name(String),
}

/// Send the request to a cluster.
#[derive(Clone, Debug, PartialEq)]
pub struct RouteAction {
    pub cluster: ClusterSpecifier,
}

/// What a route does with a request it matches.
#[derive(Clone, Debug, PartialEq)]
pub enum Action {
    Route(RouteAction),
}

/// A matcher on the path component of the request URI, compared byte for byte.
#[derive(Clone, Debug, PartialEq)]
pub enum RouteMatch {
    Prefix(String),
    ExactPath(String),
}

/// A compiled route: one matcher and one action.
#[derive(Clone, Debug, PartialEq)]
pub struct Route {
    pub name: String,
    pub matcher: RouteMatch,
    pub action: Action,
}

/// Whether `m` accepts a request whose URI path is `path`: a prefix of its
/// bytes, or all of them.
pub open spec fn accepts(m: RouteMatch, path: Seq<char>) -> bool {
    match m {
        RouteMatch::Prefix(p) => utf8(p@).is_prefix_of(utf8(path)),
        RouteMatch::ExactPath(p) => utf8(p@) == utf8(path),
    }
}

/// The matcher a route-match message compiles to.
pub open spec fn compile_match(m: v3::RouteMatch) -> Result<RouteMatch, Error> {
    match m.path_specifier {
        Some(v3::PathSpecifier::Prefix(p)) => Ok(RouteMatch::Prefix(p)),
        Some(v3::PathSpecifier::Path(p)) => Ok(RouteMatch::ExactPath(p)),
        _ => Err(Error::UnsupportedMatchType),
    }
}

/// The action a route-action message compiles to.
pub open spec fn compile_action(a: v3::RouteAction) -> Result<RouteAction, Error> {
    match a.cluster_specifier {
        Some(v3::ClusterSpecifier::Cluster(name)) => Ok(
            RouteAction { cluster: ClusterSpecifier::Name(name) },
        ),
        _ => Err(Error::UnsupportedClusterSpecifier),
    }
}

/// The route a route message compiles to: it needs a match and a `route`
/// action, checked in that order, then a supported matcher and a supported
/// cluster specifier.
pub open spec fn compile_route(route: v3::Route) -> Result<Route, Error> {
    match route.route_match {
        None => Err(Error::MissingMatch),
        Some(m) => match route.action {
            Some(v3::RouteActionKind::Route(a)) => match compile_match(m) {
                Err(e) => Err(e),
                Ok(matcher) => match compile_action(a) {
                    Err(e) => Err(e),
                    Ok(action) => Ok(
                        Route { name: route.name, matcher, action: Action::Route(action) },
                    ),
                },
            },
            _ => Err(Error::MissingAction),
        },
    }
}

/// Matching is a function of the matcher and the URI path alone: two requests
/// with the same path (a request and its clone, say) get the same answer,
/// whatever their other parts.
pub proof fn lemma_matching_depends_on_path_only(m: RouteMatch, a: RequestHead, b: RequestHead)
    requires
        a.path@ == b.path@,
    ensures
        accepts(m, a.path@) == accepts(m, b.path@),
{
}

/// An empty prefix matches every path; an empty exact path matches only the
/// empty path.
pub proof fn lemma_empty_matchers(p: String, path: Seq<char>)
    requires
        p@.len() == 0,
    ensures
        accepts(RouteMatch::Prefix(p), path),
        accepts(RouteMatch::ExactPath(p), path) <==> path.len() == 0,
{
    assert(utf8(p@) =~= Seq::<u8>::empty());
    assert(utf8(p@) =~= utf8(path).subrange(0, 0));
    if utf8(path) == utf8(p@) {
        vstd::utf8::encode_utf8_decode_utf8(path);
        vstd::utf8::encode_utf8_decode_utf8(p@);
    }
    if path.len() == 0 {
        assert(path =~= p@);
    }
}

impl RouteAction {
    pub fn try_from(value: v3::RouteAction) -> (r: Result<RouteAction, Error>)
        ensures
            r == compile_action(value),
    {
        match value.cluster_specifier {
            Some(v3::ClusterSpecifier::Cluster(name)) => Ok(
                RouteAction { cluster: ClusterSpecifier::Name(name) },
            ),
            _ => Err(Error::UnsupportedClusterSpecifier),
        }
    }
}

impl RouteMatch {
    pub fn try_from(value: v3::RouteMatch) -> (r: Result<RouteMatch, Error>)
        ensures
            r == compile_match(value),
    {
        match value.path_specifier {
            Some(v3::PathSpecifier::Prefix(prefix)) => Ok(RouteMatch::Prefix(prefix)),
            Some(v3::PathSpecifier::Path(path)) => Ok(RouteMatch::ExactPath(path)),
            _ => Err(Error::UnsupportedMatchType),
        }
    }
}

impl Route {
    /// The action of this route if its matcher accepts the URI path `path`.
    pub fn matches(&self, path: &str) -> (r: Option<&Action>)
        ensures
            r == (if accepts(self.matcher, path@) {
                Some(&self.action)
            } else {
                None
            }),
    {
        match &self.matcher {
            RouteMatch::Prefix(prefix) => {
                if bytes_start_with(path.as_bytes(), prefix.as_str().as_bytes()) {
                    return Some(&self.action);
                }
            },
            RouteMatch::ExactPath(exact) => {
                if bytes_equal(path.as_bytes(), exact.as_str().as_bytes()) {
                    return Some(&self.action);
                }
            },
        }
        None
    }

    pub fn try_from(route: v3::Route) -> (r: Result<Route, Error>)
        ensures
            r == compile_route(route),
    {
        match route.route_match {
            None => Err(Error::MissingMatch),
            Some(m) => match route.action {
                Some(v3::RouteActionKind::Route(a)) => {
                    let matcher = match RouteMatch::try_from(m) {
                        Ok(matcher) => matcher,
                        Err(e) => return Err(e),
                    };
                    let action = match RouteAction::try_from(a) {
                        Ok(action) => action,
                        Err(e) => return Err(e),
                    };
                    Ok(Route { name: route.name, matcher, action: Action::Route(action) })
                },
                _ => Err(Error::MissingAction),
            },
        }
    }
}

} // verus!
