//! The HTTP connection manager: virtual hosts selected by the `Host` header,
//! routes selected by the URI path, and the cluster table they resolve into.

use vstd::prelude::*;
use vstd::string::*;
use std::sync::Arc;
use crate::cluster::{Cluster, RequestHead};
use crate::domain::{DomainGlob, glob_valid, glob_matches};
use crate::route::{Route, Action, RouteAction, ClusterSpecifier, accepts, compile_route};
use crate::table::{ClusterMap, ClusterTable};
use crate::v3;

verus! {

/// Why an HTTP connection manager message does not compile.
#[derive(Clone, Debug, PartialEq, Eq)]
pub enum Error {
    BadDomainGlob(String),
    UnsupportedRouteConfig,
}

/// The text describing a connection manager error.
pub open spec fn error_text(e: Error) -> Seq<char> {
    match e {
        Error::BadDomainGlob(d) => "virtual host's domain is invalid: "@ + d@,
        Error::UnsupportedRouteConfig => "only a static route_config is supported"@,
    }
}

impl Error {
    /// A description of the error, for logs.
    pub fn message(&self) -> (r: String)
        ensures
            r@ == error_text(*self),
    {
        match self {
            Error::BadDomainGlob(d) => String::from_str("virtual host's domain is invalid: ").concat(
                d.as_str(),
            ),
            Error::UnsupportedRouteConfig => String::from_str("only a static route_config is supported"),
        }
    }
}

/// A virtual host: domain globs and routes, both in configured order.
#[derive(Debug)]
pub struct VirtualHost {
    name: String,
    domains: Vec<DomainGlob>,
    routes: Vec<Route>,
}

/// Whether some glob of `domains` matches all of `host`.
pub open spec fn domains_match(domains: Seq<Seq<char>>, host: Seq<char>) -> bool {
    exists|i: int| 0 <= i < domains.len() && glob_matches(#[trigger] domains[i], host)
}

/// The first route of `routes` whose matcher accepts `path`.
pub open spec fn first_route(routes: Seq<Route>, path: Seq<char>) -> Option<Route>
    decreases routes.len(),
{
    if routes.len() == 0 {
        None
    } else if accepts(routes[0].matcher, path) {
        Some(routes[0])
    } else {
        first_route(routes.drop_first(), path)
    }
}

/// The first virtual host of `vhosts` with a domain glob that matches `host`.
pub open spec fn first_vhost(vhosts: Seq<VirtualHost>, host: Seq<char>) -> Option<VirtualHost>
    decreases vhosts.len(),
{
    if vhosts.len() == 0 {
        None
    } else if domains_match(vhosts[0].spec_domains(), host) {
        Some(vhosts[0])
    } else {
        first_vhost(vhosts.drop_first(), host)
    }
}

/// The name of the cluster that routing picks for `req`: the first route of
/// the first virtual host whose domains match the `Host` header.
pub open spec fn routed_cluster(vhosts: Seq<VirtualHost>, req: RequestHead) -> Option<Seq<char>> {
    match req.host {
        None => None,
        Some(host) => match first_vhost(vhosts, host@) {
            None => None,
            Some(vh) => match first_route(vh.spec_routes(), req.path@) {
                None => None,
                Some(route) => match route.action {
                    Action::Route(RouteAction { cluster: ClusterSpecifier::Name(name) }) => Some(
                        name@,
                    ),
                },
            },
        },
    }
}

/// The routes of a list that compile, in order.
pub open spec fn compiled_routes(rs: Seq<v3::Route>) -> Seq<Route>
    decreases rs.len(),
{
    if rs.len() == 0 {
        Seq::empty()
    } else {
        let rest = compiled_routes(rs.drop_last());
        match compile_route(rs.last()) {
            Ok(r) => rest.push(r),
            Err(_) => rest,
        }
    }
}

/// The first domain of a list that is not a valid glob.
pub open spec fn first_bad_domain(ds: Seq<String>) -> Option<String>
    decreases ds.len(),
{
    if ds.len() == 0 {
        None
    } else {
        match first_bad_domain(ds.drop_last()) {
            Some(d) => Some(d),
            None => if !glob_valid(ds.last()@) {
                Some(ds.last())
            } else {
                None
            },
        }
    }
}

/// The first domain, over all virtual hosts in order, that is not a valid glob.
pub open spec fn first_bad_domain_in(vs: Seq<v3::VirtualHost>) -> Option<String>
    decreases vs.len(),
{
    if vs.len() == 0 {
        None
    } else {
        match first_bad_domain_in(vs.drop_last()) {
            Some(d) => Some(d),
            None => first_bad_domain(vs.last().domains@),
        }
    }
}

/// The texts of a list of domains.
pub open spec fn domain_texts(ds: Seq<String>) -> Seq<Seq<char>> {
    ds.map_values(|d: String| d@)
}

/// Whether `vh` is what the virtual host message `m` compiles to: same name,
/// all its domains, and the routes that compile.
pub open spec fn compiles_vhost(vh: VirtualHost, m: v3::VirtualHost) -> bool {
    &&& vh.spec_name() == m.name@
    &&& vh.spec_domains() == domain_texts(m.domains@)
    &&& vh.spec_routes() == compiled_routes(m.routes@)
}

/// Whether `r` is the route `o` (both absent, or both the same route).
pub open spec fn same_route(r: Option<&Route>, o: Option<Route>) -> bool {
    match (r, o) {
        (None, None) => true,
        (Some(a), Some(b)) => *a == b,
        _ => false,
    }
}

impl VirtualHost {
    pub closed spec fn spec_name(&self) -> Seq<char> {
        self.name@
    }

    /// The texts of the domain globs.
    pub closed spec fn spec_domains(&self) -> Seq<Seq<char>> {
        self.domains@.map_values(|d: DomainGlob| d.source())
    }

    pub closed spec fn spec_routes(&self) -> Seq<Route> {
        self.routes@
    }

    /// Compiles a virtual host message. The second part of the result is the
    /// first domain that is not a valid glob; without one, the first part is
    /// the compiled host.
    pub fn compile(m: v3::VirtualHost) -> (r: (VirtualHost, Option<String>))
        ensures
            r.1 == first_bad_domain(m.domains@),
            r.1 is None ==> compiles_vhost(r.0, m),
    {
        let ghost all_domains = m.domains@;
        let ghost all_routes = m.routes@;
        let mut rest = m.domains;
        let mut domains: Vec<DomainGlob> = Vec::new();
        let mut bad: Option<String> = None;
        let ghost mut i: int = 0;
        while rest.len() > 0
            invariant
                0 <= i <= all_domains.len(),
                rest@ == all_domains.subrange(i, all_domains.len() as int),
                bad == first_bad_domain(all_domains.subrange(0, i)),
                bad is None ==> domains@.map_values(|d: DomainGlob| d.source()) == domain_texts(
                    all_domains.subrange(0, i),
                ),
            decreases rest@.len(),
        {
            let d = rest.remove(0);
            let ghost prefix = all_domains.subrange(0, i + 1);
            proof {
                assert(d == all_domains[i]);
                assert(prefix.drop_last() =~= all_domains.subrange(0, i));
                assert(prefix.last() == d);
            }
            let ghost before = domains@;
            match DomainGlob::new(d) {
                Ok(g) => {
                    domains.push(g);
                    proof {
                        if bad is None {
                            assert(domains@.map_values(|d: DomainGlob| d.source()) =~= domain_texts(prefix)) by {
                                assert(before.map_values(|d: DomainGlob| d.source()) == domain_texts(prefix.drop_last()));
                                assert forall|j: int| 0 <= j < prefix.len() implies
                                    domains@.map_values(|d: DomainGlob| d.source())[j]
                                        == domain_texts(prefix)[j] by {
                                    if j < before.len() {
                                        assert(before.map_values(|d: DomainGlob| d.source())[j]
                                            == domain_texts(prefix.drop_last())[j]);
                                    }
                                }
                            }
                        }
                    }
                },
                Err(d) => {
                    if bad.is_none() {
                        bad = Some(d);
                    }
                },
            }
            proof {
                i = i + 1;
                assert(rest@ =~= all_domains.subrange(i, all_domains.len() as int));
            }
        }
        assert(all_domains.subrange(0, i) =~= all_domains);

        let mut rest = m.routes;
        let mut routes: Vec<Route> = Vec::new();
        let ghost mut k: int = 0;
        while rest.len() > 0
            invariant
                0 <= k <= all_routes.len(),
                rest@ == all_routes.subrange(k, all_routes.len() as int),
                routes@ == compiled_routes(all_routes.subrange(0, k)),
            decreases rest@.len(),
        {
            let route = rest.remove(0);
            let ghost prefix = all_routes.subrange(0, k + 1);
            proof {
                assert(route == all_routes[k]);
                assert(prefix.drop_last() =~= all_routes.subrange(0, k));
                assert(prefix.last() == route);
            }
            match Route::try_from(route) {
                Ok(compiled) => routes.push(compiled),
                Err(_) => {},
            }
            proof {
                k = k + 1;
                assert(rest@ =~= all_routes.subrange(k, all_routes.len() as int));
            }
        }
        assert(all_routes.subrange(0, k) =~= all_routes);
        (VirtualHost { name: m.name, domains, routes }, bad)
    }

    /// Whether one of the domain globs matches all of `host`.
    pub fn matches_host(&self, host: &str) -> (r: bool)
        ensures
            r == domains_match(self.spec_domains(), host@),
    {
        let mut i: usize = 0;
        while i < self.domains.len()
            invariant
                i <= self.domains@.len(),
                forall|j: int| 0 <= j < i ==> !glob_matches(#[trigger] self.spec_domains()[j], host@),
            decreases self.domains@.len() - i,
        {
            if self.domains[i].matches(host) {
                assert(glob_matches(self.spec_domains()[i as int], host@));
                return true;
            }
            i = i + 1;
        }
        false
    }

    /// The first route whose matcher accepts the URI path `path`.
    pub fn route(&self, path: &str) -> (r: Option<&Route>)
        ensures
            same_route(r, first_route(self.spec_routes(), path@)),
    {
        let mut i: usize = 0;
        assert(self.routes@.subrange(0, self.routes@.len() as int) =~= self.routes@);
        while i < self.routes.len()
            invariant
                i <= self.routes@.len(),
                first_route(self.routes@, path@) == first_route(
                    self.routes@.subrange(i as int, self.routes@.len() as int),
                    path@,
                ),
            decreases self.routes@.len() - i,
        {
            let ghost tail = self.routes@.subrange(i as int, self.routes@.len() as int);
            assert(tail[0] == self.routes@[i as int]);
            if self.routes[i].matches(path).is_some() {
                return Some(&self.routes[i]);
            }
            assert(tail.drop_first() =~= self.routes@.subrange(i + 1, self.routes@.len() as int));
            i = i + 1;
        }
        None
    }
}

/// The HTTP connection manager of a listener.
pub struct HttpConnectionManager {
    virtual_hosts: Vec<VirtualHost>,
    clusters: Arc<ClusterTable>,
}

/// Whether `r` is what a route configuration compiles to, given that all its
/// domains are valid globs.
pub open spec fn compiles_config(r: Result<HttpConnectionManager, Error>, rc: v3::RouteConfiguration) -> bool {
    match r {
        Ok(h) => h.spec_virtual_hosts().len() == rc.virtual_hosts@.len() && forall|i: int|
            0 <= i < rc.virtual_hosts@.len() ==> compiles_vhost(
                #[trigger] h.spec_virtual_hosts()[i],
                rc.virtual_hosts@[i],
            ),
        Err(_) => false,
    }
}

/// Whether `r` names the cluster called `name` in `snapshot`, and is present
/// exactly when `snapshot` has one.
pub open spec fn resolves_in(r: Option<Arc<Cluster>>, name: Seq<char>, snapshot: ClusterMap) -> bool {
    &&& r is Some <==> snapshot.has(name)
    &&& match r {
        Some(c) => c.spec_name() == name && snapshot.entries().contains(c),
        None => true,
    }
}

impl HttpConnectionManager {
    /// The cluster table requests are resolved in.
    pub closed spec fn spec_clusters(&self) -> ClusterTable {
        *self.clusters
    }

    /// The virtual hosts, in configured order.
    pub closed spec fn spec_virtual_hosts(&self) -> Seq<VirtualHost> {
        self.virtual_hosts@
    }

    /// Compiles a connection manager message over a shared cluster table. The
    /// routes must be given inline; every domain must be a valid glob, else the
    /// error names the first that is not; routes that do not compile are left
    /// out.
    pub fn try_from(value: v3::HttpConnectionManager, clusters: Arc<ClusterTable>) -> (r: Result<
        HttpConnectionManager,
        Error,
    >)
        ensures
            match value.route_specifier {
                Some(v3::RouteSpecifier::RouteConfig(rc)) => match first_bad_domain_in(
                    rc.virtual_hosts@,
                ) {
                    Some(d) => r == Err::<HttpConnectionManager, Error>(Error::BadDomainGlob(d)),
                    None => compiles_config(r, rc),
                },
                _ => r == Err::<HttpConnectionManager, Error>(Error::UnsupportedRouteConfig),
            },
            r matches Ok(h) ==> h.spec_clusters() == *clusters,
    {
        let rc = match value.route_specifier {
            Some(v3::RouteSpecifier::RouteConfig(rc)) => rc,
            _ => return Err(Error::UnsupportedRouteConfig),
        };
        let ghost all = rc.virtual_hosts@;
        let mut rest = rc.virtual_hosts;
        let mut virtual_hosts: Vec<VirtualHost> = Vec::new();
        let mut bad: Option<String> = None;
        let ghost mut i: int = 0;
        while rest.len() > 0
            invariant
                0 <= i <= all.len(),
                rest@ == all.subrange(i, all.len() as int),
                bad == first_bad_domain_in(all.subrange(0, i)),
                bad is None ==> virtual_hosts@.len() == i && forall|j: int|
                    0 <= j < i ==> compiles_vhost(#[trigger] virtual_hosts@[j], all[j]),
            decreases rest@.len(),
        {
            let m = rest.remove(0);
            let ghost prefix = all.subrange(0, i + 1);
            proof {
                assert(m == all[i]);
                assert(prefix.drop_last() =~= all.subrange(0, i));
                assert(prefix.last() == m);
            }
            let (vh, vh_bad) = VirtualHost::compile(m);
            match vh_bad {
                Some(d) => {
                    if bad.is_none() {
                        bad = Some(d);
                    }
                },
                None => {},
            }
            virtual_hosts.push(vh);
            proof {
                i = i + 1;
                assert(rest@ =~= all.subrange(i, all.len() as int));
            }
        }
        assert(all.subrange(0, i) =~= all);
        match bad {
            Some(d) => Err(Error::BadDomainGlob(d)),
            None => Ok(HttpConnectionManager { virtual_hosts, clusters }),
        }
    }

    /// The name of the cluster that routing picks for `req`.
    pub fn cluster_name(&self, req: &RequestHead) -> (r: Option<&String>)
        ensures
            match routed_cluster(self.spec_virtual_hosts(), *req) {
                None => r is None,
                Some(name) => r is Some && r.unwrap()@ == name,
            },
    {
        let host = match &req.host {
            Some(host) => host,
            None => return None,
        };
        let mut i: usize = 0;
        assert(self.virtual_hosts@.subrange(0, self.virtual_hosts@.len() as int)
            =~= self.virtual_hosts@);
        while i < self.virtual_hosts.len()
            invariant
                i <= self.virtual_hosts@.len(),
                req.host == Some(*host),
                first_vhost(self.virtual_hosts@, host@) == first_vhost(
                    self.virtual_hosts@.subrange(i as int, self.virtual_hosts@.len() as int),
                    host@,
                ),
            decreases self.virtual_hosts@.len() - i,
        {
            let ghost tail = self.virtual_hosts@.subrange(i as int, self.virtual_hosts@.len() as int);
            assert(tail[0] == self.virtual_hosts@[i as int]);
            if self.virtual_hosts[i].matches_host(host.as_str()) {
                assert(first_vhost(self.virtual_hosts@, host@) == Some(self.virtual_hosts@[i as int]));
                let vh = &self.virtual_hosts[i];
                let found = vh.route(req.path.as_str());
                assert(same_route(found, first_route(vh.spec_routes(), req.path@)));
                return match found {
                    Some(route) => match &route.action {
                        Action::Route(RouteAction { cluster: ClusterSpecifier::Name(name) }) => {
                            assert(first_route(vh.spec_routes(), req.path@) == Some(*route));
                            Some(name)
                        },
                    },
                    None => None,
                };
            }
            assert(tail.drop_first() =~= self.virtual_hosts@.subrange(
                i + 1,
                self.virtual_hosts@.len() as int,
            ));
            i = i + 1;
        }
        None
    }

    /// The cluster that routing picks for `req`, looked up in `snapshot`.
    pub fn resolve(&self, req: &RequestHead, snapshot: &ClusterMap) -> (r: Option<Arc<Cluster>>)
        ensures
            match routed_cluster(self.spec_virtual_hosts(), *req) {
                None => r is None,
                Some(name) => resolves_in(r, name, *snapshot),
            },
    {
        match self.cluster_name(req) {
            Some(name) => snapshot.get(name.as_str()),
            None => None,
        }
    }

    /// The cluster that routing picks for `req`, looked up in the cluster
    /// table as it stands at the time of the call.
    pub fn get_cluster(&self, req: &RequestHead) -> (r: Option<Arc<Cluster>>)
        ensures
            match routed_cluster(self.spec_virtual_hosts(), *req) {
                None => r is None,
                Some(name) => r matches Some(c) ==> c.spec_name() == name,
            },
    {
        let snapshot = self.clusters.load();
        self.resolve(req, &snapshot)
    }
}

} // verus!
