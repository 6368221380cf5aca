//! Listeners: the per-connection and per-request halves of the service that
//! hands each request to the connection manager and then to a cluster.

use vstd::prelude::*;
use vstd::string::*;
use std::sync::Arc;
use crate::address::{self, Address, SocketAddr, address_of, compiles_to};
use crate::cluster::{Cluster, Dispatch, RequestHead, answers_no_endpoints, forwards_to, upstream_uri};
use crate::hcm::{self, HttpConnectionManager, compiles_config, first_bad_domain_in, routed_cluster};
use crate::response::{JsonResponse, json_error, error_body};
use crate::table::ClusterTable;
use crate::text::{str_equal, decimal_usize, decimal_text};
use crate::v3;

verus! {

/// The name of the network filter a listener must run.
pub const HCM_FILTER_NAME: &'static str = "envoy.filters.network.http_connection_manager";

/// The type URL of that filter's typed configuration.
pub const HCM_TYPE_URL: &'static str = "type.googleapis.com/envoy.extensions.filters.network.http_connection_manager.v3.HttpConnectionManager";

/// Why a listener message does not compile.
#[derive(Clone, Debug, PartialEq, Eq)]
pub enum Error {
    /// The listener has this many filter chains instead of one.
    FilterChainCount(usize),
    /// The filter chain has no filter.
    MissingFilter,
    /// The first filter is not the HTTP connection manager; its name.
    UnexpectedFilter(String),
    /// The filter has no typed configuration.
    MissingTypedConfig,
    /// The typed configuration is of another type; its type URL.
    UnsupportedTypedConfig(String),
    /// The typed configuration did not decode; the decoder's message.
    Decode(String),
    ConnectionManager(hcm::Error),
    MissingAddress,
    Address(address::Error),
}

/// The text describing a listener error.
pub open spec fn error_text(e: Error) -> Seq<char> {
    match e {
        Error::FilterChainCount(n) => "expected exactly one filter chain, found "@ + decimal_text(
            n as nat,
        ),
        Error::MissingFilter => "expected a filter in the filter chain"@,
        Error::UnexpectedFilter(name) => "expected 'envoy.filters.network.http_connection_manager' filter, not "@
            + name@,
        Error::MissingTypedConfig => "expected TypedConfig"@,
        Error::UnsupportedTypedConfig(url) => "unsupported typed config: "@ + url@,
        Error::Decode(msg) => "cannot decode typed config: "@ + msg@,
        Error::ConnectionManager(e) => hcm::error_text(e),
        Error::MissingAddress => "expected listener to specify address"@,
        Error::Address(e) => address::error_text(e),
    }
}

impl Error {
    /// A description of the error, for logs.
    pub fn message(&self) -> (r: String)
        ensures
            r@ == error_text(*self),
    {
        match self {
            Error::FilterChainCount(n) => {
                let digits = decimal_usize(*n);
                String::from_str("expected exactly one filter chain, found ").concat(digits.as_str())
            },
            Error::MissingFilter => String::from_str("expected a filter in the filter chain"),
            Error::UnexpectedFilter(name) => String::from_str(
                "expected 'envoy.filters.network.http_connection_manager' filter, not ",
            ).concat(name.as_str()),
            Error::MissingTypedConfig => String::from_str("expected TypedConfig"),
            Error::UnsupportedTypedConfig(url) => String::from_str("unsupported typed config: ").concat(
                url.as_str(),
            ),
            Error::Decode(msg) => String::from_str("cannot decode typed config: ").concat(msg.as_str()),
            Error::ConnectionManager(e) => e.message(),
            Error::MissingAddress => String::from_str("expected listener to specify address"),
            Error::Address(e) => e.message(),
        }
    }
}

/// Whether `resp` is the answer to a request that no route leads to a known
/// cluster: 404 `{"error":"routing to upstream cluster failed"}`.
pub open spec fn is_route_miss(resp: JsonResponse) -> bool {
    resp.status == 404 && resp.body@ == error_body("routing to upstream cluster failed"@)
}

/// Whether `d` answers with the route-miss response.
pub open spec fn answers_route_miss(d: Dispatch) -> bool {
    match d {
        Dispatch::Respond(resp) => is_route_miss(resp),
        Dispatch::Forward(_) => false,
    }
}

/// Whether `d` is one of the things cluster `c` may do with `req`.
pub open spec fn dispatched_by(c: Cluster, req: RequestHead, d: Dispatch) -> bool {
    &&& c.spec_endpoints().len() == 0 ==> answers_no_endpoints(d)
    &&& c.spec_endpoints().len() > 0 ==> exists|i: int|
        0 <= i < c.spec_endpoints().len() && forwards_to(
            d,
            upstream_uri(#[trigger] c.spec_endpoints()[i], req),
        )
}

/// The per-connection request handler.
pub struct HttpConnectionRouter {
    listen_addr: SocketAddr,
    remote_addr: SocketAddr,
    http_conn_mgr: Arc<HttpConnectionManager>,
}

/// The listener's service factory: for each accepted connection it makes an
/// `HttpConnectionRouter`.
#[derive(Clone)]
pub struct MakeHttpConnectionRouter {
    pub listen_addr: SocketAddr,
    http_conn_mgr: Arc<HttpConnectionManager>,
}

/// What compiling a listener message gives once its filter yields the
/// connection manager message `h`: the manager's errors, then the address's.
pub open spec fn compiles_with(
    l: v3::Listener,
    h: v3::HttpConnectionManager,
    r: Result<MakeHttpConnectionRouter, Error>,
) -> bool {
    match h.route_specifier {
        Some(v3::RouteSpecifier::RouteConfig(rc)) => match first_bad_domain_in(rc.virtual_hosts@) {
            Some(d) => r == Err::<MakeHttpConnectionRouter, Error>(
                Error::ConnectionManager(hcm::Error::BadDomainGlob(d)),
            ),
            None => match l.address {
                None => r == Err::<MakeHttpConnectionRouter, Error>(Error::MissingAddress),
                Some(a) => match address_of(a) {
                    None => match r {
                        Err(Error::Address(e)) => compiles_to(a, Err(e)),
                        _ => false,
                    },
                    Some(Address::Socket(sa)) => match r {
                        Ok(m) => m.spec_listen_addr() == sa && compiles_config(Ok(m.spec_hcm()), rc),
                        Err(_) => false,
                    },
                },
            },
        },
        _ => r == Err::<MakeHttpConnectionRouter, Error>(
            Error::ConnectionManager(hcm::Error::UnsupportedRouteConfig),
        ),
    }
}

/// What compiling a listener message gives. The checks come in this order:
/// one filter chain; a first filter; its name; a typed configuration; its type
/// URL; its payload decoded; the connection manager; the address.
pub open spec fn listener_compiles(l: v3::Listener, r: Result<MakeHttpConnectionRouter, Error>) -> bool {
    if l.filter_chains@.len() != 1 {
        r == Err::<MakeHttpConnectionRouter, Error>(
            Error::FilterChainCount(l.filter_chains@.len() as usize),
        )
    } else if l.filter_chains@[0].filters@.len() == 0 {
        r == Err::<MakeHttpConnectionRouter, Error>(Error::MissingFilter)
    } else {
        let f = l.filter_chains@[0].filters@[0];
        if f.name@ != HCM_FILTER_NAME@ {
            r == Err::<MakeHttpConnectionRouter, Error>(Error::UnexpectedFilter(f.name))
        } else {
            match f.config_type {
                Some(v3::FilterConfig::TypedConfig(tc)) => if tc.type_url@ != HCM_TYPE_URL@ {
                    r == Err::<MakeHttpConnectionRouter, Error>(
                        Error::UnsupportedTypedConfig(tc.type_url),
                    )
                } else {
                    match tc.value {
                        v3::HcmPayload::Undecodable(e) => r == Err::<
                            MakeHttpConnectionRouter,
                            Error,
                        >(Error::Decode(e)),
                        v3::HcmPayload::Decoded(h) => compiles_with(l, h, r),
                    }
                },
                _ => r == Err::<MakeHttpConnectionRouter, Error>(Error::MissingTypedConfig),
            }
        }
    }
}

/// Whether a listener message compiles.
pub open spec fn listener_ok(l: v3::Listener) -> bool {
    &&& l.filter_chains@.len() == 1
    &&& l.filter_chains@[0].filters@.len() > 0
    &&& l.filter_chains@[0].filters@[0].name@ == HCM_FILTER_NAME@
    &&& match l.filter_chains@[0].filters@[0].config_type {
        Some(v3::FilterConfig::TypedConfig(tc)) => {
            &&& tc.type_url@ == HCM_TYPE_URL@
            &&& match tc.value {
                v3::HcmPayload::Decoded(h) => match h.route_specifier {
                    Some(v3::RouteSpecifier::RouteConfig(rc)) => {
                        &&& first_bad_domain_in(rc.virtual_hosts@) is None
                        &&& match l.address {
                            Some(a) => address_of(a) is Some,
                            None => false,
                        }
                    },
                    _ => false,
                },
                v3::HcmPayload::Undecodable(_) => false,
            }
        },
        _ => false,
    }
}

impl MakeHttpConnectionRouter {
    /// The connection manager of this listener.
    pub closed spec fn spec_hcm(&self) -> HttpConnectionManager {
        *self.http_conn_mgr
    }

    /// The address this listener binds.
    pub closed spec fn spec_listen_addr(&self) -> SocketAddr {
        self.listen_addr
    }

    pub fn new(http_conn_mgr: HttpConnectionManager, addr: SocketAddr) -> (r: Self)
        ensures
            r.spec_listen_addr() == addr,
            r.spec_hcm() == http_conn_mgr,
    {
        MakeHttpConnectionRouter { listen_addr: addr, http_conn_mgr: Arc::new(http_conn_mgr) }
    }

    /// Compiles a listener message over a shared cluster table.
    pub fn try_from(listener: v3::Listener, clusters: Arc<ClusterTable>) -> (r: Result<
        MakeHttpConnectionRouter,
        Error,
    >)
        ensures
            listener_compiles(listener, r),
            r is Ok <==> listener_ok(listener),
            r matches Ok(m) ==> m.spec_hcm().spec_clusters() == *clusters,
    {
        if listener.filter_chains.len() != 1 {
            return Err(Error::FilterChainCount(listener.filter_chains.len()));
        }
        let chain = &listener.filter_chains[0];
        if chain.filters.len() == 0 {
            return Err(Error::MissingFilter);
        }
        let filter = &chain.filters[0];
        if !str_equal(filter.name.as_str(), HCM_FILTER_NAME) {
            return Err(Error::UnexpectedFilter(filter.name.clone()));
        }
        let tc = match &filter.config_type {
            Some(v3::FilterConfig::TypedConfig(tc)) => tc,
            _ => return Err(Error::MissingTypedConfig),
        };
        if !str_equal(tc.type_url.as_str(), HCM_TYPE_URL) {
            return Err(Error::UnsupportedTypedConfig(tc.type_url.clone()));
        }
        let v3::Listener { name: _, address, filter_chains } = listener;
        let mut filter_chains = filter_chains;
        let mut chain = filter_chains.remove(0);
        let filter = chain.filters.remove(0);
        let h = match filter.config_type {
            Some(v3::FilterConfig::TypedConfig(tc)) => match tc.value {
                v3::HcmPayload::Decoded(h) => h,
                v3::HcmPayload::Undecodable(e) => return Err(Error::Decode(e)),
            },
            _ => return Err(Error::MissingTypedConfig),
        };
        let http_conn_mgr = match HttpConnectionManager::try_from(h, clusters) {
            Ok(m) => m,
            Err(e) => return Err(Error::ConnectionManager(e)),
        };
        match address {
            Some(a) => match Address::try_from(a) {
                Ok(Address::Socket(sa)) => Ok(MakeHttpConnectionRouter::new(http_conn_mgr, sa)),
                Err(e) => Err(Error::Address(e)),
            },
            None => Err(Error::MissingAddress),
        }
    }

    /// The request handler of a connection accepted from `remote_addr`.
    pub fn call(&self, remote_addr: SocketAddr) -> (r: HttpConnectionRouter)
        ensures
            r.spec_hcm() == self.spec_hcm(),
    {
        HttpConnectionRouter {
            listen_addr: self.listen_addr,
            remote_addr,
            http_conn_mgr: Arc::clone(&self.http_conn_mgr),
        }
    }
}

impl HttpConnectionRouter {
    /// The connection manager requests are routed by.
    pub closed spec fn spec_hcm(&self) -> HttpConnectionManager {
        *self.http_conn_mgr
    }

    /// What to do with `req`: the cluster that routing picks dispatches it;
    /// without one (no virtual host, no route, or a cluster missing from the
    /// table) the answer is the route-miss response.
    pub fn call(&self, req: &RequestHead) -> (r: Dispatch)
        ensures
            match routed_cluster(self.spec_hcm().spec_virtual_hosts(), *req) {
                None => answers_route_miss(r),
                Some(name) => answers_route_miss(r) || exists|c: Cluster|
                    c.spec_name() == name && dispatched_by(c, *req, r),
            },
    {
        respond_with(self.http_conn_mgr.get_cluster(req), req)
    }
}

/// What to do with `req` once routing has looked its cluster up: that cluster
/// dispatches it; without one the answer is the route-miss response.
pub fn respond_with(found: Option<Arc<Cluster>>, req: &RequestHead) -> (r: Dispatch)
    ensures
        match found {
            None => answers_route_miss(r),
            Some(c) => dispatched_by(*c, *req, r),
        },
{
    match found {
        Some(cluster) => cluster.call(req),
        None => {
            proof {
                reveal_strlit("routing to upstream cluster failed");
            }
            Dispatch::Respond(json_error(404, "routing to upstream cluster failed"))
        },
    }
}

} // verus!
