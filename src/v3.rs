//! The parts of the Envoy v3 configuration messages that the proxy reads, as
//! plain values. The caller fills them from the protobuf (or JSON/YAML) form of
//! a bootstrap document; everything that is decided on them is decided here.

use vstd::prelude::*;
use crate::address::IpAddr;

verus! {

/// `envoy.config.core.v3.Address`.
#[derive(Clone, Debug, PartialEq)]
pub struct Address {
    pub address: Option<AddressKind>,
}

/// The `address` oneof of `envoy.config.core.v3.Address`.
#[derive(Clone, Debug, PartialEq)]
pub enum AddressKind {
    SocketAddress(SocketAddress),
    Pipe,
    EnvoyInternalAddress,
}

/// `envoy.config.core.v3.SocketAddress`.
///
/// `port_value` is the `port_value` member of the `port_specifier` oneof,
/// `None` when the oneof is unset or names a port.
#[derive(Clone, Debug, PartialEq)]
pub struct SocketAddress {
    pub address: IpLiteral,
    pub port_value: Option<u32>,
}

/// The textual IP literal of a socket address as the platform's address
/// parser read it: the address, or that parser's error message.
#[derive(Clone, Debug, PartialEq)]
pub enum IpLiteral {
    Ip(IpAddr),
    Unparsable(String),
}

/// `envoy.config.route.v3.Route`.
#[derive(Clone, Debug, PartialEq)]
pub struct Route {
    pub name: String,
    pub route_match: Option<RouteMatch>,
    pub action: Option<RouteActionKind>,
}

/// `envoy.config.route.v3.RouteMatch`.
#[derive(Clone, Debug, PartialEq)]
pub struct RouteMatch {
    pub path_specifier: Option<PathSpecifier>,
}

/// The `path_specifier` oneof; `Other` stands for every variant besides
/// `prefix` and `path`.
#[derive(Clone, Debug, PartialEq)]
pub enum PathSpecifier {
    Prefix(String),
    Path(String),
    Other,
}

/// The `action` oneof of a route; `Other` stands for redirects, direct
/// responses and filter actions.
#[derive(Clone, Debug, PartialEq)]
pub enum RouteActionKind {
    Route(RouteAction),
    Other,
}

/// `envoy.config.route.v3.RouteAction`.
#[derive(Clone, Debug, PartialEq)]
pub struct RouteAction {
    pub cluster_specifier: Option<ClusterSpecifier>,
}

/// The `cluster_specifier` oneof; `Other` stands for header-named and
/// weighted clusters and cluster plugins.
#[derive(Clone, Debug, PartialEq)]
pub enum ClusterSpecifier {
    Cluster(String),
    Other,
}

/// `envoy.config.route.v3.VirtualHost`.
#[derive(Clone, Debug, PartialEq)]
pub struct VirtualHost {
    pub name: String,
    pub domains: Vec<String>,
    pub routes: Vec<Route>,
}

/// `envoy.config.route.v3.RouteConfiguration`.
#[derive(Clone, Debug, PartialEq)]
pub struct RouteConfiguration {
    pub virtual_hosts: Vec<VirtualHost>,
}

/// The `route_specifier` oneof of the HTTP connection manager; `Other` stands
/// for RDS and scoped routes.
#[derive(Clone, Debug, PartialEq)]
pub enum RouteSpecifier {
    RouteConfig(RouteConfiguration),
    Other,
}

/// `envoy.extensions.filters.network.http_connection_manager.v3.HttpConnectionManager`.
#[derive(Clone, Debug, PartialEq)]
pub struct HttpConnectionManager {
    pub route_specifier: Option<RouteSpecifier>,
}

/// A `google.protobuf.Any` in a filter's `typed_config`: its type URL and its
/// payload.
#[derive(Clone, Debug, PartialEq)]
pub struct TypedConfig {
    pub type_url: String,
    pub value: HcmPayload,
}

/// The payload of a typed config as the protobuf decoder read it as an HTTP
/// connection manager message: the message, or the decoder's error message.
#[derive(Clone, Debug, PartialEq)]
pub enum HcmPayload {
    Decoded(HttpConnectionManager),
    Undecodable(String),
}

/// The `config_type` oneof of a network filter.
#[derive(Clone, Debug, PartialEq)]
pub enum FilterConfig {
    TypedConfig(TypedConfig),
    ConfigDiscovery,
}

/// `envoy.config.listener.v3.Filter`.
#[derive(Clone, Debug, PartialEq)]
pub struct Filter {
    pub name: String,
    pub config_type: Option<FilterConfig>,
}

/// `envoy.config.listener.v3.FilterChain`.
#[derive(Clone, Debug, PartialEq)]
pub struct FilterChain {
    pub filters: Vec<Filter>,
}

/// `envoy.config.listener.v3.Listener`.
#[derive(Clone, Debug, PartialEq)]
pub struct Listener {
    pub name: String,
    pub address: Option<Address>,
    pub filter_chains: Vec<FilterChain>,
}

/// `envoy.config.cluster.v3.Cluster.LbPolicy`; a code that names no policy
/// reads as `RoundRobin`, the protobuf default.
#[derive(Clone, Copy, Debug, PartialEq, Eq)]
pub enum LbPolicy {
    RoundRobin,
    LeastRequest,
    RingHash,
    Random,
    Maglev,
    ClusterProvided,
    LoadBalancingPolicyConfig,
}

/// `envoy.config.endpoint.v3.Endpoint`.
#[derive(Clone, Debug, PartialEq)]
pub struct Endpoint {
    pub address: Option<Address>,
}

/// The `host_identifier` oneof of an `LbEndpoint`.
#[derive(Clone, Debug, PartialEq)]
pub enum HostIdentifier {
    Endpoint(Endpoint),
    EndpointName(String),
}

/// `envoy.config.endpoint.v3.LbEndpoint`.
#[derive(Clone, Debug, PartialEq)]
pub struct LbEndpoint {
    pub host_identifier: Option<HostIdentifier>,
}

/// `envoy.config.endpoint.v3.LocalityLbEndpoints`.
#[derive(Clone, Debug, PartialEq)]
pub struct LocalityLbEndpoints {
    pub lb_endpoints: Vec<LbEndpoint>,
}

/// `envoy.config.endpoint.v3.ClusterLoadAssignment`.
#[derive(Clone, Debug, PartialEq)]
pub struct ClusterLoadAssignment {
    pub endpoints: Vec<LocalityLbEndpoints>,
}

/// `envoy.config.cluster.v3.Cluster`.
#[derive(Clone, Debug, PartialEq)]
pub struct Cluster {
    pub name: String,
    pub lb_policy: LbPolicy,
    pub load_assignment: Option<ClusterLoadAssignment>,
}

/// `envoy.type.v3.SemanticVersion`.
#[derive(Clone, Copy, Debug, PartialEq, Eq)]
pub struct SemanticVersion {
    pub major_number: u32,
    pub minor_number: u32,
    pub patch: u32,
}

/// `envoy.config.core.v3.Node`, with the members the proxy sets or reads.
#[derive(Clone, Debug, PartialEq)]
pub struct Node {
    pub id: String,
    pub cluster: String,
    pub user_agent_name: String,
    pub user_agent_build_version: Option<SemanticVersion>,
}

/// `envoy.config.bootstrap.v3.Bootstrap.StaticResources`.
#[derive(Clone, Debug, PartialEq)]
pub struct StaticResources {
    pub listeners: Vec<Listener>,
    pub clusters: Vec<Cluster>,
}

/// `envoy.config.bootstrap.v3.Bootstrap`.
#[derive(Clone, Debug, PartialEq)]
pub struct Bootstrap {
    pub node: Option<Node>,
    pub static_resources: Option<StaticResources>,
}

} // verus!
