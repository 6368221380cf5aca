use std::sync::Arc;

use ronvoy::address::{IpAddr, SocketAddr};
use ronvoy::args::{event_loop_from_flags, parse_concurrency, Args};
use ronvoy::bootstrap::{bootstrap_cluster_map, get_bootstrap_clusters, get_node, Ronvoy};
use ronvoy::cluster::{Cluster, Dispatch, RequestHead};
use ronvoy::event_loop::{Builder, EventLoop};
use ronvoy::hcm::{self, HttpConnectionManager};
use ronvoy::listener::{self, respond_with, MakeHttpConnectionRouter, HCM_FILTER_NAME, HCM_TYPE_URL};
use ronvoy::response::JsonResponse;
use ronvoy::table::{ClusterMap, ClusterTable};
use ronvoy::v3;

fn sock(a: u8, b: u8, c: u8, d: u8, port: u32) -> v3::Address {
    v3::Address {
        address: Some(v3::AddressKind::SocketAddress(v3::SocketAddress {
            address: v3::IpLiteral::Ip(IpAddr::V4([a, b, c, d])),
            port_value: Some(port),
        })),
    }
}

fn cluster_msg(name: &str, endpoints: Vec<v3::Address>) -> v3::Cluster {
    v3::Cluster {
        name: name.to_owned(),
        lb_policy: v3::LbPolicy::RoundRobin,
        load_assignment: Some(v3::ClusterLoadAssignment {
            endpoints: vec![v3::LocalityLbEndpoints {
                lb_endpoints: endpoints
                    .into_iter()
                    .map(|a| v3::LbEndpoint {
                        host_identifier: Some(v3::HostIdentifier::Endpoint(v3::Endpoint { address: Some(a) })),
                    })
                    .collect(),
            }],
        }),
    }
}

fn prefix_route(prefix: &str, cluster: &str) -> v3::Route {
    v3::Route {
        name: String::new(),
        route_match: Some(v3::RouteMatch { path_specifier: Some(v3::PathSpecifier::Prefix(prefix.to_owned())) }),
        action: Some(v3::RouteActionKind::Route(v3::RouteAction {
            cluster_specifier: Some(v3::ClusterSpecifier::Cluster(cluster.to_owned())),
        })),
    }
}

fn vhost(name: &str, domains: &[&str], routes: Vec<v3::Route>) -> v3::VirtualHost {
    v3::VirtualHost {
        name: name.to_owned(),
        domains: domains.iter().map(|d| d.to_string()).collect(),
        routes,
    }
}

fn hcm_msg(vhosts: Vec<v3::VirtualHost>) -> v3::HttpConnectionManager {
    v3::HttpConnectionManager {
        route_specifier: Some(v3::RouteSpecifier::RouteConfig(v3::RouteConfiguration { virtual_hosts: vhosts })),
    }
}

fn listener_msg(address: Option<v3::Address>, hcm: v3::HttpConnectionManager) -> v3::Listener {
    v3::Listener {
        name: "l".to_owned(),
        address,
        filter_chains: vec![v3::FilterChain {
            filters: vec![v3::Filter {
                name: HCM_FILTER_NAME.to_owned(),
                config_type: Some(v3::FilterConfig::TypedConfig(v3::TypedConfig {
                    type_url: HCM_TYPE_URL.to_owned(),
                    value: v3::HcmPayload::Decoded(hcm),
                })),
            }],
        }],
    }
}

fn bootstrap(clusters: Vec<v3::Cluster>, listeners: Vec<v3::Listener>) -> v3::Bootstrap {
    v3::Bootstrap { node: None, static_resources: Some(v3::StaticResources { listeners, clusters }) }
}

fn request(host: Option<&str>, path: &str) -> RequestHead {
    RequestHead { host: host.map(|h| h.to_owned()), path: path.to_owned(), path_and_query: None }
}

fn route_miss() -> Dispatch {
    Dispatch::Respond(JsonResponse {
        status: 404,
        body: "{\"error\":\"routing to upstream cluster failed\"}".to_owned(),
    })
}

fn single_service(endpoints: Vec<v3::Address>) -> Ronvoy {
    Ronvoy::new(bootstrap(
        vec![cluster_msg("svc_a", endpoints)],
        vec![listener_msg(
            Some(sock(127, 0, 0, 1, 10000)),
            hcm_msg(vec![vhost("all", &["*"], vec![prefix_route("/", "svc_a")])]),
        )],
    ))
}

#[test]
fn one_cluster_one_listener_forwards_upstream() {
    let proxy = single_service(vec![sock(127, 0, 0, 1, 9110)]);
    assert_eq!(proxy.listeners.len(), 1);
    let listener = &proxy.listeners[0];
    assert_eq!(listener.listen_addr, SocketAddr { ip: IpAddr::V4([127, 0, 0, 1]), port: 10000 });
    let conn = listener.call(SocketAddr { ip: IpAddr::V4([127, 0, 0, 1]), port: 50000 });
    let r = conn.call(&request(Some("localhost:10000"), "/anything"));
    assert_eq!(r, Dispatch::Forward("http://127.0.0.1:9110/anything".to_owned()));
}

#[test]
fn cluster_without_endpoints_answers_503() {
    let proxy = single_service(vec![]);
    let conn = proxy.listeners[0].call(SocketAddr { ip: IpAddr::V4([127, 0, 0, 1]), port: 50000 });
    let r = conn.call(&request(Some("localhost"), "/anything"));
    assert_eq!(
        r,
        Dispatch::Respond(JsonResponse { status: 503, body: "{\"error\":\"no endpoints\"}".to_owned() })
    );
}

#[test]
fn unknown_host_answers_404() {
    let proxy = Ronvoy::new(bootstrap(
        vec![cluster_msg("svc_a", vec![sock(127, 0, 0, 1, 9110)])],
        vec![listener_msg(
            Some(sock(127, 0, 0, 1, 10000)),
            hcm_msg(vec![vhost("only", &["svc.example"], vec![prefix_route("/", "svc_a")])]),
        )],
    ));
    let conn = proxy.listeners[0].call(SocketAddr { ip: IpAddr::V4([127, 0, 0, 1]), port: 50000 });
    assert_eq!(conn.call(&request(Some("nope.example"), "/")), route_miss());
    assert_eq!(conn.call(&request(None, "/")), route_miss());
}

#[test]
fn listener_with_port_70000_is_dropped() {
    let proxy = Ronvoy::new(bootstrap(
        vec![cluster_msg("svc_a", vec![sock(127, 0, 0, 1, 9110)])],
        vec![
            listener_msg(
                Some(sock(127, 0, 0, 1, 70000)),
                hcm_msg(vec![vhost("all", &["*"], vec![prefix_route("/", "svc_a")])]),
            ),
            listener_msg(
                Some(sock(127, 0, 0, 1, 10001)),
                hcm_msg(vec![vhost("all", &["*"], vec![prefix_route("/", "svc_a")])]),
            ),
        ],
    ));
    assert_eq!(proxy.listeners.len(), 1);
    assert_eq!(proxy.listeners[0].listen_addr.port, 10001);
}

#[test]
fn bootstrap_without_static_resources_has_no_listeners() {
    let proxy = Ronvoy::new(v3::Bootstrap { node: None, static_resources: None });
    assert!(proxy.listeners.is_empty());
    assert_eq!(proxy.clusters.load().len(), 0);
}

#[test]
fn host_matching_is_case_sensitive() {
    let table = Arc::new(get_bootstrap_clusters(&bootstrap(vec![cluster_msg("svc_a", vec![sock(10, 0, 0, 1, 80)])], vec![])));
    let hcm = HttpConnectionManager::try_from(
        hcm_msg(vec![vhost("v", &["example.com"], vec![prefix_route("/", "svc_a")])]),
        table.clone(),
    )
    .unwrap();
    assert!(hcm.get_cluster(&request(Some("example.com"), "/")).is_some());
    assert!(hcm.get_cluster(&request(Some("EXAMPLE.com"), "/")).is_none());
    let hcm = HttpConnectionManager::try_from(
        hcm_msg(vec![vhost("v", &["[Ee]xample.com"], vec![prefix_route("/", "svc_a")])]),
        table,
    )
    .unwrap();
    assert!(hcm.get_cluster(&request(Some("Example.com"), "/")).is_some());
}

#[test]
fn domain_globs_are_shell_style() {
    let table = Arc::new(get_bootstrap_clusters(&bootstrap(vec![cluster_msg("svc_a", vec![sock(10, 0, 0, 1, 80)])], vec![])));
    let hcm = HttpConnectionManager::try_from(
        hcm_msg(vec![vhost("v", &["*.example.com", "h?st"], vec![prefix_route("/", "svc_a")])]),
        table,
    )
    .unwrap();
    assert!(hcm.get_cluster(&request(Some("a.example.com"), "/")).is_some());
    assert!(hcm.get_cluster(&request(Some("example.com"), "/")).is_none());
    assert!(hcm.get_cluster(&request(Some("host"), "/")).is_some());
    assert!(hcm.get_cluster(&request(Some("hoost"), "/")).is_none());
}

#[test]
fn first_virtual_host_and_first_route_win() {
    let table = Arc::new(get_bootstrap_clusters(&bootstrap(
        vec![
            cluster_msg("a", vec![sock(10, 0, 0, 1, 80)]),
            cluster_msg("b", vec![sock(10, 0, 0, 2, 80)]),
            cluster_msg("c", vec![sock(10, 0, 0, 3, 80)]),
        ],
        vec![],
    )));
    let hcm = HttpConnectionManager::try_from(
        hcm_msg(vec![
            vhost("first", &["*"], vec![prefix_route("/api", "a"), prefix_route("/", "b")]),
            vhost("second", &["*"], vec![prefix_route("/other", "c")]),
        ]),
        table,
    )
    .unwrap();
    assert_eq!(hcm.get_cluster(&request(Some("h"), "/api/x")).unwrap().name, "a");
    assert_eq!(hcm.get_cluster(&request(Some("h"), "/x")).unwrap().name, "b");
    assert_eq!(hcm.cluster_name(&request(Some("h"), "/other")).unwrap(), "b");
}

#[test]
fn route_to_a_missing_cluster_is_none() {
    let table = Arc::new(get_bootstrap_clusters(&bootstrap(vec![], vec![])));
    let hcm = HttpConnectionManager::try_from(
        hcm_msg(vec![vhost("v", &["*"], vec![prefix_route("/", "ghost")])]),
        table,
    )
    .unwrap();
    assert_eq!(hcm.cluster_name(&request(Some("h"), "/")).unwrap(), "ghost");
    assert!(hcm.get_cluster(&request(Some("h"), "/")).is_none());
}

#[test]
fn bad_domain_glob_fails_the_manager() {
    let table = Arc::new(get_bootstrap_clusters(&bootstrap(vec![], vec![])));
    let r = HttpConnectionManager::try_from(
        hcm_msg(vec![
            vhost("a", &["ok", "a***"], vec![]),
            vhost("b", &["[unclosed", "fine"], vec![]),
        ]),
        table.clone(),
    );
    assert_eq!(r.err(), Some(hcm::Error::BadDomainGlob("a***".to_owned())));
    let r = HttpConnectionManager::try_from(
        v3::HttpConnectionManager { route_specifier: Some(v3::RouteSpecifier::Other) },
        table.clone(),
    );
    assert_eq!(r.err(), Some(hcm::Error::UnsupportedRouteConfig));
    let r = HttpConnectionManager::try_from(v3::HttpConnectionManager { route_specifier: None }, table);
    assert_eq!(r.err(), Some(hcm::Error::UnsupportedRouteConfig));
}

#[test]
fn routes_that_do_not_compile_are_dropped() {
    let table = Arc::new(get_bootstrap_clusters(&bootstrap(vec![cluster_msg("b", vec![sock(10, 0, 0, 2, 80)])], vec![])));
    let broken = v3::Route { name: "broken".to_owned(), route_match: None, action: None };
    let hcm = HttpConnectionManager::try_from(
        hcm_msg(vec![vhost("v", &["*"], vec![broken, prefix_route("/", "b")])]),
        table,
    )
    .unwrap();
    assert_eq!(hcm.get_cluster(&request(Some("h"), "/")).unwrap().name, "b");
}

#[test]
fn listener_errors() {
    let table = Arc::new(get_bootstrap_clusters(&bootstrap(vec![], vec![])));
    let good = || hcm_msg(vec![vhost("all", &["*"], vec![prefix_route("/", "svc_a")])]);

    let mut l = listener_msg(Some(sock(127, 0, 0, 1, 80)), good());
    l.filter_chains.clear();
    assert_eq!(MakeHttpConnectionRouter::try_from(l, table.clone()).err(), Some(listener::Error::FilterChainCount(0)));

    let mut l = listener_msg(Some(sock(127, 0, 0, 1, 80)), good());
    l.filter_chains[0].filters.clear();
    assert_eq!(MakeHttpConnectionRouter::try_from(l, table.clone()).err(), Some(listener::Error::MissingFilter));

    let mut l = listener_msg(Some(sock(127, 0, 0, 1, 80)), good());
    l.filter_chains[0].filters[0].name = "envoy.filters.network.tcp_proxy".to_owned();
    assert_eq!(
        MakeHttpConnectionRouter::try_from(l, table.clone()).err(),
        Some(listener::Error::UnexpectedFilter("envoy.filters.network.tcp_proxy".to_owned()))
    );

    let mut l = listener_msg(Some(sock(127, 0, 0, 1, 80)), good());
    l.filter_chains[0].filters[0].config_type = None;
    assert_eq!(MakeHttpConnectionRouter::try_from(l, table.clone()).err(), Some(listener::Error::MissingTypedConfig));

    let mut l = listener_msg(Some(sock(127, 0, 0, 1, 80)), good());
    l.filter_chains[0].filters[0].config_type = Some(v3::FilterConfig::TypedConfig(v3::TypedConfig {
        type_url: "type.googleapis.com/other".to_owned(),
        value: v3::HcmPayload::Decoded(good()),
    }));
    assert_eq!(
        MakeHttpConnectionRouter::try_from(l, table.clone()).err(),
        Some(listener::Error::UnsupportedTypedConfig("type.googleapis.com/other".to_owned()))
    );

    let mut l = listener_msg(Some(sock(127, 0, 0, 1, 80)), good());
    l.filter_chains[0].filters[0].config_type = Some(v3::FilterConfig::TypedConfig(v3::TypedConfig {
        type_url: HCM_TYPE_URL.to_owned(),
        value: v3::HcmPayload::Undecodable("buffer underflow".to_owned()),
    }));
    assert_eq!(
        MakeHttpConnectionRouter::try_from(l, table.clone()).err(),
        Some(listener::Error::Decode("buffer underflow".to_owned()))
    );

    let l = listener_msg(Some(sock(127, 0, 0, 1, 80)), v3::HttpConnectionManager { route_specifier: None });
    assert_eq!(
        MakeHttpConnectionRouter::try_from(l, table.clone()).err(),
        Some(listener::Error::ConnectionManager(hcm::Error::UnsupportedRouteConfig))
    );

    let l = listener_msg(None, good());
    assert_eq!(MakeHttpConnectionRouter::try_from(l, table.clone()).err(), Some(listener::Error::MissingAddress));

    let l = listener_msg(Some(sock(127, 0, 0, 1, 70000)), good());
    assert_eq!(
        MakeHttpConnectionRouter::try_from(l, table.clone()).err(),
        Some(listener::Error::Address(ronvoy::address::Error::PortTooBig(70000)))
    );

    let mut l = listener_msg(Some(sock(127, 0, 0, 1, 80)), good());
    let extra = l.filter_chains[0].clone();
    l.filter_chains.push(extra);
    assert_eq!(MakeHttpConnectionRouter::try_from(l, table).err(), Some(listener::Error::FilterChainCount(2)));
}

#[test]
fn later_cluster_with_the_same_name_wins() {
    let b = bootstrap(
        vec![
            cluster_msg("dup", vec![sock(10, 0, 0, 1, 80)]),
            cluster_msg("other", vec![sock(10, 0, 0, 2, 80)]),
            cluster_msg("dup", vec![sock(10, 0, 0, 3, 80)]),
        ],
        vec![],
    );
    let map = bootstrap_cluster_map(&b);
    assert_eq!(map.len(), 2);
    let dup = map.get("dup").unwrap();
    assert_eq!(
        dup.call(&request(Some("h"), "/")),
        Dispatch::Forward("http://10.0.0.3:80/".to_owned())
    );
    assert!(map.get("missing").is_none());
}

#[test]
fn table_snapshots_survive_a_swap() {
    let table = ClusterTable::new(ClusterMap::from_clusters(vec![Cluster::new("a".to_owned(), vec![])]));
    let before = table.load();
    table.store(ClusterMap::from_clusters(vec![
        Cluster::new("b".to_owned(), vec![]),
        Cluster::new("c".to_owned(), vec![]),
    ]));
    let after = table.load();
    assert_eq!(before.len(), 1);
    assert!(before.get("a").is_some());
    assert!(before.get("b").is_none());
    assert_eq!(after.len(), 2);
    assert!(after.get("a").is_none());
    assert!(after.get("c").is_some());
}

#[test]
fn node_is_fabricated_when_absent() {
    let node = get_node(None);
    assert!(node.id.starts_with("ronvoy-"));
    assert_eq!(node.id.len(), "ronvoy-".len() + 36);
    assert_eq!(node.user_agent_name, "ronvoy");
    assert_eq!(
        node.user_agent_build_version,
        Some(v3::SemanticVersion { major_number: 0, minor_number: 1, patch: 0 })
    );
    assert_ne!(get_node(None).id, node.id);
}

#[test]
fn configured_node_keeps_its_identity() {
    let configured = v3::Node {
        id: "edge-1".to_owned(),
        cluster: "edge".to_owned(),
        user_agent_name: "envoy".to_owned(),
        user_agent_build_version: None,
    };
    let node = get_node(Some(&configured));
    assert_eq!(node.id, "edge-1");
    assert_eq!(node.cluster, "edge");
    assert_eq!(node.user_agent_name, "ronvoy");
    assert!(node.user_agent_build_version.is_some());
}

#[test]
fn concurrency_values() {
    assert_eq!(parse_concurrency("4"), Some(4));
    assert_eq!(parse_concurrency("+12"), Some(12));
    assert_eq!(parse_concurrency("0"), None);
    assert_eq!(parse_concurrency(""), None);
    assert_eq!(parse_concurrency("+"), None);
    assert_eq!(parse_concurrency("-3"), None);
    assert_eq!(parse_concurrency("4x"), None);
    assert_eq!(parse_concurrency(" 4"), None);
    assert_eq!(parse_concurrency("18446744073709551615"), Some(usize::MAX));
    assert_eq!(parse_concurrency("18446744073709551616"), None);
    assert_eq!(parse_concurrency("99999999999999999999x"), None);
}

#[test]
fn event_loop_flags() {
    assert_eq!(event_loop_from_flags(false, false), Some(EventLoop::ThreadPool));
    assert_eq!(event_loop_from_flags(false, true), Some(EventLoop::ThreadPool));
    assert_eq!(event_loop_from_flags(true, false), Some(EventLoop::MultiSingleThreaded));
    assert_eq!(event_loop_from_flags(true, true), None);
    let args = Args::new();
    assert_eq!(args.config_path, "bootstrap.yaml");
    assert_eq!(args.event_loop_kind, EventLoop::ThreadPool);
}

#[test]
fn builder_settings() {
    let b = Builder::new(EventLoop::MultiSingleThreaded).worker_threads(Some(3));
    assert_eq!(b.kind(), EventLoop::MultiSingleThreaded);
    assert_eq!(b.thread_count(), Some(3));
    assert_eq!(b.resolved_thread_count(), 3);
    let b = Builder::new_thread_pool();
    assert_eq!(b.kind(), EventLoop::ThreadPool);
    assert_eq!(b.thread_count(), None);
    assert!(b.resolved_thread_count() >= 1);
    assert_eq!(Builder::new_multi_single_threaded().kind(), EventLoop::MultiSingleThreaded);
}

#[test]
fn only_the_first_matching_virtual_host_is_searched() {
    let table = Arc::new(get_bootstrap_clusters(&bootstrap(vec![cluster_msg("c", vec![sock(10, 0, 0, 3, 80)])], vec![])));
    let hcm = HttpConnectionManager::try_from(
        hcm_msg(vec![
            vhost("first", &["*"], vec![prefix_route("/api", "c")]),
            vhost("second", &["*"], vec![prefix_route("/", "c")]),
        ]),
        table,
    )
    .unwrap();
    assert!(hcm.cluster_name(&request(Some("h"), "/api/v1")).is_some());
    assert!(hcm.cluster_name(&request(Some("h"), "/web")).is_none());
}

#[test]
fn respond_with_the_cluster_found_or_a_route_miss() {
    let req = request(Some("h"), "/x");
    assert_eq!(respond_with(None, &req), route_miss());
    let c = Arc::new(Cluster::new(
        "svc".to_owned(),
        vec![ronvoy::address::Address::Socket(SocketAddr { ip: IpAddr::V4([10, 0, 0, 7]), port: 8080 })],
    ));
    assert_eq!(respond_with(Some(c), &req), Dispatch::Forward("http://10.0.0.7:8080/x".to_owned()));
}

#[test]
fn fabricated_node_id_is_a_v4_uuid() {
    let node = get_node(None);
    let uuid: Vec<char> = node.id["ronvoy-".len()..].chars().collect();
    assert_eq!(uuid.len(), 36);
    for (i, c) in uuid.iter().enumerate() {
        if [8, 13, 18, 23].contains(&i) {
            assert_eq!(*c, '-');
        } else {
            assert!(c.is_ascii_digit() || ('a'..='f').contains(c));
        }
    }
    assert_eq!(uuid[14], '4');
    assert!(['8', '9', 'a', 'b'].contains(&uuid[19]));
}

#[test]
fn listeners_share_the_cluster_table() {
    let proxy = single_service(vec![sock(127, 0, 0, 1, 9110)]);
    proxy.clusters.store(ClusterMap::from_clusters(vec![Cluster::new(
        "svc_a".to_owned(),
        vec![ronvoy::address::Address::Socket(SocketAddr { ip: IpAddr::V4([10, 9, 9, 9]), port: 81 })],
    )]));
    let conn = proxy.listeners[0].call(SocketAddr { ip: IpAddr::V4([127, 0, 0, 1]), port: 50000 });
    assert_eq!(
        conn.call(&request(Some("h"), "/after")),
        Dispatch::Forward("http://10.9.9.9:81/after".to_owned())
    );
}

#[test]
fn manager_and_listener_error_messages() {
    assert_eq!(hcm::Error::BadDomainGlob("a***".to_owned()).message(), "virtual host's domain is invalid: a***");
    assert_eq!(hcm::Error::UnsupportedRouteConfig.message(), "only a static route_config is supported");
    assert_eq!(listener::Error::FilterChainCount(2).message(), "expected exactly one filter chain, found 2");
    assert_eq!(
        listener::Error::UnexpectedFilter("x".to_owned()).message(),
        "expected 'envoy.filters.network.http_connection_manager' filter, not x"
    );
    assert_eq!(
        listener::Error::Address(ronvoy::address::Error::PortTooBig(70000)).message(),
        "port value 70000 bigger than max port of 2^16"
    );
    assert_eq!(
        listener::Error::ConnectionManager(hcm::Error::UnsupportedRouteConfig).message(),
        "only a static route_config is supported"
    );
    assert_eq!(listener::Error::MissingAddress.message(), "expected listener to specify address");
}
