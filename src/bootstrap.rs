//! Bootstrap ingest: the cluster table, the listeners and the node identity
//! built from a bootstrap document.

use vstd::prelude::*;
use vstd::string::*;
use std::sync::Arc;
use crate::cluster::{Cluster, cluster_addresses};
use crate::listener::{MakeHttpConnectionRouter, listener_compiles, listener_ok};
use crate::table::{ClusterMap, ClusterTable, names, kept_last, initial_clusters};
use crate::v3;

verus! {

/// The proxy's user agent name.
pub const USER_AGENT_NAME: &'static str = "ronvoy";

/// The prefix of a fabricated node id.
pub const NODE_ID_PREFIX: &'static str = "ronvoy-";

/// The version reported as the user agent's build version.
pub const VERSION_MAJOR: u32 = 0;
pub const VERSION_MINOR: u32 = 1;
pub const VERSION_PATCH: u32 = 0;

/// Whether `c` is a lowercase hexadecimal digit.
pub open spec fn is_lower_hex(c: char) -> bool {
    ('0' <= c && c <= '9') || ('a' <= c && c <= 'f')
}

/// Whether `u` is the hyphenated lowercase text of a version-4 (random) UUID:
/// 32 hexadecimal digits in groups of 8, 4, 4, 4 and 12, the version digit `4`,
/// and a variant digit among `8`, `9`, `a`, `b`.
pub open spec fn is_uuid_v4_text(u: Seq<char>) -> bool {
    &&& u.len() == 36
    &&& forall|i: int|
        0 <= i < 36 ==> if i == 8 || i == 13 || i == 18 || i == 23 {
            u[i] == '-'
        } else {
            is_lower_hex(#[trigger] u[i])
        }
    &&& u[14] == '4'
    &&& (u[19] == '8' || u[19] == '9' || u[19] == 'a' || u[19] == 'b')
}

/// Relies on `uuid::Uuid::new_v4` (random bits with the version and variant
/// bits set) and on its hyphenated lowercase text form.
#[verifier::external_body]
fn fresh_uuid() -> (r: String)
    ensures
        is_uuid_v4_text(r@),
{
    uuid::Uuid::new_v4().hyphenated().to_string()
}

/// The clusters of the bootstrap's static resources, compiled, in order.
pub open spec fn bootstrap_clusters(b: v3::Bootstrap) -> Seq<v3::Cluster> {
    match b.static_resources {
        Some(sr) => sr.clusters@,
        None => Seq::empty(),
    }
}

/// The listeners of the bootstrap's static resources.
pub open spec fn bootstrap_listeners(b: v3::Bootstrap) -> Seq<v3::Listener> {
    match b.static_resources {
        Some(sr) => sr.listeners@,
        None => Seq::empty(),
    }
}

/// The listeners of a list that compile, in order.
pub open spec fn kept_listeners(ls: Seq<v3::Listener>) -> Seq<v3::Listener>
    decreases ls.len(),
{
    if ls.len() == 0 {
        Seq::empty()
    } else if listener_ok(ls.last()) {
        kept_listeners(ls.drop_last()).push(ls.last())
    } else {
        kept_listeners(ls.drop_last())
    }
}

/// Whether `out` holds, in order, what each compiling listener of `ls`
/// compiles to.
pub open spec fn compiles_listeners(ls: Seq<v3::Listener>, out: Seq<MakeHttpConnectionRouter>) -> bool {
    let kept = kept_listeners(ls);
    &&& out.len() == kept.len()
    &&& forall|k: int|
        0 <= k < kept.len() ==> listener_compiles(
            #[trigger] kept[k],
            Ok::<MakeHttpConnectionRouter, crate::listener::Error>(out[k]),
        )
}

/// Whether `m` is the cluster map of a list of cluster messages: each compiled,
/// keyed by name, the later kept where two share a name.
pub open spec fn map_of_clusters(m: ClusterMap, cs: Seq<v3::Cluster>) -> bool {
    exists|compiled: Seq<Cluster>|
        {
            &&& #[trigger] compiled_from(compiled, cs)
            &&& forall|k: Seq<char>| m.has(k) <==> names(compiled, k)
            &&& kept_last(m.entries(), compiled)
        }
}

/// Whether `compiled` holds each cluster message of `cs` compiled.
pub open spec fn compiled_from(compiled: Seq<Cluster>, cs: Seq<v3::Cluster>) -> bool {
    &&& compiled.len() == cs.len()
    &&& forall|i: int|
        0 <= i < cs.len() ==> (#[trigger] compiled[i]).spec_name() == cs[i].name@
            && compiled[i].spec_endpoints() == cluster_addresses(cs[i])
}

/// The cluster map of the bootstrap's static clusters.
pub fn bootstrap_cluster_map(bootstrap_config: &v3::Bootstrap) -> (r: ClusterMap)
    ensures
        r.wf(),
        map_of_clusters(r, bootstrap_clusters(*bootstrap_config)),
{
    let mut compiled: Vec<Cluster> = Vec::new();
    match &bootstrap_config.static_resources {
        Some(sr) => {
            let mut i: usize = 0;
            while i < sr.clusters.len()
                invariant
                    i <= sr.clusters@.len(),
                    compiled@.len() == i,
                    forall|j: int|
                        0 <= j < i ==> (#[trigger] compiled@[j]).spec_name() == sr.clusters@[j].name@
                            && compiled@[j].spec_endpoints() == cluster_addresses(sr.clusters@[j]),
                decreases sr.clusters@.len() - i,
            {
                compiled.push(Cluster::from_v3(&sr.clusters[i]));
                i = i + 1;
            }
        },
        None => {},
    }
    let ghost cs = compiled@;
    assert(compiled_from(cs, bootstrap_clusters(*bootstrap_config)));
    let map = ClusterMap::from_clusters(compiled);
    assert(map_of_clusters(map, bootstrap_clusters(*bootstrap_config)));
    map
}

/// Whether cluster table `t` was made with the cluster map of the bootstrap's
/// static clusters.
pub open spec fn holds_bootstrap_clusters(t: ClusterTable, b: v3::Bootstrap) -> bool {
    exists|m: ClusterMap|
        #[trigger] map_of_clusters(m, bootstrap_clusters(b)) && initial_clusters(t) == m.by_name()
}

/// A fresh cluster table holding the bootstrap's static clusters.
pub fn get_bootstrap_clusters(bootstrap_config: &v3::Bootstrap) -> (r: ClusterTable)
    ensures
        holds_bootstrap_clusters(r, *bootstrap_config),
{
    let map = bootstrap_cluster_map(bootstrap_config);
    let ghost m = map;
    let r = ClusterTable::new(map);
    assert(map_of_clusters(m, bootstrap_clusters(*bootstrap_config)));
    r
}

/// The compiled listeners of a list, over a shared cluster table; those that
/// do not compile are left out.
pub fn compile_listeners(listeners: Vec<v3::Listener>, clusters: &Arc<ClusterTable>) -> (r: Vec<
    MakeHttpConnectionRouter,
>)
    ensures
        compiles_listeners(listeners@, r@),
        forall|k: int|
            0 <= k < r@.len() ==> (#[trigger] r@[k]).spec_hcm().spec_clusters() == **clusters,
{
    let ghost all = listeners@;
    let mut rest = listeners;
    let mut out: Vec<MakeHttpConnectionRouter> = Vec::new();
    let ghost mut i: int = 0;
    while rest.len() > 0
        invariant
            0 <= i <= all.len(),
            rest@ == all.subrange(i, all.len() as int),
            compiles_listeners(all.subrange(0, i), out@),
            forall|k: int|
                0 <= k < out@.len() ==> (#[trigger] out@[k]).spec_hcm().spec_clusters() == **clusters,
        decreases rest@.len(),
    {
        let l = rest.remove(0);
        let ghost prefix = all.subrange(0, i + 1);
        proof {
            assert(l == all[i]);
            assert(prefix.drop_last() =~= all.subrange(0, i));
            assert(prefix.last() == l);
        }
        let ghost before = out@;
        match MakeHttpConnectionRouter::try_from(l, Arc::clone(clusters)) {
            Ok(m) => {
                out.push(m);
                proof {
                    let kept = kept_listeners(prefix);
                    assert(kept == kept_listeners(prefix.drop_last()).push(l));
                    assert forall|k: int| 0 <= k < kept.len() implies listener_compiles(
                        #[trigger] kept[k],
                        Ok::<MakeHttpConnectionRouter, crate::listener::Error>(out@[k]),
                    ) by {
                        if k < before.len() {
                            assert(kept[k] == kept_listeners(prefix.drop_last())[k]);
                            assert(out@[k] == before[k]);
                        }
                    }
                }
            },
            Err(_) => {},
        }
        proof {
            i = i + 1;
            assert(rest@ =~= all.subrange(i, all.len() as int));
        }
    }
    assert(all.subrange(0, i) =~= all);
    out
}

/// Whether `r` is the node identity for the configured node `configured`:
/// its id and cluster if there is one, else the id `ronvoy-<fresh v4 uuid>` and
/// no cluster; either way the user agent is this proxy and its version.
pub open spec fn is_node_for(r: v3::Node, configured: Option<v3::Node>) -> bool {
    &&& match configured {
        Some(n) => r.id == n.id && r.cluster == n.cluster,
        None => r.id@.len() == NODE_ID_PREFIX@.len() + 36 && r.id@.subrange(
            0,
            NODE_ID_PREFIX@.len() as int,
        ) == NODE_ID_PREFIX@ && is_uuid_v4_text(
            r.id@.subrange(NODE_ID_PREFIX@.len() as int, r.id@.len() as int),
        ) && r.cluster@.len() == 0,
    }
    &&& r.user_agent_name@ == USER_AGENT_NAME@
    &&& r.user_agent_build_version == Some(
        v3::SemanticVersion {
            major_number: VERSION_MAJOR,
            minor_number: VERSION_MINOR,
            patch: VERSION_PATCH,
        },
    )
}

/// The node identity of a proxy.
pub fn get_node(bootstrap_node: Option<&v3::Node>) -> (r: v3::Node)
    ensures
        is_node_for(
            r,
            match bootstrap_node {
                Some(n) => Some(*n),
                None => None,
            },
        ),
{
    let (id, cluster) = match bootstrap_node {
        Some(n) => (n.id.clone(), n.cluster.clone()),
        None => {
            let uuid = fresh_uuid();
            let id = String::from_str(NODE_ID_PREFIX).concat(uuid.as_str());
            proof {
                reveal_strlit("ronvoy-");
                assert(id@.subrange(NODE_ID_PREFIX@.len() as int, id@.len() as int) =~= uuid@);
                assert(id@.subrange(0, NODE_ID_PREFIX@.len() as int) =~= NODE_ID_PREFIX@);
            }
            (id, String::new())
        },
    };
    v3::Node {
        id,
        cluster,
        user_agent_name: String::from_str(USER_AGENT_NAME),
        user_agent_build_version: Some(
            v3::SemanticVersion {
                major_number: VERSION_MAJOR,
                minor_number: VERSION_MINOR,
                patch: VERSION_PATCH,
            },
        ),
    }
}

/// A proxy instance: its configuration, its node identity, the shared cluster
/// table and the listeners that compiled.
pub struct Ronvoy {
    pub bootstrap_config: Arc<v3::Bootstrap>,
    pub node: Arc<v3::Node>,
    pub clusters: Arc<ClusterTable>,
    pub listeners: Vec<MakeHttpConnectionRouter>,
}

impl Ronvoy {
    /// Builds a proxy from a bootstrap document: clusters first (those that
    /// fail are dropped), then the table, then the listeners (those that fail
    /// are dropped), then the node identity.
    pub fn new(bootstrap_config: v3::Bootstrap) -> (r: Ronvoy)
        ensures
            compiles_listeners(bootstrap_listeners(bootstrap_config), r.listeners@),
            is_node_for(*r.node, bootstrap_config.node),
            holds_bootstrap_clusters(*r.clusters, bootstrap_config),
            forall|k: int|
                0 <= k < r.listeners@.len() ==> (#[trigger] r.listeners@[k]).spec_hcm().spec_clusters()
                    == *r.clusters,
    {
        let clusters = Arc::new(get_bootstrap_clusters(&bootstrap_config));
        let node = get_node(bootstrap_config.node.as_ref());
        let stored = bootstrap_config.clone();
        let listeners = match bootstrap_config.static_resources {
            Some(sr) => compile_listeners(sr.listeners, &clusters),
            None => {
                assert(kept_listeners(Seq::<v3::Listener>::empty()) =~= Seq::empty());
                Vec::new()
            },
        };
        Ronvoy { bootstrap_config: Arc::new(stored), node: Arc::new(node), clusters, listeners }
    }
}

} // verus!
