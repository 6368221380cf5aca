//! The cluster table: an immutable name-to-cluster map behind a cell whose
//! contents are replaced as a whole.

use vstd::prelude::*;
use std::sync::Arc;
use crate::address::Address;
use crate::cluster::Cluster;
use crate::text::str_equal;

verus! {

/// An immutable map from cluster name to cluster; names are unique.
#[derive(Debug)]
pub struct ClusterMap {
    clusters: Vec<Arc<Cluster>>,
}

/// Whether no two clusters of `cs` share a name.
pub open spec fn names_unique(cs: Seq<Arc<Cluster>>) -> bool {
    forall|i: int, j: int|
        0 <= i < j < cs.len() ==> (#[trigger] cs[i]).spec_name() != (#[trigger] cs[j]).spec_name()
}

/// Whether some cluster of `cs` is named `name`.
pub open spec fn names(cs: Seq<Cluster>, name: Seq<char>) -> bool {
    exists|j: int| 0 <= j < cs.len() && (#[trigger] cs[j]).spec_name() == name
}

/// Whether `cs[j]` is the last cluster of `cs` with its name.
pub open spec fn is_last_of_name(cs: Seq<Cluster>, j: int) -> bool {
    forall|l: int| j < l < cs.len() ==> (#[trigger] cs[l]).spec_name() != cs[j].spec_name()
}

/// Whether every cluster of `entries` is a cluster of `cs` that no later
/// cluster of `cs` shares a name with.
pub open spec fn kept_last(entries: Seq<Arc<Cluster>>, cs: Seq<Cluster>) -> bool {
    kept_last_from(entries, cs, 0)
}

/// `kept_last`, with the clusters of `cs` taken from index `lo` on.
pub open spec fn kept_last_from(entries: Seq<Arc<Cluster>>, cs: Seq<Cluster>, lo: int) -> bool {
    forall|i: int|
        0 <= i < entries.len() ==> exists|j: int|
            lo <= j < cs.len() && *(#[trigger] entries[i]) == #[trigger] cs[j] && is_last_of_name(
                cs,
                j,
            )
}

impl ClusterMap {
    #[verifier::type_invariant]
    spec fn inv(self) -> bool {
        names_unique(self.clusters@)
    }

    /// The clusters of the map, in no particular order.
    pub closed spec fn entries(&self) -> Seq<Arc<Cluster>> {
        self.clusters@
    }

    /// Whether a cluster named `name` is in the map.
    pub open spec fn has(&self, name: Seq<char>) -> bool {
        exists|i: int| 0 <= i < self.entries().len() && (#[trigger] self.entries()[i]).spec_name() == name
    }

    /// The map as a mathematical map: each name in it to the endpoints of the
    /// cluster of that name.
    pub open spec fn by_name(&self) -> Map<Seq<char>, Seq<Address>> {
        Map::new(
            |k: Seq<char>| self.has(k),
            |k: Seq<char>|
                self.entries()[choose|i: int|
                    0 <= i < self.entries().len() && (#[trigger] self.entries()[i]).spec_name()
                        == k].spec_endpoints(),
        )
    }

    /// Every map satisfies this: no two clusters share a name.
    pub open spec fn wf(&self) -> bool {
        names_unique(self.entries())
    }

    /// The map with no cluster.
    pub fn empty() -> (r: ClusterMap)
        ensures
            r.wf(),
            r.entries().len() == 0,
    {
        ClusterMap { clusters: Vec::new() }
    }

    /// The number of clusters.
    pub fn len(&self) -> (r: usize)
        ensures
            r == self.entries().len(),
    {
        self.clusters.len()
    }

    /// The position of the cluster named `name`, if there is one.
    fn position(&self, name: &str) -> (r: Option<usize>)
        ensures
            r is Some <==> self.has(name@),
            r matches Some(i) ==> i < self.entries().len() && self.entries()[i as int].spec_name()
                == name@,
    {
        let mut i: usize = 0;
        while i < self.clusters.len()
            invariant
                i <= self.clusters@.len(),
                forall|j: int| 0 <= j < i ==> (#[trigger] self.clusters@[j]).spec_name() != name@,
            decreases self.clusters@.len() - i,
        {
            if str_equal(self.clusters[i].name_str(), name) {
                assert(self.entries()[i as int].spec_name() == name@);
                return Some(i);
            }
            i = i + 1;
        }
        None
    }

    /// The cluster named `name`.
    pub fn get(&self, name: &str) -> (r: Option<Arc<Cluster>>)
        ensures
            r is Some <==> self.has(name@),
            r matches Some(c) ==> c.spec_name() == name@ && self.entries().contains(c),
    {
        match self.position(name) {
            Some(i) => {
                let c = Arc::clone(&self.clusters[i]);
                Some(c)
            },
            None => None,
        }
    }

    /// The map of `clusters` by name; where two share a name the later one is
    /// kept.
    pub fn from_clusters(clusters: Vec<Cluster>) -> (r: ClusterMap)
        ensures
            r.wf(),
            forall|k: Seq<char>| r.has(k) <==> names(clusters@, k),
            kept_last(r.entries(), clusters@),
    {
        let ghost all = clusters@;
        let mut rest = clusters;
        let mut map = ClusterMap::empty();
        while rest.len() > 0
            invariant
                rest@ == all.subrange(0, rest@.len() as int),
                rest@.len() <= all.len(),
                map.wf(),
                forall|k: Seq<char>|
                    map.has(k) <==> exists|j: int|
                        rest@.len() <= j < all.len() && (#[trigger] all[j]).spec_name() == k,
                kept_last_from(map.entries(), all, rest@.len() as int),
            decreases rest@.len(),
        {
            let ghost old_map = map;
            let m = rest.len() - 1;
            let c = rest.pop().unwrap();
            assert(c == all[m as int]);
            let found = map.position(c.name_str());
            if found.is_none() {
                map.push_new(Arc::new(c));
                proof {
                    assert forall|l: int| m < l < all.len() implies (#[trigger] all[l]).spec_name()
                        != all[m as int].spec_name() by {
                        if all[l].spec_name() == all[m as int].spec_name() {
                            assert(old_map.has(all[l].spec_name()));
                        }
                    }
                    assert(is_last_of_name(all, m as int));
                }
            }
            proof {
                let n = old_map.entries().len();
                assert forall|k: Seq<char>|
                    map.has(k) <==> exists|j: int|
                        m <= j < all.len() && (#[trigger] all[j]).spec_name() == k by {
                    if map.has(k) {
                        let i = choose|i: int|
                            0 <= i < map.entries().len() && (#[trigger] map.entries()[i]).spec_name() == k;
                        if i < n {
                            assert(old_map.entries()[i] == map.entries()[i]);
                            assert(old_map.has(k));
                        } else {
                            assert(all[m as int].spec_name() == k);
                        }
                    }
                    if exists|j: int| m <= j < all.len() && (#[trigger] all[j]).spec_name() == k {
                        let j = choose|j: int| m <= j < all.len() && (#[trigger] all[j]).spec_name() == k;
                        if j > m {
                            assert(old_map.has(k));
                            let i = choose|i: int|
                                0 <= i < n && (#[trigger] old_map.entries()[i]).spec_name() == k;
                            assert(map.entries()[i] == old_map.entries()[i]);
                            assert(map.has(k));
                        } else if found.is_none() {
                            assert(map.entries()[n as int].spec_name() == k);
                            assert(map.has(k));
                        } else {
                            assert(old_map.has(k));
                            let i = choose|i: int|
                                0 <= i < n && (#[trigger] old_map.entries()[i]).spec_name() == k;
                            assert(map.entries()[i] == old_map.entries()[i]);
                            assert(map.has(k));
                        }
                    }
                }
                assert forall|i: int| 0 <= i < map.entries().len() implies exists|j: int|
                    m <= j < all.len() && *(#[trigger] map.entries()[i]) == #[trigger] all[j]
                        && is_last_of_name(all, j) by {
                    if i < n {
                        assert(old_map.entries()[i] == map.entries()[i]);
                        let e = old_map.entries()[i];
                        let j = choose|j: int|
                            m + 1 <= j < all.len() && *(#[trigger] old_map.entries()[i]) == #[trigger] all[j]
                                && is_last_of_name(all, j);
                        assert(m <= j);
                    } else {
                        assert(*map.entries()[i] == all[m as int]);
                    }
                }
                assert(kept_last_from(map.entries(), all, m as int));
            }
            assert(rest@ =~= all.subrange(0, m as int));
        }
        assert(kept_last(map.entries(), all));
        assert forall|k: Seq<char>| map.has(k) <==> names(all, k) by {
            if names(all, k) {
                let j = choose|j: int| 0 <= j < all.len() && (#[trigger] all[j]).spec_name() == k;
                assert(0 <= j < all.len());
            }
        }
        map
    }

    /// Adds a cluster whose name is not yet in the map.
    fn push_new(&mut self, c: Arc<Cluster>)
        requires
            !old(self).has(c.spec_name()),
        ensures
            final(self).entries() == old(self).entries().push(c),
    {
        proof {
            use_type_invariant(&*self);
        }
        let mut clusters: Vec<Arc<Cluster>> = Vec::new();
        std::mem::swap(&mut self.clusters, &mut clusters);
        let ghost before = clusters@;
        clusters.push(c);
        assert forall|i: int, j: int| 0 <= i < j < clusters@.len() implies
            (#[trigger] clusters@[i]).spec_name() != (#[trigger] clusters@[j]).spec_name() by {
            assert(before[i] == clusters@[i]);
            assert(old(self).entries()[i] == before[i]);
            if j < before.len() {
                assert(before[j] == clusters@[j]);
            }
        }
        self.clusters = clusters;
    }
}

} // verus!

verus! {

/// The clusters, by name, of the map a cluster table was made with.
pub uninterp spec fn initial_clusters(t: ClusterTable) -> Map<Seq<char>, Seq<Address>>;

/// The cluster table: a cell holding the current cluster map. Readers take a
/// snapshot, which stays valid and unchanged for as long as they hold it; a
/// writer replaces the whole map at once. The cell's type names a strategy
/// that `arc_swap` keeps private, so the cell is held out of Verus's sight.
#[verifier::external_body]
pub struct ClusterTable {
    cell: arc_swap::ArcSwap<ClusterMap>,
}

impl ClusterTable {
    /// Relies on `arc_swap::ArcSwapAny::from_pointee`: a cell that holds `map`.
    #[verifier::external_body]
    pub fn new(map: ClusterMap) -> (r: ClusterTable)
        ensures
            initial_clusters(r) == map.by_name(),
    {
        ClusterTable { cell: arc_swap::ArcSwap::from_pointee(map) }
    }

    /// Relies on `arc_swap::ArcSwapAny::load_full`: the map held at the time
    /// of the call, whichever that is under concurrent stores. Every map is
    /// well formed (its type invariant), so no reader sees a torn one.
    #[verifier::external_body]
    pub fn load(&self) -> (r: Arc<ClusterMap>)
        ensures
            r.wf(),
    {
        self.cell.load_full()
    }

    /// Relies on `arc_swap::ArcSwapAny::store`: publishes `map` in one atomic
    /// step; snapshots loaded before keep the map they hold.
    #[verifier::external_body]
    pub fn store(&self, map: ClusterMap) {
        self.cell.store(Arc::new(map))
    }
}

} // verus!
