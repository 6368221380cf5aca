//! Clusters: named pools of upstream endpoints picked in round robin.

use vstd::prelude::*;
use vstd::string::*;
use vstd::arithmetic::div_mod::{lemma_fundamental_div_mod, lemma_fundamental_div_mod_converse};
use std::sync::Arc;
use std::sync::atomic::{AtomicUsize, Ordering};
use crate::address::{Address, authority_text, address_of};
use crate::response::{JsonResponse, json_error, error_body};
use crate::v3;

verus! {

/// How a cluster spreads requests over its endpoints.
#[derive(Clone, Copy, Debug, PartialEq, Eq)]
pub enum LbPolicy {
    RoundRobin,
}

impl LbPolicy {
    /// The policy used for a configured one: every configured policy is served
    /// by round robin.
    pub fn from_v3(value: v3::LbPolicy) -> (r: LbPolicy)
        ensures
            r == LbPolicy::RoundRobin,
    {
        LbPolicy::RoundRobin
    }
}

impl Default for LbPolicy {
    fn default() -> (r: LbPolicy)
        ensures
            r == LbPolicy::RoundRobin,
    {
        LbPolicy::RoundRobin
    }
}

/// The parts of an inbound request that routing and forwarding read: the
/// `Host` header (`None` when absent or not UTF-8), the URI path, and the URI
/// path with its query, when the URI has one.
#[derive(Clone, Debug, PartialEq, Eq)]
pub struct RequestHead {
    pub host: Option<String>,
    pub path: String,
    pub path_and_query: Option<String>,
}

/// What to do with a request handed to a cluster: send it upstream to a
/// rewritten URI, or answer it directly.
#[derive(Clone, Debug, PartialEq, Eq)]
pub enum Dispatch {
    Forward(String),
    Respond(JsonResponse),
}

/// The part of the request URI kept when forwarding: path and query, or the
/// path alone.
pub open spec fn request_target(req: RequestHead) -> Seq<char> {
    match req.path_and_query {
        Some(pq) => pq@,
        None => req.path@,
    }
}

/// `http://{host}:{port}{path and query}` for an endpoint.
pub open spec fn upstream_uri(endpoint: Address, req: RequestHead) -> Seq<char> {
    match endpoint {
        Address::Socket(sa) => seq!['h', 't', 't', 'p', ':', '/', '/'] + authority_text(sa)
            + request_target(req),
    }
}

/// The index of the endpoint chosen by the dispatch that read cursor value
/// `cursor`, among `n` endpoints.
pub open spec fn endpoint_index(cursor: int, n: int) -> int {
    cursor % n
}

/// How many of the dispatches that read the cursor values `start`,
/// `start + 1`, ..., `start + k - 1` pick endpoint `i` of `n`.
pub open spec fn picks(start: int, k: nat, n: int, i: int) -> nat
    decreases k,
{
    if k == 0 {
        0
    } else {
        picks(start, (k - 1) as nat, n, i) + if endpoint_index(start + k - 1, n) == i {
            1nat
        } else {
            0nat
        }
    }
}

/// How many of the cursor values `0`, ..., `m - 1` pick endpoint `i` of `n`.
spec fn picks_below(m: int, n: int, i: int) -> int {
    (m + n - 1 - i) / n
}

proof fn lemma_picks_below_step(m: int, n: int, i: int)
    requires
        m >= 0,
        n > 0,
        0 <= i < n,
    ensures
        picks_below(m + 1, n, i) == picks_below(m, n, i) + if endpoint_index(m, n) == i {
            1int
        } else {
            0int
        },
{
    let x = m + n - 1 - i;
    lemma_fundamental_div_mod(x, n);
    let q = x / n;
    let r = x % n;
    assert(x == n * q + r);
    assert(0 <= r < n);
    if r + 1 < n {
        assert(x + 1 == q * n + (r + 1)) by (nonlinear_arith)
            requires
                x == n * q + r,
        ;
        lemma_fundamental_div_mod_converse(x + 1, n, q, r + 1);
        if m % n == i {
            lemma_fundamental_div_mod(m, n);
            let p = m / n;
            assert(m == n * p + i);
            assert(x + 1 == (p + 1) * n) by (nonlinear_arith)
                requires
                    x + 1 == m + n - i,
                    m == n * p + i,
            ;
            lemma_fundamental_div_mod_converse(x + 1, n, p + 1, 0);
        }
    } else {
        assert(x + 1 == (q + 1) * n + 0) by (nonlinear_arith)
            requires
                x == n * q + r,
                r + 1 == n,
        ;
        lemma_fundamental_div_mod_converse(x + 1, n, q + 1, 0);
        assert(m == q * n + i) by (nonlinear_arith)
            requires
                x == n * q + r,
                r + 1 == n,
                x == m + n - 1 - i,
        ;
        lemma_fundamental_div_mod_converse(m, n, q, i);
    }
}

proof fn lemma_picks_as_difference(start: int, k: nat, n: int, i: int)
    requires
        start >= 0,
        n > 0,
        0 <= i < n,
    ensures
        picks(start, k, n, i) == picks_below(start + k, n, i) - picks_below(start, n, i),
    decreases k,
{
    if k > 0 {
        lemma_picks_as_difference(start, (k - 1) as nat, n, i);
        lemma_picks_below_step(start + k - 1, n, i);
    }
}

/// Round robin is fair: among `k` dispatches that read the consecutive cursor
/// values `start`, ..., `start + k - 1` (the atomic fetch-and-increment hands
/// each dispatch its own value), each of the `n` endpoints is picked
/// `floor(k / n)` or `ceil(k / n)` times, and exactly `k / n` times when `n`
/// divides `k`.
pub proof fn lemma_round_robin_fair(start: nat, k: nat, n: nat, i: nat)
    requires
        n > 0,
        i < n,
    ensures
        k / n <= picks(start as int, k, n as int, i as int) <= k / n + 1,
        k % n == 0 ==> picks(start as int, k, n as int, i as int) == k / n,
        picks(start as int, k, n as int, i as int) == k / n || picks(
            start as int,
            k,
            n as int,
            i as int,
        ) == (k + n - 1) / (n as int),
{
    let n_ = n as int;
    lemma_picks_as_difference(start as int, k, n_, i as int);
    let x = start + n - 1 - i;
    lemma_fundamental_div_mod(x, n_);
    lemma_fundamental_div_mod(k as int, n_);
    let q1 = x / n_;
    let r1 = x % n_;
    let q2 = k as int / n_;
    let r2 = k as int % n_;
    if r1 + r2 < n_ {
        assert(x + k == (q1 + q2) * n_ + (r1 + r2)) by (nonlinear_arith)
            requires
                x == n_ * q1 + r1,
                k == n_ * q2 + r2,
        ;
        lemma_fundamental_div_mod_converse(x + k, n_, q1 + q2, r1 + r2);
    } else {
        assert(x + k == (q1 + q2 + 1) * n_ + (r1 + r2 - n_)) by (nonlinear_arith)
            requires
                x == n_ * q1 + r1,
                k == n_ * q2 + r2,
        ;
        lemma_fundamental_div_mod_converse(x + k, n_, q1 + q2 + 1, r1 + r2 - n_);
    }
    if r2 > 0 {
        assert(k + n_ - 1 == (q2 + 1) * n_ + (r2 - 1)) by (nonlinear_arith)
            requires
                k == n_ * q2 + r2,
        ;
        lemma_fundamental_div_mod_converse(k + n_ - 1, n_, q2 + 1, r2 - 1);
    }
}

/// The endpoints an `LbEndpoint` list contributes: each one that names an
/// endpoint whose address compiles, in order.
pub open spec fn locality_addresses(eps: Seq<v3::LbEndpoint>) -> Seq<Address>
    decreases eps.len(),
{
    if eps.len() == 0 {
        Seq::empty()
    } else {
        let rest = locality_addresses(eps.drop_last());
        match eps.last().host_identifier {
            Some(v3::HostIdentifier::Endpoint(ep)) => match ep.address {
                Some(a) => match address_of(a) {
                    Some(addr) => rest.push(addr),
                    None => rest,
                },
                None => rest,
            },
            _ => rest,
        }
    }
}

/// The endpoints of a load assignment, locality by locality.
pub open spec fn assignment_addresses(ls: Seq<v3::LocalityLbEndpoints>) -> Seq<Address>
    decreases ls.len(),
{
    if ls.len() == 0 {
        Seq::empty()
    } else {
        assignment_addresses(ls.drop_last()) + locality_addresses(ls.last().lb_endpoints@)
    }
}

/// The endpoints of a cluster message.
pub open spec fn cluster_addresses(c: v3::Cluster) -> Seq<Address> {
    match c.load_assignment {
        Some(la) => assignment_addresses(la.endpoints@),
        None => Seq::empty(),
    }
}

/// The response for a cluster that has no endpoint.
pub open spec fn is_no_endpoints(resp: JsonResponse) -> bool {
    resp.status == 503 && resp.body@ == error_body("no endpoints"@)
}

/// The response for a failed upstream exchange.
pub open spec fn is_upstream_error(resp: JsonResponse, msg: Seq<char>) -> bool {
    resp.status == 503 && resp.body@ == error_body("upstream error: "@ + msg)
}

/// Whether `d` forwards the request to `uri`.
pub open spec fn forwards_to(d: Dispatch, uri: Seq<char>) -> bool {
    match d {
        Dispatch::Forward(u) => u@ == uri,
        Dispatch::Respond(_) => false,
    }
}

/// Whether `d` answers the request with the no-endpoints response.
pub open spec fn answers_no_endpoints(d: Dispatch) -> bool {
    match d {
        Dispatch::Forward(_) => false,
        Dispatch::Respond(resp) => is_no_endpoints(resp),
    }
}

/// Rewriting is a function of the endpoint and the request target alone: the
/// same request rewritten twice against the same endpoint (its URI reset in
/// between, or any other part changed) goes to byte-identical URIs.
pub proof fn lemma_rewrite_deterministic(endpoint: Address, a: RequestHead, b: RequestHead)
    requires
        request_target(a) == request_target(b),
    ensures
        upstream_uri(endpoint, a) == upstream_uri(endpoint, b),
        crate::text::utf8(upstream_uri(endpoint, a)) == crate::text::utf8(upstream_uri(endpoint, b)),
{
}

/// Rewrites a request's URI to send it to `endpoint`: method, headers and body
/// are kept, only the target changes.
pub fn rewrite_uri(endpoint: &Address, req: &RequestHead) -> (r: String)
    ensures
        r@ == upstream_uri(*endpoint, *req),
{
    proof {
        reveal_strlit("http://");
    }
    let Address::Socket(sa) = endpoint;
    let authority = sa.authority();
    let mut uri = String::from_str("http://");
    uri.append(authority.as_str());
    match &req.path_and_query {
        Some(pq) => uri.append(pq.as_str()),
        None => uri.append(req.path.as_str()),
    }
    assert(uri@ =~= upstream_uri(*endpoint, *req));
    uri
}

/// The response for a request whose upstream exchange failed with `msg`.
pub fn upstream_error(msg: &str) -> (r: JsonResponse)
    ensures
        is_upstream_error(r, msg@),
{
    proof {
        reveal_strlit("upstream error: ");
    }
    let text = String::from_str("upstream error: ").concat(msg);
    json_error(503, text.as_str())
}

/// A cluster: its endpoints, the policy that picks among them, and the shared
/// cursor of round-robin selection. Clones share the cursor.
#[derive(Clone, Debug)]
pub struct Cluster {
    pub name: String,
    lb_policy: LbPolicy,
    endpoints: Vec<Address>,
    cursor: Arc<AtomicUsize>,
}

impl Cluster {
    /// The cluster's name.
    pub closed spec fn spec_name(&self) -> Seq<char> {
        self.name@
    }

    /// The endpoints, in configured order.
    pub closed spec fn spec_endpoints(&self) -> Seq<Address> {
        self.endpoints@
    }

    /// A cluster named `name` over `endpoints`, with its cursor at zero.
    pub fn new(name: String, endpoints: Vec<Address>) -> (r: Cluster)
        ensures
            r.spec_name() == name@,
            r.spec_endpoints() == endpoints@,
    {
        Cluster { name, lb_policy: LbPolicy::RoundRobin, endpoints, cursor: Arc::new(AtomicUsize::new(0)) }
    }

    /// Compiles a cluster message. Endpoints whose address does not compile,
    /// or that name no endpoint, are left out.
    pub fn from_v3(value: &v3::Cluster) -> (r: Cluster)
        ensures
            r.spec_name() == value.name@,
            r.spec_endpoints() == cluster_addresses(*value),
    {
        let lb_policy = LbPolicy::from_v3(value.lb_policy);
        let mut endpoints: Vec<Address> = Vec::new();
        match &value.load_assignment {
            Some(la) => {
                let mut i: usize = 0;
                while i < la.endpoints.len()
                    invariant
                        i <= la.endpoints@.len(),
                        endpoints@ == assignment_addresses(la.endpoints@.subrange(0, i as int)),
                    decreases la.endpoints@.len() - i,
                {
                    let locality = &la.endpoints[i];
                    let ghost start = endpoints@;
                    let mut j: usize = 0;
                    while j < locality.lb_endpoints.len()
                        invariant
                            j <= locality.lb_endpoints@.len(),
                            endpoints@ == start + locality_addresses(
                                locality.lb_endpoints@.subrange(0, j as int),
                            ),
                        decreases locality.lb_endpoints@.len() - j,
                    {
                        let ghost eps = locality.lb_endpoints@.subrange(0, j + 1);
                        proof {
                            assert(eps.drop_last() =~= locality.lb_endpoints@.subrange(0, j as int));
                        }
                        if let Some(v3::HostIdentifier::Endpoint(ep)) = &locality.lb_endpoints[j].host_identifier {
                            if let Some(a) = &ep.address {
                                if let Ok(addr) = Address::compile(a) {
                                    endpoints.push(addr);
                                }
                            }
                        }
                        assert(endpoints@ =~= start + locality_addresses(eps));
                        j = j + 1;
                    }
                    proof {
                        let ls = la.endpoints@.subrange(0, i + 1);
                        assert(ls.drop_last() =~= la.endpoints@.subrange(0, i as int));
                        assert(locality.lb_endpoints@.subrange(0, j as int) =~= locality.lb_endpoints@);
                    }
                    i = i + 1;
                }
                assert(la.endpoints@.subrange(0, i as int) =~= la.endpoints@);
            },
            None => {},
        }
        Cluster {
            name: value.name.clone(),
            lb_policy,
            endpoints,
            cursor: Arc::new(AtomicUsize::new(0)),
        }
    }

    /// The cluster's name.
    pub fn name_str(&self) -> (r: &str)
        ensures
            r@ == self.spec_name(),
    {
        self.name.as_str()
    }

    /// The number of endpoints.
    pub fn endpoint_count(&self) -> (r: usize)
        ensures
            r == self.spec_endpoints().len(),
    {
        self.endpoints.len()
    }

    /// What the dispatch that read cursor value `cursor` does: answer 503
    /// `{"error":"no endpoints"}` when there is no endpoint, else forward to
    /// endpoint `cursor mod n`.
    pub fn dispatch_at(&self, cursor: usize, req: &RequestHead) -> (r: Dispatch)
        ensures
            self.spec_endpoints().len() == 0 ==> answers_no_endpoints(r),
            self.spec_endpoints().len() > 0 ==> forwards_to(
                r,
                upstream_uri(
                    self.spec_endpoints()[endpoint_index(
                        cursor as int,
                        self.spec_endpoints().len() as int,
                    )],
                    *req,
                ),
            ),
    {
        let n = self.endpoints.len();
        if n == 0 {
            proof {
                reveal_strlit("no endpoints");
            }
            return Dispatch::Respond(json_error(503, "no endpoints"));
        }
        let endpoint = &self.endpoints[cursor % n];
        Dispatch::Forward(rewrite_uri(endpoint, req))
    }

    /// Picks the next endpoint by advancing the shared cursor, and says what to
    /// do with the request. Which endpoint is picked depends on the other
    /// dispatches that share the cursor; it is one of the cluster's.
    pub fn call(&self, req: &RequestHead) -> (r: Dispatch)
        ensures
            self.spec_endpoints().len() == 0 ==> answers_no_endpoints(r),
            self.spec_endpoints().len() > 0 ==> exists|i: int|
                0 <= i < self.spec_endpoints().len() && forwards_to(
                    r,
                    upstream_uri(#[trigger] self.spec_endpoints()[i], *req),
                ),
    {
        if self.endpoints.len() == 0 {
            return self.dispatch_at(0, req);
        }
        let cursor = self.cursor.fetch_add(1, Ordering::SeqCst);
        let r = self.dispatch_at(cursor, req);
        assert(0 <= endpoint_index(cursor as int, self.spec_endpoints().len() as int) < self.spec_endpoints().len());
        r
    }
}

} // verus!
