//! The cluster-node IP mapping and its TTL-bounded cache.
//!
//! The external topology source reports, per node, a set of optional network
//! endpoints. `build_ip_by_identity` condenses that report into a mapping from
//! node identity to IP address, choosing per node the first present endpoint
//! in a fixed preference order. `ClusterIpCache` keeps one point-in-time
//! snapshot of that mapping and decides, from a caller-supplied clock reading,
//! whether the snapshot may still be served or a new fetch is due. The fetch
//! itself, and the lock that shares the cache between concurrent invocations,
//! live with the host around this crate.

use vstd::prelude::*;

verus! {

/// A cached cluster snapshot is served for at most this many seconds after it
/// was fetched; past that, a read triggers a refresh.
pub const CLUSTER_NODES_CACHE_TTL_SECS: u64 = 60;

/// A network IP address, modelled by what the engine reads of it: its
/// canonical string form (the geo-table key), and whether it is a loopback or
/// unspecified address (the defensive check against malformed topology data).
#[derive(Debug)]
pub struct IpInfo {
    pub text: String,
    pub loopback: bool,
    pub unspecified: bool,
}

/// One node of the cluster topology: its identity and its optional network
/// endpoints, one per protocol.
#[derive(Debug)]
pub struct NodeInfo {
    pub pubkey: String,
    pub gossip: Option<IpInfo>,
    pub tpu: Option<IpInfo>,
    pub rpc: Option<IpInfo>,
    pub tvu: Option<IpInfo>,
}

/// The address chosen for a node: the first present endpoint among gossip,
/// transaction-processing, RPC, and validator-transmission, in that order.
/// A node with no endpoint at all contributes no address.
pub open spec fn preferred_ip(node: NodeInfo) -> Option<IpInfo> {
    if node.gossip is Some {
        node.gossip
    } else if node.tpu is Some {
        node.tpu
    } else if node.rpc is Some {
        node.rpc
    } else {
        node.tvu
    }
}

/// First-match lookup among identity-to-IP pairs. Pairs are kept
/// newest-first, so the first match carries the most recent binding.
pub open spec fn spec_get(pairs: Seq<(String, IpInfo)>, identity: Seq<char>) -> Option<IpInfo>
    decreases pairs.len(),
{
    if pairs.len() == 0 {
        None
    } else if pairs[0].0@ == identity {
        Some(pairs[0].1)
    } else {
        spec_get(pairs.drop_first(), identity)
    }
}

/// The address the topology report assigns to an identity: the preferred IP
/// of the last reported node with that identity (a later report of the same
/// identity supersedes an earlier one), or nothing.
pub open spec fn spec_node_ip(nodes: Seq<NodeInfo>, identity: Seq<char>) -> Option<IpInfo>
    decreases nodes.len(),
{
    if nodes.len() == 0 {
        None
    } else if nodes.last().pubkey@ == identity && preferred_ip(nodes.last()) is Some {
        preferred_ip(nodes.last())
    } else {
        spec_node_ip(nodes.drop_last(), identity)
    }
}

fn clone_ip(ip: &IpInfo) -> (copy: IpInfo)
    ensures
        copy == *ip,
{
    IpInfo { text: ip.text.clone(), loopback: ip.loopback, unspecified: ip.unspecified }
}

fn preferred(node: &NodeInfo) -> (choice: Option<&IpInfo>)
    ensures
        match choice {
            Some(ip) => preferred_ip(*node) == Some(*ip),
            None => preferred_ip(*node) is None,
        },
{
    match &node.gossip {
        Some(ip) => Some(ip),
        None => match &node.tpu {
            Some(ip) => Some(ip),
            None => match &node.rpc {
                Some(ip) => Some(ip),
                None => match &node.tvu {
                    Some(ip) => Some(ip),
                    None => None,
                },
            },
        },
    }
}

/// A mapping from node identity to IP address, viewed as its sequence of
/// identity-IP pairs; `spec_get` over that view is the mapping the pairs
/// stand for.
pub struct IdentityIpMap {
    pairs: Vec<(String, IpInfo)>,
}

impl View for IdentityIpMap {
    type V = Seq<(String, IpInfo)>;

    closed spec fn view(&self) -> Seq<(String, IpInfo)> {
        self.pairs@
    }
}

impl IdentityIpMap {
    /// An empty mapping: no identity is bound.
    pub fn new() -> (map: IdentityIpMap)
        ensures
            map@ =~= Seq::<(String, IpInfo)>::empty(),
            forall|identity: Seq<char>| spec_get(map@, identity) is None,
    {
        IdentityIpMap { pairs: Vec::new() }
    }

    /// Binds an identity to an IP, superseding any earlier binding of the
    /// same identity and leaving every other identity unchanged.
    pub fn bind(&mut self, identity: String, ip: IpInfo)
        ensures
            forall|other: Seq<char>|
                spec_get(final(self)@, other) == if other == identity@ {
                    Some(ip)
                } else {
                    spec_get(old(self)@, other)
                },
    {
        self.pairs.insert(0, (identity, ip));
        proof {
            assert(self@.drop_first() =~= old(self)@);
        }
    }

    /// Looks up the IP bound to an identity, or nothing if the identity is
    /// unknown to the topology snapshot.
    pub fn get(&self, identity: &String) -> (found: Option<&IpInfo>)
        ensures
            match found {
                Some(ip) => spec_get(self@, identity@) == Some(*ip),
                None => spec_get(self@, identity@) is None,
            },
    {
        let n = self.pairs.len();
        proof {
            assert(self@.skip(0) =~= self@);
        }
        let mut i: usize = 0;
        while i < n
            invariant
                n == self.pairs@.len(),
                i <= n,
                self@ == self.pairs@,
                spec_get(self@, identity@) == spec_get(self@.skip(i as int), identity@),
            decreases n - i,
        {
            proof {
                assert(self@.skip(i as int)[0] == self@[i as int]);
                assert(self@.skip(i as int).drop_first() =~= self@.skip(i + 1));
            }
            if self.pairs[i].0 == *identity {
                return Some(&self.pairs[i].1);
            }
            i = i + 1;
        }
        proof {
            assert(self@.skip(n as int) =~= Seq::<(String, IpInfo)>::empty());
        }
        None
    }

    /// A copy of the mapping, pair for pair. Served to callers in place of
    /// the cache's own snapshot, which stays read-only.
    pub fn duplicate(&self) -> (copy: IdentityIpMap)
        ensures
            copy@ == self@,
    {
        let n = self.pairs.len();
        let mut pairs: Vec<(String, IpInfo)> = Vec::new();
        let mut i: usize = 0;
        while i < n
            invariant
                n == self.pairs@.len(),
                i <= n,
                pairs@ =~= self.pairs@.take(i as int),
            decreases n - i,
        {
            pairs.push((self.pairs[i].0.clone(), clone_ip(&self.pairs[i].1)));
            i = i + 1;
        }
        proof {
            assert(self.pairs@.take(n as int) =~= self.pairs@);
        }
        IdentityIpMap { pairs }
    }
}

/// Condenses a cluster topology report into the identity-to-IP mapping: per
/// node the preferred endpoint's IP, nodes without endpoints excluded, later
/// duplicates of an identity superseding earlier ones.
pub fn build_ip_by_identity(nodes: &Vec<NodeInfo>) -> (map: IdentityIpMap)
    ensures
        forall|identity: Seq<char>|
            #![trigger spec_get(map@, identity)]
            spec_get(map@, identity) == spec_node_ip(nodes@, identity),
{
    let n = nodes.len();
    let mut map = IdentityIpMap::new();
    proof {
        assert(nodes@.take(0) =~= Seq::<NodeInfo>::empty());
    }
    let mut i: usize = 0;
    while i < n
        invariant
            n == nodes@.len(),
            i <= n,
            forall|identity: Seq<char>|
                #![trigger spec_get(map@, identity)]
                spec_get(map@, identity) == spec_node_ip(nodes@.take(i as int), identity),
        decreases n - i,
    {
        proof {
            assert(nodes@.take(i + 1).drop_last() =~= nodes@.take(i as int));
            assert(nodes@.take(i + 1).last() == nodes@[i as int]);
        }
        match preferred(&nodes[i]) {
            Some(ip) => {
                let ip = clone_ip(ip);
                map.bind(nodes[i].pubkey.clone(), ip);
            },
            None => {},
        }
        i = i + 1;
    }
    proof {
        assert(nodes@.take(n as int) =~= nodes@);
    }
    map
}

/// A point-in-time snapshot of the cluster's identity-to-IP mapping, stamped
/// with the clock reading at which it was fetched.
pub struct ClusterIpSnapshot {
    pub fetched_at: u64,
    pub ip_by_identity: IdentityIpMap,
}

/// The TTL-bounded cache around the cluster topology: at most one snapshot,
/// replaced wholesale and never mutated in place. A failed refresh stores
/// nothing, so the prior snapshot stays intact for later calls.
pub struct ClusterIpCache {
    snapshot: Option<ClusterIpSnapshot>,
}

impl ClusterIpCache {
    /// The snapshot currently held, if any.
    pub closed spec fn spec_snapshot(self) -> Option<ClusterIpSnapshot> {
        self.snapshot
    }

    /// Whether a read at clock reading `now` may be served from the held
    /// snapshot: one exists and its age has not passed the TTL.
    pub open spec fn is_fresh(self, now: u64) -> bool {
        match self.spec_snapshot() {
            Some(snap) => now <= snap.fetched_at + CLUSTER_NODES_CACHE_TTL_SECS,
            None => false,
        }
    }

    /// An empty cache: the first read always asks for a fetch.
    pub fn new() -> (cache: ClusterIpCache)
        ensures
            cache.spec_snapshot() is None,
    {
        ClusterIpCache { snapshot: None }
    }

    /// Serves a copy of the held mapping while it is fresh at clock reading
    /// `now`; returns nothing exactly when a new fetch is due, leaving the
    /// held snapshot untouched.
    pub fn cached_if_fresh(&self, now: u64) -> (cached: Option<IdentityIpMap>)
        ensures
            cached is Some <==> self.is_fresh(now),
            match cached {
                Some(map) => map@ == self.spec_snapshot().unwrap().ip_by_identity@,
                None => true,
            },
    {
        match &self.snapshot {
            Some(snap) => {
                if now <= snap.fetched_at.saturating_add(CLUSTER_NODES_CACHE_TTL_SECS) {
                    Some(snap.ip_by_identity.duplicate())
                } else {
                    None
                }
            },
            None => None,
        }
    }

    /// Replaces the held snapshot wholesale with a mapping fetched at clock
    /// reading `now`. Called only after a fully successful fetch; a failed
    /// fetch never reaches this point, so readers never see a torn snapshot.
    pub fn store(&mut self, now: u64, ip_by_identity: IdentityIpMap)
        ensures
            final(self).spec_snapshot() == Some(
                ClusterIpSnapshot { fetched_at: now, ip_by_identity },
            ),
    {
        self.snapshot = Some(ClusterIpSnapshot { fetched_at: now, ip_by_identity });
    }
}

/// Cache freshness: a snapshot fetched at clock reading `t` still serves a
/// read any time up to `t + TTL`, and no longer serves one past `t + TTL`.
/// Together with the postcondition of `cached_if_fresh`, a read within the
/// TTL window returns the cached mapping without a fetch, and the first read
/// past it asks for exactly one new fetch.
pub proof fn lemma_cache_freshness(cache: ClusterIpCache, eps: u64)
    requires
        cache.spec_snapshot() is Some,
        0 < eps,
    ensures
        ({
            let t = cache.spec_snapshot().unwrap().fetched_at;
            &&& (eps <= CLUSTER_NODES_CACHE_TTL_SECS) ==> cache.is_fresh(
                (t + CLUSTER_NODES_CACHE_TTL_SECS - eps) as u64,
            )
            &&& (t + CLUSTER_NODES_CACHE_TTL_SECS + eps <= u64::MAX) ==> !cache.is_fresh(
                (t + CLUSTER_NODES_CACHE_TTL_SECS + eps) as u64,
            )
        }),
{
}

} // verus!
