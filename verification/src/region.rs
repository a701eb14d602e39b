//! The closed set of region labels and the deterministic fallback selector
//! that assigns an unmapped IP string to one of them.

use vstd::prelude::*;

use crate::hash::{fnv1a64, fnv1a_spec};

verus! {

/// Closed enumeration of the four regions a leader can be routed towards.
/// A pure label: no ordering semantics.
#[derive(Clone, Copy, Debug, PartialEq, Eq, Structural)]
pub enum Region {
    Frankfurt,
    Dubai,
    NewYork,
    Tokyo,
}

/// The region selected for a hash value: the hash modulo 4, mapped in a fixed
/// order over the four regions.
pub open spec fn region_of_hash(hash: u64) -> Region {
    if hash % 4 == 0 {
        Region::Frankfurt
    } else if hash % 4 == 1 {
        Region::Dubai
    } else if hash % 4 == 2 {
        Region::NewYork
    } else {
        Region::Tokyo
    }
}

/// The fallback region for an IP string: the FNV-1a hash of its UTF-8 bytes,
/// modulo 4, mapped over the four regions.
pub open spec fn region_for_spec(ip: Seq<char>) -> Region {
    region_of_hash(fnv1a_spec(vstd::utf8::encode_utf8(ip)))
}

/// Assigns an IP string with no geo-table entry to one of the four regions.
///
/// The choice is a pure function of the IP string (same IP, same region, in
/// every process), and spreads uniformly distributed IPs across the regions.
/// The balancing heuristic is provisional: capacity-aware logic may replace
/// it without touching the rest of the engine.
pub fn region_for_unknown_ip(ip: &str) -> (region: Region)
    ensures
        region == region_for_spec(ip@),
{
    let hash = fnv1a64(ip.as_bytes());
    match hash % 4 {
        0 => Region::Frankfurt,
        1 => Region::Dubai,
        2 => Region::NewYork,
        _ => Region::Tokyo,
    }
}

/// The fallback selector is deterministic: equal IP strings always map to
/// equal regions. Together with the postcondition of `region_for_unknown_ip`,
/// any two calls on identical input return identical output.
pub proof fn lemma_region_for_deterministic(ip1: Seq<char>, ip2: Seq<char>)
    requires
        ip1 == ip2,
    ensures
        region_for_spec(ip1) == region_for_spec(ip2),
{
}

/// The fallback selector is total over the closed set of four regions: every
/// IP string maps to exactly one of them.
pub proof fn lemma_region_for_total(ip: Seq<char>)
    ensures
        region_for_spec(ip) == Region::Frankfurt || region_for_spec(ip) == Region::Dubai
            || region_for_spec(ip) == Region::NewYork || region_for_spec(ip) == Region::Tokyo,
{
}

} // verus!
