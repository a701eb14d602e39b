//! The leader resolver and the geo-resolution pipeline.
//!
//! Given the values the host fetched from the network — the current slot, the
//! epoch's slot index, the leader schedule, and a topology snapshot served by
//! the cluster cache — this module decides which identity leads the slot and
//! which geographic label and region to report for it. Every decision is a
//! pure function of those inputs; the fetches themselves, and the warning the
//! operator sees when too many IPs miss the geo table, stay with the host.

use vstd::prelude::*;

use crate::cluster::IdentityIpMap;
use crate::cluster::IpInfo;
use crate::cluster::spec_get;
use crate::geo_table::GeoTable;
use crate::geo_table::spec_lookup;
use crate::region::Region;
use crate::region::region_for_spec;
use crate::region::region_for_unknown_ip;

verus! {

/// Once more than this many resolutions have fallen back on an unknown IP,
/// the operator is warned that the geo table likely needs regenerating.
pub const UNKNOWN_IP_WARN_THRESHOLD: u64 = 10;

/// The sentinel geo label reported when the leader's location is unknown.
pub open spec fn unknown_geo() -> Seq<char> {
    "UNKNOWN"@
}

/// The resolution engine. Its `run` method is the whole pipeline from fetched
/// inputs to the reported result.
pub struct Geo;

/// The request payload of a resolution: the operation takes no parameters.
pub struct Input {}

/// The result of one resolution: the slot, the identity leading it, the
/// leader's best-known geographic label, and the region closest to it.
#[derive(Debug)]
pub struct Output {
    pub slot: u64,
    pub leader: String,
    pub leader_geo: String,
    pub closest_region: Region,
}

/// How a resolution fails. Fetch failures of the host's transport never reach
/// this engine; these are the failures the engine itself decides.
#[derive(Clone, Copy, Debug, PartialEq, Eq, Structural)]
pub enum GeoError {
    /// The external source reported no leader schedule for the slot.
    ScheduleUnavailable { slot: u64 },
    /// The schedule has no identity covering the slot index.
    LeaderNotFound { slot: u64, slot_index: u64 },
}

/// Whether a slot-index set contains the given index.
pub open spec fn slots_contain(slots: Seq<u64>, slot_index: u64) -> bool {
    exists|i: int| 0 <= i < slots.len() && slots[i] == slot_index
}

/// The leader of a slot index under a schedule: the identity of the first
/// entry whose slot-index set contains the index, or nothing. The schedule
/// format keeps slot-index sets disjoint across identities within an epoch,
/// so under correct input the first match is the only match.
pub open spec fn spec_resolve_leader(
    schedule: Seq<(String, Vec<u64>)>,
    slot_index: u64,
) -> Option<Seq<char>>
    decreases schedule.len(),
{
    if schedule.len() == 0 {
        None
    } else if slots_contain(schedule[0].1@, slot_index) {
        Some(schedule[0].0@)
    } else {
        spec_resolve_leader(schedule.drop_first(), slot_index)
    }
}

/// Leader selection succeeds exactly when some schedule entry covers the
/// slot index: a resolution selects a leader or fails, never silently
/// defaults.
pub proof fn lemma_leader_selection_iff(schedule: Seq<(String, Vec<u64>)>, slot_index: u64)
    ensures
        spec_resolve_leader(schedule, slot_index) is Some <==> exists|i: int|
            0 <= i < schedule.len() && slots_contain(schedule[i].1@, slot_index),
    decreases schedule.len(),
{
    if schedule.len() == 0 {
    } else if slots_contain(schedule[0].1@, slot_index) {
        assert(0 <= 0 < schedule.len() && slots_contain(schedule[0].1@, slot_index));
    } else {
        let tail = schedule.drop_first();
        lemma_leader_selection_iff(tail, slot_index);
        if spec_resolve_leader(schedule, slot_index) is Some {
            let picked = choose|i: int|
                0 <= i < tail.len() && slots_contain(tail[i].1@, slot_index);
            assert(tail[picked] == schedule[picked + 1]);
            assert(0 <= picked + 1 < schedule.len() && slots_contain(
                schedule[picked + 1].1@,
                slot_index,
            ));
        }
        if exists|i: int| 0 <= i < schedule.len() && slots_contain(schedule[i].1@, slot_index) {
            let covering = choose|i: int|
                0 <= i < schedule.len() && slots_contain(schedule[i].1@, slot_index);
            assert(covering > 0);
            assert(tail[covering - 1] == schedule[covering]);
            assert(0 <= covering - 1 < tail.len() && slots_contain(
                tail[covering - 1].1@,
                slot_index,
            ));
        }
    }
}

/// The selected leader is the identity of the first schedule entry covering
/// the slot index. Slot-index sets are disjoint across identities under
/// correct input, so the first covering entry is then the only one: exactly
/// one leader is selected.
pub proof fn lemma_leader_first_match(
    schedule: Seq<(String, Vec<u64>)>,
    slot_index: u64,
    i: int,
)
    requires
        0 <= i < schedule.len(),
        slots_contain(schedule[i].1@, slot_index),
        forall|j: int| 0 <= j < i ==> !slots_contain(schedule[j].1@, slot_index),
    ensures
        spec_resolve_leader(schedule, slot_index) == Some(schedule[i].0@),
    decreases i,
{
    if i > 0 {
        let tail = schedule.drop_first();
        assert(tail[i - 1] == schedule[i]);
        assert forall|j: int| 0 <= j < i - 1 implies !slots_contain(tail[j].1@, slot_index) by {
            assert(tail[j] == schedule[j + 1]);
        }
        lemma_leader_first_match(tail, slot_index, i - 1);
    }
}

/// A counter value after one more event, saturating at the top of `u64` so
/// that it never wraps back down: the counter is monotonic.
pub open spec fn bumped(count: u64) -> u64 {
    if count == u64::MAX {
        u64::MAX
    } else {
        (count + 1) as u64
    }
}

/// The process-wide monotonic count of resolutions that found the leader's IP
/// missing from the geo lookup table. An operator signal, never reset.
pub struct MissCounter {
    count: u64,
}

impl MissCounter {
    /// The number of misses recorded so far.
    pub closed spec fn spec_count(self) -> u64 {
        self.count
    }

    /// A fresh counter: no miss recorded yet.
    pub fn new() -> (counter: MissCounter)
        ensures
            counter.spec_count() == 0,
    {
        MissCounter { count: 0 }
    }

    /// Reads the count.
    pub fn count(&self) -> (count: u64)
        ensures
            count == self.spec_count(),
    {
        self.count
    }

    /// Records one more geo-table miss.
    pub fn record_miss(&mut self)
        ensures
            final(self).spec_count() == bumped(old(self).spec_count()),
    {
        if self.count < u64::MAX {
            self.count = self.count + 1;
        }
    }

    /// Whether the operator should be warned that the geo table has gone
    /// stale: true exactly when the miss count has passed the threshold.
    /// The warning itself is informational; it never changes a result.
    pub fn warn_unknown_ip_threshold_if_needed(&self) -> (warn: bool)
        ensures
            warn == (self.spec_count() > UNKNOWN_IP_WARN_THRESHOLD),
    {
        self.count > UNKNOWN_IP_WARN_THRESHOLD
    }
}

fn slots_contain_exec(slots: &Vec<u64>, slot_index: u64) -> (contained: bool)
    ensures
        contained == slots_contain(slots@, slot_index),
{
    let n = slots.len();
    let mut i: usize = 0;
    while i < n
        invariant
            n == slots@.len(),
            i <= n,
            forall|k: int| 0 <= k < i ==> slots@[k] != slot_index,
        decreases n - i,
    {
        if slots[i] == slot_index {
            return true;
        }
        i = i + 1;
    }
    false
}

/// Determines which identity leads the given slot: the first schedule entry
/// whose slot-index set contains `slot_index`. Fails, never silently
/// defaults, when no entry covers the index — a wrong leader identity would
/// corrupt all downstream geo resolution. The error carries the slot and the
/// slot index to aid diagnosis of schedule-format mismatches.
pub fn resolve_leader(
    slot: u64,
    slot_index: u64,
    schedule: &Vec<(String, Vec<u64>)>,
) -> (resolved: Result<String, GeoError>)
    ensures
        match resolved {
            Ok(leader) => spec_resolve_leader(schedule@, slot_index) == Some(leader@),
            Err(e) => {
                &&& spec_resolve_leader(schedule@, slot_index) is None
                &&& e == (GeoError::LeaderNotFound { slot, slot_index })
            },
        },
{
    let n = schedule.len();
    proof {
        assert(schedule@.skip(0) =~= schedule@);
    }
    let mut i: usize = 0;
    while i < n
        invariant
            n == schedule@.len(),
            i <= n,
            spec_resolve_leader(schedule@, slot_index) == spec_resolve_leader(
                schedule@.skip(i as int),
                slot_index,
            ),
        decreases n - i,
    {
        proof {
            assert(schedule@.skip(i as int)[0] == schedule@[i as int]);
            assert(schedule@.skip(i as int).drop_first() =~= schedule@.skip(i + 1));
        }
        if slots_contain_exec(&schedule[i].1, slot_index) {
            return Ok(schedule[i].0.clone());
        }
        i = i + 1;
    }
    proof {
        assert(schedule@.skip(n as int) =~= Seq::<(String, Vec<u64>)>::empty());
    }
    Err(GeoError::LeaderNotFound { slot, slot_index })
}

/// The geo label, closest region, and miss verdict for a resolved leader.
///
/// If the topology snapshot does not know the leader's IP, or the IP is a
/// loopback or unspecified address, the result is the fixed fallback pair:
/// the sentinel label and the Tokyo region, with no miss recorded. If the IP
/// is known but absent from the geo table, the result is the sentinel label
/// with the deterministic fallback region, and that counts as a miss.
pub open spec fn spec_leader_geo(
    leader: Seq<char>,
    ips: Seq<(String, IpInfo)>,
    table: Seq<crate::geo_table::GeoEntry>,
) -> (Seq<char>, Region, bool) {
    match spec_get(ips, leader) {
        None => (unknown_geo(), Region::Tokyo, false),
        Some(ip) => {
            if ip.loopback || ip.unspecified {
                (unknown_geo(), Region::Tokyo, false)
            } else {
                match spec_lookup(table, ip.text@) {
                    Some(entry) => (entry.geo@, entry.closest_region, false),
                    None => (unknown_geo(), region_for_spec(ip.text@), true),
                }
            }
        },
    }
}

/// Resolves the geographic label and closest region for a leader identity,
/// recording a miss on the counter exactly when the leader's IP is known to
/// the topology but absent from the geo table. Never fails: partial geo
/// information is deliberately preferred over failing the whole request.
pub fn geo_for_leader(
    leader: &String,
    ip_by_identity: &IdentityIpMap,
    table: &GeoTable,
    misses: &mut MissCounter,
) -> (geo: (String, Region))
    ensures
        ({
            let (label, region, miss) = spec_leader_geo(leader@, ip_by_identity@, table@);
            &&& geo.0@ == label
            &&& geo.1 == region
            &&& final(misses).spec_count() == if miss {
                bumped(old(misses).spec_count())
            } else {
                old(misses).spec_count()
            }
        }),
{
    match ip_by_identity.get(leader) {
        None => ("UNKNOWN".to_owned(), Region::Tokyo),
        Some(ip) => {
            if ip.loopback || ip.unspecified {
                ("UNKNOWN".to_owned(), Region::Tokyo)
            } else {
                match table.lookup(&ip.text) {
                    Some(entry) => (entry.geo.clone(), entry.closest_region),
                    None => {
                        let region = region_for_unknown_ip(ip.text.as_str());
                        misses.record_miss();
                        ("UNKNOWN".to_owned(), region)
                    },
                }
            }
        },
    }
}

impl Geo {
    /// The whole resolution pipeline on fetched inputs: resolve the slot's
    /// leader from the schedule, then its geo label and closest region from
    /// the topology snapshot and the geo table.
    ///
    /// Fails exactly when the schedule is absent (naming the slot) or when no
    /// schedule entry covers the slot index; the miss counter is untouched on
    /// failure. On success the output carries the slot, the resolved leader,
    /// and the leader's geo pair, and the counter records exactly the misses
    /// of this resolution.
    pub fn run(
        slot: u64,
        slot_index: u64,
        schedule: Option<&Vec<(String, Vec<u64>)>>,
        ip_by_identity: &IdentityIpMap,
        table: &GeoTable,
        misses: &mut MissCounter,
    ) -> (outcome: Result<Output, GeoError>)
        ensures
            match outcome {
                Ok(out) => {
                    &&& schedule is Some
                    &&& spec_resolve_leader(schedule.unwrap()@, slot_index) == Some(out.leader@)
                    &&& out.slot == slot
                    &&& ({
                        let (label, region, miss) = spec_leader_geo(
                            out.leader@,
                            ip_by_identity@,
                            table@,
                        );
                        &&& out.leader_geo@ == label
                        &&& out.closest_region == region
                        &&& final(misses).spec_count() == if miss {
                            bumped(old(misses).spec_count())
                        } else {
                            old(misses).spec_count()
                        }
                    })
                },
                Err(GeoError::ScheduleUnavailable { slot: named }) => {
                    &&& named == slot
                    &&& schedule is None
                    &&& *final(misses) == *old(misses)
                },
                Err(GeoError::LeaderNotFound { slot: named, slot_index: named_index }) => {
                    &&& named == slot
                    &&& named_index == slot_index
                    &&& schedule is Some
                    &&& spec_resolve_leader(schedule.unwrap()@, slot_index) is None
                    &&& *final(misses) == *old(misses)
                },
            },
    {
        let schedule = match schedule {
            Some(entries) => entries,
            None => {
                return Err(GeoError::ScheduleUnavailable { slot });
            },
        };
        let leader = match resolve_leader(slot, slot_index, schedule) {
            Ok(leader) => leader,
            Err(e) => {
                return Err(e);
            },
        };
        let (leader_geo, closest_region) = geo_for_leader(&leader, ip_by_identity, table, misses);
        Ok(Output { slot, leader, leader_geo, closest_region })
    }
}

} // verus!
