use geo::Geo;
use geo::GeoEntry;
use geo::GeoError;
use geo::GeoTable;
use geo::IdentityIpMap;
use geo::IpInfo;
use geo::MissCounter;
use geo::NodeInfo;
use geo::Region;
use geo::build_ip_by_identity;
use geo::resolve_leader;
use geo::region_for_unknown_ip;

fn entry(ip: &str, geo: &str, closest_region: Region) -> GeoEntry {
    GeoEntry { ip: ip.to_string(), geo: geo.to_string(), closest_region }
}

fn ip(text: &str) -> IpInfo {
    IpInfo { text: text.to_string(), loopback: false, unspecified: false }
}

fn node(pubkey: &str, gossip: Option<IpInfo>) -> NodeInfo {
    NodeInfo { pubkey: pubkey.to_string(), gossip, tpu: None, rpc: None, tvu: None }
}

fn sample_table() -> GeoTable {
    GeoTable::from_entries(vec![
        entry("203.0.113.5", "Frankfurt-DC1", Region::Frankfurt),
        entry("198.51.100.7", "Dubai-DC2", Region::Dubai),
    ])
    .unwrap()
}

#[test]
fn resolve_leader_picks_covering_entry() {
    let schedule = vec![
        ("A".to_string(), vec![5u64, 6]),
        ("B".to_string(), vec![7u64]),
    ];
    let resolved = resolve_leader(100, 6, &schedule);
    assert_eq!(resolved.unwrap(), "A".to_string());
}

#[test]
fn resolve_leader_fails_when_no_entry_covers_index() {
    let schedule = vec![
        ("A".to_string(), vec![5u64, 6]),
        ("B".to_string(), vec![7u64]),
    ];
    let resolved = resolve_leader(100, 9, &schedule);
    assert_eq!(resolved.unwrap_err(), GeoError::LeaderNotFound { slot: 100, slot_index: 9 });
}

#[test]
fn resolve_leader_takes_first_match_in_order() {
    let schedule = vec![
        ("B".to_string(), vec![7u64]),
        ("A".to_string(), vec![6u64]),
        ("C".to_string(), vec![6u64]),
    ];
    let resolved = resolve_leader(1, 6, &schedule);
    assert_eq!(resolved.unwrap(), "A".to_string());
}

#[test]
fn end_to_end_known_ip() {
    let table = sample_table();
    let schedule = vec![("LeaderX".to_string(), vec![6u64])];
    let nodes = vec![node("LeaderX", Some(ip("203.0.113.5")))];
    let ip_by_identity = build_ip_by_identity(&nodes);
    let mut misses = MissCounter::new();

    let out = Geo::run(100, 6, Some(&schedule), &ip_by_identity, &table, &mut misses).unwrap();
    assert_eq!(out.slot, 100);
    assert_eq!(out.leader, "LeaderX".to_string());
    assert_eq!(out.leader_geo, "Frankfurt-DC1".to_string());
    assert_eq!(out.closest_region, Region::Frankfurt);
    assert_eq!(misses.count(), 0);
}

#[test]
fn end_to_end_unknown_ip_falls_back_and_counts_one_miss() {
    // Same scenario, but the geo table has no entry for the leader's IP.
    let table = GeoTable::from_entries(vec![
        entry("198.51.100.7", "Dubai-DC2", Region::Dubai),
    ])
    .unwrap();
    let schedule = vec![("LeaderX".to_string(), vec![6u64])];
    let nodes = vec![node("LeaderX", Some(ip("203.0.113.5")))];
    let ip_by_identity = build_ip_by_identity(&nodes);
    let mut misses = MissCounter::new();

    let out = Geo::run(100, 6, Some(&schedule), &ip_by_identity, &table, &mut misses).unwrap();
    assert_eq!(out.leader_geo, "UNKNOWN".to_string());
    assert_eq!(out.closest_region, region_for_unknown_ip("203.0.113.5"));
    assert_eq!(misses.count(), 1);
}

#[test]
fn end_to_end_missing_topology_uses_fixed_default() {
    let table = sample_table();
    let schedule = vec![("LeaderX".to_string(), vec![6u64])];
    // The topology has no entry for the resolved leader.
    let nodes = vec![node("SomeoneElse", Some(ip("198.51.100.7")))];
    let ip_by_identity = build_ip_by_identity(&nodes);
    let mut misses = MissCounter::new();

    let out = Geo::run(100, 6, Some(&schedule), &ip_by_identity, &table, &mut misses).unwrap();
    assert_eq!(out.leader_geo, "UNKNOWN".to_string());
    assert_eq!(out.closest_region, Region::Tokyo);
    assert_eq!(misses.count(), 0);
}

#[test]
fn end_to_end_loopback_ip_uses_fixed_default() {
    let table = sample_table();
    let schedule = vec![("LeaderX".to_string(), vec![6u64])];
    let loopback = IpInfo { text: "127.0.0.1".to_string(), loopback: true, unspecified: false };
    let nodes = vec![node("LeaderX", Some(loopback))];
    let ip_by_identity = build_ip_by_identity(&nodes);
    let mut misses = MissCounter::new();

    let out = Geo::run(100, 6, Some(&schedule), &ip_by_identity, &table, &mut misses).unwrap();
    assert_eq!(out.leader_geo, "UNKNOWN".to_string());
    assert_eq!(out.closest_region, Region::Tokyo);
    assert_eq!(misses.count(), 0);
}

#[test]
fn end_to_end_schedule_unavailable_fails_naming_the_slot() {
    let table = sample_table();
    let ip_by_identity = IdentityIpMap::new();
    let mut misses = MissCounter::new();

    let outcome = Geo::run(100, 6, None, &ip_by_identity, &table, &mut misses);
    assert_eq!(outcome.unwrap_err(), GeoError::ScheduleUnavailable { slot: 100 });
    assert_eq!(misses.count(), 0);
}

#[test]
fn miss_counter_warns_only_past_threshold() {
    let mut misses = MissCounter::new();
    for _ in 0..10 {
        misses.record_miss();
    }
    assert_eq!(misses.count(), 10);
    assert!(!misses.warn_unknown_ip_threshold_if_needed());
    misses.record_miss();
    assert_eq!(misses.count(), 11);
    assert!(misses.warn_unknown_ip_threshold_if_needed());
}
