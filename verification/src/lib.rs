//! Leader geolocation resolution engine.
//!
//! Resolves the current network leader from a slot and a leader schedule,
//! maps the leader to its best-known geographic label through a static
//! IP-to-geo table and a TTL-bounded node-to-IP cache, and falls back to a
//! deterministic, load-balancing region choice for unmapped IPs.
//!
//! External I/O (the RPC transport that fetches slots, epoch info, schedules
//! and cluster topology) stays outside this crate; the engine works on the
//! plain values those fetches produce.

pub mod cluster;
pub mod geo_table;
pub mod hash;
pub mod region;
pub mod resolve;

pub use cluster::ClusterIpCache;
pub use cluster::ClusterIpSnapshot;
pub use cluster::IdentityIpMap;
pub use cluster::IpInfo;
pub use cluster::NodeInfo;
pub use cluster::build_ip_by_identity;
pub use geo_table::GeoEntry;
pub use geo_table::GeoTable;
pub use geo_table::GeoTableError;
pub use hash::fnv1a64;
pub use region::Region;
pub use region::region_for_unknown_ip;
pub use resolve::Geo;
pub use resolve::GeoError;
pub use resolve::Input;
pub use resolve::MissCounter;
pub use resolve::Output;
pub use resolve::geo_for_leader;
pub use resolve::resolve_leader;
