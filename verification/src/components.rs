//! Plain data records for the two entity kinds and the process-wide state,
//! mirroring an entity/component data model: each attribute is its own
//! small wrapper type, and entities are bundles of them.

pub mod combat_stats;
pub mod management_stats;
pub mod markers;
pub mod upgradeable_stats;
