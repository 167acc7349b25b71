//! The passes of one tick, in their fixed order: initialization, cooldown
//! decay and attack scheduling, damage application, death handling and
//! progression, upgrade purchases, and stat synchronization.

pub mod combat_core;
pub mod combat_end;
pub mod combat_start;
pub mod initialization;
pub mod upgrades;
