//! Verified core of an idle role-playing game: a player automatically fights
//! successively stronger enemies, earns experience, spends it greedily on
//! permanent stat upgrades, and on death is reborn with a multiplicative bonus.
//!
//! Stat magnitudes grow without bound over long idle sessions, so every value
//! is held in an exact arbitrary-precision rational (`bigrat::BigRat`) built
//! on a verified little-endian limb representation (`bignat::BigNat`).

pub mod bignat;
pub mod bigrat;
pub mod components;
pub mod events;
pub mod state;
pub mod systems;
pub mod tick;

use vstd::prelude::*;

verus! {

/// Initial configuration, read once at startup by the surrounding driver.
pub struct StartupConfig {
    pub level: u32,
    pub experience: u64,
    pub hp_level: u32,
    pub attack_level: u32,
    pub defense_level: u32,
    pub speed_level: u32,
    pub duration: u64,
}

} // verus!
