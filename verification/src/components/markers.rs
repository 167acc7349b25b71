//! Marker types for the two combatant kinds, and the process-wide state
//! records: combat gate flags, progression, and presentation state.

use vstd::prelude::*;

verus! {

/// Marker for the player side of a combat.
#[derive(Debug, Clone, PartialEq, Eq)]
pub struct Player;

/// Marker for the enemy side of a combat.
#[derive(Debug, Clone, PartialEq, Eq)]
pub struct Enemy;

/// Gate flags for the combat loop: the scheduler and attack passes are
/// inert unless `in_dungeon` is set and `is_game_over` is clear.
#[derive(Debug, Clone, PartialEq, Eq)]
pub struct CombatState {
    pub is_game_over: bool,
    pub in_dungeon: bool,
}

/// Progression counters, mutated only by the death handlers.
#[derive(Debug, Clone, PartialEq, Eq)]
pub struct GameProgress {
    pub current_enemy_number: u32,
    pub has_died_once: bool,
}

/// Presentation state consumed by an (unverified) interface shell.
#[derive(Debug, Clone, PartialEq, Eq)]
pub struct UIState {
    pub current_tab: GameTab,
}

/// Settings of the automatic-retry convenience feature.
#[derive(Debug, Clone, PartialEq, Eq)]
pub struct AutomationConfig {
    pub auto_retry_unlocked: bool,
    pub auto_retry_enabled: bool,
}

#[derive(Debug, Clone, Copy, PartialEq, Eq)]
pub enum GameTab {
    Combat,
    Rebirth,
    Automation,
}

} // verus!
