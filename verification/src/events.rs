//! Combat events: explicit in-process message lists collected during a tick
//! and drained by the next pass in the fixed pass order, keeping the passes
//! loosely coupled.

use crate::bigrat::BigRat;
use vstd::prelude::*;

verus! {

/// Control signal that starts (or retries) a dungeon run.
#[derive(Debug, Clone, PartialEq, Eq)]
pub struct CombatStartEvent {
    pub is_retry: bool,
}

#[derive(Debug, Clone, PartialEq)]
pub struct CombatEndEvent {
    pub winner: CombatWinner,
    pub exp_gained: BigRat,
}

/// The player's hit points crossed to non-positive this tick.
#[derive(Debug, Clone, PartialEq, Eq)]
pub struct PlayerDeathEvent {}

/// An enemy's hit points crossed to non-positive this tick.
#[derive(Debug, Clone, PartialEq)]
pub struct EnemyDeathEvent {
    pub enemy_number: u32,
    pub exp_reward: BigRat,
}

#[derive(Debug, Clone, PartialEq)]
pub struct ExpGainEvent {
    pub amount: BigRat,
}

#[derive(Debug, Clone, PartialEq, Eq)]
pub struct NextEnemySpawnEvent {
    pub enemy_number: u32,
}

#[derive(Debug, Clone, PartialEq, Eq, Structural)]
pub struct TurnStartEvent {
    pub attacker: TurnAttacker,
}

/// An attack intent fired by the scheduler, to be resolved against the
/// target's current hit points.
#[derive(Debug, Clone, PartialEq)]
pub struct AttackEvent {
    pub attacker: TurnAttacker,
    pub target: TurnAttacker,
    pub damage: BigRat,
}

#[derive(Debug, Clone, PartialEq, Eq, Structural)]
pub struct DeathEvent {
    pub entity_type: DeathEntityType,
}

#[derive(Debug, Clone, Copy, PartialEq, Eq, Structural)]
pub enum CombatWinner {
    Player,
    Enemy,
}

/// Which side an attack intent belongs to.
#[derive(Debug, Clone, Copy, PartialEq, Eq, Structural)]
pub enum TurnAttacker {
    Player,
    Enemy,
}

/// Which side a death signal names.
#[derive(Debug, Clone, Copy, PartialEq, Eq, Structural)]
pub enum DeathEntityType {
    Player,
    Enemy,
}

} // verus!
