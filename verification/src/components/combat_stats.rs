//! Combat stats: temporary during battle, derived from management stats.

use crate::bigrat::BigRat;
use vstd::prelude::*;

verus! {

#[derive(Debug, Clone, PartialEq)]
pub struct CurrentHp(pub BigRat);

#[derive(Debug, Clone, PartialEq)]
pub struct MaxHp(pub BigRat);

#[derive(Debug, Clone, PartialEq)]
pub struct CombatAttack(pub BigRat);

#[derive(Debug, Clone, PartialEq)]
pub struct CombatDefense(pub BigRat);

#[derive(Debug, Clone, PartialEq)]
pub struct CombatSpeed(pub BigRat);

/// Remaining milliseconds until this combatant's next attack fires;
/// clamped at zero, where the combatant is ready to attack.
#[derive(Debug, Clone, PartialEq)]
pub struct AttackCooldown(pub BigRat);

#[derive(Debug, Clone, PartialEq)]
pub struct ExpReward(pub BigRat);

/// Ordinal of the enemy: starts at 1 and increases on each respawn.
#[derive(Debug, Clone, PartialEq)]
pub struct EnemyNumber(pub u32);

} // verus!
