//! The whole in-memory game state as one explicit record, passed by
//! reference through each pass of the tick: plain aggregated records per
//! entity kind instead of a framework's type-erased storage.

use crate::bigrat::{rat_grow, rat_le, BigRat, Rat};
use crate::components::combat_stats::{
    AttackCooldown, CombatAttack, CombatDefense, CombatSpeed, CurrentHp, EnemyNumber, ExpReward,
    MaxHp,
};
use crate::components::management_stats::{
    BaseAttack, BaseDefense, BaseHp, BaseSpeed, Experience, Level, RebirthPoints,
};
use crate::components::markers::{CombatState, GameProgress};
use crate::components::upgradeable_stats::UpgradeableStatBundle;
use vstd::prelude::*;

verus! {

/// The player's persistent management side.
#[derive(Debug, Clone, PartialEq)]
pub struct PlayerEntity {
    pub base_hp: BaseHp,
    pub base_attack: BaseAttack,
    pub base_defense: BaseDefense,
    pub base_speed: BaseSpeed,
    pub experience: Experience,
    pub level: Level,
    pub rebirth_points: RebirthPoints,
}

impl PlayerEntity {
    pub open spec fn wf(&self) -> bool {
        &&& self.base_hp.0.wf()
        &&& self.base_attack.0.wf()
        &&& self.base_defense.0.wf()
        &&& self.base_speed.0.wf()
        &&& self.base_speed.0@.n > 0
        &&& self.experience.0.wf()
        &&& self.rebirth_points.0.wf()
    }
}

/// The live combat side of one combatant.
#[derive(Debug, Clone, PartialEq)]
pub struct CombatantStats {
    pub current_hp: CurrentHp,
    pub max_hp: MaxHp,
    pub attack: CombatAttack,
    pub defense: CombatDefense,
    pub speed: CombatSpeed,
    pub cooldown: AttackCooldown,
}

impl CombatantStats {
    /// Hit points stay within `[0, maxHp]` (the lower bound is structural:
    /// values are non-negative rationals), the speed is positive so the
    /// attack period `1000 / speed` is defined, and the cooldown is a
    /// well-formed non-negative amount of milliseconds.
    pub open spec fn wf(&self) -> bool {
        &&& self.current_hp.0.wf()
        &&& self.max_hp.0.wf()
        &&& self.attack.0.wf()
        &&& self.defense.0.wf()
        &&& self.speed.0.wf()
        &&& self.speed.0@.n > 0
        &&& self.cooldown.0.wf()
        &&& rat_le(self.current_hp.0@, self.max_hp.0@)
    }
}

/// A live enemy: combat stats plus its ordinal and experience reward.
#[derive(Debug, Clone, PartialEq)]
pub struct EnemyEntity {
    pub stats: CombatantStats,
    pub exp_reward: ExpReward,
    pub enemy_number: EnemyNumber,
}

impl EnemyEntity {
    pub open spec fn wf(&self) -> bool {
        &&& self.stats.wf()
        &&& self.exp_reward.0.wf()
    }
}

/// Conditions every live upgradeable stat satisfies: well-formed values,
/// positive base value and multiplier, positive cost, and a cost multiplier
/// of at least one, so costs never shrink.
pub open spec fn bundle_wf(b: UpgradeableStatBundle) -> bool {
    &&& b.current_value.0.wf()
    &&& b.current_value.0@.n > 0
    &&& b.base_value.0.wf()
    &&& b.base_value.0@.n > 0
    &&& b.upgrade_cost.0.wf()
    &&& b.upgrade_cost.0@.n > 0
    &&& b.upgrade_multiplier.0.wf()
    &&& b.upgrade_multiplier.0@.n > 0
    &&& b.cost_multiplier.0.wf()
    &&& b.cost_multiplier.0@.n >= b.cost_multiplier.0@.d
}

/// The standing relation of one upgradeable stat:
/// `currentValue == baseValue * upgradeMultiplier^level`, exactly.
pub open spec fn bundle_invariant(b: UpgradeableStatBundle) -> bool {
    b.current_value.0@ == rat_grow(b.base_value.0@, b.upgrade_multiplier.0@, b.level.0 as nat)
}

/// The four upgradeable stats, one record per upgradable attribute.
#[derive(Debug, Clone, PartialEq)]
pub struct UpgradeSet {
    pub hp: UpgradeableStatBundle,
    pub attack: UpgradeableStatBundle,
    pub defense: UpgradeableStatBundle,
    pub speed: UpgradeableStatBundle,
}

impl UpgradeSet {
    pub open spec fn wf(&self) -> bool {
        &&& bundle_wf(self.hp)
        &&& bundle_wf(self.attack)
        &&& bundle_wf(self.defense)
        &&& bundle_wf(self.speed)
    }

    /// The upgrade invariant holds of every stat.
    pub open spec fn invariant_holds(&self) -> bool {
        &&& bundle_invariant(self.hp)
        &&& bundle_invariant(self.attack)
        &&& bundle_invariant(self.defense)
        &&& bundle_invariant(self.speed)
    }
}

/// The single in-memory game state: exactly one (optional) live player,
/// at most one live enemy, the player's upgradeable stats, and the
/// process-wide flags and counters.
#[derive(Debug, Clone, PartialEq)]
pub struct GameWorld {
    pub combat_state: CombatState,
    pub progress: GameProgress,
    pub player: Option<PlayerEntity>,
    pub player_combat: Option<CombatantStats>,
    pub enemy: Option<EnemyEntity>,
    pub upgrades: Option<UpgradeSet>,
}

impl GameWorld {
    pub open spec fn wf(&self) -> bool {
        &&& (self.player is Some ==> self.player->Some_0.wf())
        &&& (self.player_combat is Some ==> self.player_combat->Some_0.wf())
        &&& (self.enemy is Some ==> self.enemy->Some_0.wf())
        &&& (self.upgrades is Some ==> self.upgrades->Some_0.wf())
        &&& self.progress.current_enemy_number >= 1
    }

    /// The combat gate: scheduler and attack passes run only in a dungeon
    /// and only while the game is not over.
    pub open spec fn combat_active(&self) -> bool {
        self.combat_state.in_dungeon && !self.combat_state.is_game_over
    }

    /// The state a process starts in: no entities yet, combat inactive,
    /// and the progression at enemy 1.
    pub fn new() -> (r: GameWorld)
        ensures
            r.wf(),
            !r.combat_state.is_game_over,
            !r.combat_state.in_dungeon,
            r.progress.current_enemy_number == 1,
            !r.progress.has_died_once,
            r.player is None,
            r.player_combat is None,
            r.enemy is None,
            r.upgrades is None,
    {
        GameWorld {
            combat_state: CombatState { is_game_over: false, in_dungeon: false },
            progress: GameProgress { current_enemy_number: 1, has_died_once: false },
            player: None,
            player_combat: None,
            enemy: None,
            upgrades: None,
        }
    }
}

} // verus!
