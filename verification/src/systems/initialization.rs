//! Creation of the player, the enemies, and the reborn player: every base
//! stat is stated exactly, so the rebirth and enemy-scaling formulas are
//! part of the public contracts.

use crate::bigrat::{
    lemma_rat_grow_props, rat_add, rat_div, rat_from_nat, rat_grow, rat_mul, rat_one, BigRat, Rat,
};
use crate::components::combat_stats::{
    AttackCooldown, CombatAttack, CombatDefense, CombatSpeed, CurrentHp, EnemyNumber, ExpReward,
    MaxHp,
};
use crate::components::management_stats::{
    BaseAttack, BaseDefense, BaseHp, BaseSpeed, Experience, Level, RebirthPoints,
};
use crate::components::upgradeable_stats::UpgradeableStatBundle;
use crate::state::{CombatantStats, EnemyEntity, GameWorld, PlayerEntity, UpgradeSet};
use crate::StartupConfig;
use vstd::prelude::*;

verus! {

/// Base hit points of enemy number `n`: `20 * 1.5^n`.
pub open spec fn enemy_hp_spec(n: nat) -> Rat {
    rat_grow(rat_from_nat(20), Rat { n: 3, d: 2 }, n)
}

/// Base attack of enemy number `n`: `3 * 1.3^n`.
pub open spec fn enemy_attack_spec(n: nat) -> Rat {
    rat_grow(rat_from_nat(3), Rat { n: 13, d: 10 }, n)
}

/// Base defense of enemy number `n`: `2 * 1.3^n`.
pub open spec fn enemy_defense_spec(n: nat) -> Rat {
    rat_grow(rat_from_nat(2), Rat { n: 13, d: 10 }, n)
}

/// Speed of enemy number `n`: `0.8 * 1.1^n`.
pub open spec fn enemy_speed_spec(n: nat) -> Rat {
    rat_grow(Rat { n: 4, d: 5 }, Rat { n: 11, d: 10 }, n)
}

/// Experience reward of enemy number `n`: `5 * 1.15^n`.
pub open spec fn enemy_exp_spec(n: nat) -> Rat {
    rat_grow(rat_from_nat(5), Rat { n: 23, d: 20 }, n)
}

/// Rebirth bonus: `1 + points * 0.1`, multiplying every base stat.
pub open spec fn rebirth_bonus_spec(points: Rat) -> Rat {
    rat_add(rat_mul(points, Rat { n: 1, d: 10 }), rat_one())
}

/// Upgrade cost after rebirth: `10 / (1 + points * 0.05)`.
pub open spec fn rebirth_cost_spec(points: Rat) -> Rat {
    rat_div(rat_from_nat(10), rat_add(rat_mul(points, Rat { n: 1, d: 20 }), rat_one()))
}

/// The state one upgradeable stat is created in: level 0, current value
/// equal to the base value, the given cost, and the default multipliers
/// (value grows by 1.15 per level, cost by 1.3 per purchase).
pub open spec fn fresh_upgrade_entry(b: UpgradeableStatBundle, base: Rat, cost: Rat) -> bool {
    &&& b.current_value.0@ == base
    &&& b.base_value.0@ == base
    &&& b.level.0 == 0
    &&& b.upgrade_cost.0@ == cost
    &&& b.upgrade_multiplier.0@ == (Rat { n: 23, d: 20 })
    &&& b.cost_multiplier.0@ == (Rat { n: 13, d: 10 })
}

/// Build one upgradeable stat record with the default multipliers.
fn make_upgrade_entry(name: &str, base: BigRat, cost: BigRat, level: u32) -> (r:
    UpgradeableStatBundle)
    requires
        base.wf(),
        cost.wf(),
    ensures
        r.current_value.0@ == base@,
        r.current_value.0.wf(),
        r.base_value.0@ == base@,
        r.base_value.0.wf(),
        r.level.0 == level,
        r.upgrade_cost.0@ == cost@,
        r.upgrade_cost.0.wf(),
        r.upgrade_multiplier.0@ == (Rat { n: 23, d: 20 }),
        r.upgrade_multiplier.0.wf(),
        r.cost_multiplier.0@ == (Rat { n: 13, d: 10 }),
        r.cost_multiplier.0.wf(),
    {
    let mut bundle = UpgradeableStatBundle::new(
        name.to_string(),
        base,
        cost,
        BigRat::from_ratio(23, 20),
        BigRat::from_ratio(13, 10),
    );
    bundle.level.0 = level;
    bundle
}

/// Create the player and the four upgradeable stats from the startup
/// configuration: base stats 100/10/5/1, every upgrade cost 10, and the
/// configured starting experience and levels. Current values start equal
/// to the base values; the reactive recompute pass restores the upgrade
/// invariant for configured levels above zero.
pub fn player_init_system(config: &StartupConfig, world: &mut GameWorld)
    ensures
        final(world).player is Some,
        final(world).player->Some_0.wf(),
        final(world).player->Some_0.base_hp.0@ == rat_from_nat(100),
        final(world).player->Some_0.base_attack.0@ == rat_from_nat(10),
        final(world).player->Some_0.base_defense.0@ == rat_from_nat(5),
        final(world).player->Some_0.base_speed.0@ == rat_from_nat(1),
        final(world).player->Some_0.experience.0@ == rat_from_nat(config.experience as nat),
        final(world).player->Some_0.level.0 == config.level,
        final(world).player->Some_0.rebirth_points.0@ == (Rat { n: 0, d: 1 }),
        final(world).upgrades is Some,
        final(world).upgrades->Some_0.wf(),
        ({
            let u = final(world).upgrades->Some_0;
            &&& u.hp.base_value.0@ == rat_from_nat(100)
            &&& u.hp.current_value.0@ == rat_from_nat(100)
            &&& u.hp.level.0 == config.hp_level
            &&& u.attack.base_value.0@ == rat_from_nat(10)
            &&& u.attack.current_value.0@ == rat_from_nat(10)
            &&& u.attack.level.0 == config.attack_level
            &&& u.defense.base_value.0@ == rat_from_nat(5)
            &&& u.defense.current_value.0@ == rat_from_nat(5)
            &&& u.defense.level.0 == config.defense_level
            &&& u.speed.base_value.0@ == rat_from_nat(1)
            &&& u.speed.current_value.0@ == rat_from_nat(1)
            &&& u.speed.level.0 == config.speed_level
            &&& u.hp.upgrade_cost.0@ == rat_from_nat(10)
            &&& u.attack.upgrade_cost.0@ == rat_from_nat(10)
            &&& u.defense.upgrade_cost.0@ == rat_from_nat(10)
            &&& u.speed.upgrade_cost.0@ == rat_from_nat(10)
        }),
        final(world).combat_state == old(world).combat_state,
        final(world).progress == old(world).progress,
        final(world).player_combat == old(world).player_combat,
        final(world).enemy == old(world).enemy,
{
    let player = PlayerEntity {
        base_hp: BaseHp(BigRat::from_u64(100)),
        base_attack: BaseAttack(BigRat::from_u64(10)),
        base_defense: BaseDefense(BigRat::from_u64(5)),
        base_speed: BaseSpeed(BigRat::from_u64(1)),
        experience: Experience(BigRat::from_u64(config.experience)),
        level: Level(config.level),
        rebirth_points: RebirthPoints(BigRat::from_u64(0)),
    };
    let upgrades = UpgradeSet {
        hp: make_upgrade_entry("HP", BigRat::from_u64(100), BigRat::from_u64(10), config.hp_level),
        attack: make_upgrade_entry(
            "Attack",
            BigRat::from_u64(10),
            BigRat::from_u64(10),
            config.attack_level,
        ),
        defense: make_upgrade_entry(
            "Defense",
            BigRat::from_u64(5),
            BigRat::from_u64(10),
            config.defense_level,
        ),
        speed: make_upgrade_entry(
            "Speed",
            BigRat::from_u64(1),
            BigRat::from_u64(10),
            config.speed_level,
        ),
    };
    world.player = Some(player);
    world.upgrades = Some(upgrades);
}

/// Spawn the enemy with the given ordinal: every stat comes from the
/// growth function with the fixed seeds, hit points start full, and the
/// cooldown starts at zero (ready to attack immediately).
pub fn spawn_enemy(enemy_number: u32) -> (r: EnemyEntity)
    ensures
        r.wf(),
        r.stats.current_hp.0@ == enemy_hp_spec(enemy_number as nat),
        r.stats.max_hp.0@ == enemy_hp_spec(enemy_number as nat),
        r.stats.attack.0@ == enemy_attack_spec(enemy_number as nat),
        r.stats.defense.0@ == enemy_defense_spec(enemy_number as nat),
        r.stats.speed.0@ == enemy_speed_spec(enemy_number as nat),
        r.stats.cooldown.0@ == (Rat { n: 0, d: 1 }),
        r.exp_reward.0@ == enemy_exp_spec(enemy_number as nat),
        r.enemy_number.0 == enemy_number,
{
    let base_hp = crate::components::upgradeable_stats::calculate_exponential_growth(
        BigRat::from_u64(20),
        BigRat::from_ratio(3, 2),
        enemy_number,
    );
    let base_attack = crate::components::upgradeable_stats::calculate_exponential_growth(
        BigRat::from_u64(3),
        BigRat::from_ratio(13, 10),
        enemy_number,
    );
    let base_defense = crate::components::upgradeable_stats::calculate_exponential_growth(
        BigRat::from_u64(2),
        BigRat::from_ratio(13, 10),
        enemy_number,
    );
    let base_speed = crate::components::upgradeable_stats::calculate_exponential_growth(
        BigRat::from_ratio(4, 5),
        BigRat::from_ratio(11, 10),
        enemy_number,
    );
    let base_exp = crate::components::upgradeable_stats::calculate_exponential_growth(
        BigRat::from_u64(5),
        BigRat::from_ratio(23, 20),
        enemy_number,
    );
    proof {
        lemma_rat_grow_props(Rat { n: 4, d: 5 }, Rat { n: 11, d: 10 }, enemy_number as nat);
    }
    EnemyEntity {
        stats: CombatantStats {
            current_hp: CurrentHp(base_hp.dup()),
            max_hp: MaxHp(base_hp),
            attack: CombatAttack(base_attack),
            defense: CombatDefense(base_defense),
            speed: CombatSpeed(base_speed),
            cooldown: AttackCooldown(BigRat::zero()),
        },
        exp_reward: ExpReward(base_exp),
        enemy_number: EnemyNumber(enemy_number),
    }
}

/// Effect of the combat initialization pass: a player without combat
/// stats gets them, copied from its base management stats, and an enemy
/// is made live if none is; everything else is untouched.
pub open spec fn combat_init_rel(w1: GameWorld, w2: GameWorld) -> bool {
    &&& w2.wf()
    &&& w2.combat_state == w1.combat_state
    &&& w2.progress == w1.progress
    &&& w2.player == w1.player
    &&& w2.upgrades == w1.upgrades
    &&& (w1.player is None || w1.player_combat is Some ==> w2 == w1)
    &&& (w1.player is Some && w1.player_combat is None ==> {
        let p = w1.player->Some_0;
        let c = w2.player_combat->Some_0;
        &&& w2.player_combat is Some
        &&& c.current_hp.0@ == p.base_hp.0@
        &&& c.max_hp.0@ == p.base_hp.0@
        &&& c.attack.0@ == p.base_attack.0@
        &&& c.defense.0@ == p.base_defense.0@
        &&& c.speed.0@ == p.base_speed.0@
        &&& c.cooldown.0@ == (Rat { n: 0, d: 1 })
        &&& (w1.enemy is Some ==> w2.enemy == w1.enemy)
        &&& (w1.enemy is None ==> enemy_matches(
            w2.enemy,
            w1.progress.current_enemy_number as nat,
        ))
    })
}

/// Attach combat stats to a player that has none yet, copying the base
/// management stats, and make sure an enemy is present. A tick without a
/// live player is a no-op.
pub fn combat_init_system(world: &mut GameWorld)
    requires
        old(world).wf(),
    ensures
        combat_init_rel(*old(world), *final(world)),
{
    if world.player.is_none() || world.player_combat.is_some() {
        return ;
    }
    let base_hp;
    let base_attack;
    let base_defense;
    let base_speed;
    match &world.player {
        Some(p) => {
            base_hp = p.base_hp.0.dup();
            base_attack = p.base_attack.0.dup();
            base_defense = p.base_defense.0.dup();
            base_speed = p.base_speed.0.dup();
        },
        None => {
            return ;
        },
    }
    world.player_combat = Some(
        CombatantStats {
            current_hp: CurrentHp(base_hp.dup()),
            max_hp: MaxHp(base_hp),
            attack: CombatAttack(base_attack),
            defense: CombatDefense(base_defense),
            speed: CombatSpeed(base_speed),
            cooldown: AttackCooldown(BigRat::zero()),
        },
    );
    if world.enemy.is_none() {
        world.enemy = Some(spawn_enemy(world.progress.current_enemy_number));
    }
}

/// The enemy slot holds a freshly spawned enemy of ordinal `n`.
pub open spec fn enemy_matches(e: Option<EnemyEntity>, n: nat) -> bool {
    &&& e is Some
    &&& e->Some_0.wf()
    &&& e->Some_0.stats.current_hp.0@ == enemy_hp_spec(n)
    &&& e->Some_0.stats.max_hp.0@ == enemy_hp_spec(n)
    &&& e->Some_0.stats.attack.0@ == enemy_attack_spec(n)
    &&& e->Some_0.stats.defense.0@ == enemy_defense_spec(n)
    &&& e->Some_0.stats.speed.0@ == enemy_speed_spec(n)
    &&& e->Some_0.stats.cooldown.0@ == (Rat { n: 0, d: 1 })
    &&& e->Some_0.exp_reward.0@ == enemy_exp_spec(n)
    &&& e->Some_0.enemy_number.0 == n
}

/// Enemy scaling: the hit points of successive enemies strictly
/// increase with the ordinal, because the growth multiplier exceeds one.
pub proof fn lemma_enemy_hp_strictly_increases(n1: nat, n2: nat)
    requires
        n1 < n2,
    ensures
        crate::bigrat::rat_lt(enemy_hp_spec(n1), enemy_hp_spec(n2)),
    decreases n2,
{
    let b = rat_from_nat(20);
    let m = Rat { n: 3, d: 2 };
    if n2 == n1 + 1 {
        crate::bigrat::lemma_rat_grow_step_increases(b, m, n1);
    } else {
        lemma_enemy_hp_strictly_increases(n1, (n2 - 1) as nat);
        crate::bigrat::lemma_rat_grow_step_increases(b, m, (n2 - 1) as nat);
        lemma_rat_grow_props(b, m, n1);
        lemma_rat_grow_props(b, m, (n2 - 1) as nat);
        lemma_rat_grow_props(b, m, n2);
        crate::bigrat::lemma_rat_lt_le_trans(
            enemy_hp_spec(n1),
            enemy_hp_spec((n2 - 1) as nat),
            enemy_hp_spec(n2),
        );
    }
}

/// Replace the player and the upgradeable stats after a death: base stats
/// are the initial 100/10/5/1 multiplied by the rebirth bonus, experience
/// resets to zero, level to 1, and upgrade costs shrink by the rebirth
/// cost rule. Combat stats are not attached here; the next tick's
/// initialization pass attaches them.
pub fn rebirth_player_system(world: &mut GameWorld, additional_rebirth_points: BigRat)
    requires
        additional_rebirth_points.wf(),
    ensures
        final(world).player is Some,
        final(world).player->Some_0.wf(),
        ({
            let p = final(world).player->Some_0;
            let bonus = rebirth_bonus_spec(additional_rebirth_points@);
            &&& p.base_hp.0@ == rat_mul(rat_from_nat(100), bonus)
            &&& p.base_attack.0@ == rat_mul(rat_from_nat(10), bonus)
            &&& p.base_defense.0@ == rat_mul(rat_from_nat(5), bonus)
            &&& p.base_speed.0@ == rat_mul(rat_from_nat(1), bonus)
            &&& p.experience.0@ == (Rat { n: 0, d: 1 })
            &&& p.level.0 == 1
            &&& p.rebirth_points.0@ == additional_rebirth_points@
        }),
        final(world).upgrades is Some,
        final(world).upgrades->Some_0.wf(),
        final(world).upgrades->Some_0.invariant_holds(),
        ({
            let u = final(world).upgrades->Some_0;
            let bonus = rebirth_bonus_spec(additional_rebirth_points@);
            let cost = rebirth_cost_spec(additional_rebirth_points@);
            &&& fresh_upgrade_entry(u.hp, rat_mul(rat_from_nat(100), bonus), cost)
            &&& fresh_upgrade_entry(u.attack, rat_mul(rat_from_nat(10), bonus), cost)
            &&& fresh_upgrade_entry(u.defense, rat_mul(rat_from_nat(5), bonus), cost)
            &&& fresh_upgrade_entry(u.speed, rat_mul(rat_from_nat(1), bonus), cost)
        }),
        final(world).combat_state == old(world).combat_state,
        final(world).progress == old(world).progress,
        final(world).player_combat == old(world).player_combat,
        final(world).enemy == old(world).enemy,
{
    let points = additional_rebirth_points;
    let bonus = points.mul(&BigRat::from_ratio(1, 10)).add(&BigRat::from_u64(1));
    let divisor = points.mul(&BigRat::from_ratio(1, 20)).add(&BigRat::from_u64(1));
    proof {
        // Both derived factors have positive numerators: the added one
        // contributes `1 * (d * 20) > 0` to each cross product.
        assert(bonus@.n > 0 && divisor@.n > 0) by (nonlinear_arith)
            requires
                bonus@.n == points@.n * 1 * 1 + 1 * (points@.d * 10),
                divisor@.n == points@.n * 1 * 1 + 1 * (points@.d * 20),
                points@.d > 0,
        {}
    }
    let base_hp = BigRat::from_u64(100).mul(&bonus);
    let base_attack = BigRat::from_u64(10).mul(&bonus);
    let base_defense = BigRat::from_u64(5).mul(&bonus);
    let base_speed = BigRat::from_u64(1).mul(&bonus);
    let base_cost = BigRat::from_u64(10).div(&divisor);
    proof {
        assert(base_hp@.n > 0 && base_attack@.n > 0 && base_defense@.n > 0 && base_speed@.n > 0
            && base_cost@.n > 0) by (nonlinear_arith)
            requires
                base_hp@.n == 100 * bonus@.n,
                base_attack@.n == 10 * bonus@.n,
                base_defense@.n == 5 * bonus@.n,
                base_speed@.n == 1 * bonus@.n,
                base_cost@.n == 10 * divisor@.d,
                bonus@.n > 0,
                divisor@.d > 0,
        {}
    }
    world.player = Some(
        PlayerEntity {
            base_hp: BaseHp(base_hp.dup()),
            base_attack: BaseAttack(base_attack.dup()),
            base_defense: BaseDefense(base_defense.dup()),
            base_speed: BaseSpeed(base_speed.dup()),
            experience: Experience(BigRat::from_u64(0)),
            level: Level(1),
            rebirth_points: RebirthPoints(points),
        },
    );
    world.upgrades = Some(
        UpgradeSet {
            hp: make_upgrade_entry("HP", base_hp, base_cost.dup(), 0),
            attack: make_upgrade_entry("Attack", base_attack, base_cost.dup(), 0),
            defense: make_upgrade_entry("Defense", base_defense, base_cost.dup(), 0),
            speed: make_upgrade_entry("Speed", base_speed, base_cost, 0),
        },
    );
}

} // verus!
