//! Real-time combat: cooldown decay driven by elapsed time and speed,
//! attack scheduling, and damage application with death detection.

use crate::bigrat::{
    rat_add, rat_div, rat_from_nat, rat_le, rat_mul, rat_one, rat_sub, rat_zero, BigRat,
    Rat,
};
use crate::events::{AttackEvent, DeathEntityType, DeathEvent, TurnAttacker};
use crate::state::{CombatantStats, GameWorld};
use vstd::prelude::*;

verus! {

/// A cooldown after one tick of `delta` milliseconds at the given speed:
/// reduced by `delta * speed` and clamped at zero. Speed acts as a
/// multiplier on the drain, so higher speed means a higher attack rate.
pub open spec fn cooldown_after_tick(cd: Rat, speed: Rat, delta: nat) -> Rat {
    let reduction = rat_mul(rat_from_nat(delta), speed);
    if rat_le(cd, reduction) {
        rat_zero()
    } else {
        rat_sub(cd, reduction)
    }
}

/// Damage dealt by an attack stat against a defense stat:
/// `max(attack - defense, 1)`.
pub open spec fn damage_spec(attack: Rat, defense: Rat) -> Rat {
    if rat_le(attack, rat_add(defense, rat_one())) {
        rat_one()
    } else {
        rat_sub(attack, defense)
    }
}

/// Damage floor: for all attack and defense values the resolved damage is
/// at least 1, so combat can never stall on zero damage.
pub proof fn lemma_damage_floor(attack: Rat, defense: Rat)
    requires
        rat_wf_pair(attack, defense),
    ensures
        rat_le(rat_one(), damage_spec(attack, defense)),
{
    if rat_le(attack, rat_add(defense, rat_one())) {
    } else {
        assert(1 * ((attack.d * defense.d) * 1) <= ((attack.n * defense.d - defense.n * attack.d)
            as nat) * 1) by (nonlinear_arith)
            requires
                attack.n * (defense.d * 1) > (defense.n * 1 + 1 * defense.d) * attack.d,
                attack.d > 0,
                defense.d > 0,
        {}
    }
}

/// Both rationals of a pair are well formed.
pub open spec fn rat_wf_pair(a: Rat, b: Rat) -> bool {
    a.d > 0 && b.d > 0
}

/// Hit points after one damage application: reduced and clamped at zero.
pub open spec fn hp_after_hit(hp: Rat, damage: Rat) -> Rat {
    if rat_le(hp, damage) {
        rat_zero()
    } else {
        rat_sub(hp, damage)
    }
}

/// A damage application never raises hit points.
pub proof fn lemma_hp_after_hit_le(hp: Rat, damage: Rat)
    requires
        rat_wf_pair(hp, damage),
    ensures
        rat_le(hp_after_hit(hp, damage), hp),
{
    if rat_le(hp, damage) {
    } else {
        assert(((hp.n * damage.d - damage.n * hp.d) as nat) * hp.d <= hp.n * ((hp.d * damage.d)))
            by (nonlinear_arith)
            requires
                hp.n * damage.d > damage.n * hp.d,
                hp.d > 0,
                damage.d > 0,
        {}
    }
}

/// Hit points of one side after a list of attack events is applied in
/// order; events aimed at the other side leave the value alone.
pub open spec fn hp_after_events(hp: Rat, evs: Seq<AttackEvent>, side: TurnAttacker) -> Rat
    decreases evs.len(),
{
    if evs.len() == 0 {
        hp
    } else {
        let first = evs[0];
        let next = if first.target == side {
            hp_after_hit(hp, first.damage@)
        } else {
            hp
        };
        hp_after_events(next, evs.drop_first(), side)
    }
}

pub proof fn lemma_hp_after_events_snoc(hp: Rat, evs: Seq<AttackEvent>, e: AttackEvent,
    side: TurnAttacker)
    ensures
        hp_after_events(hp, evs.push(e), side) == if e.target == side {
            hp_after_hit(hp_after_events(hp, evs, side), e.damage@)
        } else {
            hp_after_events(hp, evs, side)
        },
    decreases evs.len(),
{
    if evs.len() == 0 {
        assert(evs.push(e).drop_first() =~= Seq::<AttackEvent>::empty());
        assert(evs.push(e)[0] == e);
        assert(hp_after_events(hp, evs, side) == hp);
        let next0 = if e.target == side {
            hp_after_hit(hp, e.damage@)
        } else {
            hp
        };
        assert(hp_after_events(next0, evs.push(e).drop_first(), side) == next0);
    } else {
        let first = evs[0];
        let next = if first.target == side {
            hp_after_hit(hp, first.damage@)
        } else {
            hp
        };
        assert(evs.push(e).drop_first() =~= evs.drop_first().push(e));
        lemma_hp_after_events_snoc(next, evs.drop_first(), e, side);
    }
}

/// Hit-point clamp: however many damage applications arrive, in whatever
/// order, the resulting hit points never go below zero (non-negativity is
/// structural in the rational model), and they never exceed the start.
pub proof fn lemma_hp_clamp(hp: Rat, evs: Seq<AttackEvent>, side: TurnAttacker)
    requires
        hp.d > 0,
        forall|i: int| 0 <= i < evs.len() ==> (#[trigger] evs[i].damage@).d > 0,
    ensures
        rat_le(rat_zero(), hp_after_events(hp, evs, side)),
        rat_le(hp_after_events(hp, evs, side), hp),
        hp_after_events(hp, evs, side).d > 0,
    decreases evs.len(),
{
    if evs.len() == 0 {
    } else {
        let first = evs[0];
        let next = if first.target == side {
            hp_after_hit(hp, first.damage@)
        } else {
            hp
        };
        if first.target == side {
            lemma_hp_after_hit_le(hp, first.damage@);
            if !rat_le(hp, first.damage@) {
                crate::bigrat::lemma_rat_ops_wf(hp, first.damage@);
            }
        }
        assert(forall|i: int| 0 <= i < evs.drop_first().len() ==> (#[trigger] evs.drop_first()[
            i].damage@).d > 0);
        lemma_hp_clamp(next, evs.drop_first(), side);
        crate::bigrat::lemma_rat_le_trans(hp_after_events(next, evs.drop_first(), side), next, hp);
    }
}

/// One side's combat stats after a cooldown tick: only the cooldown moved.
pub open spec fn ticked(c1: CombatantStats, c2: CombatantStats, delta: nat) -> bool {
    &&& c2.current_hp == c1.current_hp
    &&& c2.max_hp == c1.max_hp
    &&& c2.attack == c1.attack
    &&& c2.defense == c1.defense
    &&& c2.speed == c1.speed
    &&& c2.cooldown.0@ == cooldown_after_tick(c1.cooldown.0@, c1.speed.0@, delta)
    &&& c2.cooldown.0.wf()
}

/// Reduce one cooldown by `delta_ms * speed`, clamped at zero; an
/// already-expired cooldown is left at zero.
fn tick_cooldown(stats: &mut CombatantStats, delta_ms: u64)
    requires
        old(stats).wf(),
    ensures
        final(stats).wf(),
        ticked(*old(stats), *final(stats), delta_ms as nat),
{
    if stats.cooldown.0.is_zero() {
        proof {
            // An expired cooldown is exactly zero, which the formula maps
            // to zero again: `0 <= reduction` always holds on naturals.
            let cd = stats.cooldown.0@;
            let red = rat_mul(rat_from_nat(delta_ms as nat), stats.speed.0@);
            assert(cd.n * red.d == 0) by (nonlinear_arith)
                requires
                    cd.n == 0,
            {}
        }
        stats.cooldown.0 = BigRat::zero();
        return ;
    }
    let reduction = BigRat::from_u64(delta_ms).mul(&stats.speed.0);
    let new_cd = stats.cooldown.0.sub_or_zero(&reduction);
    stats.cooldown.0 = new_cd;
}

/// Effect of the cooldown pass: inert unless combat is active; with it
/// active, both live combatants' cooldowns decay by `delta * speed`,
/// clamped at zero, and nothing else moves.
pub open spec fn cooldown_rel(w1: GameWorld, w2: GameWorld, delta: nat) -> bool {
    &&& w2.wf()
    &&& (!w1.combat_active() ==> w2 == w1)
    &&& (w1.combat_active() ==> {
        &&& w2.combat_state == w1.combat_state
        &&& w2.progress == w1.progress
        &&& w2.player == w1.player
        &&& w2.upgrades == w1.upgrades
        &&& (w1.player_combat is None ==> w2.player_combat is None)
        &&& (w1.player_combat is Some ==> w2.player_combat is Some && ticked(
            w1.player_combat->Some_0,
            w2.player_combat->Some_0,
            delta,
        ))
        &&& (w1.enemy is None ==> w2.enemy is None)
        &&& (w1.enemy is Some ==> w2.enemy is Some && w2.enemy->Some_0.exp_reward
            == w1.enemy->Some_0.exp_reward && w2.enemy->Some_0.enemy_number
            == w1.enemy->Some_0.enemy_number && ticked(
            w1.enemy->Some_0.stats,
            w2.enemy->Some_0.stats,
            delta,
        ))
    })
}

/// Cooldown decay for both combatants, gated on active combat: inert
/// unless the dungeon is entered and the game is not over.
pub fn attack_cooldown_system(world: &mut GameWorld, delta_ms: u64)
    requires
        old(world).wf(),
    ensures
        cooldown_rel(*old(world), *final(world), delta_ms as nat),
{
    if world.combat_state.is_game_over || !world.combat_state.in_dungeon {
        return ;
    }
    match &mut world.player_combat {
        Some(stats) => {
            tick_cooldown(stats, delta_ms);
        },
        None => {},
    }
    match &mut world.enemy {
        Some(enemy) => {
            tick_cooldown(&mut enemy.stats, delta_ms);
        },
        None => {},
    }
}

/// One side's combat stats after an attack fired: only the cooldown moved,
/// reset to the base attack period of 1000 ms divided by the speed.
pub open spec fn fired(c1: CombatantStats, c2: CombatantStats) -> bool {
    &&& c2.current_hp == c1.current_hp
    &&& c2.max_hp == c1.max_hp
    &&& c2.attack == c1.attack
    &&& c2.defense == c1.defense
    &&& c2.speed == c1.speed
    &&& c2.cooldown.0@ == rat_div(rat_from_nat(1000), c1.speed.0@)
    &&& c2.cooldown.0.wf()
}

/// Fire an attack if the attacker's cooldown has expired: emit the attack
/// intent with the resolved damage and reset the cooldown to
/// `1000 / speed` milliseconds.
fn execute_attack_if_ready(
    attacker: TurnAttacker,
    stats: &mut CombatantStats,
    target: TurnAttacker,
    target_defense: &BigRat,
    attack_events: &mut Vec<AttackEvent>,
) -> (fired_now: bool)
    requires
        old(stats).wf(),
        target_defense.wf(),
    ensures
        final(stats).wf(),
        fired_now == (old(stats).cooldown.0@.n == 0),
        !fired_now ==> (*final(stats) == *old(stats)) && final(attack_events)@ == old(
            attack_events,
        )@,
        fired_now ==> {
            &&& fired(*old(stats), *final(stats))
            &&& final(attack_events)@.len() == old(attack_events)@.len() + 1
            &&& final(attack_events)@.drop_last() == old(attack_events)@
            &&& final(attack_events)@.last().attacker == attacker
            &&& final(attack_events)@.last().target == target
            &&& final(attack_events)@.last().damage@ == damage_spec(
                old(stats).attack.0@,
                target_defense@,
            )
            &&& final(attack_events)@.last().damage.wf()
        },
{
    if stats.cooldown.0.is_zero() {
        let damage = stats.attack.0.sub_clamped(target_defense, &BigRat::one());
        attack_events.push(AttackEvent { attacker, target, damage });
        proof {
            assert(attack_events@.drop_last() =~= old(attack_events)@);
        }
        stats.cooldown.0 = BigRat::from_u64(1000).div(&stats.speed.0);
        true
    } else {
        false
    }
}

/// Effect of the player's attack pass on the world and the attack list:
/// inert unless combat is active and both combatants are live; with the
/// player's cooldown expired, one attack intent is appended carrying
/// `max(attack - defense, 1)` damage and the cooldown resets.
pub open spec fn player_attack_rel(
    w1: GameWorld,
    w2: GameWorld,
    e1: Seq<AttackEvent>,
    e2: Seq<AttackEvent>,
) -> bool {
    &&& w2.wf()
    &&& (!(w1.combat_active() && w1.player_combat is Some && w1.enemy is Some) ==> w2 == w1 && e2
        == e1)
    &&& (w1.combat_active() && w1.player_combat is Some && w1.enemy is Some ==> {
        &&& w2.combat_state == w1.combat_state
        &&& w2.progress == w1.progress
        &&& w2.player == w1.player
        &&& w2.upgrades == w1.upgrades
        &&& w2.enemy == w1.enemy
        &&& w2.player_combat is Some
        &&& (w1.player_combat->Some_0.cooldown.0@.n != 0 ==> w2.player_combat == w1.player_combat
            && e2 == e1)
        &&& (w1.player_combat->Some_0.cooldown.0@.n == 0 ==> {
            &&& fired(w1.player_combat->Some_0, w2.player_combat->Some_0)
            &&& e2.len() == e1.len() + 1
            &&& e2.drop_last() == e1
            &&& e2.last().attacker == TurnAttacker::Player
            &&& e2.last().target == TurnAttacker::Enemy
            &&& e2.last().damage@ == damage_spec(
                w1.player_combat->Some_0.attack.0@,
                w1.enemy->Some_0.stats.defense.0@,
            )
            &&& e2.last().damage.wf()
        })
    })
}

/// The player's attack pass: fires when combat is active, both combatants
/// are live, and the player's cooldown has expired.
pub fn player_attack_system(world: &mut GameWorld, attack_events: &mut Vec<AttackEvent>)
    requires
        old(world).wf(),
    ensures
        player_attack_rel(
            *old(world),
            *final(world),
            old(attack_events)@,
            final(attack_events)@,
        ),
{
    if world.combat_state.is_game_over || !world.combat_state.in_dungeon {
        return ;
    }
    if world.enemy.is_none() {
        return ;
    }
    let enemy_defense = match &world.enemy {
        Some(e) => e.stats.defense.0.dup(),
        None => {
            return ;
        },
    };
    match &mut world.player_combat {
        Some(stats) => {
            execute_attack_if_ready(
                TurnAttacker::Player,
                stats,
                TurnAttacker::Enemy,
                &enemy_defense,
                attack_events,
            );
        },
        None => {},
    }
}

/// Effect of the enemy's attack pass, symmetric to the player's.
pub open spec fn enemy_attack_rel(
    w1: GameWorld,
    w2: GameWorld,
    e1: Seq<AttackEvent>,
    e2: Seq<AttackEvent>,
) -> bool {
    &&& w2.wf()
    &&& (!(w1.combat_active() && w1.player_combat is Some && w1.enemy is Some) ==> w2 == w1 && e2
        == e1)
    &&& (w1.combat_active() && w1.player_combat is Some && w1.enemy is Some ==> {
        &&& w2.combat_state == w1.combat_state
        &&& w2.progress == w1.progress
        &&& w2.player == w1.player
        &&& w2.upgrades == w1.upgrades
        &&& w2.player_combat == w1.player_combat
        &&& w2.enemy is Some
        &&& w2.enemy->Some_0.exp_reward == w1.enemy->Some_0.exp_reward
        &&& w2.enemy->Some_0.enemy_number == w1.enemy->Some_0.enemy_number
        &&& (w1.enemy->Some_0.stats.cooldown.0@.n != 0 ==> w2.enemy == w1.enemy && e2 == e1)
        &&& (w1.enemy->Some_0.stats.cooldown.0@.n == 0 ==> {
            &&& fired(w1.enemy->Some_0.stats, w2.enemy->Some_0.stats)
            &&& e2.len() == e1.len() + 1
            &&& e2.drop_last() == e1
            &&& e2.last().attacker == TurnAttacker::Enemy
            &&& e2.last().target == TurnAttacker::Player
            &&& e2.last().damage@ == damage_spec(
                w1.enemy->Some_0.stats.attack.0@,
                w1.player_combat->Some_0.defense.0@,
            )
            &&& e2.last().damage.wf()
        })
    })
}

/// The enemy's attack pass, symmetric to the player's.
pub fn enemy_attack_system(world: &mut GameWorld, attack_events: &mut Vec<AttackEvent>)
    requires
        old(world).wf(),
    ensures
        enemy_attack_rel(
            *old(world),
            *final(world),
            old(attack_events)@,
            final(attack_events)@,
        ),
{
    if world.combat_state.is_game_over || !world.combat_state.in_dungeon {
        return ;
    }
    if world.player_combat.is_none() {
        return ;
    }
    let player_defense = match &world.player_combat {
        Some(c) => c.defense.0.dup(),
        None => {
            return ;
        },
    };
    match &mut world.enemy {
        Some(enemy) => {
            execute_attack_if_ready(
                TurnAttacker::Enemy,
                &mut enemy.stats,
                TurnAttacker::Player,
                &player_defense,
                attack_events,
            );
        },
        None => {},
    }
}

/// How many of the death signals in `s` name the given side.
pub open spec fn count_kind(s: Seq<DeathEvent>, k: DeathEntityType) -> nat
    decreases s.len(),
{
    if s.len() == 0 {
        0
    } else {
        count_kind(s.drop_last(), k) + if s.last().entity_type == k {
            1nat
        } else {
            0nat
        }
    }
}

/// The hit points of one side crossed from positive to zero under the
/// attacks of this tick.
pub open spec fn side_died(hp: Option<Rat>, evs: Seq<AttackEvent>, side: TurnAttacker) -> bool {
    &&& hp is Some
    &&& hp->Some_0.n > 0
    &&& hp_after_events(hp->Some_0, evs, side).n == 0
}

/// The hit points stored for one side, if that side is live.
pub open spec fn player_hp_of(w: GameWorld) -> Option<Rat> {
    match w.player_combat {
        Some(c) => Some(c.current_hp.0@),
        None => None,
    }
}

pub open spec fn enemy_hp_of(w: GameWorld) -> Option<Rat> {
    match w.enemy {
        Some(e) => Some(e.stats.current_hp.0@),
        None => None,
    }
}

/// Only the targets' current hit points moved between `w1` and `w2`,
/// and they moved exactly as the attack list dictates.
pub open spec fn hp_only_hit(w1: GameWorld, w2: GameWorld, evs: Seq<AttackEvent>) -> bool {
    &&& (w1.player_combat is None ==> w2.player_combat == w1.player_combat)
    &&& (w1.player_combat is Some ==> w2.player_combat is Some && ({
        let c1 = w1.player_combat->Some_0;
        let c2 = w2.player_combat->Some_0;
        &&& c2.max_hp == c1.max_hp
        &&& c2.attack == c1.attack
        &&& c2.defense == c1.defense
        &&& c2.speed == c1.speed
        &&& c2.cooldown == c1.cooldown
        &&& c2.current_hp.0@ == hp_after_events(c1.current_hp.0@, evs, TurnAttacker::Player)
        &&& c2.current_hp.0.wf()
    }))
    &&& (w1.enemy is None ==> w2.enemy == w1.enemy)
    &&& (w1.enemy is Some ==> w2.enemy is Some && ({
        let e1 = w1.enemy->Some_0;
        let e2 = w2.enemy->Some_0;
        &&& e2.exp_reward == e1.exp_reward
        &&& e2.enemy_number == e1.enemy_number
        &&& e2.stats.max_hp == e1.stats.max_hp
        &&& e2.stats.attack == e1.stats.attack
        &&& e2.stats.defense == e1.stats.defense
        &&& e2.stats.speed == e1.stats.speed
        &&& e2.stats.cooldown == e1.stats.cooldown
        &&& e2.stats.current_hp.0@ == hp_after_events(
            e1.stats.current_hp.0@,
            evs,
            TurnAttacker::Enemy,
        )
        &&& e2.stats.current_hp.0.wf()
    }))
}

/// Apply one hit to a combatant; report whether its hit points crossed
/// from positive to zero just now.
fn apply_hit(stats: &mut CombatantStats, damage: &BigRat) -> (died_now: bool)
    requires
        old(stats).wf(),
        damage.wf(),
    ensures
        final(stats).wf(),
        final(stats).max_hp == old(stats).max_hp,
        final(stats).attack == old(stats).attack,
        final(stats).defense == old(stats).defense,
        final(stats).speed == old(stats).speed,
        final(stats).cooldown == old(stats).cooldown,
        final(stats).current_hp.0@ == hp_after_hit(old(stats).current_hp.0@, damage@),
        final(stats).current_hp.0.wf(),
        died_now == (old(stats).current_hp.0@.n > 0 && final(stats).current_hp.0@.n == 0),
{
    let was_alive = !stats.current_hp.0.is_zero();
    proof {
        lemma_hp_after_hit_le(stats.current_hp.0@, damage@);
        crate::bigrat::lemma_rat_ops_wf(stats.current_hp.0@, damage@);
        crate::bigrat::lemma_rat_le_trans(
            hp_after_hit(stats.current_hp.0@, damage@),
            stats.current_hp.0@,
            stats.max_hp.0@,
        );
    }
    let new_hp = stats.current_hp.0.sub_or_zero(damage);
    stats.current_hp.0 = new_hp;
    let died_now = was_alive && stats.current_hp.0.is_zero();
    died_now
}

/// A hit on an already-dead combatant leaves the hit points at zero.
proof fn lemma_hp_hit_dead(hp: Rat, d: Rat)
    requires
        hp.n == 0,
    ensures
        hp_after_hit(hp, d) == rat_zero(),
{
    assert(hp.n * d.d == 0) by (nonlinear_arith)
        requires
            hp.n == 0,
    {}
}

/// The fold of `hp_after_events` can only end at zero if it started from
/// a positive value or was zero all along; in particular a positive fold
/// result implies a positive start.
proof fn lemma_fold_positive_start(hp: Rat, evs: Seq<AttackEvent>, side: TurnAttacker)
    requires
        hp.d > 0,
        forall|i: int| 0 <= i < evs.len() ==> (#[trigger] evs[i].damage@).d > 0,
        hp_after_events(hp, evs, side).n > 0,
    ensures
        hp.n > 0,
{
    lemma_hp_clamp(hp, evs, side);
    let f = hp_after_events(hp, evs, side);
    assert(hp.n > 0) by (nonlinear_arith)
        requires
            f.n * hp.d <= hp.n * f.d,
            f.n > 0,
            hp.d > 0,
            f.d > 0,
    {}
}

/// Effect of the damage pass: each side's hit points become the ordered
/// fold of the attack list (clamped at zero), everything else stands,
/// and exactly one death signal per positive-to-zero crossing is
/// appended to the death list.
pub open spec fn damage_rel(
    w1: GameWorld,
    w2: GameWorld,
    attacks: Seq<AttackEvent>,
    d1: Seq<DeathEvent>,
    d2: Seq<DeathEvent>,
) -> bool {
    &&& w2.wf()
    &&& w2.combat_state == w1.combat_state
    &&& w2.progress == w1.progress
    &&& w2.player == w1.player
    &&& w2.upgrades == w1.upgrades
    &&& hp_only_hit(w1, w2, attacks)
    &&& ({
        let appended = d2.skip(d1.len() as int);
        &&& d2.len() >= d1.len()
        &&& d2.subrange(0, d1.len() as int) == d1
        &&& count_kind(appended, DeathEntityType::Player) == (if side_died(
            player_hp_of(w1),
            attacks,
            TurnAttacker::Player,
        ) {
            1nat
        } else {
            0nat
        })
        &&& count_kind(appended, DeathEntityType::Enemy) == (if side_died(
            enemy_hp_of(w1),
            attacks,
            TurnAttacker::Enemy,
        ) {
            1nat
        } else {
            0nat
        })
        &&& appended.len() == count_kind(appended, DeathEntityType::Player) + count_kind(
            appended,
            DeathEntityType::Enemy,
        )
    })
}

/// Apply every pending attack to its target's hit points, clamped at
/// zero, in order; emit exactly one death signal for each side whose hit
/// points crossed to zero during this pass — detection happens the
/// instant of the crossing, never again for an already-dead target.
pub fn damage_application_system(
    attack_events: &Vec<AttackEvent>,
    world: &mut GameWorld,
    death_events: &mut Vec<DeathEvent>,
)
    requires
        old(world).wf(),
        forall|i: int| 0 <= i < attack_events@.len() ==> (#[trigger] attack_events@[i]).damage.wf(),
    ensures
        damage_rel(
            *old(world),
            *final(world),
            attack_events@,
            old(death_events)@,
            final(death_events)@,
        ),
{
    let ghost w0: GameWorld = *world;
    let ghost de0: Seq<DeathEvent> = death_events@;
    let n = attack_events.len();
    let mut i: usize = 0;
    while i < n
        invariant
            i <= n,
            n == attack_events@.len(),
            forall|k: int| 0 <= k < attack_events@.len() ==> (#[trigger] attack_events@[
                k]).damage.wf(),
            w0.wf(),
            world.wf(),
            world.combat_state == w0.combat_state,
            world.progress == w0.progress,
            world.player == w0.player,
            world.upgrades == w0.upgrades,
            hp_only_hit(w0, *world, attack_events@.take(i as int)),
            death_events@.len() >= de0.len(),
            death_events@.subrange(0, de0.len() as int) == de0,
            count_kind(death_events@.skip(de0.len() as int), DeathEntityType::Player) == (
            if side_died(player_hp_of(w0), attack_events@.take(i as int), TurnAttacker::Player) {
                1nat
            } else {
                0nat
            }),
            count_kind(death_events@.skip(de0.len() as int), DeathEntityType::Enemy) == (
            if side_died(enemy_hp_of(w0), attack_events@.take(i as int), TurnAttacker::Enemy) {
                1nat
            } else {
                0nat
            }),
            death_events@.skip(de0.len() as int).len() == count_kind(
                death_events@.skip(de0.len() as int),
                DeathEntityType::Player,
            ) + count_kind(death_events@.skip(de0.len() as int), DeathEntityType::Enemy),
        decreases n - i,
    {
        let ev = &attack_events[i];
        let ghost taken: Seq<AttackEvent> = attack_events@.take(i as int);
        let ghost e: AttackEvent = attack_events@[i as int];
        proof {
            assert(attack_events@.take((i + 1) as int) =~= taken.push(e));
            assert(forall|k: int| 0 <= k < taken.len() ==> (#[trigger] taken[k].damage@).d > 0);
            if player_hp_of(w0) is Some {
                lemma_hp_after_events_snoc(
                    player_hp_of(w0)->Some_0,
                    taken,
                    e,
                    TurnAttacker::Player,
                );
            }
            if enemy_hp_of(w0) is Some {
                lemma_hp_after_events_snoc(enemy_hp_of(w0)->Some_0, taken, e, TurnAttacker::Enemy);
            }
        }
        let mut died_now = false;
        let mut hit_side = TurnAttacker::Player;
        match ev.target {
            TurnAttacker::Player => {
                match &mut world.player_combat {
                    Some(stats) => {
                        died_now = apply_hit(stats, &ev.damage);
                    },
                    None => {},
                }
            },
            TurnAttacker::Enemy => {
                hit_side = TurnAttacker::Enemy;
                match &mut world.enemy {
                    Some(enemy) => {
                        died_now = apply_hit(&mut enemy.stats, &ev.damage);
                    },
                    None => {},
                }
            },
        }
        proof {
            // A side that died just now had positive hit points at the
            // start of the pass: the fold before this event was positive.
            if died_now {
                if e.target == TurnAttacker::Player {
                    lemma_fold_positive_start(
                        player_hp_of(w0)->Some_0,
                        taken,
                        TurnAttacker::Player,
                    );
                } else {
                    lemma_fold_positive_start(enemy_hp_of(w0)->Some_0, taken, TurnAttacker::Enemy);
                }
            }
        }
        proof {
            // A target that was already at zero hit points stays there.
            if e.target == TurnAttacker::Player && w0.player_combat is Some {
                let fprev = hp_after_events(
                    player_hp_of(w0)->Some_0,
                    taken,
                    TurnAttacker::Player,
                );
                if fprev.n == 0 {
                    lemma_hp_hit_dead(fprev, e.damage@);
                }
            }
            if e.target == TurnAttacker::Enemy && w0.enemy is Some {
                let fprev = hp_after_events(enemy_hp_of(w0)->Some_0, taken, TurnAttacker::Enemy);
                if fprev.n == 0 {
                    lemma_hp_hit_dead(fprev, e.damage@);
                }
            }
        }
        if died_now {
            let kind = match ev.target {
                TurnAttacker::Player => DeathEntityType::Player,
                TurnAttacker::Enemy => DeathEntityType::Enemy,
            };
            let ghost before: Seq<DeathEvent> = death_events@;
            death_events.push(DeathEvent { entity_type: kind });
            proof {
                assert(death_events@.subrange(0, de0.len() as int) =~= de0);
                assert(death_events@.skip(de0.len() as int) =~= before.skip(
                    de0.len() as int,
                ).push(DeathEvent { entity_type: kind }));
                assert(death_events@.skip(de0.len() as int).drop_last() =~= before.skip(
                    de0.len() as int,
                ));
            }
        }
        i = i + 1;
    }
    proof {
        assert(attack_events@.take(n as int) =~= attack_events@);
    }
}

} // verus!
