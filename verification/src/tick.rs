//! The tick driver: one discrete step of the whole game, running every
//! pass in the fixed order required for same-tick visibility — cooldown
//! decay, attack resolution, damage application, death handling,
//! experience and spawning, upgrade purchases, reactive recompute, and
//! stat synchronization.

use crate::events::{
    AttackEvent, CombatStartEvent, DeathEvent, EnemyDeathEvent, ExpGainEvent, NextEnemySpawnEvent,
    PlayerDeathEvent,
};
use crate::state::GameWorld;
use crate::systems::combat_core::{
    attack_cooldown_system, cooldown_rel, damage_application_system, damage_rel,
    enemy_attack_rel, enemy_attack_system, player_attack_rel, player_attack_system,
};
use crate::systems::combat_end::{
    death_detection_rel, death_detection_system, enemy_death_rel, enemy_death_system,
    exp_gain_rel, exp_gain_system, next_enemy_spawn_rel, next_enemy_spawn_system,
    player_death_rel, player_death_system,
};
use crate::systems::combat_start::{combat_start_rel, combat_start_system};
use crate::systems::initialization::{combat_init_rel, combat_init_system};
use crate::systems::upgrades::{
    affordable, attack_sync_rel, attack_sync_system, defense_sync_rel, defense_sync_system,
    engine_model_of, hp_sync_rel, hp_sync_system, recompute_rel, speed_sync_rel,
    speed_sync_system, update_current_value_on_change, upgrade_engine_rel,
    upgradeable_stat_upgrade_system, StatKind,
};
use vstd::prelude::*;

verus! {

/// The intermediate worlds and event lists of one tick, in pass order:
/// ghost evidence that the final world arises from the initial one by
/// running the passes in their fixed order.
pub struct TickTrace {
    pub after_start: GameWorld,
    pub after_init: GameWorld,
    pub after_cooldown: GameWorld,
    pub attacks_after_player: Seq<AttackEvent>,
    pub after_player_attack: GameWorld,
    pub attacks: Seq<AttackEvent>,
    pub after_enemy_attack: GameWorld,
    pub deaths: Seq<DeathEvent>,
    pub after_damage: GameWorld,
    pub player_deaths: Seq<PlayerDeathEvent>,
    pub enemy_deaths: Seq<EnemyDeathEvent>,
    pub exp_gains: Seq<ExpGainEvent>,
    pub spawn_requests: Seq<NextEnemySpawnEvent>,
    pub after_enemy_death: GameWorld,
    pub after_player_death: GameWorld,
    pub after_exp_gain: GameWorld,
    pub after_spawn: GameWorld,
    pub after_upgrades: GameWorld,
    pub after_recompute: GameWorld,
    pub after_hp_sync: GameWorld,
    pub after_attack_sync: GameWorld,
    pub after_defense_sync: GameWorld,
}

/// One tick takes the world from `w0` to `w1`: the trace `tr` chains the
/// per-pass relations in the fixed order — start signals, combat
/// initialization, cooldown decay, the two attack passes (building the
/// attack list from empty), damage application (building the death
/// list), death dispatch, enemy death (experience and spawn requests),
/// player death, experience award, next-enemy spawn, the upgrade
/// purchase pass, the reactive recompute, and the four stat
/// synchronizations.
pub open spec fn tick_rel(
    w0: GameWorld,
    w1: GameWorld,
    delta: nat,
    control: Seq<CombatStartEvent>,
    tr: TickTrace,
) -> bool {
    &&& combat_start_rel(w0.combat_state, tr.after_start.combat_state, control)
    &&& tr.after_start == (GameWorld { combat_state: tr.after_start.combat_state, ..w0 })
    &&& combat_init_rel(tr.after_start, tr.after_init)
    &&& cooldown_rel(tr.after_init, tr.after_cooldown, delta)
    &&& player_attack_rel(
        tr.after_cooldown,
        tr.after_player_attack,
        Seq::<AttackEvent>::empty(),
        tr.attacks_after_player,
    )
    &&& enemy_attack_rel(
        tr.after_player_attack,
        tr.after_enemy_attack,
        tr.attacks_after_player,
        tr.attacks,
    )
    &&& damage_rel(
        tr.after_enemy_attack,
        tr.after_damage,
        tr.attacks,
        Seq::<DeathEvent>::empty(),
        tr.deaths,
    )
    &&& death_detection_rel(
        tr.deaths,
        tr.after_damage,
        Seq::<PlayerDeathEvent>::empty(),
        tr.player_deaths,
        Seq::<EnemyDeathEvent>::empty(),
        tr.enemy_deaths,
    )
    &&& enemy_death_rel(
        tr.enemy_deaths,
        tr.after_damage,
        tr.after_enemy_death,
        Seq::<ExpGainEvent>::empty(),
        tr.exp_gains,
        Seq::<NextEnemySpawnEvent>::empty(),
        tr.spawn_requests,
    )
    &&& player_death_rel(tr.player_deaths, tr.after_enemy_death, tr.after_player_death)
    &&& exp_gain_rel(tr.exp_gains, tr.after_player_death, tr.after_exp_gain)
    &&& next_enemy_spawn_rel(tr.spawn_requests, tr.after_exp_gain, tr.after_spawn)
    &&& upgrade_engine_rel(tr.after_spawn, tr.after_upgrades)
    &&& recompute_rel(tr.after_upgrades, tr.after_recompute)
    &&& hp_sync_rel(tr.after_recompute, tr.after_hp_sync)
    &&& attack_sync_rel(tr.after_hp_sync, tr.after_attack_sync)
    &&& defense_sync_rel(tr.after_attack_sync, tr.after_defense_sync)
    &&& speed_sync_rel(tr.after_defense_sync, w1)
}

/// Drive one tick of `delta_ms` elapsed milliseconds, handling the given
/// inbound control signals first. The final world is pinned by the pass
/// chain `tick_rel`, witnessed by a trace of the intermediate states;
/// directly stated corollaries: the world stays well formed, whenever
/// upgrade records are live every upgradeable stat again satisfies
/// `currentValue == baseValue * upgradeMultiplier^level`, a live player
/// stays live, and the upgrade engine has converged — no stat is left
/// affordable.
#[verifier::rlimit(80)]
pub fn game_tick(world: &mut GameWorld, delta_ms: u64, control: &Vec<CombatStartEvent>)
    requires
        old(world).wf(),
        old(world).progress.current_enemy_number < 0xffff_ffffu32,
        old(world).enemy is Some ==> old(world).enemy->Some_0.enemy_number.0 < 0xffff_ffffu32,
    ensures
        exists|tr: TickTrace|
            #[trigger] tick_rel(*old(world), *final(world), delta_ms as nat, control@, tr),
        final(world).wf(),
        final(world).upgrades is Some ==> final(world).upgrades->Some_0.invariant_holds(),
        old(world).player is Some ==> final(world).player is Some,
        final(world).player is Some && final(world).upgrades is Some ==> ({
            let m = engine_model_of(
                final(world).player->Some_0.experience.0@,
                final(world).upgrades->Some_0,
            );
            &&& !affordable(m, StatKind::Hp)
            &&& !affordable(m, StatKind::Attack)
            &&& !affordable(m, StatKind::Defense)
            &&& !affordable(m, StatKind::Speed)
        }),
{
    combat_start_system(control, &mut world.combat_state);
    let ghost w_start: GameWorld = *world;
    combat_init_system(world);
    let ghost w_init: GameWorld = *world;
    attack_cooldown_system(world, delta_ms);
    let ghost w_cooldown: GameWorld = *world;

    let mut attack_events: Vec<AttackEvent> = Vec::new();
    player_attack_system(world, &mut attack_events);
    proof {
        assert(forall|i: int|
            0 <= i < attack_events@.len() ==> (#[trigger] attack_events@[i]).damage.wf());
    }
    let ghost mid: Seq<AttackEvent> = attack_events@;
    let ghost w_player_attack: GameWorld = *world;
    enemy_attack_system(world, &mut attack_events);
    proof {
        assert(forall|i: int|
            0 <= i < attack_events@.len() ==> (#[trigger] attack_events@[i]).damage.wf()) by {
            assert(forall|i: int|
                0 <= i < mid.len() ==> (#[trigger] attack_events@[i]) == mid[i]);
        }
    }
    let ghost attacks: Seq<AttackEvent> = attack_events@;
    let ghost w_enemy_attack: GameWorld = *world;

    let mut death_events: Vec<DeathEvent> = Vec::new();
    damage_application_system(&attack_events, world, &mut death_events);
    let ghost deaths: Seq<DeathEvent> = death_events@;
    let ghost w_damage: GameWorld = *world;

    let mut player_death_events: Vec<PlayerDeathEvent> = Vec::new();
    let mut enemy_death_events: Vec<EnemyDeathEvent> = Vec::new();
    death_detection_system(&death_events, world, &mut player_death_events,
        &mut enemy_death_events);

    proof {
        assert(forall|i: int|
            0 <= i < enemy_death_events@.len() ==> (#[trigger] enemy_death_events@[
            i]).exp_reward.wf() && enemy_death_events@[i].enemy_number < 0xffff_ffffu32);
    }
    let mut exp_events: Vec<ExpGainEvent> = Vec::new();
    let mut next_enemy_events: Vec<NextEnemySpawnEvent> = Vec::new();
    enemy_death_system(&enemy_death_events, world, &mut exp_events, &mut next_enemy_events);
    let ghost w_enemy_death: GameWorld = *world;
    proof {
        assert forall|i: int| 0 <= i < exp_events@.len() implies (#[trigger] exp_events@[
            i]).amount.wf() by {
            assert(exp_events@[0 + i].amount.wf() == enemy_death_events@[i].exp_reward.wf());
        }
        assert forall|i: int| 0 <= i < next_enemy_events@.len() implies (
        #[trigger] next_enemy_events@[i]).enemy_number >= 1 by {
            assert(next_enemy_events@[0 + i].enemy_number == enemy_death_events@[i].enemy_number
                + 1);
        }
    }
    player_death_system(&player_death_events, world);
    let ghost w_player_death: GameWorld = *world;
    exp_gain_system(&exp_events, world);
    let ghost w_exp_gain: GameWorld = *world;
    next_enemy_spawn_system(&next_enemy_events, world);
    let ghost w_spawn: GameWorld = *world;

    upgradeable_stat_upgrade_system(world);
    let ghost w_upgrades: GameWorld = *world;
    update_current_value_on_change(world);
    let ghost w_recompute: GameWorld = *world;
    hp_sync_system(world);
    let ghost w_hp_sync: GameWorld = *world;
    attack_sync_system(world);
    let ghost w_attack_sync: GameWorld = *world;
    defense_sync_system(world);
    let ghost w_defense_sync: GameWorld = *world;
    speed_sync_system(world);

    proof {
        let tr = TickTrace {
            after_start: w_start,
            after_init: w_init,
            after_cooldown: w_cooldown,
            attacks_after_player: mid,
            after_player_attack: w_player_attack,
            attacks,
            after_enemy_attack: w_enemy_attack,
            deaths,
            after_damage: w_damage,
            player_deaths: player_death_events@,
            enemy_deaths: enemy_death_events@,
            exp_gains: exp_events@,
            spawn_requests: next_enemy_events@,
            after_enemy_death: w_enemy_death,
            after_player_death: w_player_death,
            after_exp_gain: w_exp_gain,
            after_spawn: w_spawn,
            after_upgrades: w_upgrades,
            after_recompute: w_recompute,
            after_hp_sync: w_hp_sync,
            after_attack_sync: w_attack_sync,
            after_defense_sync: w_defense_sync,
        };
        assert(combat_start_rel(old(world).combat_state, tr.after_start.combat_state, control@));
        assert(tr.after_start == (GameWorld {
            combat_state: tr.after_start.combat_state,
            ..*old(world)
        }));
        assert(combat_init_rel(tr.after_start, tr.after_init));
        assert(cooldown_rel(tr.after_init, tr.after_cooldown, delta_ms as nat));
        assert(player_attack_rel(
            tr.after_cooldown,
            tr.after_player_attack,
            Seq::<AttackEvent>::empty(),
            tr.attacks_after_player,
        ));
        assert(enemy_attack_rel(
            tr.after_player_attack,
            tr.after_enemy_attack,
            tr.attacks_after_player,
            tr.attacks,
        ));
        assert(damage_rel(
            tr.after_enemy_attack,
            tr.after_damage,
            tr.attacks,
            Seq::<DeathEvent>::empty(),
            tr.deaths,
        ));
        assert(death_detection_rel(
            tr.deaths,
            tr.after_damage,
            Seq::<PlayerDeathEvent>::empty(),
            tr.player_deaths,
            Seq::<EnemyDeathEvent>::empty(),
            tr.enemy_deaths,
        ));
        assert(enemy_death_rel(
            tr.enemy_deaths,
            tr.after_damage,
            tr.after_enemy_death,
            Seq::<ExpGainEvent>::empty(),
            tr.exp_gains,
            Seq::<NextEnemySpawnEvent>::empty(),
            tr.spawn_requests,
        ));
        assert(player_death_rel(tr.player_deaths, tr.after_enemy_death, tr.after_player_death));
        assert(exp_gain_rel(tr.exp_gains, tr.after_player_death, tr.after_exp_gain));
        assert(next_enemy_spawn_rel(tr.spawn_requests, tr.after_exp_gain, tr.after_spawn));
        assert(upgrade_engine_rel(tr.after_spawn, tr.after_upgrades));
        assert(recompute_rel(tr.after_upgrades, tr.after_recompute));
        assert(hp_sync_rel(tr.after_recompute, tr.after_hp_sync));
        assert(attack_sync_rel(tr.after_hp_sync, tr.after_attack_sync));
        assert(defense_sync_rel(tr.after_attack_sync, tr.after_defense_sync));
        assert(speed_sync_rel(tr.after_defense_sync, *world));
        assert(tick_rel(*old(world), *world, delta_ms as nat, control@, tr));
    }
}

} // verus!
