use simple_idle_rpg::bigrat::BigRat;
use simple_idle_rpg::components::upgradeable_stats::{
    calculate_exponential_growth, can_upgrade, recalculate_current_value,
};
use simple_idle_rpg::events::{
    AttackEvent, CombatStartEvent, DeathEntityType, DeathEvent, PlayerDeathEvent, TurnAttacker,
};
use simple_idle_rpg::state::GameWorld;
use simple_idle_rpg::systems::combat_core::{attack_cooldown_system, damage_application_system, player_attack_system};
use simple_idle_rpg::systems::combat_end::{
    death_detection_system, enemy_death_system, exp_gain_system, next_enemy_spawn_system,
    player_death_system,
};
use simple_idle_rpg::systems::initialization::{
    combat_init_system, player_init_system, spawn_enemy,
};
use simple_idle_rpg::systems::upgrades::{hp_sync_system, upgradeable_stat_upgrade_system};
use simple_idle_rpg::tick::game_tick;
use simple_idle_rpg::StartupConfig;

fn default_config() -> StartupConfig {
    StartupConfig {
        level: 1,
        experience: 0,
        hp_level: 0,
        attack_level: 0,
        defense_level: 0,
        speed_level: 0,
        duration: 60,
    }
}

fn fresh_world(experience: u64) -> GameWorld {
    let mut config = default_config();
    config.experience = experience;
    let mut world = GameWorld::new();
    player_init_system(&config, &mut world);
    world
}

#[test]
fn test_growth_determinism_steps() {
    let base = BigRat::from_u64(7);
    let m = BigRat::from_ratio(23, 20);

    let level_0 = calculate_exponential_growth(base.dup(), m.dup(), 0);
    let level_3 = calculate_exponential_growth(base.dup(), m.dup(), 3);
    let level_4 = calculate_exponential_growth(base.dup(), m.dup(), 4);

    assert_eq!(level_0, base);
    assert_eq!(level_4, level_3.mul(&m));
}

#[test]
fn test_damage_floor_boundaries() {
    let one = BigRat::from_u64(1);

    // Defense above, at, and just below the attack all floor at 1.
    let d1 = BigRat::from_u64(5).sub_clamped(&BigRat::from_u64(9), &one);
    let d2 = BigRat::from_u64(5).sub_clamped(&BigRat::from_u64(5), &one);
    let d3 = BigRat::from_u64(5).sub_clamped(&BigRat::from_u64(4), &one);
    let d4 = BigRat::from_u64(5).sub_clamped(&BigRat::from_u64(3), &one);

    assert!(d1.eq_val(&one));
    assert!(d2.eq_val(&one));
    assert!(d3.eq_val(&one));
    assert!(d4.eq_val(&BigRat::from_u64(2)));
    assert!(one.le(&d1) && one.le(&d2) && one.le(&d3) && one.le(&d4));
}

#[test]
fn test_hp_clamp_under_damage_sequence() {
    // Hit points drained by any sequence of damages never go below zero.
    let mut hp = BigRat::from_u64(10);
    for d in [3u64, 4, 5, 9] {
        hp = hp.sub_or_zero(&BigRat::from_u64(d));
        assert!(BigRat::from_u64(0).le(&hp));
    }
    assert!(hp.is_zero());
}

#[test]
fn test_single_death_signal_per_crossing() {
    // Two attacks, the second of which hits an already-dead target, emit
    // exactly one death signal.
    let mut world = fresh_world(0);
    combat_init_system(&mut world);
    let attacks = vec![
        AttackEvent {
            attacker: TurnAttacker::Enemy,
            target: TurnAttacker::Player,
            damage: BigRat::from_u64(150),
        },
        AttackEvent {
            attacker: TurnAttacker::Enemy,
            target: TurnAttacker::Player,
            damage: BigRat::from_u64(40),
        },
    ];
    let mut deaths = Vec::new();
    damage_application_system(&attacks, &mut world, &mut deaths);

    assert_eq!(deaths.len(), 1);
    assert!(world.player_combat.as_ref().unwrap().current_hp.0.is_zero());
}

#[test]
fn test_upgrade_engine_fixed_point() {
    // Experience 100 buys two full rounds (4 x 10, then 4 x 13) and
    // leaves 8, below the next cost of 16.9.
    let mut world = fresh_world(100);
    upgradeable_stat_upgrade_system(&mut world);

    let player = world.player.as_ref().unwrap();
    let upgrades = world.upgrades.as_ref().unwrap();
    assert!(player.experience.0.eq_val(&BigRat::from_u64(8)));
    for stat in [&upgrades.hp, &upgrades.attack, &upgrades.defense, &upgrades.speed] {
        assert_eq!(stat.level.0, 2);
        assert!(stat.upgrade_cost.0.eq_val(&BigRat::from_ratio(169, 10)));
        // No stat is left affordable.
        assert!(!can_upgrade(&player.experience.0, &stat.upgrade_cost));
        // The upgrade invariant holds of every stat after the pass.
        let recomputed = recalculate_current_value(
            &stat.base_value,
            &stat.level,
            &stat.upgrade_multiplier,
        );
        assert!(stat.current_value.0.eq_val(&recomputed));
    }
    // HP: 100 * 1.15^2 == 132.25
    assert!(upgrades.hp.current_value.0.eq_val(&BigRat::from_ratio(529, 4)));
}

#[test]
fn test_hp_upgrade_heals_to_full() {
    // Raising the HP stat's current value heals the player to the new
    // maximum; an unchanged maximum leaves the current hit points alone.
    let mut world = fresh_world(0);
    combat_init_system(&mut world);
    world.player_combat.as_mut().unwrap().current_hp.0 = BigRat::from_u64(40);

    // Unchanged maximum: no heal.
    hp_sync_system(&mut world);
    let combat = world.player_combat.as_ref().unwrap();
    assert!(combat.max_hp.0.eq_val(&BigRat::from_u64(100)));
    assert!(combat.current_hp.0.eq_val(&BigRat::from_u64(40)));

    // Raised maximum: heal to full.
    world.upgrades.as_mut().unwrap().hp.current_value.0 = BigRat::from_u64(200);
    hp_sync_system(&mut world);
    let combat = world.player_combat.as_ref().unwrap();
    assert!(combat.max_hp.0.eq_val(&BigRat::from_u64(200)));
    assert!(combat.current_hp.0.eq_val(&BigRat::from_u64(200)));
}

#[test]
fn test_rebirth_scenario() {
    // Death at enemy 3: the reborn player's base stats carry the bonus
    // 1 + 3 * 0.1 and the progression resets to enemy 1.
    let mut world = fresh_world(0);
    combat_init_system(&mut world);
    world.progress.current_enemy_number = 3;

    let deaths = vec![PlayerDeathEvent {}];
    player_death_system(&deaths, &mut world);

    let player = world.player.as_ref().unwrap();
    assert!(player.base_hp.0.eq_val(&BigRat::from_u64(130)));
    assert!(player.base_attack.0.eq_val(&BigRat::from_u64(13)));
    assert!(player.base_defense.0.eq_val(&BigRat::from_ratio(13, 2)));
    assert!(player.base_speed.0.eq_val(&BigRat::from_ratio(13, 10)));
    assert!(player.experience.0.is_zero());
    assert!(player.rebirth_points.0.eq_val(&BigRat::from_u64(3)));
    assert_eq!(world.progress.current_enemy_number, 1);
    assert!(!world.combat_state.is_game_over);
    // Upgrade costs shrink by 1 + 3 * 0.05: 10 / 1.15 == 200 / 23.
    let upgrades = world.upgrades.as_ref().unwrap();
    assert!(upgrades.hp.upgrade_cost.0.eq_val(&BigRat::from_ratio(200, 23)));
    // The first enemy is live again.
    assert_eq!(world.enemy.as_ref().unwrap().enemy_number.0, 1);
}

#[test]
fn test_double_death_single_rebirth() {
    // Two death signals for the player in the same tick cause exactly one
    // rebirth: the rebirth points match the single enemy ordinal, not
    // twice the bonus.
    let mut world = fresh_world(0);
    combat_init_system(&mut world);
    world.progress.current_enemy_number = 4;

    let deaths = vec![PlayerDeathEvent {}, PlayerDeathEvent {}];
    player_death_system(&deaths, &mut world);

    let player = world.player.as_ref().unwrap();
    assert!(player.rebirth_points.0.eq_val(&BigRat::from_u64(4)));
    assert!(player.base_hp.0.eq_val(&BigRat::from_u64(140)));
    assert_eq!(world.progress.current_enemy_number, 1);
}

#[test]
fn test_enemy_scaling_values() {
    // Enemy 1 has 20 * 1.5 == 30 hit points, enemy 3 has
    // 20 * 1.5^3 == 67.5, and hit points rise strictly with the ordinal.
    let e1 = spawn_enemy(1);
    let e2 = spawn_enemy(2);
    let e3 = spawn_enemy(3);

    assert!(e1.stats.max_hp.0.eq_val(&BigRat::from_u64(30)));
    assert!(e3.stats.max_hp.0.eq_val(&BigRat::from_ratio(675, 10)));
    assert!(e1.stats.max_hp.0.lt(&e2.stats.max_hp.0));
    assert!(e2.stats.max_hp.0.lt(&e3.stats.max_hp.0));
    // Fresh enemies start at full health and ready to attack.
    assert_eq!(e3.stats.current_hp.0, e3.stats.max_hp.0);
    assert!(e3.stats.cooldown.0.is_zero());
}

#[test]
fn test_cooldown_scenario() {
    // A combatant with speed 2 resets to 1000 / 2 == 500 ms after firing,
    // and a 16 ms tick at speed 2 drains 32 ms of cooldown.
    let mut world = fresh_world(0);
    combat_init_system(&mut world);
    world.combat_state.in_dungeon = true;
    world.player_combat.as_mut().unwrap().speed.0 = BigRat::from_u64(2);

    let mut attacks = Vec::new();
    player_attack_system(&mut world, &mut attacks);
    assert_eq!(attacks.len(), 1);
    let combat = world.player_combat.as_ref().unwrap();
    assert!(combat.cooldown.0.eq_val(&BigRat::from_u64(500)));

    // Wind the cooldown to a full second and tick 16 ms.
    world.player_combat.as_mut().unwrap().cooldown.0 = BigRat::from_u64(1000);
    attack_cooldown_system(&mut world, 16);
    let combat = world.player_combat.as_ref().unwrap();
    assert!(combat.cooldown.0.eq_val(&BigRat::from_u64(968)));
}

#[test]
fn test_full_tick_resolves_combat() {
    // One driven tick after a start signal: both sides are ready, so both
    // attacks fire and both hit-point pools drop by the exact damages.
    let mut world = fresh_world(0);
    let control = vec![CombatStartEvent { is_retry: false }];
    game_tick(&mut world, 16, &control);

    assert!(world.combat_state.in_dungeon);
    let enemy = world.enemy.as_ref().unwrap();
    // Player hits enemy 1 for 10 - 2.6 == 7.4: 30 - 7.4 == 22.6 left.
    assert!(enemy.stats.current_hp.0.eq_val(&BigRat::from_ratio(226, 10)));
    // Enemy 1 hits the player for max(3.9 - 5, 1) == 1: 99 left.
    let combat = world.player_combat.as_ref().unwrap();
    assert!(combat.current_hp.0.eq_val(&BigRat::from_u64(99)));
    // Both cooldowns were reset to 1000 / speed.
    assert!(combat.cooldown.0.eq_val(&BigRat::from_ratio(1000, 1)));
    assert!(enemy.stats.cooldown.0.eq_val(&BigRat::from_ratio(12500, 11)));
}

#[test]
fn test_combat_start_signals() {
    let mut world = fresh_world(0);
    world.combat_state.is_game_over = true;

    // No signal: the combat flags stay as they are.
    let none: Vec<CombatStartEvent> = Vec::new();
    simple_idle_rpg::systems::combat_start::combat_start_system(&none, &mut world.combat_state);
    assert!(world.combat_state.is_game_over);
    assert!(!world.combat_state.in_dungeon);

    // A signal clears the game-over flag and enters the dungeon.
    let start = vec![CombatStartEvent { is_retry: true }];
    simple_idle_rpg::systems::combat_start::combat_start_system(&start, &mut world.combat_state);
    assert!(!world.combat_state.is_game_over);
    assert!(world.combat_state.in_dungeon);
}

#[test]
fn test_enemy_death_event_chain() {
    // An enemy death signal flows through detection, despawn, experience
    // award and next-enemy spawn, one ordinal higher.
    let mut world = fresh_world(0);
    combat_init_system(&mut world);
    let reward = world.enemy.as_ref().unwrap().exp_reward.0.dup();

    let deaths = vec![DeathEvent { entity_type: DeathEntityType::Enemy }];
    let mut player_deaths = Vec::new();
    let mut enemy_deaths = Vec::new();
    death_detection_system(&deaths, &world, &mut player_deaths, &mut enemy_deaths);
    assert_eq!(player_deaths.len(), 0);
    assert_eq!(enemy_deaths.len(), 1);
    assert_eq!(enemy_deaths[0].enemy_number, 1);
    assert!(enemy_deaths[0].exp_reward.eq_val(&reward));

    let mut exp_events = Vec::new();
    let mut spawn_events = Vec::new();
    enemy_death_system(&enemy_deaths, &mut world, &mut exp_events, &mut spawn_events);
    assert!(world.enemy.is_none());
    assert_eq!(exp_events.len(), 1);
    assert_eq!(spawn_events.len(), 1);
    assert_eq!(spawn_events[0].enemy_number, 2);

    exp_gain_system(&exp_events, &mut world);
    // The reward of enemy 1 is 5 * 1.15 == 5.75.
    let exp = &world.player.as_ref().unwrap().experience.0;
    assert!(exp.eq_val(&BigRat::from_ratio(23, 4)));

    next_enemy_spawn_system(&spawn_events, &mut world);
    assert_eq!(world.progress.current_enemy_number, 2);
    let enemy = world.enemy.as_ref().unwrap();
    assert_eq!(enemy.enemy_number.0, 2);
    // Enemy 2 has 20 * 1.5^2 == 45 hit points.
    assert!(enemy.stats.max_hp.0.eq_val(&BigRat::from_u64(45)));
}

#[test]
fn test_driven_run_defeats_first_enemy() {
    // Drive the loop for 260 ticks of 16 ms. The player (attack 10,
    // speed 1) hits enemy 1 (30 hit points, defense 2.6) for 7.4 at
    // ticks 0, 63, 126, 189 and 252; the fifth hit kills it. Enemy 1
    // (speed 0.88) lands 4 floor hits of 1 before dying, and enemy 2
    // (ready on spawn) lands 1 more.
    let mut world = fresh_world(0);
    let mut control = vec![CombatStartEvent { is_retry: false }];
    for _ in 0..260 {
        game_tick(&mut world, 16, &control);
        control.clear();
    }

    assert_eq!(world.progress.current_enemy_number, 2);
    let enemy = world.enemy.as_ref().unwrap();
    assert_eq!(enemy.enemy_number.0, 2);
    assert!(enemy.stats.current_hp.0.eq_val(&BigRat::from_u64(45)));

    let player = world.player.as_ref().unwrap();
    assert!(player.experience.0.eq_val(&BigRat::from_ratio(23, 4)));
    let combat = world.player_combat.as_ref().unwrap();
    assert!(combat.current_hp.0.eq_val(&BigRat::from_u64(95)));
}
