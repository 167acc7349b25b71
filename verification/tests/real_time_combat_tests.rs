use simple_idle_rpg::bigrat::BigRat;
use simple_idle_rpg::components::combat_stats::{
    AttackCooldown, CombatAttack, CombatDefense, CombatSpeed, CurrentHp, EnemyNumber, ExpReward,
    MaxHp,
};
use simple_idle_rpg::state::{CombatantStats, EnemyEntity, GameWorld};

fn combatant(attack: u64, speed_n: u64, speed_d: u64, cooldown: u64) -> CombatantStats {
    CombatantStats {
        current_hp: CurrentHp(BigRat::from_u64(50)),
        max_hp: MaxHp(BigRat::from_u64(50)),
        attack: CombatAttack(BigRat::from_u64(attack)),
        defense: CombatDefense(BigRat::from_u64(1)),
        speed: CombatSpeed(BigRat::from_ratio(speed_n, speed_d)),
        cooldown: AttackCooldown(BigRat::from_u64(cooldown)),
    }
}

#[test]
fn test_attack_cooldown_component() {
    let cooldown = AttackCooldown(BigRat::from_u64(500));
    assert_eq!(cooldown.0, BigRat::from_u64(500));

    let zero_cooldown = AttackCooldown(BigRat::from_u64(0));
    assert_eq!(zero_cooldown.0, BigRat::from_u64(0));
}

#[test]
fn test_cooldown_reduction_logic() {
    // Test the cooldown reduction calculation
    let initial_cooldown = BigRat::from_u64(1000); // 1 second
    let speed_multiplier = BigRat::from_u64(2); // 2x speed
    let delta_ms = BigRat::from_u64(16); // 16ms frame

    let reduction = delta_ms.mul(&speed_multiplier);
    let new_cooldown = initial_cooldown.sub_or_zero(&reduction);

    assert!(reduction.eq_val(&BigRat::from_u64(32))); // 16 * 2 = 32ms reduction
    assert!(new_cooldown.eq_val(&BigRat::from_u64(968))); // 1000 - 32 = 968ms remaining
}

#[test]
fn test_base_attack_time_calculation() {
    let base_attack_time = BigRat::from_u64(1000); // 1 second

    // Test different speeds
    let speed_1 = BigRat::from_u64(1);
    let speed_2 = BigRat::from_u64(2);
    let speed_half = BigRat::from_ratio(1, 2);

    let cooldown_1 = base_attack_time.div(&speed_1);
    let cooldown_2 = base_attack_time.div(&speed_2);
    let cooldown_half = base_attack_time.div(&speed_half);

    assert!(cooldown_1.eq_val(&BigRat::from_u64(1000))); // 1 second
    assert!(cooldown_2.eq_val(&BigRat::from_u64(500))); // 0.5 seconds (faster)
    assert!(cooldown_half.eq_val(&BigRat::from_u64(2000))); // 2 seconds (slower)
}

#[test]
fn test_attack_ready_condition() {
    // A combatant is ready exactly when its cooldown has drained to zero;
    // values below zero cannot arise because the drain clamps at zero.
    let ready_cooldown = BigRat::from_u64(0);
    let overshot_cooldown = BigRat::from_u64(10).sub_or_zero(&BigRat::from_u64(25));
    let positive_cooldown = BigRat::from_u64(100);

    assert!(ready_cooldown.is_zero());
    assert!(overshot_cooldown.is_zero()); // clamped drains are also ready
    assert!(!positive_cooldown.is_zero());

    assert!(ready_cooldown.le(&BigRat::from_u64(0)));
    assert!(overshot_cooldown.le(&BigRat::from_u64(0)));
    assert!(!positive_cooldown.le(&BigRat::from_u64(0)));
}

#[test]
fn test_cooldown_component_integration() {
    let mut world = GameWorld::new();

    // Player with attack cooldown, ready to attack
    world.player_combat = Some(combatant(10, 2, 1, 0));

    // Enemy with attack cooldown, still cooling down
    world.enemy = Some(EnemyEntity {
        stats: combatant(8, 3, 2, 500),
        exp_reward: ExpReward(BigRat::from_u64(5)),
        enemy_number: EnemyNumber(1),
    });

    // Verify components exist
    assert!(world.player_combat.is_some());
    assert!(world.enemy.is_some());

    // Check cooldown values
    let player_cooldown = &world.player_combat.as_ref().unwrap().cooldown;
    let enemy_cooldown = &world.enemy.as_ref().unwrap().stats.cooldown;

    assert_eq!(player_cooldown.0, BigRat::from_u64(0));
    assert_eq!(enemy_cooldown.0, BigRat::from_u64(500));
}

#[test]
fn test_attack_event_structure() {
    // Test that attack events work with the new system
    let attack_event = simple_idle_rpg::events::AttackEvent {
        attacker: simple_idle_rpg::events::TurnAttacker::Player,
        target: simple_idle_rpg::events::TurnAttacker::Enemy,
        damage: BigRat::from_u64(15),
    };

    assert_eq!(attack_event.damage, BigRat::from_u64(15));
    assert_eq!(attack_event.attacker, simple_idle_rpg::events::TurnAttacker::Player);
    assert_eq!(attack_event.target, simple_idle_rpg::events::TurnAttacker::Enemy);
}

#[test]
fn test_real_time_vs_turn_based_timing() {
    // Compare timing characteristics

    // Turn-based: Fixed 1 second intervals
    let turn_based_interval = BigRat::from_u64(1000); // 1 second

    // Real-time: Variable based on speed
    let player_speed = BigRat::from_u64(2);
    let enemy_speed = BigRat::from_ratio(3, 2);

    let player_attack_time = BigRat::from_u64(1000).div(&player_speed); // 500ms
    let enemy_attack_time = BigRat::from_u64(1000).div(&enemy_speed); // 666.67ms

    // In real-time, faster entities attack more frequently
    assert!(player_attack_time.lt(&turn_based_interval));
    assert!(enemy_attack_time.lt(&turn_based_interval));
    assert!(player_attack_time.lt(&enemy_attack_time)); // Player is faster
}
