use simple_idle_rpg::bigrat::BigRat;
use simple_idle_rpg::components::management_stats::{BaseAttack, BaseHp, Experience, Level};
use simple_idle_rpg::components::upgradeable_stats::calculate_exponential_growth;
use simple_idle_rpg::events::{
    AttackEvent, CombatWinner, ExpGainEvent, TurnAttacker, TurnStartEvent,
};

#[test]
fn test_exponential_growth_calculation() {
    // Test the underlying calculation logic used by spawn_enemy
    let base_value = BigRat::from_u64(20);
    let multiplier = BigRat::from_ratio(3, 2);

    let level_1 = calculate_exponential_growth(base_value.dup(), multiplier.dup(), 1);
    let level_5 = calculate_exponential_growth(base_value.dup(), multiplier.dup(), 5);
    let level_10 = calculate_exponential_growth(base_value.dup(), multiplier.dup(), 10);

    // Higher levels should have higher values
    assert!(level_1.lt(&level_5));
    assert!(level_5.lt(&level_10));

    // Check specific calculation for level 1
    let expected_level_1 = base_value.mul(&multiplier);
    assert_eq!(level_1, expected_level_1);
}

#[test]
fn test_player_components_creation() {
    // Simple test for player component creation
    let base_hp = BaseHp(BigRat::from_u64(100));
    let base_attack = BaseAttack(BigRat::from_u64(10));
    let experience = Experience(BigRat::from_u64(0));
    let level = Level(1);

    assert_eq!(base_hp.0, BigRat::from_u64(100));
    assert_eq!(base_attack.0, BigRat::from_u64(10));
    assert_eq!(experience.0, BigRat::from_u64(0));
    assert_eq!(level.0, 1);
}

#[test]
fn test_damage_calculation_logic() {
    // Test the damage calculation logic used in combat systems
    let attack = BigRat::from_u64(15);
    let defense = BigRat::from_u64(8);
    let one = BigRat::from_u64(1);

    let actual_damage = attack.sub_clamped(&defense, &one);

    // Check that damage is positive and reasonable
    assert!(BigRat::from_u64(1).le(&actual_damage));
    assert!(BigRat::from_u64(6).le(&actual_damage));
    assert!(actual_damage.le(&BigRat::from_u64(8)));

    // Test minimum damage case
    let weak_attack = BigRat::from_u64(2);
    let strong_defense = BigRat::from_u64(10);

    let actual_min_damage = weak_attack.sub_clamped(&strong_defense, &one);
    assert!(actual_min_damage.eq_val(&BigRat::from_u64(1)));

    // Test another simple case
    let medium_attack = BigRat::from_u64(10);
    let medium_defense = BigRat::from_u64(5);
    let medium_damage = medium_attack.sub_clamped(&medium_defense, &one);

    assert!(BigRat::from_u64(4).le(&medium_damage));
    assert!(medium_damage.le(&BigRat::from_u64(6)));
}

#[test]
fn test_event_types() {
    // Test that events can be created and have expected fields
    let turn_event = TurnStartEvent { attacker: TurnAttacker::Player };
    assert_eq!(turn_event.attacker, TurnAttacker::Player);

    let attack_event = AttackEvent {
        attacker: TurnAttacker::Player,
        target: TurnAttacker::Enemy,
        damage: BigRat::from_u64(10),
    };
    assert_eq!(attack_event.damage, BigRat::from_u64(10));

    let exp_gain_event = ExpGainEvent { amount: BigRat::from_u64(25) };
    assert_eq!(exp_gain_event.amount, BigRat::from_u64(25));
}

#[test]
fn test_combat_winner_enum() {
    let player_wins = CombatWinner::Player;
    let enemy_wins = CombatWinner::Enemy;

    assert_eq!(player_wins, CombatWinner::Player);
    assert_eq!(enemy_wins, CombatWinner::Enemy);
    assert_ne!(player_wins, enemy_wins);
}

#[test]
fn test_turn_attacker_enum() {
    let player_turn = TurnAttacker::Player;
    let enemy_turn = TurnAttacker::Enemy;

    assert_eq!(player_turn, TurnAttacker::Player);
    assert_eq!(enemy_turn, TurnAttacker::Enemy);
    assert_ne!(player_turn, enemy_turn);
}
