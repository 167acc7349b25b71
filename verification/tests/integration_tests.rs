use simple_idle_rpg::bigrat::BigRat;
use simple_idle_rpg::components::combat_stats::{
    AttackCooldown, CombatAttack, CombatDefense, CombatSpeed, CurrentHp, EnemyNumber, ExpReward,
    MaxHp,
};
use simple_idle_rpg::components::management_stats::{
    BaseAttack, BaseDefense, BaseHp, BaseSpeed, Experience, Level, RebirthPoints,
};
use simple_idle_rpg::components::markers::{CombatState, GameProgress, GameTab, UIState};
use simple_idle_rpg::components::upgradeable_stats::calculate_exponential_growth;
use simple_idle_rpg::events::{
    AttackEvent, EnemyDeathEvent, ExpGainEvent, TurnAttacker, TurnStartEvent,
};
use simple_idle_rpg::state::{CombatantStats, EnemyEntity, GameWorld, PlayerEntity};

fn player_record(
    hp: u64,
    attack: u64,
    defense: u64,
    speed: u64,
    exp: u64,
    level: u32,
    rebirth: u64,
) -> PlayerEntity {
    PlayerEntity {
        base_hp: BaseHp(BigRat::from_u64(hp)),
        base_attack: BaseAttack(BigRat::from_u64(attack)),
        base_defense: BaseDefense(BigRat::from_u64(defense)),
        base_speed: BaseSpeed(BigRat::from_u64(speed)),
        experience: Experience(BigRat::from_u64(exp)),
        level: Level(level),
        rebirth_points: RebirthPoints(BigRat::from_u64(rebirth)),
    }
}

#[test]
fn test_component_integration() {
    // A player entity carrying both management and combat stats
    let mut world = GameWorld::new();
    world.player = Some(player_record(100, 10, 5, 1, 50, 3, 0));
    world.player_combat = Some(CombatantStats {
        current_hp: CurrentHp(BigRat::from_u64(80)),
        max_hp: MaxHp(BigRat::from_u64(100)),
        attack: CombatAttack(BigRat::from_u64(12)),
        defense: CombatDefense(BigRat::from_u64(5)),
        speed: CombatSpeed(BigRat::from_u64(1)),
        cooldown: AttackCooldown(BigRat::from_u64(0)),
    });

    // Access the individual management components
    let player = world.player.as_ref().unwrap();
    assert_eq!(player.base_hp.0, BigRat::from_u64(100));
    assert_eq!(player.base_attack.0, BigRat::from_u64(10));
    assert_eq!(player.experience.0, BigRat::from_u64(50));
    assert_eq!(player.level.0, 3);

    // And the combat components
    let combat = world.player_combat.as_ref().unwrap();
    assert_eq!(combat.current_hp.0, BigRat::from_u64(80));
    assert_eq!(combat.attack.0, BigRat::from_u64(12));
}

#[test]
fn test_event_creation_and_fields() {
    // Test all event types can be created and have correct fields
    let turn_event = TurnStartEvent { attacker: TurnAttacker::Player };
    assert_eq!(turn_event.attacker, TurnAttacker::Player);

    let attack_event = AttackEvent {
        attacker: TurnAttacker::Player,
        target: TurnAttacker::Enemy,
        damage: BigRat::from_u64(15),
    };
    assert_eq!(attack_event.damage, BigRat::from_u64(15));

    let exp_event = ExpGainEvent { amount: BigRat::from_u64(30) };
    assert_eq!(exp_event.amount, BigRat::from_u64(30));

    let enemy_death = EnemyDeathEvent { enemy_number: 5, exp_reward: BigRat::from_u64(25) };
    assert_eq!(enemy_death.enemy_number, 5);
    assert_eq!(enemy_death.exp_reward, BigRat::from_u64(25));
}

#[test]
fn test_enemy_scaling_logic() {
    // Test the exponential growth calculation used in enemy scaling
    let base_hp = BigRat::from_u64(20);
    let multiplier = BigRat::from_ratio(3, 2);

    let enemy_1_hp = calculate_exponential_growth(base_hp.dup(), multiplier.dup(), 1);
    let enemy_3_hp = calculate_exponential_growth(base_hp.dup(), multiplier.dup(), 3);
    let enemy_5_hp = calculate_exponential_growth(base_hp.dup(), multiplier.dup(), 5);

    // Higher level enemies should have more HP
    assert!(enemy_1_hp.lt(&enemy_3_hp));
    assert!(enemy_3_hp.lt(&enemy_5_hp));

    // Check actual values for enemy 1 (base_hp * multiplier^1)
    let expected_enemy_1_hp = base_hp.mul(&multiplier);
    assert_eq!(enemy_1_hp, expected_enemy_1_hp);
}

#[test]
fn test_game_state_and_enums() {
    let combat_state = CombatState { is_game_over: false, in_dungeon: false };
    let progress = GameProgress { current_enemy_number: 10, has_died_once: false };
    let ui_state = UIState { current_tab: GameTab::Combat };

    assert!(!combat_state.is_game_over);
    assert_eq!(progress.current_enemy_number, 10);
    assert_eq!(ui_state.current_tab, GameTab::Combat);

    // Test enum equality
    assert_eq!(GameTab::Combat, GameTab::Combat);
    assert_ne!(GameTab::Combat, GameTab::Rebirth);

    assert_eq!(TurnAttacker::Player, TurnAttacker::Player);
    assert_ne!(TurnAttacker::Player, TurnAttacker::Enemy);
}

#[test]
fn test_component_bundles() {
    // Entities with multiple related components, one per entity kind
    let mut world = GameWorld::new();

    // Player entity with management stats
    world.player = Some(player_record(200, 25, 15, 3, 100, 5, 2));

    // Enemy entity with combat stats
    world.enemy = Some(EnemyEntity {
        stats: CombatantStats {
            current_hp: CurrentHp(BigRat::from_u64(150)),
            max_hp: MaxHp(BigRat::from_u64(150)),
            attack: CombatAttack(BigRat::from_u64(20)),
            defense: CombatDefense(BigRat::from_u64(10)),
            speed: CombatSpeed(BigRat::from_u64(2)),
            cooldown: AttackCooldown(BigRat::from_u64(0)),
        },
        exp_reward: ExpReward(BigRat::from_u64(40)),
        enemy_number: EnemyNumber(7),
    });

    // Verify player exists and has all components
    assert!(world.player.is_some());
    let player = world.player.as_ref().unwrap();
    assert_eq!(player.base_hp.0, BigRat::from_u64(200));
    assert_eq!(player.experience.0, BigRat::from_u64(100));

    // Verify enemy exists and has all components
    assert!(world.enemy.is_some());
    let enemy = world.enemy.as_ref().unwrap();
    assert_eq!(enemy.stats.current_hp.0, BigRat::from_u64(150));
    assert_eq!(enemy.exp_reward.0, BigRat::from_u64(40));

    // Verify separation - the player's combat side is a distinct slot
    assert!(world.player_combat.is_none());
    assert_eq!(enemy.enemy_number.0, 7);
}
