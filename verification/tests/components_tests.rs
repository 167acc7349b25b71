use simple_idle_rpg::bigrat::BigRat;
use simple_idle_rpg::components::combat_stats::{
    CombatAttack, CombatDefense, CombatSpeed, CurrentHp, EnemyNumber, ExpReward, MaxHp,
};
use simple_idle_rpg::components::management_stats::{
    BaseAttack, BaseDefense, BaseHp, BaseSpeed, Experience, Level, RebirthPoints,
};
use simple_idle_rpg::components::markers::{
    AutomationConfig, CombatState, GameProgress, GameTab, UIState,
};

#[test]
fn test_management_stat_components() {
    let base_hp = BaseHp(BigRat::from_u64(100));
    let base_attack = BaseAttack(BigRat::from_u64(10));
    let base_defense = BaseDefense(BigRat::from_u64(5));
    let base_speed = BaseSpeed(BigRat::from_u64(1));
    let experience = Experience(BigRat::from_u64(50));
    let level = Level(5);
    let rebirth_points = RebirthPoints(BigRat::from_u64(10));

    assert_eq!(base_hp.0, BigRat::from_u64(100));
    assert_eq!(base_attack.0, BigRat::from_u64(10));
    assert_eq!(base_defense.0, BigRat::from_u64(5));
    assert_eq!(base_speed.0, BigRat::from_u64(1));
    assert_eq!(experience.0, BigRat::from_u64(50));
    assert_eq!(level.0, 5);
    assert_eq!(rebirth_points.0, BigRat::from_u64(10));
}

#[test]
fn test_combat_stat_components() {
    let current_hp = CurrentHp(BigRat::from_u64(80));
    let max_hp = MaxHp(BigRat::from_u64(100));
    let combat_attack = CombatAttack(BigRat::from_u64(15));
    let combat_defense = CombatDefense(BigRat::from_u64(8));
    let combat_speed = CombatSpeed(BigRat::from_u64(2));
    let exp_reward = ExpReward(BigRat::from_u64(25));
    let enemy_number = EnemyNumber(3);

    assert_eq!(current_hp.0, BigRat::from_u64(80));
    assert_eq!(max_hp.0, BigRat::from_u64(100));
    assert_eq!(combat_attack.0, BigRat::from_u64(15));
    assert_eq!(combat_defense.0, BigRat::from_u64(8));
    assert_eq!(combat_speed.0, BigRat::from_u64(2));
    assert_eq!(exp_reward.0, BigRat::from_u64(25));
    assert_eq!(enemy_number.0, 3);
}

#[test]
fn test_component_cloning() {
    let original_hp = BaseHp(BigRat::from_u64(100));
    let cloned_hp = original_hp.clone();

    assert_eq!(original_hp.0, cloned_hp.0);
    assert_eq!(original_hp, cloned_hp);
}

#[test]
fn test_combat_state() {
    let combat_state = CombatState { is_game_over: false, in_dungeon: true };

    assert!(!combat_state.is_game_over);
    assert!(combat_state.in_dungeon);
}

#[test]
fn test_game_progress() {
    let game_progress = GameProgress { current_enemy_number: 5, has_died_once: false };

    assert_eq!(game_progress.current_enemy_number, 5);
    assert!(!game_progress.has_died_once);
}

#[test]
fn test_ui_state() {
    let ui_state = UIState { current_tab: GameTab::Combat };

    assert_eq!(ui_state.current_tab, GameTab::Combat);
}

#[test]
fn test_automation_config() {
    let automation_config = AutomationConfig { auto_retry_unlocked: true, auto_retry_enabled: false };

    assert!(automation_config.auto_retry_unlocked);
    assert!(!automation_config.auto_retry_enabled);
}

#[test]
fn test_game_tab_equality() {
    assert_eq!(GameTab::Combat, GameTab::Combat);
    assert_eq!(GameTab::Rebirth, GameTab::Rebirth);
    assert_ne!(GameTab::Combat, GameTab::Rebirth);
}
