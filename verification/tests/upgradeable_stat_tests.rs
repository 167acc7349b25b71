use simple_idle_rpg::bigrat::BigRat;
use simple_idle_rpg::components::upgradeable_stats::{
    calculate_exponential_growth, can_upgrade, recalculate_current_value, BaseValue,
    CostMultiplier, CurrentValue, UpgradeCost, UpgradeLevel, UpgradeMultiplier, UpgradeableStat,
    UpgradeableStatBundle,
};

#[test]
fn test_upgradeable_stat_creation() {
    let stat = UpgradeableStat::new("Attack".to_string());
    assert_eq!(stat.name, "Attack");
}

#[test]
fn test_upgradeable_stat_bundle_creation() {
    let bundle = UpgradeableStatBundle::new(
        "Attack".to_string(),
        BigRat::from_u64(10),
        BigRat::from_u64(100),
        BigRat::from_ratio(115, 100),
        BigRat::from_ratio(13, 10),
    );

    assert_eq!(bundle.upgradeable_stat.name, "Attack");
    assert_eq!(bundle.current_value.0, BigRat::from_u64(10));
    assert_eq!(bundle.base_value.0, BigRat::from_u64(10));
    assert_eq!(bundle.level.0, 0);
    assert_eq!(bundle.upgrade_cost.0, BigRat::from_u64(100));
    assert_eq!(bundle.upgrade_multiplier.0, BigRat::from_ratio(115, 100));
    assert_eq!(bundle.cost_multiplier.0, BigRat::from_ratio(13, 10));
}

#[test]
fn test_can_upgrade() {
    let upgrade_cost = UpgradeCost(BigRat::from_u64(100));

    assert!(can_upgrade(&BigRat::from_u64(100), &upgrade_cost));
    assert!(can_upgrade(&BigRat::from_u64(150), &upgrade_cost));
    assert!(!can_upgrade(&BigRat::from_u64(50), &upgrade_cost));
}

#[test]
fn test_recalculate_current_value() {
    let base_value = BaseValue(BigRat::from_u64(10));
    let level = UpgradeLevel(3);
    let multiplier = UpgradeMultiplier(BigRat::from_ratio(3, 2));

    let result = recalculate_current_value(&base_value, &level, &multiplier);

    let expected = BigRat::from_u64(10)
        .mul(&BigRat::from_ratio(3, 2))
        .mul(&BigRat::from_ratio(3, 2))
        .mul(&BigRat::from_ratio(3, 2));
    assert_eq!(result, expected);
}

#[test]
fn test_individual_components() {
    let current_value = CurrentValue(BigRat::from_u64(10));
    let upgrade_cost = UpgradeCost(BigRat::from_u64(100));
    let upgrade_multiplier = UpgradeMultiplier(BigRat::from_ratio(115, 100));
    let cost_multiplier = CostMultiplier(BigRat::from_ratio(13, 10));
    let base_value = BaseValue(BigRat::from_u64(10));
    let level = UpgradeLevel(0);

    assert_eq!(current_value.0, BigRat::from_u64(10));
    assert_eq!(upgrade_cost.0, BigRat::from_u64(100));
    assert_eq!(upgrade_multiplier.0, BigRat::from_ratio(115, 100));
    assert_eq!(cost_multiplier.0, BigRat::from_ratio(13, 10));
    assert_eq!(base_value.0, BigRat::from_u64(10));
    assert_eq!(level.0, 0);
}

#[test]
fn test_exponential_growth() {
    let result = calculate_exponential_growth(BigRat::from_u64(10), BigRat::from_ratio(3, 2), 3);

    let expected = BigRat::from_u64(10)
        .mul(&BigRat::from_ratio(3, 2))
        .mul(&BigRat::from_ratio(3, 2))
        .mul(&BigRat::from_ratio(3, 2));
    assert_eq!(result, expected);
}
