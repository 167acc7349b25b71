//! Upgradeable stats: one independently levelled record per upgradable
//! attribute, purchased with experience. Its standing invariant is
//! `currentValue == baseValue * upgradeMultiplier^level`, recomputed by the
//! growth function and never drifted.

use crate::bigrat::{rat_grow, rat_le, rat_mul, BigRat, Rat};
use vstd::prelude::*;

verus! {

#[derive(Debug, Clone, PartialEq)]
pub struct CurrentValue(pub BigRat);

/// Price of the next level; multiplied by the cost multiplier on purchase.
#[derive(Debug, Clone, PartialEq)]
pub struct UpgradeCost(pub BigRat);

/// Per-level growth rate of the stat's value (default 1.15).
#[derive(Debug, Clone, PartialEq)]
pub struct UpgradeMultiplier(pub BigRat);

/// Per-purchase growth rate of the cost (default 1.3).
#[derive(Debug, Clone, PartialEq)]
pub struct CostMultiplier(pub BigRat);

#[derive(Debug, Clone, PartialEq)]
pub struct BaseValue(pub BigRat);

#[derive(Debug, Clone, PartialEq)]
pub struct UpgradeLevel(pub u32);

/// Name tag grouping the parts of one upgradeable stat.
#[derive(Debug, Clone, PartialEq)]
pub struct UpgradeableStat {
    pub name: String,
}

impl UpgradeableStat {
    pub fn new(name: String) -> (r: Self)
        ensures
            r.name == name,
    {
        UpgradeableStat { name }
    }
}

/// Marker for the stat that feeds the maximum hit points.
#[derive(Debug, Clone, PartialEq, Eq)]
pub struct UpgradeableHp;

#[derive(Debug, Clone, PartialEq, Eq)]
pub struct UpgradeableAttack;

#[derive(Debug, Clone, PartialEq, Eq)]
pub struct UpgradeableDefense;

#[derive(Debug, Clone, PartialEq, Eq)]
pub struct UpgradeableSpeed;

/// All parts of one upgradeable stat, under a free-form name tag.
#[derive(Debug, Clone, PartialEq)]
pub struct UpgradeableStatBundle {
    pub upgradeable_stat: UpgradeableStat,
    pub current_value: CurrentValue,
    pub base_value: BaseValue,
    pub level: UpgradeLevel,
    pub upgrade_cost: UpgradeCost,
    pub upgrade_multiplier: UpgradeMultiplier,
    pub cost_multiplier: CostMultiplier,
}

#[derive(Debug, Clone, PartialEq)]
pub struct UpgradeableHpBundle {
    pub marker: UpgradeableHp,
    pub current_value: CurrentValue,
    pub base_value: BaseValue,
    pub level: UpgradeLevel,
    pub upgrade_cost: UpgradeCost,
    pub upgrade_multiplier: UpgradeMultiplier,
    pub cost_multiplier: CostMultiplier,
}

#[derive(Debug, Clone, PartialEq)]
pub struct UpgradeableAttackBundle {
    pub marker: UpgradeableAttack,
    pub current_value: CurrentValue,
    pub base_value: BaseValue,
    pub level: UpgradeLevel,
    pub upgrade_cost: UpgradeCost,
    pub upgrade_multiplier: UpgradeMultiplier,
    pub cost_multiplier: CostMultiplier,
}

#[derive(Debug, Clone, PartialEq)]
pub struct UpgradeableDefenseBundle {
    pub marker: UpgradeableDefense,
    pub current_value: CurrentValue,
    pub base_value: BaseValue,
    pub level: UpgradeLevel,
    pub upgrade_cost: UpgradeCost,
    pub upgrade_multiplier: UpgradeMultiplier,
    pub cost_multiplier: CostMultiplier,
}

#[derive(Debug, Clone, PartialEq)]
pub struct UpgradeableSpeedBundle {
    pub marker: UpgradeableSpeed,
    pub current_value: CurrentValue,
    pub base_value: BaseValue,
    pub level: UpgradeLevel,
    pub upgrade_cost: UpgradeCost,
    pub upgrade_multiplier: UpgradeMultiplier,
    pub cost_multiplier: CostMultiplier,
}

/// Shared shape of every bundle constructor: level 0, current value equal
/// to the base value, and the given cost and multipliers.
pub open spec fn fresh_bundle_parts(
    current_value: &CurrentValue,
    base_value_out: &BaseValue,
    level: &UpgradeLevel,
    upgrade_cost: &UpgradeCost,
    upgrade_multiplier: &UpgradeMultiplier,
    cost_multiplier: &CostMultiplier,
    base_value: Rat,
    initial_cost: Rat,
    um: Rat,
    cm: Rat,
) -> bool {
    &&& current_value.0@ == base_value
    &&& current_value.0.wf()
    &&& base_value_out.0@ == base_value
    &&& base_value_out.0.wf()
    &&& level.0 == 0
    &&& upgrade_cost.0@ == initial_cost
    &&& upgrade_cost.0.wf()
    &&& upgrade_multiplier.0@ == um
    &&& upgrade_multiplier.0.wf()
    &&& cost_multiplier.0@ == cm
    &&& cost_multiplier.0.wf()
}

impl UpgradeableStatBundle {
    pub fn new(
        name: String,
        base_value: BigRat,
        initial_cost: BigRat,
        upgrade_multiplier: BigRat,
        cost_multiplier: BigRat,
    ) -> (r: Self)
        requires
            base_value.wf(),
            initial_cost.wf(),
            upgrade_multiplier.wf(),
            cost_multiplier.wf(),
        ensures
            r.upgradeable_stat.name == name,
            fresh_bundle_parts(
                &r.current_value,
                &r.base_value,
                &r.level,
                &r.upgrade_cost,
                &r.upgrade_multiplier,
                &r.cost_multiplier,
                base_value@,
                initial_cost@,
                upgrade_multiplier@,
                cost_multiplier@,
            ),
    {
        UpgradeableStatBundle {
            upgradeable_stat: UpgradeableStat::new(name),
            current_value: CurrentValue(base_value.dup()),
            base_value: BaseValue(base_value),
            level: UpgradeLevel(0),
            upgrade_cost: UpgradeCost(initial_cost),
            upgrade_multiplier: UpgradeMultiplier(upgrade_multiplier),
            cost_multiplier: CostMultiplier(cost_multiplier),
        }
    }
}

impl UpgradeableHpBundle {
    pub fn new(
        base_value: BigRat,
        initial_cost: BigRat,
        upgrade_multiplier: BigRat,
        cost_multiplier: BigRat,
    ) -> (r: Self)
        requires
            base_value.wf(),
            initial_cost.wf(),
            upgrade_multiplier.wf(),
            cost_multiplier.wf(),
        ensures
            fresh_bundle_parts(
                &r.current_value,
                &r.base_value,
                &r.level,
                &r.upgrade_cost,
                &r.upgrade_multiplier,
                &r.cost_multiplier,
                base_value@,
                initial_cost@,
                upgrade_multiplier@,
                cost_multiplier@,
            ),
    {
        UpgradeableHpBundle {
            marker: UpgradeableHp,
            current_value: CurrentValue(base_value.dup()),
            base_value: BaseValue(base_value),
            level: UpgradeLevel(0),
            upgrade_cost: UpgradeCost(initial_cost),
            upgrade_multiplier: UpgradeMultiplier(upgrade_multiplier),
            cost_multiplier: CostMultiplier(cost_multiplier),
        }
    }
}

impl UpgradeableAttackBundle {
    pub fn new(
        base_value: BigRat,
        initial_cost: BigRat,
        upgrade_multiplier: BigRat,
        cost_multiplier: BigRat,
    ) -> (r: Self)
        requires
            base_value.wf(),
            initial_cost.wf(),
            upgrade_multiplier.wf(),
            cost_multiplier.wf(),
        ensures
            fresh_bundle_parts(
                &r.current_value,
                &r.base_value,
                &r.level,
                &r.upgrade_cost,
                &r.upgrade_multiplier,
                &r.cost_multiplier,
                base_value@,
                initial_cost@,
                upgrade_multiplier@,
                cost_multiplier@,
            ),
    {
        UpgradeableAttackBundle {
            marker: UpgradeableAttack,
            current_value: CurrentValue(base_value.dup()),
            base_value: BaseValue(base_value),
            level: UpgradeLevel(0),
            upgrade_cost: UpgradeCost(initial_cost),
            upgrade_multiplier: UpgradeMultiplier(upgrade_multiplier),
            cost_multiplier: CostMultiplier(cost_multiplier),
        }
    }
}

impl UpgradeableDefenseBundle {
    pub fn new(
        base_value: BigRat,
        initial_cost: BigRat,
        upgrade_multiplier: BigRat,
        cost_multiplier: BigRat,
    ) -> (r: Self)
        requires
            base_value.wf(),
            initial_cost.wf(),
            upgrade_multiplier.wf(),
            cost_multiplier.wf(),
        ensures
            fresh_bundle_parts(
                &r.current_value,
                &r.base_value,
                &r.level,
                &r.upgrade_cost,
                &r.upgrade_multiplier,
                &r.cost_multiplier,
                base_value@,
                initial_cost@,
                upgrade_multiplier@,
                cost_multiplier@,
            ),
    {
        UpgradeableDefenseBundle {
            marker: UpgradeableDefense,
            current_value: CurrentValue(base_value.dup()),
            base_value: BaseValue(base_value),
            level: UpgradeLevel(0),
            upgrade_cost: UpgradeCost(initial_cost),
            upgrade_multiplier: UpgradeMultiplier(upgrade_multiplier),
            cost_multiplier: CostMultiplier(cost_multiplier),
        }
    }
}

impl UpgradeableSpeedBundle {
    pub fn new(
        base_value: BigRat,
        initial_cost: BigRat,
        upgrade_multiplier: BigRat,
        cost_multiplier: BigRat,
    ) -> (r: Self)
        requires
            base_value.wf(),
            initial_cost.wf(),
            upgrade_multiplier.wf(),
            cost_multiplier.wf(),
        ensures
            fresh_bundle_parts(
                &r.current_value,
                &r.base_value,
                &r.level,
                &r.upgrade_cost,
                &r.upgrade_multiplier,
                &r.cost_multiplier,
                base_value@,
                initial_cost@,
                upgrade_multiplier@,
                cost_multiplier@,
            ),
    {
        UpgradeableSpeedBundle {
            marker: UpgradeableSpeed,
            current_value: CurrentValue(base_value.dup()),
            base_value: BaseValue(base_value),
            level: UpgradeLevel(0),
            upgrade_cost: UpgradeCost(initial_cost),
            upgrade_multiplier: UpgradeMultiplier(upgrade_multiplier),
            cost_multiplier: CostMultiplier(cost_multiplier),
        }
    }
}

/// A stat can be upgraded exactly when its cost does not exceed the
/// available resource.
pub fn can_upgrade(available_resource: &BigRat, upgrade_cost: &UpgradeCost) -> (r: bool)
    requires
        available_resource.wf(),
        upgrade_cost.0.wf(),
    ensures
        r == rat_le(upgrade_cost.0@, available_resource@),
{
    upgrade_cost.0.le(available_resource)
}

/// Recompute a stat's current value from its base value, level and
/// multiplier: `base * multiplier^level`, by repeated multiplication.
pub fn recalculate_current_value(
    base_value: &BaseValue,
    level: &UpgradeLevel,
    multiplier: &UpgradeMultiplier,
) -> (r: BigRat)
    requires
        base_value.0.wf(),
        multiplier.0.wf(),
    ensures
        r.wf(),
        r@ == rat_grow(base_value.0@, multiplier.0@, level.0 as nat),
{
    calculate_exponential_growth(base_value.0.dup(), multiplier.0.dup(), level.0)
}

/// `base` multiplied by `multiplier` exactly `level` times; `level == 0`
/// returns `base` unchanged.
pub fn calculate_exponential_growth(base: BigRat, multiplier: BigRat, level: u32) -> (r: BigRat)
    requires
        base.wf(),
        multiplier.wf(),
    ensures
        r.wf(),
        r@ == rat_grow(base@, multiplier@, level as nat),
{
    let mut result = base;
    let ghost b: Rat = result@;
    let mut i: u32 = 0;
    while i < level
        invariant
            i <= level,
            result.wf(),
            multiplier.wf(),
            result@ == rat_grow(b, multiplier@, i as nat),
        decreases level - i,
    {
        result = result.mul(&multiplier);
        i = i + 1;
    }
    result
}

/// Growth function determinism: growing one level further multiplies the
/// result by the multiplier exactly once, and level zero is the base itself.
pub proof fn lemma_growth_determinism(base: Rat, m: Rat, level: nat)
    ensures
        rat_grow(base, m, level + 1) == rat_mul(rat_grow(base, m, level), m),
        rat_grow(base, m, 0) == base,
{
}

} // verus!
