//! The upgrade engine: greedily and exhaustively spends experience on
//! every affordable upgrade until none is left affordable, the reactive
//! recompute of current values, and the synchronization of management
//! stats into live combat stats.

use crate::bigrat::{
    lemma_rat_grow_props, lemma_rat_le_add, lemma_rat_le_trans, rat_add, rat_eq, rat_grow, rat_le,
    rat_mul, rat_sub, rat_zero, BigRat, Rat,
};
use crate::components::upgradeable_stats::{
    can_upgrade, recalculate_current_value, UpgradeableStatBundle,
};
use crate::state::{bundle_wf, CombatantStats, GameWorld, UpgradeSet};
use vstd::arithmetic::div_mod::{
    lemma_div_is_ordered, lemma_div_multiples_vanish, lemma_fundamental_div_mod,
    lemma_mod_division_less_than_divisor,
};
use vstd::arithmetic::mul::lemma_mul_strictly_positive;
use vstd::prelude::*;

verus! {

/// Which of the four upgradeable stats a purchase targeted.
#[derive(Debug, Clone, Copy, PartialEq, Eq, Structural)]
pub enum StatKind {
    Hp,
    Attack,
    Defense,
    Speed,
}

/// Ghost model of one upgradeable stat.
pub struct StatModel {
    pub base: Rat,
    pub um: Rat,
    pub cm: Rat,
    pub level: nat,
    pub cost: Rat,
    pub current: Rat,
}

/// Ghost model of the upgrade engine's state: the experience pool and the
/// four stats.
pub struct EngineModel {
    pub exp: Rat,
    pub hp: StatModel,
    pub attack: StatModel,
    pub defense: StatModel,
    pub speed: StatModel,
}

pub open spec fn stat_model_of(b: UpgradeableStatBundle) -> StatModel {
    StatModel {
        base: b.base_value.0@,
        um: b.upgrade_multiplier.0@,
        cm: b.cost_multiplier.0@,
        level: b.level.0 as nat,
        cost: b.upgrade_cost.0@,
        current: b.current_value.0@,
    }
}

pub open spec fn engine_model_of(exp: Rat, u: UpgradeSet) -> EngineModel {
    EngineModel {
        exp,
        hp: stat_model_of(u.hp),
        attack: stat_model_of(u.attack),
        defense: stat_model_of(u.defense),
        speed: stat_model_of(u.speed),
    }
}

pub open spec fn stat_of(m: EngineModel, k: StatKind) -> StatModel {
    match k {
        StatKind::Hp => m.hp,
        StatKind::Attack => m.attack,
        StatKind::Defense => m.defense,
        StatKind::Speed => m.speed,
    }
}

/// A stat can be bought when its cost is covered by the experience pool
/// and its level counter has room (a machine limit, not a game rule).
pub open spec fn affordable(m: EngineModel, k: StatKind) -> bool {
    rat_le(stat_of(m, k).cost, m.exp) && stat_of(m, k).level < 0xffff_ffffnat
}

/// The experience pool after paying a cost (clamped subtraction; the
/// clamp never engages on a valid purchase, where cost <= exp).
pub open spec fn exp_after_purchase(e: Rat, c: Rat) -> Rat {
    if rat_le(e, c) {
        rat_zero()
    } else {
        rat_sub(e, c)
    }
}

/// One purchase: the level rises by one, the current value is recomputed
/// through the growth function, and the cost is multiplied by the cost
/// multiplier.
pub open spec fn buy(s: StatModel) -> StatModel {
    StatModel {
        base: s.base,
        um: s.um,
        cm: s.cm,
        level: s.level + 1,
        cost: rat_mul(s.cost, s.cm),
        current: rat_grow(s.base, s.um, s.level + 1),
    }
}

pub open spec fn step(m: EngineModel, k: StatKind) -> EngineModel {
    let e = exp_after_purchase(m.exp, stat_of(m, k).cost);
    match k {
        StatKind::Hp => EngineModel { exp: e, hp: buy(m.hp), ..m },
        StatKind::Attack => EngineModel { exp: e, attack: buy(m.attack), ..m },
        StatKind::Defense => EngineModel { exp: e, defense: buy(m.defense), ..m },
        StatKind::Speed => EngineModel { exp: e, speed: buy(m.speed), ..m },
    }
}

/// The state after a whole purchase sequence.
pub open spec fn fold_steps(m: EngineModel, tr: Seq<StatKind>) -> EngineModel
    decreases tr.len(),
{
    if tr.len() == 0 {
        m
    } else {
        fold_steps(step(m, tr[0]), tr.drop_first())
    }
}

/// Every purchase in the sequence was affordable when it was made.
pub open spec fn trace_valid(m: EngineModel, tr: Seq<StatKind>) -> bool
    decreases tr.len(),
{
    if tr.len() == 0 {
        true
    } else {
        affordable(m, tr[0]) && trace_valid(step(m, tr[0]), tr.drop_first())
    }
}

pub proof fn lemma_fold_steps_snoc(m: EngineModel, tr: Seq<StatKind>, k: StatKind)
    ensures
        fold_steps(m, tr.push(k)) == step(fold_steps(m, tr), k),
        trace_valid(m, tr.push(k)) == (trace_valid(m, tr) && affordable(fold_steps(m, tr), k)),
    decreases tr.len(),
{
    if tr.len() == 0 {
        assert(tr.push(k).drop_first() =~= Seq::<StatKind>::empty());
        assert(tr.push(k)[0] == k);
        assert(fold_steps(step(m, k), tr.push(k).drop_first()) == step(m, k));
        assert(fold_steps(m, tr) == m);
        assert(trace_valid(step(m, k), tr.push(k).drop_first()));
        assert(trace_valid(m, tr));
    } else {
        assert(tr.push(k).drop_first() =~= tr.drop_first().push(k));
        lemma_fold_steps_snoc(step(m, tr[0]), tr.drop_first(), k);
    }
}

/// Termination measure of the purchase loop: how many multiples of the
/// lower cost bound `c` fit into the experience pool `e`.
pub open spec fn upgrade_measure(e: Rat, c: Rat) -> nat {
    (e.n * c.d) / (e.d * c.n)
}

/// After spending at least `c` out of `e`, strictly fewer multiples of
/// `c` fit into what is left: the greedy loop terminates because the
/// experience strictly decreases and costs stay positive.
pub proof fn lemma_measure_decreases(e2: Rat, e1: Rat, c: Rat)
    requires
        e1.d > 0,
        e2.d > 0,
        c.d > 0,
        c.n > 0,
        rat_le(rat_add(e2, c), e1),
    ensures
        upgrade_measure(e2, c) < upgrade_measure(e1, c),
{
    let a2 = e2.n * c.d;
    let b2 = e2.d * c.n;
    let a1 = e1.n * c.d;
    let b1 = e1.d * c.n;
    lemma_mul_strictly_positive(e2.d as int, c.n as int);
    lemma_mul_strictly_positive(e1.d as int, c.n as int);
    let q2 = a2 / b2;
    // (e2 + c <= e1), cross-multiplied and rescaled by c.n, says
    // (a2 + b2) * b1 <= a1 * b2.
    assert((a2 + b2) * b1 <= a1 * b2) by (nonlinear_arith)
        requires
            (e2.n * c.d + c.n * e2.d) * e1.d <= e1.n * (e2.d * c.d),
            a2 == e2.n * c.d,
            b2 == e2.d * c.n,
            a1 == e1.n * c.d,
            b1 == e1.d * c.n,
    {}
    lemma_fundamental_div_mod(a2 as int, b2 as int);
    lemma_mod_division_less_than_divisor(a2 as int, b2 as int);
    assert(a2 >= q2 * b2);
    assert(a1 >= (q2 + 1) * b1) by (nonlinear_arith)
        requires
            a2 >= q2 * b2,
            (a2 + b2) * b1 <= a1 * b2,
            b1 > 0,
            b2 > 0,
    {}
    lemma_div_multiples_vanish((q2 + 1) as int, b1 as int);
    lemma_div_is_ordered(((q2 + 1) * b1) as int, a1 as int, b1 as int);
}

/// Costs only grow: a purchase multiplies the cost by a multiplier of at
/// least one, so any lower bound on a cost keeps holding.
pub proof fn lemma_cost_grows(c: Rat, cm: Rat)
    requires
        c.d > 0,
        cm.d > 0,
        cm.n >= cm.d,
    ensures
        rat_le(c, rat_mul(c, cm)),
{
    assert(c.n * (c.d * cm.d) <= (c.n * cm.n) * c.d) by (nonlinear_arith)
        requires
            cm.n >= cm.d,
            c.d > 0,
            cm.d > 0,
    {}
}

/// Paying a cost that is at least `cmin` out of `e` leaves a pool at
/// least `cmin` below `e`.
pub proof fn lemma_purchase_gap(e: Rat, c: Rat, cmin: Rat)
    requires
        e.d > 0,
        c.d > 0,
        cmin.d > 0,
        rat_le(cmin, c),
        rat_le(c, e),
    ensures
        rat_le(rat_add(exp_after_purchase(e, c), cmin), e),
{
    if rat_le(e, c) {
        // The pool is spent exactly: what is left is zero, and
        // `0 + cmin <= e` because `cmin <= c` and `c` and `e` are equal.
        assert((0 * e.d + cmin.n * 1) * e.d <= e.n * (1 * cmin.d)) by (nonlinear_arith)
            requires
                cmin.n * c.d <= c.n * cmin.d,
                c.n * e.d <= e.n * c.d,
                e.n * c.d <= c.n * e.d,
                e.d > 0,
                c.d > 0,
                cmin.d > 0,
        {}
    } else {
        let s = rat_sub(e, c);
        assert((s.n * cmin.d + cmin.n * s.d) * e.d <= e.n * (s.d * cmin.d)) by (nonlinear_arith)
            requires
                s.n == e.n * c.d - c.n * e.d,
                s.d == e.d * c.d,
                cmin.n * c.d <= c.n * cmin.d,
                e.n * c.d > c.n * e.d,
                e.d > 0,
                c.d > 0,
                cmin.d > 0,
        {}
    }
}

/// The comparison of rationals is total: of two well-formed values, one
/// is at most the other.
pub proof fn lemma_rat_le_total(a: Rat, b: Rat)
    ensures
        rat_le(a, b) || rat_le(b, a),
{
}

/// Buy one level of one stat if its cost is covered and its level
/// counter has room; deduct the cost, recompute the current value
/// through the growth function, and raise the cost.
fn try_upgrade_one(
    exp: &mut crate::components::management_stats::Experience,
    stat: &mut UpgradeableStatBundle,
) -> (bought: bool)
    requires
        old(exp).0.wf(),
        bundle_wf(*old(stat)),
    ensures
        final(exp).0.wf(),
        bundle_wf(*final(stat)),
        bought == (rat_le(old(stat).upgrade_cost.0@, old(exp).0@) && old(stat).level.0
            < 0xffff_ffffu32),
        !bought ==> (*final(stat) == *old(stat) && *final(exp) == *old(exp)),
        bought ==> ({
            &&& final(exp).0@ == exp_after_purchase(old(exp).0@, old(stat).upgrade_cost.0@)
            &&& final(stat).upgradeable_stat == old(stat).upgradeable_stat
            &&& final(stat).base_value == old(stat).base_value
            &&& final(stat).upgrade_multiplier == old(stat).upgrade_multiplier
            &&& final(stat).cost_multiplier == old(stat).cost_multiplier
            &&& final(stat).level.0 == old(stat).level.0 + 1
            &&& final(stat).upgrade_cost.0@ == rat_mul(
                old(stat).upgrade_cost.0@,
                old(stat).cost_multiplier.0@,
            )
            &&& final(stat).current_value.0@ == rat_grow(
                old(stat).base_value.0@,
                old(stat).upgrade_multiplier.0@,
                (old(stat).level.0 + 1) as nat,
            )
        }),
{
    if stat.level.0 == 0xffff_ffffu32 {
        return false;
    }
    if !can_upgrade(&exp.0, &stat.upgrade_cost) {
        return false;
    }
    let cost = stat.upgrade_cost.0.dup();
    let new_exp = exp.0.sub_or_zero(&cost);
    exp.0 = new_exp;
    stat.level.0 = stat.level.0 + 1;
    let new_current = recalculate_current_value(
        &stat.base_value,
        &stat.level,
        &stat.upgrade_multiplier,
    );
    let new_cost = stat.upgrade_cost.0.mul(&stat.cost_multiplier.0);
    proof {
        lemma_rat_grow_props(
            stat.base_value.0@,
            stat.upgrade_multiplier.0@,
            stat.level.0 as nat,
        );
        lemma_mul_strictly_positive(
            stat.upgrade_cost.0@.n as int,
            stat.cost_multiplier.0@.n as int,
        );
    }
    stat.current_value.0 = new_current;
    stat.upgrade_cost.0 = new_cost;
    true
}

/// Repeatedly scan the four stats and buy every affordable upgrade until
/// a whole pass buys nothing. The loop terminates because experience
/// strictly decreases with every purchase while costs stay positive and
/// never shrink.
fn run_upgrade_passes(
    exp: &mut crate::components::management_stats::Experience,
    u: &mut UpgradeSet,
)
    requires
        old(exp).0.wf(),
        old(u).wf(),
    ensures
        final(exp).0.wf(),
        final(u).wf(),
        final(u).hp.upgradeable_stat == old(u).hp.upgradeable_stat,
        final(u).attack.upgradeable_stat == old(u).attack.upgradeable_stat,
        final(u).defense.upgradeable_stat == old(u).defense.upgradeable_stat,
        final(u).speed.upgradeable_stat == old(u).speed.upgradeable_stat,
        crate::state::bundle_invariant(old(u).hp) ==> crate::state::bundle_invariant(final(u).hp),
        crate::state::bundle_invariant(old(u).attack) ==> crate::state::bundle_invariant(
            final(u).attack,
        ),
        crate::state::bundle_invariant(old(u).defense) ==> crate::state::bundle_invariant(
            final(u).defense,
        ),
        crate::state::bundle_invariant(old(u).speed) ==> crate::state::bundle_invariant(
            final(u).speed,
        ),
        ({
            let m0 = engine_model_of(old(exp).0@, *old(u));
            let m1 = engine_model_of(final(exp).0@, *final(u));
            &&& exists|tr: Seq<StatKind>|
                trace_valid(m0, tr) && m1 == #[trigger] fold_steps(m0, tr)
            &&& !affordable(m1, StatKind::Hp)
            &&& !affordable(m1, StatKind::Attack)
            &&& !affordable(m1, StatKind::Defense)
            &&& !affordable(m1, StatKind::Speed)
        }),
{
    let ghost m0: EngineModel = engine_model_of(exp.0@, *u);
    let ghost mut tr: Seq<StatKind> = Seq::empty();
    // A positive lower bound on every cost, fixed for the whole run.
    let ghost c1: Rat = u.hp.upgrade_cost.0@;
    let ghost c2: Rat = u.attack.upgrade_cost.0@;
    let ghost c3: Rat = u.defense.upgrade_cost.0@;
    let ghost c4: Rat = u.speed.upgrade_cost.0@;
    let ghost m01: Rat = if rat_le(c1, c2) {
        c1
    } else {
        c2
    };
    let ghost m02: Rat = if rat_le(m01, c3) {
        m01
    } else {
        c3
    };
    let ghost cmin: Rat = if rat_le(m02, c4) {
        m02
    } else {
        c4
    };
    proof {
        lemma_rat_le_total(c1, c2);
        lemma_rat_le_total(m01, c3);
        lemma_rat_le_total(m02, c4);
        assert(rat_le(m01, c1) && rat_le(m01, c2));
        lemma_rat_le_trans(m02, m01, c1);
        lemma_rat_le_trans(m02, m01, c2);
        lemma_rat_le_trans(cmin, m02, c1);
        lemma_rat_le_trans(cmin, m02, c2);
        lemma_rat_le_trans(cmin, m02, c3);
    }
    loop
        invariant
            exp.0.wf(),
            u.wf(),
            cmin.n > 0,
            cmin.d > 0,
            rat_le(cmin, u.hp.upgrade_cost.0@),
            rat_le(cmin, u.attack.upgrade_cost.0@),
            rat_le(cmin, u.defense.upgrade_cost.0@),
            rat_le(cmin, u.speed.upgrade_cost.0@),
            trace_valid(m0, tr),
            engine_model_of(exp.0@, *u) == fold_steps(m0, tr),
            u.hp.upgradeable_stat == old(u).hp.upgradeable_stat,
            u.attack.upgradeable_stat == old(u).attack.upgradeable_stat,
            u.defense.upgradeable_stat == old(u).defense.upgradeable_stat,
            u.speed.upgradeable_stat == old(u).speed.upgradeable_stat,
            crate::state::bundle_invariant(old(u).hp) ==> crate::state::bundle_invariant(u.hp),
            crate::state::bundle_invariant(old(u).attack) ==> crate::state::bundle_invariant(
                u.attack,
            ),
            crate::state::bundle_invariant(old(u).defense) ==> crate::state::bundle_invariant(
                u.defense,
            ),
            crate::state::bundle_invariant(old(u).speed) ==> crate::state::bundle_invariant(
                u.speed,
            ),
        ensures
            exp.0.wf(),
            u.wf(),
            trace_valid(m0, tr),
            engine_model_of(exp.0@, *u) == fold_steps(m0, tr),
            u.hp.upgradeable_stat == old(u).hp.upgradeable_stat,
            u.attack.upgradeable_stat == old(u).attack.upgradeable_stat,
            u.defense.upgradeable_stat == old(u).defense.upgradeable_stat,
            u.speed.upgradeable_stat == old(u).speed.upgradeable_stat,
            crate::state::bundle_invariant(old(u).hp) ==> crate::state::bundle_invariant(u.hp),
            crate::state::bundle_invariant(old(u).attack) ==> crate::state::bundle_invariant(
                u.attack,
            ),
            crate::state::bundle_invariant(old(u).defense) ==> crate::state::bundle_invariant(
                u.defense,
            ),
            crate::state::bundle_invariant(old(u).speed) ==> crate::state::bundle_invariant(
                u.speed,
            ),
            !affordable(engine_model_of(exp.0@, *u), StatKind::Hp),
            !affordable(engine_model_of(exp.0@, *u), StatKind::Attack),
            !affordable(engine_model_of(exp.0@, *u), StatKind::Defense),
            !affordable(engine_model_of(exp.0@, *u), StatKind::Speed),
        decreases upgrade_measure(exp.0@, cmin),
    {
        let ghost e_pass: Rat = exp.0@;

        let ghost mprev: EngineModel = engine_model_of(exp.0@, *u);
        let ghost ch: Rat = u.hp.upgrade_cost.0@;
        let ghost cmh: Rat = u.hp.cost_multiplier.0@;
        let b1 = try_upgrade_one(exp, &mut u.hp);
        proof {
            if b1 {
                lemma_fold_steps_snoc(m0, tr, StatKind::Hp);
                assert(affordable(mprev, StatKind::Hp));
                assert(engine_model_of(exp.0@, *u) == step(mprev, StatKind::Hp));
                tr = tr.push(StatKind::Hp);
                lemma_purchase_gap(e_pass, ch, cmin);
                lemma_cost_grows(ch, cmh);
                lemma_rat_le_trans(cmin, ch, u.hp.upgrade_cost.0@);
            }
        }
        let ghost e1: Rat = exp.0@;
        // Facts carried between steps: the pool never grew during the
        // pass, and after any purchase it sits at least `cmin` below the
        // pass entry.
        proof {
            if b1 {
                crate::bigrat::lemma_rat_ops_wf(e1, cmin);
                lemma_rat_le_add(e1, cmin);
                lemma_rat_le_trans(e1, rat_add(e1, cmin), e_pass);
            }
            assert(rat_le(e1, e_pass));
            assert(b1 ==> rat_le(rat_add(e1, cmin), e_pass));
        }

        let ghost mprev2: EngineModel = engine_model_of(exp.0@, *u);
        let ghost ca: Rat = u.attack.upgrade_cost.0@;
        let ghost cma: Rat = u.attack.cost_multiplier.0@;
        let b2 = try_upgrade_one(exp, &mut u.attack);
        proof {
            if b2 {
                lemma_fold_steps_snoc(m0, tr, StatKind::Attack);
                assert(affordable(mprev2, StatKind::Attack));
                assert(engine_model_of(exp.0@, *u) == step(mprev2, StatKind::Attack));
                tr = tr.push(StatKind::Attack);
                lemma_purchase_gap(e1, ca, cmin);
                lemma_cost_grows(ca, cma);
                lemma_rat_le_trans(cmin, ca, u.attack.upgrade_cost.0@);
            }
        }
        let ghost e2: Rat = exp.0@;
        proof {
            if b2 {
                crate::bigrat::lemma_rat_ops_wf(e2, cmin);
                lemma_rat_le_trans(rat_add(e2, cmin), e1, e_pass);
                lemma_rat_le_add(e2, cmin);
                lemma_rat_le_trans(e2, rat_add(e2, cmin), e_pass);
            }
            assert(rat_le(e2, e_pass));
            assert(b1 || b2 ==> rat_le(rat_add(e2, cmin), e_pass));
        }

        let ghost mprev3: EngineModel = engine_model_of(exp.0@, *u);
        let ghost cd: Rat = u.defense.upgrade_cost.0@;
        let ghost cmd: Rat = u.defense.cost_multiplier.0@;
        let b3 = try_upgrade_one(exp, &mut u.defense);
        proof {
            if b3 {
                lemma_fold_steps_snoc(m0, tr, StatKind::Defense);
                assert(affordable(mprev3, StatKind::Defense));
                assert(engine_model_of(exp.0@, *u) == step(mprev3, StatKind::Defense));
                tr = tr.push(StatKind::Defense);
                lemma_purchase_gap(e2, cd, cmin);
                lemma_cost_grows(cd, cmd);
                lemma_rat_le_trans(cmin, cd, u.defense.upgrade_cost.0@);
            }
        }
        let ghost e3: Rat = exp.0@;
        proof {
            if b3 {
                crate::bigrat::lemma_rat_ops_wf(e3, cmin);
                lemma_rat_le_trans(rat_add(e3, cmin), e2, e_pass);
                lemma_rat_le_add(e3, cmin);
                lemma_rat_le_trans(e3, rat_add(e3, cmin), e_pass);
            }
            assert(rat_le(e3, e_pass));
            assert(b1 || b2 || b3 ==> rat_le(rat_add(e3, cmin), e_pass));
        }

        let ghost mprev4: EngineModel = engine_model_of(exp.0@, *u);
        let ghost cs: Rat = u.speed.upgrade_cost.0@;
        let ghost cms: Rat = u.speed.cost_multiplier.0@;
        let b4 = try_upgrade_one(exp, &mut u.speed);
        proof {
            if b4 {
                lemma_fold_steps_snoc(m0, tr, StatKind::Speed);
                assert(affordable(mprev4, StatKind::Speed));
                assert(engine_model_of(exp.0@, *u) == step(mprev4, StatKind::Speed));
                tr = tr.push(StatKind::Speed);
                lemma_purchase_gap(e3, cs, cmin);
                lemma_cost_grows(cs, cms);
                lemma_rat_le_trans(cmin, cs, u.speed.upgrade_cost.0@);
            }
        }
        let ghost e4: Rat = exp.0@;
        proof {
            if b4 {
                crate::bigrat::lemma_rat_ops_wf(e4, cmin);
                lemma_rat_le_trans(rat_add(e4, cmin), e3, e_pass);
                lemma_rat_le_add(e4, cmin);
                lemma_rat_le_trans(e4, rat_add(e4, cmin), e_pass);
            }
            assert(rat_le(e4, e_pass));
            assert(b1 || b2 || b3 || b4 ==> rat_le(rat_add(e4, cmin), e_pass));
        }

        let upgraded = b1 || b2 || b3 || b4;
        if !upgraded {
            break ;
        }
        proof {
            lemma_measure_decreases(exp.0@, e_pass, cmin);
        }
    }
    proof {
        let m1 = engine_model_of(exp.0@, *u);
        assert(trace_valid(m0, tr) && m1 == fold_steps(m0, tr));
    }
}

/// The autonomous upgrade pass of one tick: while any upgradeable stat's
/// cost is covered by the player's experience, buy it, until a whole scan
/// buys nothing. The final state is reachable from the initial one by a
/// sequence of valid purchases (each paid at its then-current cost), and
/// no stat is affordable afterwards. A tick without a live player or
/// without upgrade records is a no-op.
/// Effect of the whole purchase pass: with a live player and live
/// upgrade records, the final state is reachable from the initial one by
/// a sequence of valid purchases, nothing else of the world moves, no
/// stat is left affordable, and the stat invariant is preserved.
pub open spec fn upgrade_engine_rel(w1: GameWorld, w2: GameWorld) -> bool {
    &&& w2.wf()
    &&& (w1.player is None || w1.upgrades is None ==> w2 == w1)
    &&& (w1.player is Some && w1.upgrades is Some ==> ({
        let p1 = w1.player->Some_0;
        let p2 = w2.player->Some_0;
        let m0 = engine_model_of(p1.experience.0@, w1.upgrades->Some_0);
        let m1 = engine_model_of(p2.experience.0@, w2.upgrades->Some_0);
        &&& w2.combat_state == w1.combat_state
        &&& w2.progress == w1.progress
        &&& w2.player_combat == w1.player_combat
        &&& w2.enemy == w1.enemy
        &&& w2.player is Some
        &&& p2.base_hp == p1.base_hp
        &&& p2.base_attack == p1.base_attack
        &&& p2.base_defense == p1.base_defense
        &&& p2.base_speed == p1.base_speed
        &&& p2.level == p1.level
        &&& p2.rebirth_points == p1.rebirth_points
        &&& p2.experience.0.wf()
        &&& w2.upgrades is Some
        &&& exists|tr: Seq<StatKind>| trace_valid(m0, tr) && m1 == #[trigger] fold_steps(m0, tr)
        &&& !affordable(m1, StatKind::Hp)
        &&& !affordable(m1, StatKind::Attack)
        &&& !affordable(m1, StatKind::Defense)
        &&& !affordable(m1, StatKind::Speed)
        &&& (w1.upgrades->Some_0.invariant_holds() ==> w2.upgrades->Some_0.invariant_holds())
    }))
}

pub fn upgradeable_stat_upgrade_system(world: &mut GameWorld)
    requires
        old(world).wf(),
    ensures
        upgrade_engine_rel(*old(world), *final(world)),
{
    match (&mut world.player, &mut world.upgrades) {
        (Some(player), Some(upgrades)) => {
            run_upgrade_passes(&mut player.experience, upgrades);
        },
        _ => {},
    }
}

/// The parts of one upgradeable stat left alone by a recompute of its
/// current value.
pub open spec fn recomputed(b1: UpgradeableStatBundle, b2: UpgradeableStatBundle) -> bool {
    &&& b2.current_value.0@ == rat_grow(
        b1.base_value.0@,
        b1.upgrade_multiplier.0@,
        b1.level.0 as nat,
    )
    &&& b2.current_value.0.wf()
    &&& b2.upgradeable_stat == b1.upgradeable_stat
    &&& b2.base_value == b1.base_value
    &&& b2.level == b1.level
    &&& b2.upgrade_cost == b1.upgrade_cost
    &&& b2.upgrade_multiplier == b1.upgrade_multiplier
    &&& b2.cost_multiplier == b1.cost_multiplier
}

/// The reactive recompute path: restore, for every upgradeable stat,
/// `currentValue == baseValue * upgradeMultiplier^level`, whatever path
/// changed the underlying parts (for instance a rebirth or a configured
/// starting level).
/// Effect of the reactive recompute pass: every upgradeable stat's
/// current value is recomputed from its base, level and multiplier, so
/// the upgrade invariant holds afterwards; nothing else moves.
pub open spec fn recompute_rel(w1: GameWorld, w2: GameWorld) -> bool {
    &&& w2.wf()
    &&& (w1.upgrades is None ==> w2 == w1)
    &&& (w1.upgrades is Some ==> ({
        let u1 = w1.upgrades->Some_0;
        let u2 = w2.upgrades->Some_0;
        &&& w2.upgrades is Some
        &&& recomputed(u1.hp, u2.hp)
        &&& recomputed(u1.attack, u2.attack)
        &&& recomputed(u1.defense, u2.defense)
        &&& recomputed(u1.speed, u2.speed)
        &&& u2.invariant_holds()
        &&& w2.combat_state == w1.combat_state
        &&& w2.progress == w1.progress
        &&& w2.player == w1.player
        &&& w2.player_combat == w1.player_combat
        &&& w2.enemy == w1.enemy
    }))
}

pub fn update_current_value_on_change(world: &mut GameWorld)
    requires
        old(world).wf(),
    ensures
        recompute_rel(*old(world), *final(world)),
{
    match &mut world.upgrades {
        Some(u) => {
            proof {
                lemma_rat_grow_props(
                    u.hp.base_value.0@,
                    u.hp.upgrade_multiplier.0@,
                    u.hp.level.0 as nat,
                );
                lemma_rat_grow_props(
                    u.attack.base_value.0@,
                    u.attack.upgrade_multiplier.0@,
                    u.attack.level.0 as nat,
                );
                lemma_rat_grow_props(
                    u.defense.base_value.0@,
                    u.defense.upgrade_multiplier.0@,
                    u.defense.level.0 as nat,
                );
                lemma_rat_grow_props(
                    u.speed.base_value.0@,
                    u.speed.upgrade_multiplier.0@,
                    u.speed.level.0 as nat,
                );
            }
            u.hp.current_value.0 = recalculate_current_value(
                &u.hp.base_value,
                &u.hp.level,
                &u.hp.upgrade_multiplier,
            );
            u.attack.current_value.0 = recalculate_current_value(
                &u.attack.base_value,
                &u.attack.level,
                &u.attack.upgrade_multiplier,
            );
            u.defense.current_value.0 = recalculate_current_value(
                &u.defense.base_value,
                &u.defense.level,
                &u.defense.upgrade_multiplier,
            );
            u.speed.current_value.0 = recalculate_current_value(
                &u.speed.base_value,
                &u.speed.level,
                &u.speed.upgrade_multiplier,
            );
        },
        None => {},
    }
}

/// The combat stats of the player after the HP sync: the maximum hit
/// points take the HP stat's current value, and if that changed the
/// value, the current hit points heal to the new maximum (the heal-to-
/// full rule is an intentional design choice).
pub open spec fn hp_synced(c1: CombatantStats, c2: CombatantStats, stat_value: Rat) -> bool {
    &&& c2.max_hp.0@ == stat_value
    &&& c2.max_hp.0.wf()
    &&& (rat_eq(c1.max_hp.0@, stat_value) ==> c2.current_hp == c1.current_hp)
    &&& (!rat_eq(c1.max_hp.0@, stat_value) ==> c2.current_hp.0@ == stat_value
        && c2.current_hp.0.wf())
    &&& c2.attack == c1.attack
    &&& c2.defense == c1.defense
    &&& c2.speed == c1.speed
    &&& c2.cooldown == c1.cooldown
}

/// Effect of the HP synchronization pass (see `hp_synced`).
pub open spec fn hp_sync_rel(w1: GameWorld, w2: GameWorld) -> bool {
    &&& w2.wf()
    &&& (!(w1.player_combat is Some && w1.upgrades is Some) ==> w2 == w1)
    &&& (w1.player_combat is Some && w1.upgrades is Some ==> ({
        let c1 = w1.player_combat->Some_0;
        let c2 = w2.player_combat->Some_0;
        &&& w2.player_combat is Some
        &&& hp_synced(c1, c2, w1.upgrades->Some_0.hp.current_value.0@)
        &&& w2.combat_state == w1.combat_state
        &&& w2.progress == w1.progress
        &&& w2.player == w1.player
        &&& w2.enemy == w1.enemy
        &&& w2.upgrades == w1.upgrades
    }))
}

/// Copy the HP stat's current value into the player's maximum hit
/// points; on a change, heal the current hit points to the new maximum.
pub fn hp_sync_system(world: &mut GameWorld)
    requires
        old(world).wf(),
    ensures
        hp_sync_rel(*old(world), *final(world)),
{
    if world.upgrades.is_none() {
        return ;
    }
    let stat_value = match &world.upgrades {
        Some(u) => u.hp.current_value.0.dup(),
        None => {
            return ;
        },
    };
    match &mut world.player_combat {
        Some(stats) => {
            let changed = !stats.max_hp.0.eq_val(&stat_value);
            proof {
                if !changed {
                    crate::bigrat::lemma_rat_le_eq_compat(
                        stats.current_hp.0@,
                        stats.max_hp.0@,
                        stat_value@,
                    );
                }
            }
            stats.max_hp.0 = stat_value.dup();
            if changed {
                stats.current_hp.0 = stat_value;
            }
        },
        None => {},
    }
}

/// Effect of the Attack synchronization pass: the player's combat
/// attack takes the Attack stat's current value; nothing else moves.
pub open spec fn attack_sync_rel(w1: GameWorld, w2: GameWorld) -> bool {
    &&& w2.wf()
    &&& (!(w1.player_combat is Some && w1.upgrades is Some) ==> w2 == w1)
    &&& (w1.player_combat is Some && w1.upgrades is Some ==> ({
        let c1 = w1.player_combat->Some_0;
        let c2 = w2.player_combat->Some_0;
        &&& w2.player_combat is Some
        &&& c2.attack.0@ == w1.upgrades->Some_0.attack.current_value.0@
        &&& c2.attack.0.wf()
        &&& c2.current_hp == c1.current_hp
        &&& c2.max_hp == c1.max_hp
        &&& c2.defense == c1.defense
        &&& c2.speed == c1.speed
        &&& c2.cooldown == c1.cooldown
        &&& w2.combat_state == w1.combat_state
        &&& w2.progress == w1.progress
        &&& w2.player == w1.player
        &&& w2.enemy == w1.enemy
        &&& w2.upgrades == w1.upgrades
    }))
}

/// Copy the Attack stat's current value into the player's combat attack.
pub fn attack_sync_system(world: &mut GameWorld)
    requires
        old(world).wf(),
    ensures
        attack_sync_rel(*old(world), *final(world)),
{
    if world.upgrades.is_none() {
        return ;
    }
    let stat_value = match &world.upgrades {
        Some(u) => u.attack.current_value.0.dup(),
        None => {
            return ;
        },
    };
    match &mut world.player_combat {
        Some(stats) => {
            stats.attack.0 = stat_value;
        },
        None => {},
    }
}

/// Effect of the Defense synchronization pass: the player's combat
/// defense takes the Defense stat's current value; nothing else moves.
pub open spec fn defense_sync_rel(w1: GameWorld, w2: GameWorld) -> bool {
    &&& w2.wf()
    &&& (!(w1.player_combat is Some && w1.upgrades is Some) ==> w2 == w1)
    &&& (w1.player_combat is Some && w1.upgrades is Some ==> ({
        let c1 = w1.player_combat->Some_0;
        let c2 = w2.player_combat->Some_0;
        &&& w2.player_combat is Some
        &&& c2.defense.0@ == w1.upgrades->Some_0.defense.current_value.0@
        &&& c2.defense.0.wf()
        &&& c2.current_hp == c1.current_hp
        &&& c2.max_hp == c1.max_hp
        &&& c2.attack == c1.attack
        &&& c2.speed == c1.speed
        &&& c2.cooldown == c1.cooldown
        &&& w2.combat_state == w1.combat_state
        &&& w2.progress == w1.progress
        &&& w2.player == w1.player
        &&& w2.enemy == w1.enemy
        &&& w2.upgrades == w1.upgrades
    }))
}

/// Copy the Defense stat's current value into the player's combat
/// defense.
pub fn defense_sync_system(world: &mut GameWorld)
    requires
        old(world).wf(),
    ensures
        defense_sync_rel(*old(world), *final(world)),
{
    if world.upgrades.is_none() {
        return ;
    }
    let stat_value = match &world.upgrades {
        Some(u) => u.defense.current_value.0.dup(),
        None => {
            return ;
        },
    };
    match &mut world.player_combat {
        Some(stats) => {
            stats.defense.0 = stat_value;
        },
        None => {},
    }
}

/// Effect of the Speed synchronization pass: the player's combat
/// speed takes the Speed stat's current value; nothing else moves.
pub open spec fn speed_sync_rel(w1: GameWorld, w2: GameWorld) -> bool {
    &&& w2.wf()
    &&& (!(w1.player_combat is Some && w1.upgrades is Some) ==> w2 == w1)
    &&& (w1.player_combat is Some && w1.upgrades is Some ==> ({
        let c1 = w1.player_combat->Some_0;
        let c2 = w2.player_combat->Some_0;
        &&& w2.player_combat is Some
        &&& c2.speed.0@ == w1.upgrades->Some_0.speed.current_value.0@
        &&& c2.speed.0.wf()
        &&& c2.current_hp == c1.current_hp
        &&& c2.max_hp == c1.max_hp
        &&& c2.attack == c1.attack
        &&& c2.defense == c1.defense
        &&& c2.cooldown == c1.cooldown
        &&& w2.combat_state == w1.combat_state
        &&& w2.progress == w1.progress
        &&& w2.player == w1.player
        &&& w2.enemy == w1.enemy
        &&& w2.upgrades == w1.upgrades
    }))
}

/// Copy the Speed stat's current value into the player's combat speed.
/// The stat invariants keep that value positive, so the attack period
/// `1000 / speed` stays defined.
pub fn speed_sync_system(world: &mut GameWorld)
    requires
        old(world).wf(),
    ensures
        speed_sync_rel(*old(world), *final(world)),
{
    if world.upgrades.is_none() {
        return ;
    }
    let stat_value = match &world.upgrades {
        Some(u) => u.speed.current_value.0.dup(),
        None => {
            return ;
        },
    };
    match &mut world.player_combat {
        Some(stats) => {
            stats.speed.0 = stat_value;
        },
        None => {},
    }
}

} // verus!
