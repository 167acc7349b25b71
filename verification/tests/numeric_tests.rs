use simple_idle_rpg::bigrat::BigRat;

#[test]
fn test_rational_basic_arithmetic() {
    let a = BigRat::from_ratio(3, 4);
    let b = BigRat::from_ratio(5, 6);

    assert!(a.add(&b).eq_val(&BigRat::from_ratio(19, 12)));
    assert!(a.mul(&b).eq_val(&BigRat::from_ratio(5, 8)));
    assert!(b.div(&a).eq_val(&BigRat::from_ratio(10, 9)));
    assert!(b.sub_or_zero(&a).eq_val(&BigRat::from_ratio(1, 12)));
    assert!(a.sub_or_zero(&b).is_zero());
}

#[test]
fn test_rational_comparisons() {
    let a = BigRat::from_ratio(7, 3);
    let b = BigRat::from_ratio(12, 5);

    assert!(a.lt(&b));
    assert!(a.le(&b));
    assert!(!b.le(&a));
    assert!(a.eq_val(&BigRat::from_ratio(14, 6)));
    assert!(!a.eq_val(&b));
    assert!(BigRat::from_u64(0).le(&a));
}

#[test]
fn test_large_magnitudes_beyond_machine_words() {
    // Values beyond any fixed-width integer or the range where floats
    // are exact: (2^64 - 1)^3 and friends.
    let max = BigRat::from_u64(u64::MAX);
    let square = max.mul(&max);
    let cube = square.mul(&max);

    assert!(max.lt(&square));
    assert!(square.lt(&cube));
    assert!(cube.div(&max).eq_val(&square));
    assert!(cube.div(&square).eq_val(&max));

    // Addition and clamped subtraction round-trip at full precision.
    let sum = cube.add(&square);
    assert!(sum.sub_or_zero(&square).eq_val(&cube));

    // 2^64 == (2^32)^2 crosses the limb boundary exactly.
    let two_32 = BigRat::from_u64(1u64 << 32);
    assert!(max.add(&BigRat::from_u64(1)).eq_val(&two_32.mul(&two_32)));
}

#[test]
fn test_borrow_chains_in_subtraction() {
    let two_33 = BigRat::from_u64(1u64 << 33);
    let one = BigRat::from_u64(1);

    let almost = two_33.sub_or_zero(&one);
    assert!(almost.eq_val(&BigRat::from_u64((1u64 << 33) - 1)));
    assert!(almost.lt(&two_33));

    // Subtracting the whole value clamps exactly at zero.
    assert!(two_33.sub_or_zero(&two_33).is_zero());
}

#[test]
fn test_growth_stays_exact_over_many_levels() {
    // 1.15^40 overflows no precision here: growing and then dividing the
    // multiplier back out level by level restores the base exactly.
    let base = BigRat::from_u64(100);
    let m = BigRat::from_ratio(23, 20);
    let grown = simple_idle_rpg::components::upgradeable_stats::calculate_exponential_growth(
        base.dup(),
        m.dup(),
        40,
    );
    let mut back = grown.dup();
    for _ in 0..40 {
        back = back.div(&m);
    }
    assert!(back.eq_val(&base));
    assert!(base.lt(&grown));
}
