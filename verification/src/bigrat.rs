//! Exact non-negative rational numbers of unbounded magnitude.
//!
//! Every stat in the game is a `BigRat`: a pair of arbitrary-precision
//! naturals (numerator, positive denominator). Operations are exact, so
//! contracts can state results as equations over the mathematical model
//! `Rat` and growth curves never suffer rounding drift.

use crate::bignat::BigNat;
use vstd::arithmetic::mul::lemma_mul_strictly_positive;
use vstd::prelude::*;

verus! {

/// Mathematical model of a non-negative rational number.
pub struct Rat {
    pub n: nat,
    pub d: nat,
}

pub open spec fn rat_wf(a: Rat) -> bool {
    a.d > 0
}

pub open spec fn rat_zero() -> Rat {
    Rat { n: 0, d: 1 }
}

pub open spec fn rat_one() -> Rat {
    Rat { n: 1, d: 1 }
}

pub open spec fn rat_from_nat(n: nat) -> Rat {
    Rat { n, d: 1 }
}

pub open spec fn rat_add(a: Rat, b: Rat) -> Rat {
    Rat { n: a.n * b.d + b.n * a.d, d: a.d * b.d }
}

/// Difference; meaningful only when `rat_le(b, a)`.
pub open spec fn rat_sub(a: Rat, b: Rat) -> Rat {
    Rat { n: (a.n * b.d - b.n * a.d) as nat, d: a.d * b.d }
}

pub open spec fn rat_mul(a: Rat, b: Rat) -> Rat {
    Rat { n: a.n * b.n, d: a.d * b.d }
}

/// Quotient; meaningful only when `b.n > 0`.
pub open spec fn rat_div(a: Rat, b: Rat) -> Rat {
    Rat { n: a.n * b.d, d: a.d * b.n }
}

/// `a <= b` as rational values, by cross multiplication.
pub open spec fn rat_le(a: Rat, b: Rat) -> bool {
    a.n * b.d <= b.n * a.d
}

/// `a < b` as rational values.
pub open spec fn rat_lt(a: Rat, b: Rat) -> bool {
    a.n * b.d < b.n * a.d
}

/// Equality of the denoted values (representations may differ).
pub open spec fn rat_eq(a: Rat, b: Rat) -> bool {
    a.n * b.d == b.n * a.d
}

/// `base * m^level`, accumulated by repeated multiplication exactly as the
/// executable growth function computes it.
pub open spec fn rat_grow(base: Rat, m: Rat, level: nat) -> Rat
    decreases level,
{
    if level == 0 {
        base
    } else {
        rat_mul(rat_grow(base, m, (level - 1) as nat), m)
    }
}

pub proof fn lemma_rat_ops_wf(a: Rat, b: Rat)
    requires
        rat_wf(a),
        rat_wf(b),
    ensures
        rat_wf(rat_add(a, b)),
        rat_wf(rat_sub(a, b)),
        rat_wf(rat_mul(a, b)),
{
    lemma_mul_strictly_positive(a.d as int, b.d as int);
}

pub proof fn lemma_rat_le_trans(a: Rat, b: Rat, c: Rat)
    requires
        rat_wf(a),
        rat_wf(b),
        rat_wf(c),
        rat_le(a, b),
        rat_le(b, c),
    ensures
        rat_le(a, c),
{
    assert(a.n * c.d <= c.n * a.d) by (nonlinear_arith)
        requires
            a.n * b.d <= b.n * a.d,
            b.n * c.d <= c.n * b.d,
            a.d > 0,
            b.d > 0,
            c.d > 0,
    {}
}

pub proof fn lemma_rat_lt_le_trans(a: Rat, b: Rat, c: Rat)
    requires
        rat_wf(a),
        rat_wf(b),
        rat_wf(c),
        rat_lt(a, b),
        rat_le(b, c),
    ensures
        rat_lt(a, c),
{
    assert(a.n * c.d < c.n * a.d) by (nonlinear_arith)
        requires
            a.n * b.d < b.n * a.d,
            b.n * c.d <= c.n * b.d,
            a.d > 0,
            b.d > 0,
            c.d > 0,
    {}
}

pub proof fn lemma_rat_le_lt_trans(a: Rat, b: Rat, c: Rat)
    requires
        rat_wf(a),
        rat_wf(b),
        rat_wf(c),
        rat_le(a, b),
        rat_lt(b, c),
    ensures
        rat_lt(a, c),
{
    assert(a.n * c.d < c.n * a.d) by (nonlinear_arith)
        requires
            a.n * b.d <= b.n * a.d,
            b.n * c.d < c.n * b.d,
            a.d > 0,
            b.d > 0,
            c.d > 0,
    {}
}

/// Replacing the right side of `<=` by an equal-valued rational keeps it.
pub proof fn lemma_rat_le_eq_compat(a: Rat, b: Rat, b2: Rat)
    requires
        rat_wf(a),
        rat_wf(b),
        rat_wf(b2),
        rat_le(a, b),
        rat_eq(b, b2),
    ensures
        rat_le(a, b2),
{
    assert(a.n * b2.d <= b2.n * a.d) by (nonlinear_arith)
        requires
            a.n * b.d <= b.n * a.d,
            b.n * b2.d == b2.n * b.d,
            a.d > 0,
            b.d > 0,
            b2.d > 0,
    {}
}

/// A value never exceeds itself plus a non-negative addend.
pub proof fn lemma_rat_le_add(a: Rat, b: Rat)
    requires
        rat_wf(a),
        rat_wf(b),
    ensures
        rat_le(a, rat_add(a, b)),
        rat_le(b, rat_add(a, b)),
{
    assert(a.n * (a.d * b.d) <= (a.n * b.d + b.n * a.d) * a.d && b.n * (a.d * b.d) <= (a.n * b.d
        + b.n * a.d) * b.d) by (nonlinear_arith)
        requires
            a.d > 0,
            b.d > 0,
    {}
}

/// Growth keeps rationals well formed, and positive when base and
/// multiplier are positive.
pub proof fn lemma_rat_grow_props(b: Rat, m: Rat, l: nat)
    requires
        rat_wf(b),
        rat_wf(m),
    ensures
        rat_wf(rat_grow(b, m, l)),
        b.n > 0 && m.n > 0 ==> rat_grow(b, m, l).n > 0,
    decreases l,
{
    if l > 0 {
        let prev = rat_grow(b, m, (l - 1) as nat);
        lemma_rat_grow_props(b, m, (l - 1) as nat);
        lemma_mul_strictly_positive(prev.d as int, m.d as int);
        if b.n > 0 && m.n > 0 {
            lemma_mul_strictly_positive(prev.n as int, m.n as int);
        }
    }
}

/// Growing by a multiplier above one strictly increases a positive value.
pub proof fn lemma_rat_grow_step_increases(b: Rat, m: Rat, l: nat)
    requires
        rat_wf(b),
        rat_wf(m),
        b.n > 0,
        m.n > m.d,
    ensures
        rat_lt(rat_grow(b, m, l), rat_grow(b, m, l + 1)),
{
    let g = rat_grow(b, m, l);
    lemma_rat_grow_props(b, m, l);
    assert(rat_grow(b, m, l + 1) == rat_mul(g, m));
    assert(g.n * (g.d * m.d) < (g.n * m.n) * g.d) by (nonlinear_arith)
        requires
            g.n > 0,
            g.d > 0,
            m.n > m.d,
            m.d > 0,
    {}
}

/// An arbitrary-precision non-negative rational number.
#[derive(Debug, Clone, PartialEq)]
pub struct BigRat {
    num: BigNat,
    den: BigNat,
}

impl View for BigRat {
    type V = Rat;

    closed spec fn view(&self) -> Rat {
        Rat { n: self.num.val(), d: self.den.val() }
    }
}

impl BigRat {
    /// Valid representation: canonical limbs and a positive denominator.
    pub open spec fn wf(&self) -> bool {
        self.nums_wf() && self@.d > 0
    }

    /// Canonical-limb condition of the two components, kept abstract.
    pub closed spec fn nums_wf(&self) -> bool {
        self.num.wf() && self.den.wf()
    }

    pub fn from_u64(x: u64) -> (r: BigRat)
        ensures
            r.wf(),
            r@ == rat_from_nat(x as nat),
    {
        BigRat { num: BigNat::from_u64(x), den: BigNat::from_u64(1) }
    }

    pub fn from_ratio(n: u64, d: u64) -> (r: BigRat)
        requires
            d > 0,
        ensures
            r.wf(),
            r@ == (Rat { n: n as nat, d: d as nat }),
    {
        BigRat { num: BigNat::from_u64(n), den: BigNat::from_u64(d) }
    }

    pub fn zero() -> (r: BigRat)
        ensures
            r.wf(),
            r@ == rat_zero(),
    {
        Self::from_u64(0)
    }

    pub fn one() -> (r: BigRat)
        ensures
            r.wf(),
            r@ == rat_one(),
    {
        Self::from_u64(1)
    }

    /// A fresh value denoting the same rational, limb for limb.
    pub fn dup(&self) -> (r: BigRat)
        ensures
            r@ == self@,
            r.wf() == self.wf(),
    {
        BigRat { num: self.num.dup(), den: self.den.dup() }
    }

    pub fn add(&self, other: &BigRat) -> (r: BigRat)
        requires
            self.wf(),
            other.wf(),
        ensures
            r.wf(),
            r@ == rat_add(self@, other@),
    {
        proof {
            lemma_mul_strictly_positive(self@.d as int, other@.d as int);
        }
        BigRat {
            num: self.num.mul(&other.den).add(&other.num.mul(&self.den)),
            den: self.den.mul(&other.den),
        }
    }

    pub fn mul(&self, other: &BigRat) -> (r: BigRat)
        requires
            self.wf(),
            other.wf(),
        ensures
            r.wf(),
            r@ == rat_mul(self@, other@),
    {
        proof {
            lemma_mul_strictly_positive(self@.d as int, other@.d as int);
        }
        BigRat { num: self.num.mul(&other.num), den: self.den.mul(&other.den) }
    }

    pub fn div(&self, other: &BigRat) -> (r: BigRat)
        requires
            self.wf(),
            other.wf(),
            other@.n > 0,
        ensures
            r.wf(),
            r@ == rat_div(self@, other@),
    {
        proof {
            lemma_mul_strictly_positive(self@.d as int, other@.n as int);
        }
        BigRat { num: self.num.mul(&other.den), den: self.den.mul(&other.num) }
    }

    pub fn le(&self, other: &BigRat) -> (r: bool)
        requires
            self.wf(),
            other.wf(),
        ensures
            r == rat_le(self@, other@),
    {
        self.num.mul(&other.den).le(&other.num.mul(&self.den))
    }

    pub fn lt(&self, other: &BigRat) -> (r: bool)
        requires
            self.wf(),
            other.wf(),
        ensures
            r == rat_lt(self@, other@),
    {
        self.num.mul(&other.den).lt(&other.num.mul(&self.den))
    }

    pub fn eq_val(&self, other: &BigRat) -> (r: bool)
        requires
            self.wf(),
            other.wf(),
        ensures
            r == rat_eq(self@, other@),
    {
        self.num.mul(&other.den).eq_val(&other.num.mul(&self.den))
    }

    pub fn is_zero(&self) -> (r: bool)
        requires
            self.wf(),
        ensures
            r == (self@.n == 0),
    {
        self.num.is_zero()
    }

    /// `max(self - other, floor)`: clamped subtraction, the only form of
    /// subtraction the game uses (damage floors and the HP floor at zero).
    pub fn sub_clamped(&self, other: &BigRat, floor: &BigRat) -> (r: BigRat)
        requires
            self.wf(),
            other.wf(),
            floor.wf(),
        ensures
            r.wf(),
            rat_le(self@, rat_add(other@, floor@)) ==> r@ == floor@,
            !rat_le(self@, rat_add(other@, floor@)) ==> r@ == rat_sub(self@, other@),
    {
        let bound = other.add(floor);
        if self.le(&bound) {
            floor.dup()
        } else {
            proof {
                lemma_rat_le_add(other@, floor@);
                lemma_rat_le_lt_trans(other@, rat_add(other@, floor@), self@);
                lemma_mul_strictly_positive(self@.d as int, other@.d as int);
                // rat_lt(other, self) gives the cross product inequality that
                // justifies the BigNat subtraction below.
                assert(other@.n * self@.d <= self@.n * other@.d);
            }
            BigRat {
                num: self.num.mul(&other.den).sub(&other.num.mul(&self.den)),
                den: self.den.mul(&other.den),
            }
        }
    }

    /// `max(self - other, 0)`: subtraction clamped at zero.
    pub fn sub_or_zero(&self, other: &BigRat) -> (r: BigRat)
        requires
            self.wf(),
            other.wf(),
        ensures
            r.wf(),
            rat_le(self@, other@) ==> r@ == rat_zero(),
            !rat_le(self@, other@) ==> r@ == rat_sub(self@, other@),
    {
        let zero = BigRat::zero();
        proof {
            // Adding zero to the clamp bound neither changes the value nor
            // the representation, up to the trivial `* 1` factors.
            let o = other@;
            assert(rat_add(o, rat_zero()) == o) by {
                assert(o.n * 1 + 0 * o.d == o.n);
                assert(o.d * 1 == o.d);
            }
        }
        self.sub_clamped(other, &zero)
    }

    /// The raw limb images of numerator and denominator (little-endian,
    /// base 2^32), for unverified consumers that need an approximate display.
    pub fn to_limbs(&self) -> (r: (Vec<u32>, Vec<u32>))
        ensures
            crate::bignat::limbs_val(r.0@) == self@.n,
            crate::bignat::limbs_val(r.1@) == self@.d,
    {
        (self.num.limbs_vec(), self.den.limbs_vec())
    }
}

} // verus!
