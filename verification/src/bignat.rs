//! Arbitrary-precision natural numbers.
//!
//! A `BigNat` is a little-endian vector of base-2^32 limbs with no leading
//! zero limb, so every natural number has exactly one representation.

use vstd::prelude::*;

verus! {

/// Weight of limb `i`: `(2^32)^i`.
pub open spec fn radix_pow(i: nat) -> nat
    decreases i,
{
    if i == 0 {
        1
    } else {
        0x1_0000_0000 * radix_pow((i - 1) as nat)
    }
}

/// Limb `i` of `s`, reading limbs past the end as zero.
pub open spec fn limb_at(s: Seq<u32>, i: nat) -> nat {
    if i < s.len() {
        s[i as int] as nat
    } else {
        0
    }
}

/// Value of the first `j` limbs of `s` (limbs past the end count as zero).
pub open spec fn limbs_val_prefix(s: Seq<u32>, j: nat) -> nat
    decreases j,
{
    if j == 0 {
        0
    } else {
        limbs_val_prefix(s, (j - 1) as nat) + limb_at(s, (j - 1) as nat) * radix_pow((j - 1) as nat)
    }
}

/// Value of a whole limb sequence.
pub open spec fn limbs_val(s: Seq<u32>) -> nat {
    limbs_val_prefix(s, s.len())
}

pub proof fn lemma_radix_pow_pos(i: nat)
    ensures
        radix_pow(i) >= 1,
    decreases i,
{
    if i > 0 {
        lemma_radix_pow_pos((i - 1) as nat);
    }
}

/// Two sequences with the same first `j` (padded) limbs have the same prefix value.
pub proof fn lemma_prefix_congruent(s: Seq<u32>, t: Seq<u32>, j: nat)
    requires
        forall|i: nat| i < j ==> limb_at(s, i) == limb_at(t, i),
    ensures
        limbs_val_prefix(s, j) == limbs_val_prefix(t, j),
    decreases j,
{
    if j > 0 {
        lemma_prefix_congruent(s, t, (j - 1) as nat);
        assert(limb_at(s, (j - 1) as nat) == limb_at(t, (j - 1) as nat));
    }
}

/// Prefix values stop growing once `j` reaches the length.
pub proof fn lemma_prefix_past_len(s: Seq<u32>, j: nat)
    requires
        j >= s.len(),
    ensures
        limbs_val_prefix(s, j) == limbs_val(s),
    decreases j,
{
    if j > s.len() {
        assert(limb_at(s, (j - 1) as nat) == 0);
        lemma_prefix_past_len(s, (j - 1) as nat);
    }
}

/// The first `j` limbs are worth less than the weight of limb `j`.
pub proof fn lemma_prefix_bound(s: Seq<u32>, j: nat)
    ensures
        limbs_val_prefix(s, j) < radix_pow(j),
    decreases j,
{
    if j == 0 {
    } else {
        let j1 = (j - 1) as nat;
        lemma_prefix_bound(s, j1);
        lemma_radix_pow_pos(j1);
        assert(limb_at(s, j1) <= 0xffff_ffff);
        assert(limbs_val_prefix(s, j) < radix_pow(j)) by (nonlinear_arith)
            requires
                limbs_val_prefix(s, j) == limbs_val_prefix(s, j1) + limb_at(s, j1) * radix_pow(j1),
                limbs_val_prefix(s, j1) < radix_pow(j1),
                limb_at(s, j1) <= 0xffff_ffff,
                radix_pow(j) == 0x1_0000_0000 * radix_pow(j1),
                radix_pow(j1) >= 1,
        {}
    }
}

/// A nonzero limb at position `j - 1` puts the prefix value at or above its weight.
pub proof fn lemma_prefix_lower(s: Seq<u32>, j: nat)
    requires
        j > 0,
        limb_at(s, (j - 1) as nat) > 0,
    ensures
        limbs_val_prefix(s, j) >= radix_pow((j - 1) as nat),
{
    let j1 = (j - 1) as nat;
    lemma_radix_pow_pos(j1);
    assert(limb_at(s, j1) * radix_pow(j1) >= radix_pow(j1)) by (nonlinear_arith)
        requires
            limb_at(s, j1) >= 1,
            radix_pow(j1) >= 1,
    {}
}

/// Appending a limb adds its weighted value.
pub proof fn lemma_limbs_val_snoc(s: Seq<u32>, x: u32)
    ensures
        limbs_val(s.push(x)) == limbs_val(s) + (x as nat) * radix_pow(s.len()),
{
    let t = s.push(x);
    assert(limb_at(t, s.len()) == x as nat);
    assert(forall|i: nat| i < s.len() ==> limb_at(t, i) == limb_at(s, i));
    lemma_prefix_congruent(t, s, s.len());
}

/// Dropping a zero top limb keeps the value.
pub proof fn lemma_drop_last_zero(s: Seq<u32>)
    requires
        s.len() > 0,
        s[s.len() - 1] == 0,
    ensures
        limbs_val(s.drop_last()) == limbs_val(s),
{
    let j1 = (s.len() - 1) as nat;
    assert(limb_at(s, j1) == 0);
    assert(forall|i: nat| i < j1 ==> limb_at(s.drop_last(), i) == limb_at(s, i));
    lemma_prefix_congruent(s.drop_last(), s, j1);
}

/// If `s` and `t` agree above position `k` where `s` is smaller, then the
/// whole prefix of `s` is smaller.
pub proof fn lemma_prefix_compare(s: Seq<u32>, t: Seq<u32>, j: nat, k: nat)
    requires
        k < j,
        limb_at(s, k) < limb_at(t, k),
        forall|i: nat| k < i && i < j ==> limb_at(s, i) == limb_at(t, i),
    ensures
        limbs_val_prefix(s, j) < limbs_val_prefix(t, j),
    decreases j,
{
    let j1 = (j - 1) as nat;
    if j1 > k {
        lemma_prefix_compare(s, t, j1, k);
        assert(limb_at(s, j1) == limb_at(t, j1));
    } else {
        // j1 == k: bound the low limbs of s and use the gap at limb k.
        lemma_prefix_bound(s, k);
        lemma_radix_pow_pos(k);
        assert(limbs_val_prefix(s, j) < limbs_val_prefix(t, j)) by (nonlinear_arith)
            requires
                limbs_val_prefix(s, j) == limbs_val_prefix(s, k) + limb_at(s, k) * radix_pow(k),
                limbs_val_prefix(t, j) == limbs_val_prefix(t, k) + limb_at(t, k) * radix_pow(k),
                limbs_val_prefix(s, k) < radix_pow(k),
                limb_at(s, k) < limb_at(t, k),
                radix_pow(k) >= 1,
        {}
    }
}

/// Weights grow with the position.
pub proof fn lemma_radix_pow_increases(i: nat, j: nat)
    requires
        i <= j,
    ensures
        radix_pow(i) <= radix_pow(j),
    decreases j,
{
    if i < j {
        lemma_radix_pow_increases(i, (j - 1) as nat);
        lemma_radix_pow_pos((j - 1) as nat);
    }
}

/// An arbitrary-precision natural number.
#[derive(Debug, Clone, PartialEq)]
pub struct BigNat {
    limbs: Vec<u32>,
}

impl BigNat {
    /// Canonical form: no leading zero limb.
    pub closed spec fn wf(&self) -> bool {
        self.limbs@.len() == 0 || self.limbs@[self.limbs@.len() - 1] != 0
    }

    /// The natural number this value denotes.
    pub closed spec fn val(&self) -> nat {
        limbs_val(self.limbs@)
    }

    /// A canonical value is bounded by the weight of its length and, when
    /// nonempty, reaches the weight of its top limb.
    proof fn lemma_canonical_bounds(&self)
        requires
            self.wf(),
        ensures
            self.val() < radix_pow(self.limbs@.len() as nat),
            self.limbs@.len() > 0 ==> self.val() >= radix_pow((self.limbs@.len() - 1) as nat),
            self.limbs@.len() == 0 ==> self.val() == 0,
    {
        lemma_prefix_bound(self.limbs@, self.limbs@.len() as nat);
        if self.limbs@.len() > 0 {
            lemma_prefix_lower(self.limbs@, self.limbs@.len() as nat);
        }
    }

    pub fn zero() -> (r: BigNat)
        ensures
            r.wf(),
            r.val() == 0,
    {
        BigNat { limbs: Vec::new() }
    }

    pub fn from_u64(x: u64) -> (r: BigNat)
        ensures
            r.wf(),
            r.val() == x as nat,
    {
        let lo: u32 = x as u32;
        let hi: u32 = (x >> 32) as u32;
        proof {
            assert(x == (x as u32) as u64 + (((x >> 32) as u32) as u64) * 0x1_0000_0000u64)
                by (bit_vector);
        }
        let mut limbs: Vec<u32> = Vec::new();
        limbs.push(lo);
        limbs.push(hi);
        proof {
            let s = limbs@;
            assert(radix_pow(0) == 1);
            assert(radix_pow(1) == 0x1_0000_0000);
            assert(limbs_val_prefix(s, 0) == 0);
            assert(limbs_val_prefix(s, 1) == (lo as nat) * 1);
            assert(limbs_val_prefix(s, 2) == limbs_val_prefix(s, 1) + (hi as nat) * radix_pow(1));
            assert(limbs_val(s) == lo as nat + (hi as nat) * 0x1_0000_0000);
        }
        Self::trimmed(limbs)
    }

    /// Drop leading zero limbs, restoring the canonical form.
    fn trimmed(limbs: Vec<u32>) -> (r: BigNat)
        ensures
            r.wf(),
            r.val() == limbs_val(limbs@),
    {
        let mut limbs = limbs;
        let ghost orig: Seq<u32> = limbs@;
        Self::trim_in_place(&mut limbs);
        BigNat { limbs }
    }

    fn trim_in_place(limbs: &mut Vec<u32>)
        ensures
            limbs_val(final(limbs)@) == limbs_val(old(limbs)@),
            final(limbs)@.len() == 0 || final(limbs)@[final(limbs)@.len() - 1] != 0,
    {
        let ghost orig: Seq<u32> = limbs@;
        while limbs.len() > 0 && limbs[limbs.len() - 1] == 0
            invariant
                limbs_val(limbs@) == limbs_val(orig),
            decreases limbs.len(),
        {
            proof {
                lemma_drop_last_zero(limbs@);
                assert(limbs@.drop_last() =~= limbs@.subrange(0, limbs@.len() - 1));
            }
            limbs.pop();
        }
    }

    fn copy_limbs(&self) -> (r: Vec<u32>)
        ensures
            r@ == self.limbs@,
    {
        let mut v: Vec<u32> = Vec::new();
        let n: usize = self.limbs.len();
        let mut i: usize = 0;
        while i < n
            invariant
                i <= n,
                n == self.limbs@.len(),
                v@ == self.limbs@.take(i as int),
            decreases n - i,
        {
            v.push(self.limbs[i]);
            proof {
                assert(v@ =~= self.limbs@.take((i + 1) as int));
            }
            i = i + 1;
        }
        proof {
            assert(v@ =~= self.limbs@);
        }
        v
    }

    /// A fresh value denoting the same natural number.
    pub fn dup(&self) -> (r: BigNat)
        ensures
            r.wf() == self.wf(),
            r.val() == self.val(),
    {
        BigNat { limbs: self.copy_limbs() }
    }

    /// The little-endian base-2^32 limb image of the value.
    pub fn limbs_vec(&self) -> (r: Vec<u32>)
        ensures
            limbs_val(r@) == self.val(),
    {
        self.copy_limbs()
    }

    pub fn is_zero(&self) -> (r: bool)
        requires
            self.wf(),
        ensures
            r == (self.val() == 0),
    {
        proof {
            self.lemma_canonical_bounds();
            if self.limbs@.len() > 0 {
                lemma_radix_pow_pos((self.limbs@.len() - 1) as nat);
            }
        }
        self.limbs.len() == 0
    }

    /// Strict comparison of the denoted values.
    pub fn lt(&self, other: &BigNat) -> (r: bool)
        requires
            self.wf(),
            other.wf(),
        ensures
            r == (self.val() < other.val()),
    {
        let a = &self.limbs;
        let b = &other.limbs;
        proof {
            self.lemma_canonical_bounds();
            other.lemma_canonical_bounds();
        }
        if a.len() < b.len() {
            proof {
                lemma_radix_pow_increases(a@.len() as nat, (b@.len() - 1) as nat);
            }
            return true;
        }
        if a.len() > b.len() {
            proof {
                lemma_radix_pow_increases(b@.len() as nat, (a@.len() - 1) as nat);
            }
            return false;
        }
        let n = a.len();
        let mut i: usize = n;
        while i > 0
            invariant
                i <= n,
                n == a@.len(),
                n == b@.len(),
                self.val() == limbs_val(a@),
                other.val() == limbs_val(b@),
                forall|k: nat| i <= k && k < n ==> limb_at(a@, k) == limb_at(b@, k),
            decreases i,
        {
            i = i - 1;
            if a[i] < b[i] {
                proof {
                    lemma_prefix_compare(a@, b@, n as nat, i as nat);
                }
                return true;
            }
            if a[i] > b[i] {
                proof {
                    lemma_prefix_compare(b@, a@, n as nat, i as nat);
                }
                return false;
            }
        }
        proof {
            lemma_prefix_congruent(a@, b@, n as nat);
        }
        false
    }

    pub fn le(&self, other: &BigNat) -> (r: bool)
        requires
            self.wf(),
            other.wf(),
        ensures
            r == (self.val() <= other.val()),
    {
        !other.lt(self)
    }

    pub fn eq_val(&self, other: &BigNat) -> (r: bool)
        requires
            self.wf(),
            other.wf(),
        ensures
            r == (self.val() == other.val()),
    {
        !self.lt(other) && !other.lt(self)
    }

    /// Sum of the denoted values.
    pub fn add(&self, other: &BigNat) -> (r: BigNat)
        requires
            self.wf(),
            other.wf(),
        ensures
            r.wf(),
            r.val() == self.val() + other.val(),
    {
        let a = &self.limbs;
        let b = &other.limbs;
        let n: usize = if a.len() > b.len() {
            a.len()
        } else {
            b.len()
        };
        let mut res: Vec<u32> = Vec::new();
        let mut carry: u64 = 0;
        let mut i: usize = 0;
        while i < n
            invariant
                i <= n,
                n >= a@.len(),
                n >= b@.len(),
                a@.len() <= usize::MAX,
                res@.len() == i,
                carry <= 1,
                limbs_val(res@) + carry * radix_pow(i as nat) == limbs_val_prefix(a@, i as nat)
                    + limbs_val_prefix(b@, i as nat),
            decreases n - i,
        {
            let av: u64 = if i < a.len() {
                a[i] as u64
            } else {
                0
            };
            let bv: u64 = if i < b.len() {
                b[i] as u64
            } else {
                0
            };
            let t: u64 = av + bv + carry;
            let lo: u32 = t as u32;
            let new_carry: u64 = t >> 32;
            proof {
                assert(av == limb_at(a@, i as nat));
                assert(bv == limb_at(b@, i as nat));
                assert(t == (t as u32) as u64 + (t >> 32) * 0x1_0000_0000u64) by (bit_vector);
                assert(t <= 0x1_ffff_ffffu64 ==> (t >> 32) <= 1) by (bit_vector);
                lemma_limbs_val_snoc(res@, lo);
                let p = radix_pow(i as nat);
                assert(radix_pow((i + 1) as nat) == 0x1_0000_0000 * p);
                assert(limbs_val(res@.push(lo)) + (new_carry as nat) * radix_pow((i + 1) as nat)
                    == limbs_val_prefix(a@, (i + 1) as nat) + limbs_val_prefix(b@, (i + 1) as nat))
                    by (nonlinear_arith)
                    requires
                        limbs_val(res@.push(lo)) == limbs_val(res@) + (lo as nat) * p,
                        radix_pow((i + 1) as nat) == 0x1_0000_0000 * p,
                        limbs_val(res@) + (carry as nat) * p == limbs_val_prefix(a@, i as nat)
                            + limbs_val_prefix(b@, i as nat),
                        limbs_val_prefix(a@, (i + 1) as nat) == limbs_val_prefix(a@, i as nat)
                            + limb_at(a@, (i + 1 - 1) as nat) * p,
                        limbs_val_prefix(b@, (i + 1) as nat) == limbs_val_prefix(b@, i as nat)
                            + limb_at(b@, (i + 1 - 1) as nat) * p,
                        limb_at(a@, (i + 1 - 1) as nat) == av as nat,
                        limb_at(b@, (i + 1 - 1) as nat) == bv as nat,
                        (t as nat) == (lo as nat) + (new_carry as nat) * 0x1_0000_0000,
                        (t as nat) == av as nat + bv as nat + carry as nat,
                {}
            }
            res.push(lo);
            carry = new_carry;
            i = i + 1;
        }
        if carry > 0 {
            proof {
                lemma_limbs_val_snoc(res@, carry as u32);
            }
            res.push(carry as u32);
        }
        proof {
            lemma_prefix_past_len(a@, n as nat);
            lemma_prefix_past_len(b@, n as nat);
        }
        Self::trimmed(res)
    }

    /// Difference of the denoted values; the subtrahend may not exceed self.
    pub fn sub(&self, other: &BigNat) -> (r: BigNat)
        requires
            self.wf(),
            other.wf(),
            other.val() <= self.val(),
        ensures
            r.wf(),
            r.val() == self.val() - other.val(),
    {
        let a = &self.limbs;
        let b = &other.limbs;
        proof {
            self.lemma_canonical_bounds();
            other.lemma_canonical_bounds();
            if b@.len() > a@.len() {
                lemma_radix_pow_increases(a@.len() as nat, (b@.len() - 1) as nat);
                assert(false);
            }
        }
        let n: usize = a.len();
        let mut res: Vec<u32> = Vec::new();
        let mut borrow: u64 = 0;
        let mut i: usize = 0;
        while i < n
            invariant
                i <= n,
                n == a@.len(),
                b@.len() <= n,
                res@.len() == i,
                borrow <= 1,
                limbs_val(res@) as int == limbs_val_prefix(a@, i as nat) as int
                    - limbs_val_prefix(b@, i as nat) as int
                    + (borrow as int) * (radix_pow(i as nat) as int),
            decreases n - i,
        {
            let av: u64 = a[i] as u64;
            let bv: u64 = if i < b.len() {
                b[i] as u64
            } else {
                0
            };
            let t: u64 = av + 0x1_0000_0000u64 - bv - borrow;
            proof {
                assert(t <= 0x1_ffff_ffffu64 ==> ((t >> 32) <= 1 && t == (t as u32) as u64 + (t
                    >> 32) * 0x1_0000_0000u64)) by (bit_vector);
            }
            let lo: u32 = t as u32;
            let hi: u64 = t >> 32;
            let new_borrow: u64 = 1 - hi;
            proof {
                assert(av == limb_at(a@, i as nat));
                assert(bv == limb_at(b@, i as nat));
                lemma_limbs_val_snoc(res@, lo);
                let p = radix_pow(i as nat);
                lemma_radix_pow_pos(i as nat);
                assert(radix_pow((i + 1) as nat) == 0x1_0000_0000 * p);
                assert(limbs_val(res@.push(lo)) as int == limbs_val_prefix(a@, (i + 1) as nat) as int
                    - limbs_val_prefix(b@, (i + 1) as nat) as int
                    + (new_borrow as int) * (radix_pow((i + 1) as nat) as int))
                    by (nonlinear_arith)
                    requires
                        limbs_val(res@.push(lo)) == limbs_val(res@) + (lo as nat) * p,
                        radix_pow((i + 1) as nat) == 0x1_0000_0000 * p,
                        limbs_val(res@) as int == limbs_val_prefix(a@, i as nat) as int
                            - limbs_val_prefix(b@, i as nat) as int
                            + (borrow as int) * (p as int),
                        limbs_val_prefix(a@, (i + 1) as nat) == limbs_val_prefix(a@, i as nat)
                            + limb_at(a@, (i + 1 - 1) as nat) * p,
                        limbs_val_prefix(b@, (i + 1) as nat) == limbs_val_prefix(b@, i as nat)
                            + limb_at(b@, (i + 1 - 1) as nat) * p,
                        limb_at(a@, (i + 1 - 1) as nat) == av as nat,
                        limb_at(b@, (i + 1 - 1) as nat) == bv as nat,
                        (t as nat) == (lo as nat) + (hi as nat) * 0x1_0000_0000,
                        (t as nat) + (bv as nat) + (borrow as nat) == (av as nat) + 0x1_0000_0000,
                        new_borrow == 1 - hi,
                        hi <= 1,
                {}
            }
            res.push(lo);
            borrow = new_borrow;
            i = i + 1;
        }
        proof {
            lemma_prefix_past_len(b@, n as nat);
            if borrow == 1 {
                lemma_prefix_bound(res@, res@.len() as nat);
                assert(false);
            }
        }
        Self::trimmed(res)
    }

    /// Product with a single limb.
    fn mul_limb(&self, d: u32) -> (r: BigNat)
        requires
            self.wf(),
        ensures
            r.wf(),
            r.val() == self.val() * d,
    {
        let a = &self.limbs;
        let n: usize = a.len();
        let mut res: Vec<u32> = Vec::new();
        let mut carry: u64 = 0;
        let mut i: usize = 0;
        proof {
            assert(limbs_val_prefix(a@, 0) == 0);
            assert(limbs_val_prefix(a@, 0) * (d as nat) == 0);
        }
        while i < n
            invariant
                i <= n,
                n == a@.len(),
                res@.len() == i,
                carry <= 0xffff_ffff,
                limbs_val(res@) + carry * radix_pow(i as nat) == limbs_val_prefix(a@, i as nat) * (
                d as nat),
            decreases n - i,
        {
            let av: u64 = a[i] as u64;
            proof {
                assert(av <= 0xffff_ffffu64 && carry <= 0xffff_ffffu64 ==> av * (d as u64) + carry
                    <= 0xffff_ffffu64 * 0xffff_ffffu64 + 0xffff_ffffu64) by (nonlinear_arith);
            }
            let t: u64 = av * (d as u64) + carry;
            proof {
                assert(t == (t as u32) as u64 + (t >> 32) * 0x1_0000_0000u64) by (bit_vector);
                assert(t <= 0xffff_ffffu64 * 0xffff_ffffu64 + 0xffff_ffffu64 ==> (t >> 32)
                    <= 0xffff_ffffu64) by (bit_vector);
            }
            let lo: u32 = t as u32;
            let new_carry: u64 = t >> 32;
            proof {
                assert(av == limb_at(a@, i as nat));
                lemma_limbs_val_snoc(res@, lo);
                let p = radix_pow(i as nat);
                assert(radix_pow((i + 1) as nat) == 0x1_0000_0000 * p);
                assert(limbs_val(res@.push(lo)) + (new_carry as nat) * radix_pow((i + 1) as nat)
                    == limbs_val_prefix(a@, (i + 1) as nat) * (d as nat)) by (nonlinear_arith)
                    requires
                        limbs_val(res@.push(lo)) == limbs_val(res@) + (lo as nat) * p,
                        radix_pow((i + 1) as nat) == 0x1_0000_0000 * p,
                        limbs_val(res@) + (carry as nat) * p == limbs_val_prefix(a@, i as nat) * (
                        d as nat),
                        limbs_val_prefix(a@, (i + 1) as nat) == limbs_val_prefix(a@, i as nat)
                            + limb_at(a@, (i + 1 - 1) as nat) * p,
                        limb_at(a@, (i + 1 - 1) as nat) == av as nat,
                        (t as nat) == (lo as nat) + (new_carry as nat) * 0x1_0000_0000,
                        (t as nat) == (av as nat) * (d as nat) + carry as nat,
                {}
            }
            res.push(lo);
            carry = new_carry;
            i = i + 1;
        }
        if carry > 0 {
            proof {
                lemma_limbs_val_snoc(res@, carry as u32);
            }
            res.push(carry as u32);
        }
        proof {
            lemma_prefix_past_len(a@, n as nat);
        }
        Self::trimmed(res)
    }

    /// The value shifted up by one limb: multiplication by 2^32.
    fn shift_one(&self) -> (r: BigNat)
        requires
            self.wf(),
        ensures
            r.wf(),
            r.val() == self.val() * 0x1_0000_0000,
    {
        if self.limbs.len() == 0 {
            return BigNat { limbs: Vec::new() };
        }
        let mut limbs = self.limbs.clone();
        limbs.insert(0, 0);
        proof {
            lemma_prefix_prepend_zero(limbs@, self.limbs@, self.limbs@.len() as nat);
            lemma_prefix_past_len(limbs@, (self.limbs@.len() + 1) as nat);
        }
        BigNat { limbs }
    }
}

/// Value of the limbs of `s` from position `i` up, in units of `radix_pow(i)`.
pub open spec fn limbs_suffix_val(s: Seq<u32>, i: nat) -> nat
    decreases s.len() - i,
{
    if i >= s.len() {
        0
    } else {
        limb_at(s, i) + 0x1_0000_0000 * limbs_suffix_val(s, i + 1)
    }
}

/// A limb sequence splits at any position into prefix and weighted suffix.
pub proof fn lemma_prefix_suffix(s: Seq<u32>, i: nat)
    requires
        i <= s.len(),
    ensures
        limbs_val(s) == limbs_val_prefix(s, i) + limbs_suffix_val(s, i) * radix_pow(i),
    decreases s.len() - i,
{
    if i == s.len() {
        lemma_prefix_past_len(s, i);
        assert(limbs_suffix_val(s, i) == 0);
        assert(limbs_suffix_val(s, i) * radix_pow(i) == 0);
    } else {
        lemma_prefix_suffix(s, i + 1);
        assert(limbs_val_prefix(s, i + 1) == limbs_val_prefix(s, i) + limb_at(s, i) * radix_pow(i));
        assert(radix_pow(i + 1) == 0x1_0000_0000 * radix_pow(i));
        assert(limbs_val_prefix(s, i) + limb_at(s, i) * radix_pow(i) + limbs_suffix_val(s, i + 1)
            * radix_pow(i + 1) == limbs_val_prefix(s, i) + limbs_suffix_val(s, i) * radix_pow(i))
            by (nonlinear_arith)
            requires
                limbs_suffix_val(s, i) == limb_at(s, i) + 0x1_0000_0000 * limbs_suffix_val(s, i + 1),
                radix_pow(i + 1) == 0x1_0000_0000 * radix_pow(i),
        {}
    }
}

/// Prepending a zero limb multiplies the prefix value by the radix.
pub proof fn lemma_prefix_prepend_zero(t: Seq<u32>, s: Seq<u32>, j: nat)
    requires
        t.len() == s.len() + 1,
        limb_at(t, 0) == 0,
        forall|i: nat| i < s.len() ==> limb_at(t, i + 1) == limb_at(s, i),
    ensures
        limbs_val_prefix(t, j + 1) == 0x1_0000_0000 * limbs_val_prefix(s, j),
    decreases j,
{
    if j == 0 {
        assert(limbs_val_prefix(t, 0) == 0);
        assert(limbs_val_prefix(s, 0) == 0);
        assert(limbs_val_prefix(t, 1) == limbs_val_prefix(t, 0) + limb_at(t, 0) * radix_pow(0));
        assert(limb_at(t, 0) * radix_pow(0) == 0);
        assert(0x1_0000_0000 * limbs_val_prefix(s, 0) == 0);
    } else {
        let j1 = (j - 1) as nat;
        lemma_prefix_prepend_zero(t, s, j1);
        if j1 < s.len() {
            assert(limb_at(t, j1 + 1) == limb_at(s, j1));
        } else {
            assert(limb_at(t, j) == 0);
            assert(limb_at(s, j1) == 0);
        }
        assert(limbs_val_prefix(t, j + 1) == limbs_val_prefix(t, j) + limb_at(t, j) * radix_pow(j));
        assert(radix_pow(j) == 0x1_0000_0000 * radix_pow(j1));
        assert(limbs_val_prefix(t, j) + limb_at(s, j1) * radix_pow(j) == 0x1_0000_0000 * (
        limbs_val_prefix(s, j1) + limb_at(s, j1) * radix_pow(j1))) by (nonlinear_arith)
            requires
                limbs_val_prefix(t, j) == 0x1_0000_0000 * limbs_val_prefix(s, j1),
                radix_pow(j) == 0x1_0000_0000 * radix_pow(j1),
        {}
    }
}

impl BigNat {
    /// Product of the denoted values.
    pub fn mul(&self, other: &BigNat) -> (r: BigNat)
        requires
            self.wf(),
            other.wf(),
        ensures
            r.wf(),
            r.val() == self.val() * other.val(),
    {
        let b = &other.limbs;
        let mut res = BigNat::zero();
        let mut i: usize = b.len();
        proof {
            assert(limbs_suffix_val(b@, i as nat) == 0);
            assert(self.val() * limbs_suffix_val(b@, i as nat) == 0) by (nonlinear_arith)
                requires
                    limbs_suffix_val(b@, i as nat) == 0,
            {}
        }
        while i > 0
            invariant
                i <= b@.len(),
                self.wf(),
                res.wf(),
                other.val() == limbs_val(b@),
                res.val() == self.val() * limbs_suffix_val(b@, i as nat),
            decreases i,
        {
            i = i - 1;
            let shifted = res.shift_one();
            let part = self.mul_limb(b[i]);
            proof {
                assert(limb_at(b@, i as nat) == b@[i as int] as nat);
                assert(shifted.val() + part.val() == self.val() * limbs_suffix_val(b@, i as nat))
                    by (nonlinear_arith)
                    requires
                        shifted.val() == (self.val() * limbs_suffix_val(b@, (i + 1) as nat))
                            * 0x1_0000_0000,
                        part.val() == self.val() * (limb_at(b@, i as nat)),
                        limbs_suffix_val(b@, i as nat) == limb_at(b@, i as nat) + 0x1_0000_0000
                            * limbs_suffix_val(b@, (i + 1) as nat),
                {}
            }
            res = shifted.add(&part);
        }
        proof {
            lemma_prefix_suffix(b@, 0);
            assert(limbs_val_prefix(b@, 0) == 0);
            assert(radix_pow(0) == 1);
            assert(limbs_suffix_val(b@, 0) * 1 == limbs_suffix_val(b@, 0));
        }
        res
    }
}

} // verus!
