//! Exact rational arithmetic.
//!
//! Velocities, positions, damping factors and interpolation parameters are
//! rational numbers. The executable type [`Q`] holds an `i64` numerator and a
//! positive `i64` denominator; its view is the ghost fraction [`Rat`].
//! Results are stated structurally (`r@ == rat_add(a@, b@)`), and value
//! equality of fractions is the cross-multiplication relation [`rat_eq`].

use vstd::prelude::*;
use vstd::arithmetic::power::pow;

verus! {

/// A fraction for specifications: numerator `n` over denominator `d`.
pub struct Rat {
    pub n: int,
    pub d: int,
}

/// A fraction is well formed when its denominator is positive.
pub open spec fn rat_wf(a: Rat) -> bool {
    a.d > 0
}

pub open spec fn rat_zero() -> Rat {
    Rat { n: 0, d: 1 }
}

pub open spec fn rat_one() -> Rat {
    Rat { n: 1, d: 1 }
}

pub open spec fn rat_add(a: Rat, b: Rat) -> Rat {
    Rat { n: a.n * b.d + b.n * a.d, d: a.d * b.d }
}

pub open spec fn rat_sub(a: Rat, b: Rat) -> Rat {
    Rat { n: a.n * b.d - b.n * a.d, d: a.d * b.d }
}

pub open spec fn rat_mul(a: Rat, b: Rat) -> Rat {
    Rat { n: a.n * b.n, d: a.d * b.d }
}

/// Value equality of two fractions, by cross multiplication.
pub open spec fn rat_eq(a: Rat, b: Rat) -> bool {
    a.n * b.d == b.n * a.d
}

/// `a <= b` as fraction values; meaningful when both are well formed.
pub open spec fn rat_le(a: Rat, b: Rat) -> bool {
    a.n * b.d <= b.n * a.d
}

/// `a < b` as fraction values; meaningful when both are well formed.
pub open spec fn rat_lt(a: Rat, b: Rat) -> bool {
    a.n * b.d < b.n * a.d
}

/// Linear interpolation `a + (b - a) * t`.
pub open spec fn rat_lerp(a: Rat, b: Rat, t: Rat) -> Rat {
    rat_add(a, rat_mul(rat_sub(b, a), t))
}

/// Componentwise power: `(n/d)^e == n^e / d^e`.
pub open spec fn rat_pow(a: Rat, e: nat) -> Rat {
    Rat { n: pow(a.n, e), d: pow(a.d, e) }
}

pub open spec fn i64_fits(x: int) -> bool {
    i64::MIN <= x <= i64::MAX
}

/// The sum `a + b` can be computed with an `i64` numerator and denominator.
pub open spec fn rat_add_fits(a: Rat, b: Rat) -> bool {
    i64_fits(a.n * b.d + b.n * a.d) && i64_fits(a.d * b.d)
}

/// The difference `a - b` can be computed with an `i64` numerator and denominator.
pub open spec fn rat_sub_fits(a: Rat, b: Rat) -> bool {
    i64_fits(a.n * b.d - b.n * a.d) && i64_fits(a.d * b.d)
}

/// The product `a * b` can be computed with an `i64` numerator and denominator.
pub open spec fn rat_mul_fits(a: Rat, b: Rat) -> bool {
    i64_fits(a.n * b.n) && i64_fits(a.d * b.d)
}

/// All three partial results of `a + (b - a) * t` fit in `i64` fractions.
pub open spec fn rat_lerp_fits(a: Rat, b: Rat, t: Rat) -> bool {
    rat_sub_fits(b, a) && rat_mul_fits(rat_sub(b, a), t) && rat_add_fits(
        a,
        rat_mul(rat_sub(b, a), t),
    )
}

/// The product of two positive values is positive.
pub proof fn lemma_pos_mul_pos(a: int, b: int)
    requires
        a > 0,
        b > 0,
    ensures
        a * b > 0,
{
    assert(a * b > 0) by (nonlinear_arith)
        requires
            a > 0,
            b > 0,
    ;
}

/// Bound on the product of two values in `i64` range, used to justify `i128`
/// intermediate arithmetic.
pub proof fn lemma_i64_mul_bound(a: int, b: int)
    requires
        i64_fits(a),
        i64_fits(b),
    ensures
        -0x4000_0000_0000_0000_0000_0000_0000_0000 <= a * b
            <= 0x4000_0000_0000_0000_0000_0000_0000_0000,
{
    assert(-0x4000_0000_0000_0000_0000_0000_0000_0000 <= a * b
        <= 0x4000_0000_0000_0000_0000_0000_0000_0000) by (nonlinear_arith)
        requires
            -0x8000_0000_0000_0000 <= a <= 0x7fff_ffff_ffff_ffff,
            -0x8000_0000_0000_0000 <= b <= 0x7fff_ffff_ffff_ffff,
    ;
}

/// An exact rational number: `num / den` with `den > 0`.
#[derive(Clone, Copy, Debug)]
pub struct Q {
    pub num: i64,
    pub den: i64,
}

impl View for Q {
    type V = Rat;

    open spec fn view(&self) -> Rat {
        Rat { n: self.num as int, d: self.den as int }
    }
}

impl Q {
    pub open spec fn wf(&self) -> bool {
        self.den > 0
    }

    pub fn new(num: i64, den: i64) -> (r: Q)
        requires
            den > 0,
        ensures
            r.wf(),
            r@ == (Rat { n: num as int, d: den as int }),
    {
        Q { num, den }
    }

    pub fn from_int(n: i64) -> (r: Q)
        ensures
            r.wf(),
            r@ == (Rat { n: n as int, d: 1int }),
    {
        Q { num: n, den: 1 }
    }

    pub fn zero() -> (r: Q)
        ensures
            r.wf(),
            r@ == rat_zero(),
    {
        Q { num: 0, den: 1 }
    }

    pub fn one() -> (r: Q)
        ensures
            r.wf(),
            r@ == rat_one(),
    {
        Q { num: 1, den: 1 }
    }

    pub fn add(&self, other: &Q) -> (r: Q)
        requires
            self.wf(),
            other.wf(),
            rat_add_fits(self@, other@),
        ensures
            r.wf(),
            r@ == rat_add(self@, other@),
    {
        proof {
            lemma_i64_mul_bound(self.num as int, other.den as int);
            lemma_i64_mul_bound(other.num as int, self.den as int);
            lemma_i64_mul_bound(self.den as int, other.den as int);
            lemma_pos_mul_pos(self.den as int, other.den as int);
        }
        let n: i128 = (self.num as i128) * (other.den as i128) + (other.num as i128) * (self.den
            as i128);
        let d: i128 = (self.den as i128) * (other.den as i128);
        Q { num: n as i64, den: d as i64 }
    }

    pub fn sub(&self, other: &Q) -> (r: Q)
        requires
            self.wf(),
            other.wf(),
            rat_sub_fits(self@, other@),
        ensures
            r.wf(),
            r@ == rat_sub(self@, other@),
    {
        proof {
            lemma_i64_mul_bound(self.num as int, other.den as int);
            lemma_i64_mul_bound(other.num as int, self.den as int);
            lemma_i64_mul_bound(self.den as int, other.den as int);
            lemma_pos_mul_pos(self.den as int, other.den as int);
        }
        let n: i128 = (self.num as i128) * (other.den as i128) - (other.num as i128) * (self.den
            as i128);
        let d: i128 = (self.den as i128) * (other.den as i128);
        Q { num: n as i64, den: d as i64 }
    }

    pub fn mul(&self, other: &Q) -> (r: Q)
        requires
            self.wf(),
            other.wf(),
            rat_mul_fits(self@, other@),
        ensures
            r.wf(),
            r@ == rat_mul(self@, other@),
    {
        proof {
            lemma_i64_mul_bound(self.num as int, other.num as int);
            lemma_i64_mul_bound(self.den as int, other.den as int);
            lemma_pos_mul_pos(self.den as int, other.den as int);
        }
        let n: i128 = (self.num as i128) * (other.num as i128);
        let d: i128 = (self.den as i128) * (other.den as i128);
        Q { num: n as i64, den: d as i64 }
    }

    /// Value equality test by cross multiplication.
    pub fn eq_q(&self, other: &Q) -> (r: bool)
        requires
            self.wf(),
            other.wf(),
        ensures
            r == rat_eq(self@, other@),
    {
        proof {
            lemma_i64_mul_bound(self.num as int, other.den as int);
            lemma_i64_mul_bound(other.num as int, self.den as int);
        }
        (self.num as i128) * (other.den as i128) == (other.num as i128) * (self.den as i128)
    }

    pub fn le(&self, other: &Q) -> (r: bool)
        requires
            self.wf(),
            other.wf(),
        ensures
            r == rat_le(self@, other@),
    {
        proof {
            lemma_i64_mul_bound(self.num as int, other.den as int);
            lemma_i64_mul_bound(other.num as int, self.den as int);
        }
        (self.num as i128) * (other.den as i128) <= (other.num as i128) * (self.den as i128)
    }

    pub fn lt(&self, other: &Q) -> (r: bool)
        requires
            self.wf(),
            other.wf(),
        ensures
            r == rat_lt(self@, other@),
    {
        proof {
            lemma_i64_mul_bound(self.num as int, other.den as int);
            lemma_i64_mul_bound(other.num as int, self.den as int);
        }
        (self.num as i128) * (other.den as i128) < (other.num as i128) * (self.den as i128)
    }

    pub fn is_zero(&self) -> (r: bool)
        requires
            self.wf(),
        ensures
            r == rat_eq(self@, rat_zero()),
    {
        self.num == 0
    }

    /// Linear interpolation `self + (other - self) * t`.
    pub fn lerp(&self, other: &Q, t: &Q) -> (r: Q)
        requires
            self.wf(),
            other.wf(),
            t.wf(),
            rat_lerp_fits(self@, other@, t@),
        ensures
            r.wf(),
            r@ == rat_lerp(self@, other@, t@),
    {
        let diff = other.sub(self);
        let scaled = diff.mul(t);
        self.add(&scaled)
    }
}

/// Interpolating with parameter zero yields exactly the start value.
pub proof fn lemma_lerp_at_zero(a: Rat, b: Rat)
    requires
        rat_wf(a),
        rat_wf(b),
    ensures
        rat_eq(rat_lerp(a, b, rat_zero()), a),
{
    let s = rat_sub(b, a);
    let m = rat_mul(s, rat_zero());
    let l = rat_add(a, m);
    assert(l.n * a.d == a.n * l.d) by (nonlinear_arith)
        requires
            l == rat_add(a, rat_mul(rat_sub(b, a), rat_zero())),
            m == rat_mul(rat_sub(b, a), rat_zero()),
            s == rat_sub(b, a),
    ;
}

/// Interpolating with parameter one yields exactly the end value.
pub proof fn lemma_lerp_at_one(a: Rat, b: Rat)
    requires
        rat_wf(a),
        rat_wf(b),
    ensures
        rat_eq(rat_lerp(a, b, rat_one()), b),
{
    let l = rat_lerp(a, b, rat_one());
    assert(l.n * b.d == b.n * l.d) by (nonlinear_arith)
        requires
            l == rat_add(a, rat_mul(rat_sub(b, a), rat_one())),
    ;
}

/// For a parameter strictly below one, the interpolated value never reaches
/// the end value unless start and end are already equal.
#[verifier::rlimit(50)]
pub proof fn lemma_lerp_strictly_before_end(a: Rat, b: Rat, t: Rat)
    requires
        rat_wf(a),
        rat_wf(b),
        rat_wf(t),
        rat_lt(t, rat_one()),
        !rat_eq(a, b),
    ensures
        !rat_eq(rat_lerp(a, b, t), b),
{
    let e = b.n * a.d - a.n * b.d;
    let s = rat_sub(b, a);
    let m = rat_mul(s, t);
    let l = rat_add(a, m);
    assert(s.n == e && s.d == b.d * a.d);
    assert(m.n == e * t.n && m.d == (b.d * a.d) * t.d);
    assert(l.n == a.n * ((b.d * a.d) * t.d) + (e * t.n) * a.d);
    assert(l.d == a.d * ((b.d * a.d) * t.d));
    let bb = b.d * a.d;
    assert(l.n * b.d == a.n * (bb * t.d) * b.d + (e * t.n) * a.d * b.d) by (nonlinear_arith)
        requires
            l.n == a.n * (bb * t.d) + (e * t.n) * a.d,
    ;
    assert(b.n * l.d == b.n * a.d * (bb * t.d)) by (nonlinear_arith)
        requires
            l.d == a.d * (bb * t.d),
    ;
    assert(a.n * (bb * t.d) * b.d - b.n * a.d * (bb * t.d) == (bb * t.d) * (a.n * b.d - b.n
        * a.d)) by (nonlinear_arith);
    assert(a.n * b.d - b.n * a.d == -e);
    assert((bb * t.d) * (-e) == -(a.d * b.d * e * t.d)) by (nonlinear_arith)
        requires
            bb == b.d * a.d,
    ;
    assert((e * t.n) * a.d * b.d == a.d * b.d * e * t.n) by (nonlinear_arith);
    assert(a.d * b.d * e * (t.n - t.d) == a.d * b.d * e * t.n - a.d * b.d * e * t.d)
        by (nonlinear_arith);
    assert(l.n * b.d - b.n * l.d == a.d * b.d * e * (t.n - t.d));
    assert(e != 0);
    assert(t.n * 1 == t.n && 1 * t.d == t.d) by (nonlinear_arith);
    assert(t.n - t.d < 0);
    assert(a.d * b.d > 0) by (nonlinear_arith)
        requires
            a.d > 0,
            b.d > 0,
    ;
    assert(a.d * b.d * e * (t.n - t.d) != 0) by (nonlinear_arith)
        requires
            a.d * b.d > 0,
            e != 0,
            t.n - t.d < 0,
    ;
}

} // verus!
