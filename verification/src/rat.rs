//! Exact rational arithmetic over `i64` numerators and denominators.
//!
//! Every operation computes in `i128` (wide enough to hold any product of
//! two `i64` values) and reports failure instead of overflowing, so a
//! result is returned exactly when the mathematical result fits back into
//! `i64` components.

use vstd::prelude::*;

verus! {

/// An exact rational number `num / den` with `den > 0`.
#[derive(Clone, Copy, Debug, PartialEq, Eq, Structural)]
pub struct Rat {
    pub num: i64,
    pub den: i64,
}

/// `x` fits into an `i64`.
pub open spec fn in_i64(x: int) -> bool {
    i64::MIN <= x <= i64::MAX
}

/// The rational number zero.
pub open spec fn rat_zero() -> Rat {
    Rat { num: 0, den: 1 }
}

/// `a` and `b` denote the same rational number (cross multiplication).
pub open spec fn rat_eq(a: Rat, b: Rat) -> bool {
    a.num * b.den == b.num * a.den
}

/// The numerator of `a + b` before any truncation.
pub open spec fn rat_add_num(a: Rat, b: Rat) -> int {
    a.num * b.den + b.num * a.den
}

/// The numerator of `a - b` before any truncation.
pub open spec fn rat_sub_num(a: Rat, b: Rat) -> int {
    a.num * b.den - b.num * a.den
}

/// The denominator `a.den * b.den` before any truncation.
pub open spec fn rat_den_prod(a: Rat, b: Rat) -> int {
    a.den * b.den
}

/// The components of `a + b` fit into `i64`.
pub open spec fn rat_add_fits(a: Rat, b: Rat) -> bool {
    in_i64(rat_add_num(a, b)) && in_i64(rat_den_prod(a, b))
}

/// The exact sum `a + b`; meaningful when `rat_add_fits(a, b)`.
pub open spec fn rat_add(a: Rat, b: Rat) -> Rat {
    Rat { num: rat_add_num(a, b) as i64, den: rat_den_prod(a, b) as i64 }
}

/// The components of `a - b` fit into `i64`.
pub open spec fn rat_sub_fits(a: Rat, b: Rat) -> bool {
    in_i64(rat_sub_num(a, b)) && in_i64(rat_den_prod(a, b))
}

/// The exact difference `a - b`; meaningful when `rat_sub_fits(a, b)`.
pub open spec fn rat_sub(a: Rat, b: Rat) -> Rat {
    Rat { num: rat_sub_num(a, b) as i64, den: rat_den_prod(a, b) as i64 }
}

/// The components of `a * b` fit into `i64`.
pub open spec fn rat_mul_fits(a: Rat, b: Rat) -> bool {
    in_i64(a.num * b.num) && in_i64(rat_den_prod(a, b))
}

/// The exact product `a * b`; meaningful when `rat_mul_fits(a, b)`.
pub open spec fn rat_mul(a: Rat, b: Rat) -> Rat {
    Rat { num: (a.num * b.num) as i64, den: rat_den_prod(a, b) as i64 }
}

/// The components of `a / b` fit into `i64`.
pub open spec fn rat_div_fits(a: Rat, b: Rat) -> bool {
    if b.num >= 0 {
        in_i64(a.num * b.den) && in_i64(a.den * b.num)
    } else {
        in_i64(-(a.num * b.den)) && in_i64(-(a.den * b.num))
    }
}

/// The exact quotient `a / b`, normalized to a positive denominator;
/// meaningful when `b.num != 0` and `rat_div_fits(a, b)`.
pub open spec fn rat_div(a: Rat, b: Rat) -> Rat {
    if b.num >= 0 {
        Rat { num: (a.num * b.den) as i64, den: (a.den * b.num) as i64 }
    } else {
        Rat { num: (-(a.num * b.den)) as i64, den: (-(a.den * b.num)) as i64 }
    }
}

/// `a` denotes a number that is at least zero.
pub open spec fn rat_nonneg(a: Rat) -> bool {
    a.num >= 0
}

/// `q` denotes the exact quotient `a / b`, by cross multiplication;
/// meaningful when `b.num != 0`.
pub open spec fn is_quotient_of(q: Rat, a: Rat, b: Rat) -> bool {
    (q.num * a.den) * b.num == (a.num * b.den) * q.den
}

/// `rat_div` really is division: when its components fit, the value it
/// returns satisfies the cross-multiplied quotient equation.
pub proof fn lemma_div_is_quotient(a: Rat, b: Rat)
    requires
        a.wf(),
        b.wf(),
        b.num != 0,
        rat_div_fits(a, b),
    ensures
        rat_div(a, b).wf(),
        is_quotient_of(rat_div(a, b), a, b),
{
    let q = rat_div(a, b);
    if b.num >= 0 {
        assert(q.num == a.num * b.den && q.den == a.den * b.num);
        lemma_pos_mul_pos(a.den as int, b.num as int);
        assert(((a.num * b.den) * a.den) * b.num == (a.num * b.den) * (a.den * b.num))
            by (nonlinear_arith);
    } else {
        assert(q.num == -(a.num * b.den) && q.den == -(a.den * b.num));
        lemma_pos_mul_neg(a.den as int, b.num as int);
        assert(((-(a.num * b.den)) * a.den) * b.num == (a.num * b.den) * (-(a.den * b.num)))
            by (nonlinear_arith);
    }
}

/// A product of an `i64` numerator and a positive `i64` denominator stays
/// strictly inside `(-2^126, 2^126)`, so sums of two such products fit in
/// `i128`.
pub proof fn lemma_num_den_mul_range(n: int, d: int)
    by (nonlinear_arith)
    requires
        -0x8000_0000_0000_0000 <= n <= 0x7FFF_FFFF_FFFF_FFFF,
        1 <= d <= 0x7FFF_FFFF_FFFF_FFFF,
    ensures
        -0x4000_0000_0000_0000_0000_0000_0000_0000 < n * d
            < 0x4000_0000_0000_0000_0000_0000_0000_0000,
{
}

/// A product of two `i64` values stays inside `[-2^126, 2^126]`, so it and
/// its negation fit in `i128`.
pub proof fn lemma_i64_mul_in_i128(x: int, y: int)
    by (nonlinear_arith)
    requires
        -0x8000_0000_0000_0000 <= x <= 0x7FFF_FFFF_FFFF_FFFF,
        -0x8000_0000_0000_0000 <= y <= 0x7FFF_FFFF_FFFF_FFFF,
    ensures
        -0x4000_0000_0000_0000_0000_0000_0000_0000 <= x * y
            <= 0x4000_0000_0000_0000_0000_0000_0000_0000,
{
}

/// Positive denominators multiply to a positive denominator.
pub proof fn lemma_pos_mul_pos(x: int, y: int)
    by (nonlinear_arith)
    requires
        x > 0,
        y > 0,
    ensures
        x * y > 0,
{
}

/// A positive factor times a negative factor is negative.
pub proof fn lemma_pos_mul_neg(x: int, y: int)
    by (nonlinear_arith)
    requires
        x > 0,
        y < 0,
    ensures
        x * y < 0,
{
}

impl Rat {
    /// The denominator is positive.
    pub open spec fn wf(self) -> bool {
        self.den > 0
    }

    /// The rational number zero.
    pub fn zero() -> (r: Rat)
        ensures
            r == rat_zero(),
            r.wf(),
    {
        Rat { num: 0, den: 1 }
    }

    /// The rational `num / den` for a positive denominator.
    pub fn new(num: i64, den: i64) -> (r: Rat)
        requires
            den > 0,
        ensures
            r == (Rat { num, den }),
            r.wf(),
    {
        Rat { num, den }
    }

    /// The whole number `v`.
    pub fn from_int(v: i64) -> (r: Rat)
        ensures
            r == (Rat { num: v, den: 1 }),
            r.wf(),
    {
        Rat { num: v, den: 1 }
    }

    /// Exact addition; `None` exactly when the result does not fit.
    pub fn checked_add(self, other: Rat) -> (r: Option<Rat>)
        requires
            self.wf(),
            other.wf(),
        ensures
            r is Some <==> rat_add_fits(self, other),
            rat_add_fits(self, other) ==> r == Some(rat_add(self, other)) && rat_add(
                self,
                other,
            ).wf(),
    {
        proof {
            lemma_num_den_mul_range(self.num as int, other.den as int);
            lemma_num_den_mul_range(other.num as int, self.den as int);
            lemma_num_den_mul_range(self.den as int, other.den as int);
            lemma_pos_mul_pos(self.den as int, other.den as int);
        }
        let n: i128 = self.num as i128 * other.den as i128 + other.num as i128 * self.den as i128;
        let d: i128 = self.den as i128 * other.den as i128;
        if n < i64::MIN as i128 || n > i64::MAX as i128 || d > i64::MAX as i128 {
            None
        } else {
            Some(Rat { num: n as i64, den: d as i64 })
        }
    }

    /// Exact subtraction; `None` exactly when the result does not fit.
    pub fn checked_sub(self, other: Rat) -> (r: Option<Rat>)
        requires
            self.wf(),
            other.wf(),
        ensures
            r is Some <==> rat_sub_fits(self, other),
            rat_sub_fits(self, other) ==> r == Some(rat_sub(self, other)) && rat_sub(
                self,
                other,
            ).wf(),
    {
        proof {
            lemma_num_den_mul_range(self.num as int, other.den as int);
            lemma_num_den_mul_range(other.num as int, self.den as int);
            lemma_num_den_mul_range(self.den as int, other.den as int);
            lemma_pos_mul_pos(self.den as int, other.den as int);
        }
        let n: i128 = self.num as i128 * other.den as i128 - other.num as i128 * self.den as i128;
        let d: i128 = self.den as i128 * other.den as i128;
        if n < i64::MIN as i128 || n > i64::MAX as i128 || d > i64::MAX as i128 {
            None
        } else {
            Some(Rat { num: n as i64, den: d as i64 })
        }
    }

    /// Exact multiplication; `None` exactly when the result does not fit.
    pub fn checked_mul(self, other: Rat) -> (r: Option<Rat>)
        requires
            self.wf(),
            other.wf(),
        ensures
            r is Some <==> rat_mul_fits(self, other),
            rat_mul_fits(self, other) ==> r == Some(rat_mul(self, other)) && rat_mul(
                self,
                other,
            ).wf(),
    {
        proof {
            lemma_i64_mul_in_i128(self.num as int, other.num as int);
            lemma_num_den_mul_range(self.den as int, other.den as int);
            lemma_pos_mul_pos(self.den as int, other.den as int);
        }
        let n: i128 = self.num as i128 * other.num as i128;
        let d: i128 = self.den as i128 * other.den as i128;
        if n < i64::MIN as i128 || n > i64::MAX as i128 || d > i64::MAX as i128 {
            None
        } else {
            Some(Rat { num: n as i64, den: d as i64 })
        }
    }

    /// Exact division by a nonzero rational, normalized to a positive
    /// denominator; `None` exactly when the result does not fit.
    pub fn checked_div(self, other: Rat) -> (r: Option<Rat>)
        requires
            self.wf(),
            other.wf(),
            other.num != 0,
        ensures
            r is Some <==> rat_div_fits(self, other),
            rat_div_fits(self, other) ==> r == Some(rat_div(self, other)) && rat_div(
                self,
                other,
            ).wf(),
    {
        proof {
            lemma_num_den_mul_range(self.num as int, other.den as int);
            lemma_i64_mul_in_i128(self.den as int, other.num as int);
            if other.num > 0 {
                lemma_pos_mul_pos(self.den as int, other.num as int);
            } else {
                lemma_pos_mul_neg(self.den as int, other.num as int);
            }
        }
        let n0: i128 = self.num as i128 * other.den as i128;
        let d0: i128 = self.den as i128 * other.num as i128;
        let n: i128 = if other.num >= 0 {
            n0
        } else {
            -n0
        };
        let d: i128 = if other.num >= 0 {
            d0
        } else {
            -d0
        };
        if n < i64::MIN as i128 || n > i64::MAX as i128 || d > i64::MAX as i128 {
            None
        } else {
            Some(Rat { num: n as i64, den: d as i64 })
        }
    }

    /// Whether `self` and `other` denote the same rational number.
    pub fn same_value(self, other: Rat) -> (r: bool)
        requires
            self.wf(),
            other.wf(),
        ensures
            r == rat_eq(self, other),
    {
        proof {
            lemma_num_den_mul_range(self.num as int, other.den as int);
            lemma_num_den_mul_range(other.num as int, self.den as int);
        }
        self.num as i128 * other.den as i128 == other.num as i128 * self.den as i128
    }

    /// Whether `self` denotes zero.
    pub fn is_zero(self) -> (r: bool)
        requires
            self.wf(),
        ensures
            r == (self.num == 0),
            r == rat_eq(self, rat_zero()),
    {
        self.num == 0
    }
}

} // verus!
