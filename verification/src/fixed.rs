//! Decimal fixed-point numbers.
//!
//! Every real-valued quantity of the simulation (a coordinate, a velocity, a
//! span of time) is a [`Fixed`]: an integer count of millionths. The model of
//! a `Fixed` is that count, an `int`, and arithmetic is stated over it.
//! Results that would leave the representable interval saturate at its ends,
//! so every operation is total.

use vstd::prelude::*;

verus! {

/// Raw counts per unit: six decimal places.
pub const SCALE: i64 = 1_000_000;

/// Largest raw magnitude a [`Fixed`] holds. A multiple of [`SCALE`], so that
/// rounding to a whole number never leaves the interval.
pub const LIMIT: i64 = 9_000_000_000_000_000_000;

/// Whether `v` is a raw count that a [`Fixed`] can hold.
pub open spec fn in_range(v: int) -> bool {
    -(LIMIT as int) <= v <= LIMIT as int
}

/// The nearest raw count to `v` that a [`Fixed`] can hold.
pub open spec fn clamp(v: int) -> int {
    if v < -(LIMIT as int) {
        -(LIMIT as int)
    } else if v > LIMIT as int {
        LIMIT as int
    } else {
        v
    }
}

/// Raw count of the whole number `n`.
pub open spec fn whole(n: int) -> int {
    n * (SCALE as int)
}

/// Saturating sum of two raw counts.
pub open spec fn sat_add(a: int, b: int) -> int {
    clamp(a + b)
}

/// Saturating difference of two raw counts.
pub open spec fn sat_sub(a: int, b: int) -> int {
    clamp(a - b)
}

/// Saturating product of two raw counts: the exact product of the two
/// numbers, rounded down to a millionth.
pub open spec fn sat_mul(a: int, b: int) -> int {
    clamp((a * b) / (SCALE as int))
}

/// Raw count of the largest whole number not above `a`.
pub open spec fn floor(a: int) -> int {
    (a / (SCALE as int)) * (SCALE as int)
}

/// Raw count of the smallest whole number not below `a`.
pub open spec fn ceil(a: int) -> int {
    -floor(-a)
}

/// A number with six decimal places, between minus and plus nine trillion.
#[derive(Copy, Clone, PartialEq, Eq, Debug)]
pub struct Fixed {
    raw: i64,
}

impl View for Fixed {
    type V = int;

    /// The number's count of millionths.
    closed spec fn view(&self) -> int {
        clamp(self.raw as int)
    }
}

impl Fixed {
    #[verifier::type_invariant]
    spec fn stored_in_range(self) -> bool {
        in_range(self.raw as int)
    }

    /// Every number lies in the representable interval.
    pub proof fn lemma_in_range(self)
        ensures
            in_range(self@),
    {
    }

    /// Two numbers with the same count of millionths are the same number.
    pub fn same(self, other: Fixed) -> (r: bool)
        ensures
            r == (self@ == other@),
    {
        proof {
            use_type_invariant(&self);
            use_type_invariant(&other);
        }
        self.raw == other.raw
    }

    /// The number zero.
    pub fn zero() -> (r: Fixed)
        ensures
            r@ == 0,
    {
        Fixed { raw: 0 }
    }

    /// The number one.
    pub fn one() -> (r: Fixed)
        ensures
            r@ == whole(1),
    {
        Fixed { raw: SCALE }
    }

    /// The whole number `units`. Every `i32` is representable exactly.
    pub fn from_int(units: i32) -> (r: Fixed)
        ensures
            r@ == whole(units as int),
    {
        let wide: i64 = units as i64;
        Fixed { raw: wide * SCALE }
    }

    /// The number of `micros` millionths, saturated to the representable
    /// interval.
    pub fn from_micros(micros: i64) -> (r: Fixed)
        ensures
            r@ == clamp(micros as int),
    {
        if micros < -LIMIT {
            Fixed { raw: -LIMIT }
        } else if micros > LIMIT {
            Fixed { raw: LIMIT }
        } else {
            Fixed { raw: micros }
        }
    }

    /// Saturating sum.
    pub fn plus(self, other: Fixed) -> (r: Fixed)
        ensures
            r@ == sat_add(self@, other@),
    {
        proof {
            use_type_invariant(&self);
            use_type_invariant(&other);
        }
        let sum: i128 = self.raw as i128 + other.raw as i128;
        Fixed::saturate(sum)
    }

    /// Saturating difference.
    pub fn minus(self, other: Fixed) -> (r: Fixed)
        ensures
            r@ == sat_sub(self@, other@),
    {
        proof {
            use_type_invariant(&self);
            use_type_invariant(&other);
        }
        let difference: i128 = self.raw as i128 - other.raw as i128;
        Fixed::saturate(difference)
    }

    /// Saturating product, rounded down to a millionth.
    pub fn times(self, other: Fixed) -> (r: Fixed)
        ensures
            r@ == sat_mul(self@, other@),
    {
        proof {
            use_type_invariant(&self);
            use_type_invariant(&other);
            lemma_product_bound(self.raw as int, other.raw as int);
        }
        let product: i128 = (self.raw as i128) * (other.raw as i128);
        let quotient: i128 = whole_units(product);
        Fixed::saturate(quotient)
    }

    /// The number with the opposite sign. Exact: the interval is symmetric.
    pub fn negate(self) -> (r: Fixed)
        ensures
            r@ == -self@,
    {
        proof {
            use_type_invariant(&self);
        }
        Fixed { raw: -self.raw }
    }

    /// The largest whole number not above this one.
    pub fn floor(self) -> (r: Fixed)
        ensures
            r@ == floor(self@),
    {
        proof {
            use_type_invariant(&self);
            lemma_floor_in_range(self.raw as int);
        }
        let units: i128 = whole_units(self.raw as i128);
        let rounded: i128 = units * (SCALE as i128);
        Fixed { raw: rounded as i64 }
    }

    /// The smallest whole number not below this one.
    pub fn ceil(self) -> (r: Fixed)
        ensures
            r@ == ceil(self@),
    {
        self.negate().floor().negate()
    }

    /// Whether this number is strictly below `other`.
    pub fn lt(self, other: Fixed) -> (r: bool)
        ensures
            r == (self@ < other@),
    {
        proof {
            use_type_invariant(&self);
            use_type_invariant(&other);
        }
        self.raw < other.raw
    }

    /// Whether this number is at most `other`.
    pub fn le(self, other: Fixed) -> (r: bool)
        ensures
            r == (self@ <= other@),
    {
        proof {
            use_type_invariant(&self);
            use_type_invariant(&other);
        }
        self.raw <= other.raw
    }

    /// Whether this number is strictly above `other`.
    pub fn gt(self, other: Fixed) -> (r: bool)
        ensures
            r == (self@ > other@),
    {
        other.lt(self)
    }

    /// Whether this number is at least `other`.
    pub fn ge(self, other: Fixed) -> (r: bool)
        ensures
            r == (self@ >= other@),
    {
        other.le(self)
    }

    fn saturate(wide: i128) -> (r: Fixed)
        ensures
            r@ == clamp(wide as int),
    {
        if wide < -(LIMIT as i128) {
            Fixed { raw: -LIMIT }
        } else if wide > LIMIT as i128 {
            Fixed { raw: LIMIT }
        } else {
            Fixed { raw: wide as i64 }
        }
    }

    /// The number's count of millionths.
    pub fn micros(self) -> (r: i64)
        ensures
            r as int == self@,
    {
        proof {
            use_type_invariant(&self);
        }
        self.raw
    }
}

/// Inside the representable interval nothing saturates: sums and
/// differences are exact, and so is the product with a whole number.
pub proof fn lemma_exact_when_representable(a: int, b: int, n: int)
    ensures
        in_range(clamp(a)),
        in_range(a) ==> clamp(a) == a,
        in_range(a + b) ==> sat_add(a, b) == a + b,
        in_range(a - b) ==> sat_sub(a, b) == a - b,
        in_range(a * n) ==> sat_mul(a, whole(n)) == a * n,
        in_range(a) ==> sat_mul(a, whole(1)) == a && sat_mul(a, 0) == 0,
{
    assert((a * whole(n)) == (a * n) * (SCALE as int)) by (nonlinear_arith);
    assert(whole(1) == SCALE as int);
    assert(a * (SCALE as int) / (SCALE as int) == a);
    assert(a * 0 == 0);
}

/// Rounding to a whole number moves a number by less than one unit, leaves
/// whole numbers as they are, and keeps representable numbers representable.
pub proof fn lemma_rounding(a: int, n: int)
    ensures
        floor(a) <= a < floor(a) + SCALE,
        ceil(a) - SCALE < a <= ceil(a),
        floor(a) % (SCALE as int) == 0,
        ceil(a) % (SCALE as int) == 0,
        floor(whole(n)) == whole(n),
        ceil(whole(n)) == whole(n),
        in_range(a) ==> in_range(floor(a)) && in_range(ceil(a)),
{
    assert(LIMIT as int == 9_000_000_000_000 * (SCALE as int));
}

/// Count of whole units in the raw count `a`, rounded down.
fn whole_units(a: i128) -> (q: i128)
    ensures
        q as int == (a as int) / (SCALE as int),
{
    let truncated: i128 = a / (SCALE as i128);
    if a % (SCALE as i128) < 0 {
        truncated - 1
    } else {
        truncated
    }
}

proof fn lemma_product_bound(a: int, b: int)
    by (nonlinear_arith)
    requires
        in_range(a),
        in_range(b),
    ensures
        -(LIMIT as int) * (LIMIT as int) <= a * b <= (LIMIT as int) * (LIMIT as int),
{
}

proof fn lemma_floor_in_range(a: int)
    requires
        in_range(a),
    ensures
        in_range(floor(a)),
        in_range((a / (SCALE as int))),
{
    assert(LIMIT as int == 9_000_000_000_000 * (SCALE as int));
}

} // verus!
