//! Signed fixed-point scalars with saturating arithmetic.
//!
//! Every length, speed, duration and ratio of the simulation is a [`Fixed`]:
//! an `i64` that counts millionths of a unit. The operations never wrap and
//! never trap; a result that leaves the representable range is pinned to the
//! nearest bound, and a quotient is cut towards zero.

use vstd::prelude::*;

verus! {

/// Number of raw steps that make up one unit.
pub const SCALE: i64 = 1_000_000;

/// Smallest raw value.
pub const RAW_MIN: i64 = -0x8000_0000_0000_0000;

/// Largest raw value.
pub const RAW_MAX: i64 = 0x7fff_ffff_ffff_ffff;

/// Absolute value of an integer.
pub open spec fn magnitude(a: int) -> int {
    if a < 0 {
        -a
    } else {
        a
    }
}

/// The representable value nearest to `v`.
pub open spec fn saturate(v: int) -> int {
    if v < RAW_MIN {
        RAW_MIN as int
    } else if v > RAW_MAX {
        RAW_MAX as int
    } else {
        v
    }
}

/// True when `v` needs no saturation.
pub open spec fn representable(v: int) -> bool {
    RAW_MIN <= v <= RAW_MAX
}

/// The quotient `a * num / den` cut towards zero. Meaningful for `den != 0`.
pub open spec fn ratio(a: int, num: int, den: int) -> int {
    if (a >= 0) == (num >= 0) {
        if den > 0 {
            (a * num) / den
        } else {
            -((a * num) / (-den))
        }
    } else {
        if den > 0 {
            -((-(a * num)) / den)
        } else {
            (-(a * num)) / (-den)
        }
    }
}

/// The remainder of `a` by `m` that carries the sign of `a`. Meaningful for
/// `m != 0`.
pub open spec fn remainder(a: int, m: int) -> int {
    let r = magnitude(a) % magnitude(m);
    if a < 0 {
        -r
    } else {
        r
    }
}

/// A fixed-point number; `raw` counts millionths of a unit.
#[derive(Clone, Copy, Debug, PartialEq, Eq, Structural)]
pub struct Fixed {
    pub raw: i64,
}

impl View for Fixed {
    type V = int;

    open spec fn view(&self) -> int {
        self.raw as int
    }
}

/// Magnitude of a raw value as an unsigned number.
fn unsigned_magnitude(a: i64) -> (m: u128)
    ensures
        m == magnitude(a as int),
{
    if a < 0 {
        let wide: i128 = a as i128;
        (-wide) as u128
    } else {
        a as u128
    }
}

/// Gives a magnitude its sign back and pins the result to the raw range.
fn signed_saturated(q: u128, negative: bool) -> (r: i64)
    ensures
        r == saturate(
            if negative {
                -(q as int)
            } else {
                q as int
            },
        ),
{
    if negative {
        if q >= 0x8000_0000_0000_0000 {
            RAW_MIN
        } else {
            let small: i64 = q as i64;
            -small
        }
    } else if q > 0x7fff_ffff_ffff_ffff {
        RAW_MAX
    } else {
        q as i64
    }
}

impl Fixed {
    /// The number with the raw value nearest to `v`.
    pub open spec fn of(v: int) -> Fixed {
        Fixed { raw: saturate(v) as i64 }
    }

    pub open spec fn spec_from_raw(raw: i64) -> Fixed {
        Fixed { raw }
    }

    /// The number with exactly this raw value.
    #[verifier::when_used_as_spec(spec_from_raw)]
    pub fn from_raw(raw: i64) -> (r: Fixed)
        ensures
            r == Fixed::spec_from_raw(raw),
    {
        Fixed { raw }
    }

    pub open spec fn spec_from_int(units: i32) -> Fixed {
        Fixed { raw: (units * SCALE) as i64 }
    }

    /// The whole number `units`.
    #[verifier::when_used_as_spec(spec_from_int)]
    pub fn from_int(units: i32) -> (r: Fixed)
        ensures
            r == Fixed::spec_from_int(units),
            r@ == units * SCALE,
    {
        let wide: i64 = units as i64;
        Fixed { raw: wide * SCALE }
    }

    pub open spec fn spec_plus(self, rhs: Fixed) -> Fixed {
        Fixed::of(self.raw + rhs.raw)
    }

    /// Saturating sum.
    #[verifier::when_used_as_spec(spec_plus)]
    pub fn plus(self, rhs: Fixed) -> (r: Fixed)
        ensures
            r == self.spec_plus(rhs),
    {
        let wide: i128 = self.raw as i128 + rhs.raw as i128;
        if wide < RAW_MIN as i128 {
            Fixed { raw: RAW_MIN }
        } else if wide > RAW_MAX as i128 {
            Fixed { raw: RAW_MAX }
        } else {
            Fixed { raw: wide as i64 }
        }
    }

    pub open spec fn spec_minus(self, rhs: Fixed) -> Fixed {
        Fixed::of(self.raw - rhs.raw)
    }

    /// Saturating difference.
    #[verifier::when_used_as_spec(spec_minus)]
    pub fn minus(self, rhs: Fixed) -> (r: Fixed)
        ensures
            r == self.spec_minus(rhs),
    {
        let wide: i128 = self.raw as i128 - rhs.raw as i128;
        if wide < RAW_MIN as i128 {
            Fixed { raw: RAW_MIN }
        } else if wide > RAW_MAX as i128 {
            Fixed { raw: RAW_MAX }
        } else {
            Fixed { raw: wide as i64 }
        }
    }

    pub open spec fn spec_negated(self) -> Fixed {
        Fixed::of(-self.raw)
    }

    /// Saturating negation: the smallest number becomes the largest.
    #[verifier::when_used_as_spec(spec_negated)]
    pub fn negated(self) -> (r: Fixed)
        ensures
            r == self.spec_negated(),
    {
        if self.raw == RAW_MIN {
            Fixed { raw: RAW_MAX }
        } else {
            Fixed { raw: -self.raw }
        }
    }

    pub open spec fn spec_abs(self) -> Fixed {
        Fixed::of(magnitude(self.raw as int))
    }

    /// Saturating absolute value.
    #[verifier::when_used_as_spec(spec_abs)]
    pub fn abs(self) -> (r: Fixed)
        ensures
            r == self.spec_abs(),
    {
        if self.raw == RAW_MIN {
            Fixed { raw: RAW_MAX }
        } else if self.raw < 0 {
            Fixed { raw: -self.raw }
        } else {
            self
        }
    }

    pub open spec fn spec_scaled(self, num: i64, den: i64) -> Fixed {
        Fixed::of(ratio(self.raw as int, num as int, den as int))
    }

    /// `self * num / den`, computed without intermediate loss, cut towards
    /// zero and saturated.
    #[verifier::when_used_as_spec(spec_scaled)]
    pub fn scaled(self, num: i64, den: i64) -> (r: Fixed)
        requires
            den != 0,
        ensures
            r == self.spec_scaled(num, den),
    {
        let a: u128 = unsigned_magnitude(self.raw);
        let n: u128 = unsigned_magnitude(num);
        let d: u128 = unsigned_magnitude(den);
        assert(a * n <= 0x4000_0000_0000_0000_0000_0000_0000_0000) by (nonlinear_arith)
            requires
                0 <= a <= 0x8000_0000_0000_0000,
                0 <= n <= 0x8000_0000_0000_0000,
        ;
        assert(a * n == magnitude(self.raw * num) && ((self.raw >= 0) == (num >= 0) ==> self.raw
            * num >= 0) && ((self.raw >= 0) != (num >= 0) ==> self.raw * num <= 0))
            by (nonlinear_arith)
            requires
                a == magnitude(self.raw as int),
                n == magnitude(num as int),
        ;
        let q: u128 = a * n / d;
        let negative: bool = ((self.raw < 0) != (num < 0)) != (den < 0);
        Fixed { raw: signed_saturated(q, negative) }
    }

    pub open spec fn spec_times(self, rhs: Fixed) -> Fixed {
        self.spec_scaled(rhs.raw, SCALE)
    }

    /// Fixed-point product.
    #[verifier::when_used_as_spec(spec_times)]
    pub fn times(self, rhs: Fixed) -> (r: Fixed)
        ensures
            r == self.spec_times(rhs),
    {
        self.scaled(rhs.raw, SCALE)
    }

    pub open spec fn spec_over(self, rhs: Fixed) -> Fixed {
        self.spec_scaled(SCALE, rhs.raw)
    }

    /// Fixed-point quotient.
    #[verifier::when_used_as_spec(spec_over)]
    pub fn over(self, rhs: Fixed) -> (r: Fixed)
        requires
            rhs.raw != 0,
        ensures
            r == self.spec_over(rhs),
    {
        self.scaled(SCALE, rhs.raw)
    }

    pub open spec fn spec_rem(self, modulus: Fixed) -> Fixed {
        Fixed { raw: remainder(self.raw as int, modulus.raw as int) as i64 }
    }

    /// Remainder of the division cut towards zero; it carries the sign of
    /// `self`.
    #[verifier::when_used_as_spec(spec_rem)]
    pub fn rem(self, modulus: Fixed) -> (r: Fixed)
        requires
            modulus.raw != 0,
        ensures
            r == self.spec_rem(modulus),
            r@ == remainder(self@, modulus@),
    {
        let a: u128 = unsigned_magnitude(self.raw);
        let m: u128 = unsigned_magnitude(modulus.raw);
        let r: u128 = a % m;
        Fixed { raw: signed_saturated(r, self.raw < 0) }
    }

    pub open spec fn spec_min(self, rhs: Fixed) -> Fixed {
        if rhs.raw < self.raw {
            rhs
        } else {
            self
        }
    }

    /// The smaller of two numbers.
    #[verifier::when_used_as_spec(spec_min)]
    pub fn min(self, rhs: Fixed) -> (r: Fixed)
        ensures
            r == self.spec_min(rhs),
    {
        if rhs.raw < self.raw {
            rhs
        } else {
            self
        }
    }

    pub open spec fn spec_max(self, rhs: Fixed) -> Fixed {
        if rhs.raw > self.raw {
            rhs
        } else {
            self
        }
    }

    /// The larger of two numbers.
    #[verifier::when_used_as_spec(spec_max)]
    pub fn max(self, rhs: Fixed) -> (r: Fixed)
        ensures
            r == self.spec_max(rhs),
    {
        if rhs.raw > self.raw {
            rhs
        } else {
            self
        }
    }
}

/// For non-negative operands and a positive divisor the cut quotient is the
/// plain quotient; it is not negative, and a factor of at most one does not
/// enlarge.
pub proof fn lemma_ratio_nonneg(a: int, num: int, den: int)
    requires
        a >= 0,
        num >= 0,
        den > 0,
    ensures
        ratio(a, num, den) == (a * num) / den,
        ratio(a, num, den) >= 0,
        num <= den ==> ratio(a, num, den) <= a,
{
    assert(a * num >= 0) by (nonlinear_arith)
        requires
            a >= 0,
            num >= 0,
    ;
    assert((a * num) / den >= 0) by (nonlinear_arith)
        requires
            a * num >= 0,
            den > 0,
    ;
    if num <= den {
        assert((a * num) / den <= a) by (nonlinear_arith)
            requires
                a >= 0,
                0 <= num <= den,
                den > 0,
        ;
    }
}

/// Scaling by `n / n` changes nothing.
pub proof fn lemma_ratio_same(a: int, n: int)
    requires
        n != 0,
    ensures
        ratio(a, n, n) == a,
{
    let m = magnitude(a);
    let k = magnitude(n);
    assert((m * k) / k == m) by (nonlinear_arith)
        requires
            k > 0,
            m >= 0,
    ;
    assert(m * k == magnitude(a * n) && ((a >= 0) == (n >= 0) ==> a * n >= 0) && ((a >= 0) != (n
        >= 0) ==> a * n <= 0)) by (nonlinear_arith)
        requires
            m == magnitude(a),
            k == magnitude(n),
    ;
}

/// A part of the whole scales to a part of the whole: for `a` between zero
/// and `den`, the cut quotient `a * num / den` lies between zero and `num`.
pub proof fn lemma_ratio_of_part(a: int, num: int, den: int)
    requires
        0 <= a <= den,
        num >= 0,
        den > 0,
    ensures
        0 <= ratio(a, num, den) <= num,
{
    lemma_ratio_nonneg(a, num, den);
    assert(a * num <= den * num) by (nonlinear_arith)
        requires
            0 <= a <= den,
            num >= 0,
    ;
    assert((a * num) / den <= num) by (nonlinear_arith)
        requires
            a * num <= den * num,
            den > 0,
    ;
}

} // verus!
