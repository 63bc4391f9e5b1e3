//! Saturating decimal fixed-point scalars.
//!
//! A quantity is a count of millionths held in an `i64`.  Addition,
//! subtraction, multiplication and division round to the nearest unit
//! (halves away from zero) and saturate at the `i64` range instead of
//! wrapping, so every operation is total on representable inputs and its
//! result is pinned down exactly by an integer-level specification.

use vstd::prelude::*;

verus! {

/// Fixed-point units per 1.0: values carry six decimal places.
pub const SCALE: i64 = 1_000_000;

/// Magnitude of an integer.
pub open spec fn mag(i: int) -> int {
    if i < 0 { -i } else { i }
}

/// Clamp an integer into the `i64` range: arithmetic saturates, never wraps.
pub open spec fn clip(i: int) -> int {
    if i < i64::MIN { i64::MIN as int } else if i > i64::MAX { i64::MAX as int } else { i }
}

/// Round-to-nearest division of a nonnegative dividend by a positive
/// divisor, halves rounding up.
pub open spec fn round_div(p: int, d: int) -> int {
    (p + d / 2) / d
}

/// Round-to-nearest division of signed integers, halves away from zero.
pub open spec fn round_div_signed(p: int, q: int) -> int {
    if (p < 0) != (q < 0) { -round_div(mag(p), mag(q)) } else { round_div(mag(p), mag(q)) }
}

/// Sum of two fixed-point values.
pub open spec fn fx_add(a: int, b: int) -> int {
    clip(a + b)
}

/// Difference of two fixed-point values.
pub open spec fn fx_sub(a: int, b: int) -> int {
    clip(a - b)
}

/// Negation of a fixed-point value.
pub open spec fn fx_neg(a: int) -> int {
    clip(-a)
}

/// Product of two fixed-point values.
pub open spec fn fx_mul(a: int, b: int) -> int {
    clip(round_div_signed(a * b, SCALE as int))
}

/// Quotient of two fixed-point values (unspecified shape when `b == 0`,
/// which the executable operation rules out).
pub open spec fn fx_div(a: int, b: int) -> int {
    clip(round_div_signed(a * SCALE, b))
}

/// Quotient of a fixed-point value by a plain integer.
pub open spec fn fx_divi(a: int, d: int) -> int {
    clip(round_div_signed(a, d))
}

/// The integer square root: the unique `r >= 0` with `r * r <= n < (r + 1) * (r + 1)`.
pub open spec fn isqrt(n: int) -> int {
    choose|r: int| 0 <= r && #[trigger] (r * r) <= n && n < (r + 1) * (r + 1)
}

/// Square root of a nonnegative fixed-point value.
pub open spec fn fx_sqrt(a: int) -> int {
    isqrt(a * SCALE)
}

/// The whole part of a nonnegative value as a machine word, saturating:
/// negative values floor at zero.
pub open spec fn usize_of(v: int) -> int {
    if v < 0 {
        0
    } else if v / (SCALE as int) > usize::MAX {
        usize::MAX as int
    } else {
        v / (SCALE as int)
    }
}

/// A fixed-point value raised to a natural power.
pub open spec fn fx_pow(x: int, n: nat) -> int
    decreases n,
{
    if n == 0 { SCALE as int } else { fx_mul(x, fx_pow(x, (n - 1) as nat)) }
}

/// Fixed-point radians of half a turn.
pub const PI_UNITS: i64 = 3_141_593;

/// Fixed-point radians of a full turn.
pub const TWO_PI_UNITS: i64 = 6_283_185;

/// Fixed-point radians of a quarter turn.
pub const HALF_PI_UNITS: i64 = 1_570_796;

/// The angle brought down by whole turns until it is at most half a turn.
pub open spec fn swing_down(u: int) -> int
    decreases u + TWO_PI_UNITS,
{
    if u > PI_UNITS {
        swing_down(u - TWO_PI_UNITS)
    } else {
        u
    }
}

/// The angle brought up by whole turns until it is at least half a turn
/// below zero.
pub open spec fn swing_up(u: int) -> int
    decreases TWO_PI_UNITS - u,
{
    if u < -PI_UNITS {
        swing_up(u + TWO_PI_UNITS)
    } else {
        u
    }
}

/// The angle shifted by whole turns into `[-pi, pi]`.
pub open spec fn reduced_units(u: int) -> int {
    swing_up(swing_down(u))
}

/// The alternating sine series folded into a running sum from step `k`
/// on: each step multiplies the previous term by the squared angle,
/// divides by the next two factorial factors, and flips the sign.
pub open spec fn sin_steps(x2: int, term: int, sum: int, k: nat) -> int
    decreases 11 - k,
{
    if k > 10 {
        sum
    } else {
        let next = fx_divi(fx_mul(term, x2), -(2 * (k as int) * (2 * (k as int) + 1)));
        sin_steps(x2, next, fx_add(sum, next), (k + 1) as nat)
    }
}

/// The sine of an angle in fixed-point radians, as this library computes
/// it: range reduction, ten terms of the alternating series, a final
/// clamp into `[-1, 1]`.
pub open spec fn sin_units(u: int) -> int {
    let x = reduced_units(u);
    let s = sin_steps(fx_mul(x, x), x, x, 1);
    if s > SCALE {
        SCALE as int
    } else if s < -(SCALE as int) {
        -(SCALE as int)
    } else {
        s
    }
}

/// The cosine: the sine of the angle shifted by a quarter turn.
pub open spec fn cos_units(u: int) -> int {
    sin_units(fx_add(u, HALF_PI_UNITS as int))
}

/// A real quantity held as a count of millionths.
#[derive(Clone, Copy, Debug, PartialEq, Eq, Structural)]
pub struct Fx {
    units: i64,
}

impl View for Fx {
    type V = int;

    closed spec fn view(&self) -> int {
        self.units as int
    }
}

proof fn lemma_mul_magnitude(a: int, b: int, m: int, n: int)
    by (nonlinear_arith)
    requires
        -m <= a <= m,
        -n <= b <= n,
        0 <= m,
        0 <= n,
    ensures
        -(m * n) <= a * b <= m * n,
{
}

proof fn lemma_isqrt_unique(n: int, r: int)
    requires
        0 <= r,
        r * r <= n,
        n < (r + 1) * (r + 1),
    ensures
        isqrt(n) == r,
{
    assert(0 <= r && r * r <= n && n < (r + 1) * (r + 1));
    let c = isqrt(n);
    assert(0 <= c && c * c <= n && n < (c + 1) * (c + 1)) by {
        assert(exists|q: int| 0 <= q && #[trigger] (q * q) <= n && n < (q + 1) * (q + 1));
    }
    assert(c == r) by (nonlinear_arith)
        requires
            0 <= r,
            r * r <= n,
            n < (r + 1) * (r + 1),
            0 <= c,
            c * c <= n,
            n < (c + 1) * (c + 1),
    {
    }
}

/// Two fixed-point values are equal exactly when their images are.
pub proof fn lemma_fx_view_eq(a: Fx, b: Fx)
    ensures
        (a == b) == (a@ == b@),
{
}

/// The image of every fixed-point value lies within the `i64` range.
pub broadcast proof fn lemma_fx_in_range(f: Fx)
    ensures
        i64::MIN <= #[trigger] f@ <= i64::MAX,
{
}

/// Dividing zero by any nonzero value leaves zero.
pub proof fn lemma_fx_div_zero(b: int)
    requires
        b != 0,
    ensures
        fx_div(0, b) == 0,
{
    let bm = mag(b);
    vstd::arithmetic::div_mod::lemma_div_nonincreasing(bm, 2);
    vstd::arithmetic::div_mod::lemma_div_decreases(bm, 2);
    vstd::arithmetic::div_mod::lemma_basic_div(bm / 2, bm);
}

/// Multiplying by one, on either side, leaves a representable value as it is.
pub proof fn lemma_fx_mul_one(a: int)
    requires
        i64::MIN <= a <= i64::MAX,
    ensures
        fx_mul(a, SCALE as int) == a,
        fx_mul(SCALE as int, a) == a,
{
    let am = mag(a);
    assert(mag(a * SCALE) == am * SCALE);
    assert(mag(SCALE * a) == am * SCALE);
    vstd::arithmetic::div_mod::lemma_div_multiples_vanish_fancy(am, (SCALE / 2) as int, SCALE as int);
    assert((SCALE as int) * am + SCALE / 2 == am * SCALE + SCALE / 2);
    assert(round_div(am * SCALE, SCALE as int) == am);
}

/// Dividing by one leaves a representable value as it is.
pub proof fn lemma_fx_div_one(a: int)
    requires
        i64::MIN <= a <= i64::MAX,
    ensures
        fx_div(a, SCALE as int) == a,
{
    let am = mag(a);
    assert(mag(a * SCALE) == am * SCALE);
    vstd::arithmetic::div_mod::lemma_div_multiples_vanish_fancy(am, (SCALE / 2) as int, SCALE as int);
    assert((SCALE as int) * am + SCALE / 2 == am * SCALE + SCALE / 2);
    assert(round_div(am * SCALE, SCALE as int) == am);
}

/// Multiplying by zero, on either side, gives zero.
pub proof fn lemma_fx_mul_zero(a: int)
    ensures
        fx_mul(a, 0) == 0,
        fx_mul(0, a) == 0,
{
    assert(a * 0 == 0);
    assert(0 * a == 0);
}

/// Clamp a wide intermediate into the `i64` range.
fn clamp_wide(v: i128) -> (r: i64)
    ensures
        r as int == clip(v as int),
{
    if v > i64::MAX as i128 {
        i64::MAX
    } else if v < i64::MIN as i128 {
        i64::MIN
    } else {
        v as i64
    }
}

/// Round-to-nearest unsigned division, halves rounding up.
fn round_div_mag(p: u128, d: u128) -> (r: u128)
    requires
        d > 0,
        p + d / 2 <= u128::MAX,
    ensures
        r as int == round_div(p as int, d as int),
{
    (p + d / 2) / d
}

/// Magnitude and sign of an `i128` known to be above `i128::MIN`.
fn wide_mag(v: i128) -> (r: u128)
    requires
        v != i128::MIN,
    ensures
        r as int == mag(v as int),
{
    if v < 0 { (-v) as u128 } else { v as u128 }
}

impl Fx {
    /// The value zero.
    pub fn zero() -> (r: Fx)
        ensures
            r@ == 0,
    {
        Fx { units: 0 }
    }

    /// The value one.
    pub fn one() -> (r: Fx)
        ensures
            r@ == SCALE as int,
    {
        Fx { units: SCALE }
    }

    /// Build a value from a raw count of millionths.
    pub fn from_units(units: i64) -> (r: Fx)
        ensures
            r@ == units as int,
    {
        Fx { units }
    }

    /// Build a value from a whole number, saturating at the range limits.
    pub fn from_int(v: i64) -> (r: Fx)
        ensures
            r@ == clip(v * SCALE),
    {
        proof {
            lemma_mul_magnitude(v as int, SCALE as int, 0x8000_0000_0000_0000, SCALE as int);
        }
        let w: i128 = (v as i128) * (SCALE as i128);
        Fx { units: clamp_wide(w) }
    }

    /// The raw count of millionths.
    pub fn to_units(self) -> (r: i64)
        ensures
            r as int == self@,
    {
        self.units
    }

    /// Saturating sum.
    pub fn add(self, other: Fx) -> (r: Fx)
        ensures
            r@ == fx_add(self@, other@),
    {
        let w: i128 = (self.units as i128) + (other.units as i128);
        Fx { units: clamp_wide(w) }
    }

    /// Saturating difference.
    pub fn sub(self, other: Fx) -> (r: Fx)
        ensures
            r@ == fx_sub(self@, other@),
    {
        let w: i128 = (self.units as i128) - (other.units as i128);
        Fx { units: clamp_wide(w) }
    }

    /// Saturating negation.
    pub fn neg(self) -> (r: Fx)
        ensures
            r@ == fx_neg(self@),
    {
        let w: i128 = -(self.units as i128);
        Fx { units: clamp_wide(w) }
    }

    /// Saturating product, rounded to the nearest unit.
    pub fn mul(self, other: Fx) -> (r: Fx)
        ensures
            r@ == fx_mul(self@, other@),
    {
        let a: i128 = self.units as i128;
        let b: i128 = other.units as i128;
        proof {
            lemma_mul_magnitude(a as int, b as int, 0x8000_0000_0000_0000, 0x8000_0000_0000_0000);
        }
        let p: i128 = a * b;
        let pm: u128 = wide_mag(p);
        let m: u128 = round_div_mag(pm, SCALE as u128);
        let w: i128 = if p < 0 { -(m as i128) } else { m as i128 };
        proof {
            assert(m <= pm / (SCALE as u128) + 1) by (nonlinear_arith)
                requires
                    m as int == round_div(pm as int, SCALE as int),
                    SCALE == 1_000_000,
            {
            }
        }
        Fx { units: clamp_wide(w) }
    }

    /// Saturating quotient, rounded to the nearest unit.
    pub fn div(self, other: Fx) -> (r: Fx)
        requires
            other@ != 0,
        ensures
            r@ == fx_div(self@, other@),
    {
        let a: i128 = self.units as i128;
        let b: i128 = other.units as i128;
        let p: i128 = a * (SCALE as i128);
        proof {
            lemma_mul_magnitude(a as int, SCALE as int, 0x8000_0000_0000_0000, SCALE as int);
        }
        let pm: u128 = wide_mag(p);
        let bm: u128 = wide_mag(b);
        let m: u128 = round_div_mag(pm, bm);
        proof {
            assert(m <= pm) by (nonlinear_arith)
                requires
                    m as int == round_div(pm as int, bm as int),
                    bm >= 1,
            {
            }
        }
        let w: i128 = if (p < 0) != (b < 0) { -(m as i128) } else { m as i128 };
        Fx { units: clamp_wide(w) }
    }

    /// Quotient by a plain nonzero integer, rounded to the nearest unit.
    pub fn divi(self, d: i64) -> (r: Fx)
        requires
            d != 0,
        ensures
            r@ == fx_divi(self@, d as int),
    {
        let a: i128 = self.units as i128;
        let q: i128 = d as i128;
        let am: u128 = wide_mag(a);
        let qm: u128 = wide_mag(q);
        let m: u128 = round_div_mag(am, qm);
        proof {
            assert(m <= am) by (nonlinear_arith)
                requires
                    m as int == round_div(am as int, qm as int),
                    qm >= 1,
            {
            }
        }
        let w: i128 = if (a < 0) != (q < 0) { -(m as i128) } else { m as i128 };
        Fx { units: clamp_wide(w) }
    }

    /// Square root of a nonnegative value, truncated to whole units.
    pub fn sqrt(self) -> (r: Fx)
        requires
            self@ >= 0,
        ensures
            r@ == fx_sqrt(self@),
            r@ >= 0,
    {
        proof {
            lemma_mul_magnitude(self.units as int, SCALE as int, 0x7fff_ffff_ffff_ffff, SCALE as int);
        }
        let n: u128 = (self.units as u128) * (SCALE as u128);
        let mut lo: u128 = 0;
        let mut hi: u128 = 1u128 << 43;
        proof {
            assert((1u128 << 43) == 0x800_0000_0000u128) by (bit_vector);
            assert(n < hi * hi) by (nonlinear_arith)
                requires
                    n <= 0x7fff_ffff_ffff_ffffu128 * 0xf_4240u128,
                    hi == 0x800_0000_0000u128,
            {
            }
        }
        while lo + 1 < hi
            invariant
                lo < hi,
                hi <= 0x800_0000_0000u128,
                lo * lo <= n,
                n < hi * hi,
            decreases hi - lo,
        {
            let mid: u128 = lo + (hi - lo) / 2;
            proof {
                assert(mid * mid <= 0x800_0000_0000u128 * 0x800_0000_0000u128) by (nonlinear_arith)
                    requires
                        mid <= 0x800_0000_0000u128,
                {
                }
            }
            if mid * mid <= n {
                lo = mid;
            } else {
                hi = mid;
            }
        }
        proof {
            assert((lo + 1) * (lo + 1) >= hi * hi) by (nonlinear_arith)
                requires
                    lo + 1 >= hi,
                    lo < hi,
            {
            }
            lemma_isqrt_unique(n as int, lo as int);
        }
        Fx { units: lo as i64 }
    }

    /// The value raised to a natural power by repeated multiplication.
    pub fn powi(self, n: u64) -> (r: Fx)
        ensures
            r@ == fx_pow(self@, n as nat),
    {
        let mut acc: Fx = Fx::one();
        let mut i: u64 = 0;
        while i < n
            invariant
                i <= n,
                acc@ == fx_pow(self@, i as nat),
            decreases n - i,
        {
            acc = self.mul(acc);
            i = i + 1;
        }
        acc
    }

    /// Whether the value is exactly zero.
    pub fn is_zero(self) -> (r: bool)
        ensures
            r == (self@ == 0),
    {
        self.units == 0
    }

    /// Whether the value is negative.
    pub fn is_neg(self) -> (r: bool)
        ensures
            r == (self@ < 0),
    {
        self.units < 0
    }

    /// Comparison: strictly less than.
    pub fn lt(self, other: Fx) -> (r: bool)
        ensures
            r == (self@ < other@),
    {
        self.units < other.units
    }

    /// Comparison: less than or equal.
    pub fn le(self, other: Fx) -> (r: bool)
        ensures
            r == (self@ <= other@),
    {
        self.units <= other.units
    }

    /// The angle shifted by whole turns into `[-pi, pi]`.
    fn reduced(self) -> (r: Fx)
        ensures
            -PI_UNITS <= r@ <= PI_UNITS,
            r@ == reduced_units(self@),
    {
        let mut units: i64 = self.units;
        while units > PI_UNITS
            invariant
                swing_down(units as int) == swing_down(self@),
            decreases units - PI_UNITS + TWO_PI_UNITS,
        {
            units = units - TWO_PI_UNITS;
        }
        proof {
            assert(units as int == swing_down(self@));
        }
        while units < -PI_UNITS
            invariant
                units <= PI_UNITS,
                swing_up(units as int) == swing_up(swing_down(self@)),
            decreases -units + PI_UNITS,
        {
            units = units + TWO_PI_UNITS;
        }
        Fx { units }
    }

    /// The sine of the value taken as radians, by an alternating power
    /// series after range reduction; the result is kept within `[-1, 1]`.
    pub fn sin(self) -> (r: Fx)
        ensures
            -(SCALE as int) <= r@ <= SCALE as int,
            r@ == sin_units(self@),
    {
        let x: Fx = self.reduced();
        let x2: Fx = x.mul(x);
        let mut term: Fx = x;
        let mut sum: Fx = x;
        let mut k: u64 = 1;
        while k <= 10
            invariant
                1 <= k <= 11,
                sin_steps(x2@, term@, sum@, k as nat) == sin_steps(x2@, x@, x@, 1),
            decreases 11 - k,
        {
            let two_k: u64 = 2 * k;
            proof {
                assert(6 <= two_k * (two_k + 1) <= 420) by (nonlinear_arith)
                    requires
                        2 <= two_k <= 20,
                {
                }
                assert((two_k as int) * ((two_k as int) + 1) == 2 * (k as int) * (2 * (k as int)
                    + 1)) by (nonlinear_arith)
                    requires
                        two_k as int == 2 * (k as int),
                {
                }
            }
            let d: i64 = (two_k * (two_k + 1)) as i64;
            term = term.mul(x2).divi(-d);
            sum = sum.add(term);
            k = k + 1;
        }
        proof {
            assert(sin_steps(x2@, term@, sum@, k as nat) == sum@);
        }
        if sum.units > SCALE {
            Fx { units: SCALE }
        } else if sum.units < -SCALE {
            Fx { units: -SCALE }
        } else {
            sum
        }
    }

    /// The cosine of the value taken as radians, as the sine of the angle
    /// shifted by a quarter turn; the result is kept within `[-1, 1]`.
    pub fn cos(self) -> (r: Fx)
        ensures
            -(SCALE as int) <= r@ <= SCALE as int,
            r@ == cos_units(self@),
    {
        self.add(Fx { units: HALF_PI_UNITS }).sin()
    }

    /// The whole part as a machine word: negative values floor at zero,
    /// values past the word's range saturate.
    pub fn to_usize(self) -> (r: usize)
        ensures
            r as int == usize_of(self@),
    {
        if self.units < 0 {
            0
        } else {
            let q: u64 = (self.units as u64) / (SCALE as u64);
            if q > usize::MAX as u64 {
                usize::MAX
            } else {
                q as usize
            }
        }
    }

    /// Magnitude of the value.
    pub fn abs(self) -> (r: Fx)
        ensures
            r@ == clip(mag(self@)),
    {
        if self.units == i64::MIN {
            Fx { units: i64::MAX }
        } else if self.units < 0 {
            Fx { units: -self.units }
        } else {
            self
        }
    }
}

} // verus!
