//! Fixed-point scalars.
//!
//! A [`Fx`] holds an `i64` count of millionths of a unit.  Sums and
//! differences saturate at the `i64` range; products and quotients round
//! toward zero and then saturate.  Each executable operation is specified
//! exactly by a spec function over unbounded integers ([`fadd`], [`fmul`],
//! ...), so contracts built from them pin every result down completely.

use vstd::prelude::*;

verus! {

/// Number of fixed-point steps per unit: an `Fx` value counts millionths.
pub const SCALE: i64 = 1_000_000;

/// A fixed-point scalar; `m` counts millionths of a unit.
#[derive(Clone, Copy, Debug, PartialEq, Eq, Structural)]
pub struct Fx {
    pub m: i64,
}

impl View for Fx {
    type V = int;

    open spec fn view(&self) -> int {
        self.m as int
    }
}

/// Magnitude of an integer.
pub open spec fn iabs(a: int) -> int {
    if a < 0 {
        -a
    } else {
        a
    }
}

/// Saturation to the `i64` range.
pub open spec fn sat(x: int) -> int {
    if x > i64::MAX as int {
        i64::MAX as int
    } else if x < i64::MIN as int {
        i64::MIN as int
    } else {
        x
    }
}

/// Division rounding toward zero, as computed by the hardware.
pub open spec fn tdiv(a: int, b: int) -> int {
    let q = iabs(a) / iabs(b);
    if (a < 0) != (b < 0) {
        -q
    } else {
        q
    }
}

/// Saturating negation of a mantissa.
pub open spec fn fneg(a: int) -> int {
    sat(-a)
}

/// Saturating sum of two mantissas.
pub open spec fn fadd(a: int, b: int) -> int {
    sat(a + b)
}

/// Saturating difference of two mantissas.
pub open spec fn fsub(a: int, b: int) -> int {
    sat(a - b)
}

/// Fixed-point product: scale-preserving, rounded toward zero, saturated.
pub open spec fn fmul(a: int, b: int) -> int {
    sat(tdiv(a * b, SCALE as int))
}

/// Fixed-point quotient: scale-preserving, rounded toward zero, saturated.
/// Unspecified when `b == 0` (executable code forbids that case).
pub open spec fn fdiv(a: int, b: int) -> int {
    sat(tdiv(a * SCALE, b))
}

/// Smaller of two mantissas.
pub open spec fn fmin(a: int, b: int) -> int {
    if a < b {
        a
    } else {
        b
    }
}

/// Larger of two mantissas.
pub open spec fn fmax(a: int, b: int) -> int {
    if a < b {
        b
    } else {
        a
    }
}

/// Mantissa clamped to `[lo, hi]`.
pub open spec fn fclamp(x: int, lo: int, hi: int) -> int {
    fmin(fmax(x, lo), hi)
}

/// Saturating magnitude of a mantissa.
pub open spec fn fabs(a: int) -> int {
    sat(iabs(a))
}

/// Largest integer whose square does not exceed `n`.
pub open spec fn sqrt_floor(n: nat) -> nat
    decreases n,
{
    if n < 1 {
        0
    } else {
        let r = sqrt_floor((n - 1) as nat);
        if (r + 1) * (r + 1) <= n {
            r + 1
        } else {
            r
        }
    }
}

/// `sqrt_floor` is exactly the integer square root.
pub proof fn lemma_sqrt_floor(n: nat)
    ensures
        sqrt_floor(n) * sqrt_floor(n) <= n,
        n < (sqrt_floor(n) + 1) * (sqrt_floor(n) + 1),
    decreases n,
{
    if n < 1 {
        assert(sqrt_floor(n) == 0);
        assert(n < (sqrt_floor(n) + 1) * (sqrt_floor(n) + 1)) by (nonlinear_arith)
            requires
                n < 1,
                sqrt_floor(n) == 0,
        ;
    } else {
        lemma_sqrt_floor((n - 1) as nat);
        let r = sqrt_floor((n - 1) as nat);
        if (r + 1) * (r + 1) <= n {
            assert(sqrt_floor(n) == r + 1);
            assert(sqrt_floor(n) * sqrt_floor(n) <= n && n < (sqrt_floor(n) + 1) * (
            sqrt_floor(n) + 1)) by (nonlinear_arith)
                requires
                    sqrt_floor(n) == r + 1,
                    (r + 1) * (r + 1) <= n,
                    n - 1 < (r + 1) * (r + 1),
                    r >= 0,
            ;
        } else {
            assert(sqrt_floor(n) == r);
            assert(sqrt_floor(n) * sqrt_floor(n) <= n && n < (sqrt_floor(n) + 1) * (
            sqrt_floor(n) + 1)) by (nonlinear_arith)
                requires
                    sqrt_floor(n) == r,
                    r * r <= n - 1,
                    n < (r + 1) * (r + 1),
                    n >= 1,
            ;
        }
    }
}

/// The integer square root is unique.
pub proof fn lemma_sqrt_unique(n: nat, r: nat)
    requires
        r * r <= n,
        n < (r + 1) * (r + 1),
    ensures
        r == sqrt_floor(n),
{
    lemma_sqrt_floor(n);
    let s = sqrt_floor(n);
    if r < s {
        assert((r + 1) * (r + 1) <= s * s) by (nonlinear_arith)
            requires
                r + 1 <= s,
        ;
    }
    if s < r {
        assert((s + 1) * (s + 1) <= r * r) by (nonlinear_arith)
            requires
                s + 1 <= r,
        ;
    }
}

/// Fixed-point square root of a sum of three squared mantissas.
pub open spec fn fnorm3(x: int, y: int, z: int) -> int {
    sat(sqrt_floor((x * x + y * y + z * z) as nat) as int)
}

/// A product of two `i64` mantissas stays well inside the `i128` range.
proof fn lemma_mantissa_product_fits(a: int, b: int)
    requires
        i64::MIN as int <= a <= i64::MAX as int,
        i64::MIN as int <= b <= i64::MAX as int,
    ensures
        -(i128::MAX as int) <= a * b <= i128::MAX as int,
{
    assert(a * b <= 0x40000000000000000000000000000000 && a * b
        >= -0x40000000000000000000000000000000) by (nonlinear_arith)
        requires
            -0x8000000000000000 <= a <= 0x7fffffffffffffff,
            -0x8000000000000000 <= b <= 0x7fffffffffffffff,
    ;
}

/// Clamp an `i128` back into the `i64` range.
fn sat128(x: i128) -> (r: i64)
    ensures
        r as int == sat(x as int),
{
    if x > i64::MAX as i128 {
        i64::MAX
    } else if x < i64::MIN as i128 {
        i64::MIN
    } else {
        x as i64
    }
}

/// Truncating division of `i128` values, computed over magnitudes.
fn tdiv128(a: i128, b: i128) -> (r: i128)
    requires
        b != 0,
        a != i128::MIN,
        b != i128::MIN,
    ensures
        r as int == tdiv(a as int, b as int),
{
    let ua: u128 = if a < 0 {
        (-a) as u128
    } else {
        a as u128
    };
    let ub: u128 = if b < 0 {
        (-b) as u128
    } else {
        b as u128
    };
    let q: u128 = ua / ub;
    assert(q <= ua) by (nonlinear_arith)
        requires
            ub >= 1,
            q == ua / ub,
    ;
    if (a < 0) != (b < 0) {
        -(q as i128)
    } else {
        q as i128
    }
}

/// Magnitude of an `i64` mantissa, widened so that `i64::MIN` is exact.
fn abs_u128(m: i64) -> (r: u128)
    ensures
        r as int == iabs(m as int),
{
    if m < 0 {
        (-(m as i128)) as u128
    } else {
        m as u128
    }
}

/// Integer square root by bisection.
fn isqrt_u128(n: u128) -> (r: u128)
    ensures
        r as nat == sqrt_floor(n as nat),
{
    let mut lo: u128 = 0;
    let mut hi: u128 = 0x10000000000000000;
    proof {
        assert((0x10000000000000000 as int) * (0x10000000000000000 as int) > u128::MAX as int)
            by (nonlinear_arith);
    }
    while hi - lo > 1
        invariant
            lo < hi,
            hi <= 0x10000000000000000,
            (lo as int) * (lo as int) <= n as int,
            (hi as int) * (hi as int) > n as int,
        decreases hi - lo,
    {
        let mid: u128 = lo + (hi - lo) / 2;
        assert(mid * mid <= u128::MAX) by (nonlinear_arith)
            requires
                mid < 0x10000000000000000,
        ;
        if mid * mid <= n {
            lo = mid;
        } else {
            hi = mid;
        }
    }
    proof {
        lemma_sqrt_unique(n as nat, lo as nat);
    }
    lo
}

/// Fixed-point Euclidean length of a three-component vector.
pub fn vec_norm(x: Fx, y: Fx, z: Fx) -> (r: Fx)
    ensures
        r@ == fnorm3(x@, y@, z@),
{
    let ax: u128 = abs_u128(x.m);
    let ay: u128 = abs_u128(y.m);
    let az: u128 = abs_u128(z.m);
    proof {
        assert(ax * ax <= 0x40000000000000000000000000000000 && ay * ay
            <= 0x40000000000000000000000000000000 && az * az
            <= 0x40000000000000000000000000000000) by (nonlinear_arith)
            requires
                ax <= 0x8000000000000000,
                ay <= 0x8000000000000000,
                az <= 0x8000000000000000,
        ;
        assert((ax * ax) as int == (x.m as int) * (x.m as int)) by (nonlinear_arith)
            requires
                ax as int == iabs(x.m as int),
        ;
        assert((ay * ay) as int == (y.m as int) * (y.m as int)) by (nonlinear_arith)
            requires
                ay as int == iabs(y.m as int),
        ;
        assert((az * az) as int == (z.m as int) * (z.m as int)) by (nonlinear_arith)
            requires
                az as int == iabs(z.m as int),
        ;
    }
    let s: u128 = ax * ax + ay * ay + az * az;
    let q: u128 = isqrt_u128(s);
    if q > i64::MAX as u128 {
        Fx { m: i64::MAX }
    } else {
        Fx { m: q as i64 }
    }
}

impl Fx {
    /// The zero scalar.
    pub fn zero() -> (r: Fx)
        ensures
            r@ == 0,
    {
        Fx { m: 0 }
    }

    /// One unit.
    pub fn one() -> (r: Fx)
        ensures
            r@ == SCALE as int,
    {
        Fx { m: SCALE }
    }

    /// The scalar holding `m` millionths.
    pub fn millionths(m: i64) -> (r: Fx)
        ensures
            r@ == m as int,
    {
        Fx { m }
    }

    /// The scalar holding `n` whole units.
    pub fn whole(n: i64) -> (r: Fx)
        ensures
            r@ == sat(n * SCALE),
    {
        proof {
            lemma_mantissa_product_fits(n as int, SCALE as int);
        }
        let p: i128 = (n as i128) * (SCALE as i128);
        Fx { m: sat128(p) }
    }

    /// Saturating negation.
    pub fn neg(self) -> (r: Fx)
        ensures
            r@ == fneg(self@),
    {
        if self.m == i64::MIN {
            Fx { m: i64::MAX }
        } else {
            Fx { m: -self.m }
        }
    }

    /// Saturating sum.
    pub fn plus(self, rhs: Fx) -> (r: Fx)
        ensures
            r@ == fadd(self@, rhs@),
    {
        let s: i128 = self.m as i128 + rhs.m as i128;
        Fx { m: sat128(s) }
    }

    /// Saturating difference.
    pub fn minus(self, rhs: Fx) -> (r: Fx)
        ensures
            r@ == fsub(self@, rhs@),
    {
        let s: i128 = self.m as i128 - rhs.m as i128;
        Fx { m: sat128(s) }
    }

    /// Fixed-point product.
    pub fn times(self, rhs: Fx) -> (r: Fx)
        ensures
            r@ == fmul(self@, rhs@),
    {
        proof {
            lemma_mantissa_product_fits(self.m as int, rhs.m as int);
        }
        let p: i128 = (self.m as i128) * (rhs.m as i128);
        let q: i128 = tdiv128(p, SCALE as i128);
        Fx { m: sat128(q) }
    }

    /// Fixed-point quotient.
    pub fn over(self, rhs: Fx) -> (r: Fx)
        requires
            rhs@ != 0,
        ensures
            r@ == fdiv(self@, rhs@),
    {
        proof {
            lemma_mantissa_product_fits(self.m as int, SCALE as int);
        }
        let p: i128 = (self.m as i128) * (SCALE as i128);
        let q: i128 = tdiv128(p, rhs.m as i128);
        Fx { m: sat128(q) }
    }

    /// Saturating magnitude.
    pub fn abs(self) -> (r: Fx)
        ensures
            r@ == fabs(self@),
    {
        if self.m == i64::MIN {
            Fx { m: i64::MAX }
        } else if self.m < 0 {
            Fx { m: -self.m }
        } else {
            self
        }
    }

    /// Smaller of two scalars.
    pub fn min(self, rhs: Fx) -> (r: Fx)
        ensures
            r@ == fmin(self@, rhs@),
    {
        if self.m < rhs.m {
            self
        } else {
            rhs
        }
    }

    /// Larger of two scalars.
    pub fn max(self, rhs: Fx) -> (r: Fx)
        ensures
            r@ == fmax(self@, rhs@),
    {
        if self.m < rhs.m {
            rhs
        } else {
            self
        }
    }

    /// Value clamped to `[lo, hi]`.
    pub fn clamp(self, lo: Fx, hi: Fx) -> (r: Fx)
        ensures
            r@ == fclamp(self@, lo@, hi@),
    {
        self.max(lo).min(hi)
    }

    /// Strict order on scalars.
    pub fn lt(self, rhs: Fx) -> (r: bool)
        ensures
            r == (self@ < rhs@),
    {
        self.m < rhs.m
    }

    /// Non-strict order on scalars.
    pub fn le(self, rhs: Fx) -> (r: bool)
        ensures
            r == (self@ <= rhs@),
    {
        self.m <= rhs.m
    }

    /// Whether the scalar is zero.
    pub fn is_zero(self) -> (r: bool)
        ensures
            r == (self@ == 0),
    {
        self.m == 0
    }
}

} // verus!
