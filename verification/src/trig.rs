//! Fixed-point circular functions.
//!
//! Angles are in radians on the millionths grid.  `sin` and `cos` wrap the
//! angle into `(-pi, pi]`, fold it into the first quadrant, and evaluate a
//! short Taylor polynomial; `atan` uses a rational approximation.  Each
//! function's contract states the exact fixed-point value it returns; the
//! polynomials themselves are approximations of the real functions, good to
//! a few parts in ten thousand, which is below the resolution the
//! surrounding dynamics can observe.

use vstd::prelude::*;

use crate::fx::{fadd, fdiv, fmul, fneg, fsub, iabs, sat, tdiv, Fx};

verus! {

/// Pi on the millionths grid.
pub const PI_FX: i64 = 3_141_593;

/// Two pi on the millionths grid.
pub const TWO_PI_FX: i64 = 6_283_185;

/// Half pi on the millionths grid.
pub const HALF_PI_FX: i64 = 1_570_796;

/// Angle folded into `(-pi, pi]` by whole turns.
pub open spec fn wrap_spec(q: int) -> int {
    let r0 = q - tdiv(q, TWO_PI_FX as int) * (TWO_PI_FX as int);
    if r0 > PI_FX as int {
        r0 - TWO_PI_FX as int
    } else if r0 < -(PI_FX as int) {
        r0 + TWO_PI_FX as int
    } else {
        r0
    }
}

/// Taylor polynomial for the sine of a first-quadrant angle.
pub open spec fn sin_poly(x: int) -> int {
    let x2 = fmul(x, x);
    let t1 = fsub((1_000_000) as int, fmul(x2, (166_667) as int));
    let t2 = fadd(t1, fmul(fmul(x2, x2), (8_333) as int));
    let t3 = fsub(t2, fmul(fmul(fmul(x2, x2), x2), (198) as int));
    fmul(x, t3)
}

/// Taylor polynomial for the cosine of a first-quadrant angle.
pub open spec fn cos_poly(x: int) -> int {
    let x2 = fmul(x, x);
    let t1 = fsub((1_000_000) as int, fmul(x2, (500_000) as int));
    let t2 = fadd(t1, fmul(fmul(x2, x2), (41_667) as int));
    fsub(t2, fmul(fmul(fmul(x2, x2), x2), (1_389) as int))
}

/// Sine after wrapping and quadrant folding.
pub open spec fn sin_spec(q: int) -> int {
    let r = wrap_spec(q);
    if r > HALF_PI_FX as int {
        sin_poly(PI_FX as int - r)
    } else if r < -(HALF_PI_FX as int) {
        fneg(sin_poly(PI_FX as int + r))
    } else {
        sin_poly(r)
    }
}

/// Cosine after wrapping and quadrant folding.
pub open spec fn cos_spec(q: int) -> int {
    let r = wrap_spec(q);
    if r > HALF_PI_FX as int {
        fneg(cos_poly(PI_FX as int - r))
    } else if r < -(HALF_PI_FX as int) {
        fneg(cos_poly(PI_FX as int + r))
    } else {
        cos_poly(r)
    }
}

/// Rational approximation of the arc tangent on `[-1, 1]`.
pub open spec fn atan_core(z: int) -> int {
    fdiv(z, fadd((1_000_000) as int, fmul((280_000) as int, fmul(z, z))))
}

/// Arc tangent over the whole line, via the reciprocal identity.
pub open spec fn atan_spec(z: int) -> int {
    if z > 1_000_000 {
        fsub(HALF_PI_FX as int, atan_core(fdiv((1_000_000) as int, z)))
    } else if z < -1_000_000 {
        fsub(-(HALF_PI_FX as int), atan_core(fdiv((1_000_000) as int, z)))
    } else {
        atan_core(z)
    }
}

/// Angle folded into `(-pi, pi]`.
pub fn wrap(q: Fx) -> (r: Fx)
    ensures
        r@ == wrap_spec(q@),
{
    let whole_turns: Fx = Fx { m: fx_tdiv64(q.m, TWO_PI_FX) };
    let r0: i64 = q.m - whole_turns.m * TWO_PI_FX;
    if r0 > PI_FX {
        Fx { m: r0 - TWO_PI_FX }
    } else if r0 < -PI_FX {
        Fx { m: r0 + TWO_PI_FX }
    } else {
        Fx { m: r0 }
    }
}

/// Truncating division of mantissas, exact over `i64`.
fn fx_tdiv64(a: i64, b: i64) -> (r: i64)
    requires
        b > 0,
    ensures
        r as int == tdiv(a as int, b as int),
        iabs(r as int * b as int) <= iabs(a as int),
        a >= 0 ==> r as int * b as int >= 0,
        a < 0 ==> r as int * b as int <= 0,
{
    let ua: u64 = if a < 0 {
        (-(a as i128)) as u64
    } else {
        a as u64
    };
    let q: u64 = ua / (b as u64);
    proof {
        assert(q * (b as u64) <= ua && q <= ua) by (nonlinear_arith)
            requires
                b >= 1,
                q == ua / (b as u64),
        ;
    }
    let r: i64 = if a < 0 {
        (-(q as i128)) as i64
    } else {
        q as i64
    };
    proof {
        assert((-(q as int)) * (b as int) == -((q as int) * (b as int)) && (q as int) * (
        b as int) >= 0) by (nonlinear_arith)
            requires
                q >= 0,
                b > 0,
        ;
    }
    r
}

/// Sine of an angle in radians.
pub fn sin(q: Fx) -> (r: Fx)
    ensures
        r@ == sin_spec(q@),
{
    let r: Fx = wrap(q);
    if r.m > HALF_PI_FX {
        sin_eval(Fx { m: PI_FX - r.m })
    } else if r.m < -HALF_PI_FX {
        sin_eval(Fx { m: PI_FX + r.m }).neg()
    } else {
        sin_eval(r)
    }
}

/// Cosine of an angle in radians.
pub fn cos(q: Fx) -> (r: Fx)
    ensures
        r@ == cos_spec(q@),
{
    let r: Fx = wrap(q);
    if r.m > HALF_PI_FX {
        cos_eval(Fx { m: PI_FX - r.m }).neg()
    } else if r.m < -HALF_PI_FX {
        cos_eval(Fx { m: PI_FX + r.m }).neg()
    } else {
        cos_eval(r)
    }
}

/// Taylor evaluation of the sine polynomial.
fn sin_eval(x: Fx) -> (r: Fx)
    ensures
        r@ == sin_poly(x@),
{
    let x2: Fx = x.times(x);
    let t1: Fx = Fx { m: 1_000_000 }.minus(x2.times(Fx { m: 166_667 }));
    let t2: Fx = t1.plus(x2.times(x2).times(Fx { m: 8_333 }));
    let t3: Fx = t2.minus(x2.times(x2).times(x2).times(Fx { m: 198 }));
    x.times(t3)
}

/// Taylor evaluation of the cosine polynomial.
fn cos_eval(x: Fx) -> (r: Fx)
    ensures
        r@ == cos_poly(x@),
{
    let x2: Fx = x.times(x);
    let t1: Fx = Fx { m: 1_000_000 }.minus(x2.times(Fx { m: 500_000 }));
    let t2: Fx = t1.plus(x2.times(x2).times(Fx { m: 41_667 }));
    t2.minus(x2.times(x2).times(x2).times(Fx { m: 1_389 }))
}

/// Arc tangent of a fixed-point ratio.
pub fn atan(z: Fx) -> (r: Fx)
    ensures
        r@ == atan_spec(z@),
{
    if z.m > 1_000_000 {
        Fx { m: HALF_PI_FX }.minus(atan_eval(Fx { m: 1_000_000 }.over(z)))
    } else if z.m < -1_000_000 {
        Fx { m: -HALF_PI_FX }.minus(atan_eval(Fx { m: 1_000_000 }.over(z)))
    } else {
        atan_eval(z)
    }
}

/// Rational approximation of the arc tangent on `[-1, 1]`.
fn atan_eval(z: Fx) -> (r: Fx)
    ensures
        r@ == atan_core(z@),
{
    let d: Fx = Fx { m: 1_000_000 }.plus(Fx { m: 280_000 }.times(z.times(z)));
    proof {
        assert((z.m as int) * (z.m as int) >= 0) by (nonlinear_arith);
        assert(fmul(z@, z@) >= 0);
        assert(fmul((280_000) as int, fmul(z@, z@)) >= 0);
        assert(d@ > 0);
    }
    z.over(d)
}

} // verus!
