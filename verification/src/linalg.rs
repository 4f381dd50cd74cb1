//! Three-component vectors and 3×3 matrices over fixed-point scalars.
//!
//! The ghost types [`V3`] and [`M3`] mirror the executable [`Vec3`] and
//! [`Mat3`] entry by entry; every executable operation returns exactly the
//! value of the corresponding spec function on the views.

use vstd::prelude::*;

use crate::fx::{fadd, fmul, fneg, fnorm3, fsub, Fx};

verus! {

/// Mathematical view of a vector: three mantissas.
pub ghost struct V3 {
    pub x: int,
    pub y: int,
    pub z: int,
}

impl V3 {
    /// The zero vector.
    pub open spec fn zero() -> V3 {
        V3 { x: 0, y: 0, z: 0 }
    }

    /// Component-wise saturating sum.
    pub open spec fn plus(self, o: V3) -> V3 {
        V3 { x: fadd(self.x, o.x), y: fadd(self.y, o.y), z: fadd(self.z, o.z) }
    }

    /// Component-wise saturating difference.
    pub open spec fn minus(self, o: V3) -> V3 {
        V3 { x: fsub(self.x, o.x), y: fsub(self.y, o.y), z: fsub(self.z, o.z) }
    }

    /// Component-wise saturating negation.
    pub open spec fn neg(self) -> V3 {
        V3 { x: fneg(self.x), y: fneg(self.y), z: fneg(self.z) }
    }

    /// Scaling by a fixed-point scalar.
    pub open spec fn scale(self, s: int) -> V3 {
        V3 { x: fmul(self.x, s), y: fmul(self.y, s), z: fmul(self.z, s) }
    }

    /// Fixed-point dot product, summed left to right.
    pub open spec fn dot(self, o: V3) -> int {
        fadd(fadd(fmul(self.x, o.x), fmul(self.y, o.y)), fmul(self.z, o.z))
    }

    /// Fixed-point cross product.
    pub open spec fn cross(self, o: V3) -> V3 {
        V3 {
            x: fsub(fmul(self.y, o.z), fmul(self.z, o.y)),
            y: fsub(fmul(self.z, o.x), fmul(self.x, o.z)),
            z: fsub(fmul(self.x, o.y), fmul(self.y, o.x)),
        }
    }

    /// Euclidean length, rounded down to the fixed-point grid.
    pub open spec fn norm(self) -> int {
        fnorm3(self.x, self.y, self.z)
    }
}

/// A vector of three fixed-point components.
#[derive(Clone, Copy, Debug, PartialEq, Eq, Structural)]
pub struct Vec3 {
    pub x: Fx,
    pub y: Fx,
    pub z: Fx,
}

impl View for Vec3 {
    type V = V3;

    open spec fn view(&self) -> V3 {
        V3 { x: self.x@, y: self.y@, z: self.z@ }
    }
}

impl Vec3 {
    /// The vector with the given components.
    pub fn new(x: Fx, y: Fx, z: Fx) -> (r: Vec3)
        ensures
            r@ == (V3 { x: x@, y: y@, z: z@ }),
    {
        Vec3 { x, y, z }
    }

    /// The zero vector.
    pub fn zero() -> (r: Vec3)
        ensures
            r@ == V3::zero(),
    {
        Vec3 { x: Fx::zero(), y: Fx::zero(), z: Fx::zero() }
    }

    /// The unit vector along x.
    pub fn unit_x() -> (r: Vec3)
        ensures
            r@ == (V3 { x: crate::fx::SCALE as int, y: 0, z: 0 }),
    {
        Vec3 { x: Fx::one(), y: Fx::zero(), z: Fx::zero() }
    }

    /// The unit vector along y.
    pub fn unit_y() -> (r: Vec3)
        ensures
            r@ == (V3 { x: 0, y: crate::fx::SCALE as int, z: 0 }),
    {
        Vec3 { x: Fx::zero(), y: Fx::one(), z: Fx::zero() }
    }

    /// The unit vector along z.
    pub fn unit_z() -> (r: Vec3)
        ensures
            r@ == (V3 { x: 0, y: 0, z: crate::fx::SCALE as int }),
    {
        Vec3 { x: Fx::zero(), y: Fx::zero(), z: Fx::one() }
    }

    /// Component-wise sum.
    pub fn plus(self, o: Vec3) -> (r: Vec3)
        ensures
            r@ == self@.plus(o@),
    {
        Vec3 { x: self.x.plus(o.x), y: self.y.plus(o.y), z: self.z.plus(o.z) }
    }

    /// Component-wise difference.
    pub fn minus(self, o: Vec3) -> (r: Vec3)
        ensures
            r@ == self@.minus(o@),
    {
        Vec3 { x: self.x.minus(o.x), y: self.y.minus(o.y), z: self.z.minus(o.z) }
    }

    /// Component-wise negation.
    pub fn neg(self) -> (r: Vec3)
        ensures
            r@ == self@.neg(),
    {
        Vec3 { x: self.x.neg(), y: self.y.neg(), z: self.z.neg() }
    }

    /// Scaling by a scalar.
    pub fn scale(self, s: Fx) -> (r: Vec3)
        ensures
            r@ == self@.scale(s@),
    {
        Vec3 { x: self.x.times(s), y: self.y.times(s), z: self.z.times(s) }
    }

    /// Dot product.
    pub fn dot(self, o: Vec3) -> (r: Fx)
        ensures
            r@ == self@.dot(o@),
    {
        self.x.times(o.x).plus(self.y.times(o.y)).plus(self.z.times(o.z))
    }

    /// Cross product.
    pub fn cross(self, o: Vec3) -> (r: Vec3)
        ensures
            r@ == self@.cross(o@),
    {
        Vec3 {
            x: self.y.times(o.z).minus(self.z.times(o.y)),
            y: self.z.times(o.x).minus(self.x.times(o.z)),
            z: self.x.times(o.y).minus(self.y.times(o.x)),
        }
    }

    /// Euclidean length.
    pub fn norm(self) -> (r: Fx)
        ensures
            r@ == self@.norm(),
    {
        crate::fx::vec_norm(self.x, self.y, self.z)
    }

    /// Component-wise division by a scalar.
    pub fn scale_div(self, s: Fx) -> (r: Vec3)
        requires
            s@ != 0,
        ensures
            r@ == self@.scale_div(s@),
    {
        Vec3 { x: self.x.over(s), y: self.y.over(s), z: self.z.over(s) }
    }

    /// The vector scaled to unit length (rounded to the fixed-point grid).
    pub fn normalize(self) -> (r: Vec3)
        requires
            self@.norm() != 0,
        ensures
            r@ == self@.scale_div(self@.norm()),
    {
        let n: Fx = self.norm();
        Vec3 { x: self.x.over(n), y: self.y.over(n), z: self.z.over(n) }
    }
}

impl V3 {
    /// Component-wise division by a scalar (used by normalization).
    pub open spec fn scale_div(self, s: int) -> V3 {
        V3 {
            x: crate::fx::fdiv(self.x, s),
            y: crate::fx::fdiv(self.y, s),
            z: crate::fx::fdiv(self.z, s),
        }
    }
}

/// Mathematical view of a matrix: three row views.
pub ghost struct M3 {
    pub rx: V3,
    pub ry: V3,
    pub rz: V3,
}

impl M3 {
    /// The zero matrix.
    pub open spec fn zero() -> M3 {
        M3 { rx: V3::zero(), ry: V3::zero(), rz: V3::zero() }
    }

    /// The identity matrix.
    pub open spec fn id() -> M3 {
        let s = crate::fx::SCALE as int;
        M3 {
            rx: V3 { x: s, y: 0, z: 0 },
            ry: V3 { x: 0, y: s, z: 0 },
            rz: V3 { x: 0, y: 0, z: s },
        }
    }

    /// Transposed matrix.
    pub open spec fn transpose(self) -> M3 {
        M3 {
            rx: V3 { x: self.rx.x, y: self.ry.x, z: self.rz.x },
            ry: V3 { x: self.rx.y, y: self.ry.y, z: self.rz.y },
            rz: V3 { x: self.rx.z, y: self.ry.z, z: self.rz.z },
        }
    }

    /// Matrix-vector product.
    pub open spec fn mulv(self, v: V3) -> V3 {
        V3 { x: self.rx.dot(v), y: self.ry.dot(v), z: self.rz.dot(v) }
    }

    /// Matrix-matrix product.
    pub open spec fn mulm(self, o: M3) -> M3 {
        let t = o.transpose();
        M3 { rx: t.mulv(self.rx), ry: t.mulv(self.ry), rz: t.mulv(self.rz) }
    }

    /// Component-wise sum.
    pub open spec fn plus(self, o: M3) -> M3 {
        M3 { rx: self.rx.plus(o.rx), ry: self.ry.plus(o.ry), rz: self.rz.plus(o.rz) }
    }

    /// Component-wise difference.
    pub open spec fn minus(self, o: M3) -> M3 {
        M3 { rx: self.rx.minus(o.rx), ry: self.ry.minus(o.ry), rz: self.rz.minus(o.rz) }
    }

    /// Scaling by a fixed-point scalar.
    pub open spec fn scale(self, s: int) -> M3 {
        M3 { rx: self.rx.scale(s), ry: self.ry.scale(s), rz: self.rz.scale(s) }
    }

    /// Skew-symmetric cross-product matrix of a vector.
    pub open spec fn skew(v: V3) -> M3 {
        M3 {
            rx: V3 { x: 0, y: fneg(v.z), z: v.y },
            ry: V3 { x: v.z, y: 0, z: fneg(v.x) },
            rz: V3 { x: fneg(v.y), y: v.x, z: 0 },
        }
    }

    /// Outer product `a * b^T`.
    pub open spec fn outer(a: V3, b: V3) -> M3 {
        M3 { rx: b.scale(a.x), ry: b.scale(a.y), rz: b.scale(a.z) }
    }
}

/// A 3×3 matrix of fixed-point entries, stored by rows.
#[derive(Clone, Copy, Debug, PartialEq, Eq, Structural)]
pub struct Mat3 {
    pub rx: Vec3,
    pub ry: Vec3,
    pub rz: Vec3,
}

impl View for Mat3 {
    type V = M3;

    open spec fn view(&self) -> M3 {
        M3 { rx: self.rx@, ry: self.ry@, rz: self.rz@ }
    }
}

impl Mat3 {
    /// The matrix with the given rows.
    pub fn from_rows(rx: Vec3, ry: Vec3, rz: Vec3) -> (r: Mat3)
        ensures
            r@ == (M3 { rx: rx@, ry: ry@, rz: rz@ }),
    {
        Mat3 { rx, ry, rz }
    }

    /// The zero matrix.
    pub fn zero() -> (r: Mat3)
        ensures
            r@ == M3::zero(),
    {
        Mat3 { rx: Vec3::zero(), ry: Vec3::zero(), rz: Vec3::zero() }
    }

    /// The identity matrix.
    pub fn identity() -> (r: Mat3)
        ensures
            r@ == M3::id(),
    {
        Mat3 { rx: Vec3::unit_x(), ry: Vec3::unit_y(), rz: Vec3::unit_z() }
    }

    /// Transposed matrix.
    pub fn transpose(self) -> (r: Mat3)
        ensures
            r@ == self@.transpose(),
    {
        Mat3 {
            rx: Vec3 { x: self.rx.x, y: self.ry.x, z: self.rz.x },
            ry: Vec3 { x: self.rx.y, y: self.ry.y, z: self.rz.y },
            rz: Vec3 { x: self.rx.z, y: self.ry.z, z: self.rz.z },
        }
    }

    /// Matrix-vector product.
    pub fn mulv(self, v: Vec3) -> (r: Vec3)
        ensures
            r@ == self@.mulv(v@),
    {
        Vec3 { x: self.rx.dot(v), y: self.ry.dot(v), z: self.rz.dot(v) }
    }

    /// Matrix-matrix product.
    pub fn mulm(self, o: Mat3) -> (r: Mat3)
        ensures
            r@ == self@.mulm(o@),
    {
        let t: Mat3 = o.transpose();
        Mat3 { rx: t.mulv(self.rx), ry: t.mulv(self.ry), rz: t.mulv(self.rz) }
    }

    /// Component-wise sum.
    pub fn plus(self, o: Mat3) -> (r: Mat3)
        ensures
            r@ == self@.plus(o@),
    {
        Mat3 { rx: self.rx.plus(o.rx), ry: self.ry.plus(o.ry), rz: self.rz.plus(o.rz) }
    }

    /// Component-wise difference.
    pub fn minus(self, o: Mat3) -> (r: Mat3)
        ensures
            r@ == self@.minus(o@),
    {
        Mat3 { rx: self.rx.minus(o.rx), ry: self.ry.minus(o.ry), rz: self.rz.minus(o.rz) }
    }

    /// Scaling by a scalar.
    pub fn scale(self, s: Fx) -> (r: Mat3)
        ensures
            r@ == self@.scale(s@),
    {
        Mat3 { rx: self.rx.scale(s), ry: self.ry.scale(s), rz: self.rz.scale(s) }
    }

    /// Skew-symmetric cross-product matrix of a vector.
    pub fn skew(v: Vec3) -> (r: Mat3)
        ensures
            r@ == M3::skew(v@),
    {
        Mat3 {
            rx: Vec3 { x: Fx::zero(), y: v.z.neg(), z: v.y },
            ry: Vec3 { x: v.z, y: Fx::zero(), z: v.x.neg() },
            rz: Vec3 { x: v.y.neg(), y: v.x, z: Fx::zero() },
        }
    }

    /// Outer product `a * b^T`.
    pub fn outer(a: Vec3, b: Vec3) -> (r: Mat3)
        ensures
            r@ == M3::outer(a@, b@),
    {
        Mat3 { rx: b.scale(a.x), ry: b.scale(a.y), rz: b.scale(a.z) }
    }
}

} // verus!
