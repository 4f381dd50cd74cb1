//! Spatial vector algebra: rigid transforms, spatial motion and force
//! vectors, and rigid-body / articulated-body inertias.
//!
//! A transform acts on motions, forces, points and inertias by congruence;
//! motions carry a spatial cross product against motions (Coriolis terms)
//! and against forces (gyroscopic terms).  Every executable operation is
//! specified exactly by the matching spec method on the ghost views
//! ([`XformV`], [`MotionV`], [`ForceV`], [`InertiaV`], [`InertiaAbV`]).

use vstd::prelude::*;

use crate::fx::{fadd, Fx};
use crate::linalg::{M3, Mat3, V3, Vec3};

verus! {

/// Mathematical view of a rigid transform.
pub ghost struct XformV {
    pub p: V3,
    pub r: M3,
}

impl XformV {
    /// The identity frame change.
    pub open spec fn id() -> XformV {
        XformV { p: V3::zero(), r: M3::id() }
    }

    /// Inverse frame change.
    pub open spec fn inverse(self) -> XformV {
        XformV { p: self.r.mulv(self.p).neg(), r: self.r.transpose() }
    }

    /// Frame-change composition; `a.compose(b)` first applies `b`'s frame.
    pub open spec fn compose(self, o: XformV) -> XformV {
        XformV { p: o.p.plus(o.r.transpose().mulv(self.p)), r: self.r.mulm(o.r) }
    }

    /// Action on a point.
    pub open spec fn transform_point(self, pt: V3) -> V3 {
        self.r.mulv(pt.minus(self.p))
    }

    /// Action on a free vector (rotation only).
    pub open spec fn rotate(self, v: V3) -> V3 {
        self.r.mulv(v)
    }

    /// Action on a spatial motion vector.
    pub open spec fn xform_motion(self, m: MotionV) -> MotionV {
        MotionV { v: self.r.mulv(m.v.minus(self.p.cross(m.w))), w: self.r.mulv(m.w) }
    }

    /// Action on a spatial force vector.
    pub open spec fn xform_force(self, f: ForceV) -> ForceV {
        ForceV { f: self.r.mulv(f.f), m: self.r.mulv(f.m.minus(self.p.cross(f.f))) }
    }

    /// Congruence action on an articulated-body inertia.
    pub open spec fn xform_inertia(self, i: InertiaAbV) -> InertiaAbV {
        let rot = self.r;
        let px = M3::skew(self.p);
        InertiaAbV {
            m: rot.mulm(i.m).mulm(rot.transpose()),
            c: rot.mulm(i.c.minus(px.mulm(i.m))).mulm(rot.transpose()),
            moi: rot.mulm(
                i.moi.minus(px.mulm(i.c.transpose())).plus(i.c.minus(px.mulm(i.m)).mulm(px)),
            ).mulm(rot.transpose()),
        }
    }
}

/// Mathematical view of a spatial motion vector.
pub ghost struct MotionV {
    pub v: V3,
    pub w: V3,
}

impl MotionV {
    /// The zero motion.
    pub open spec fn zero() -> MotionV {
        MotionV { v: V3::zero(), w: V3::zero() }
    }

    /// Component-wise sum.
    pub open spec fn plus(self, o: MotionV) -> MotionV {
        MotionV { v: self.v.plus(o.v), w: self.w.plus(o.w) }
    }

    /// Scaling by a scalar.
    pub open spec fn scale(self, s: int) -> MotionV {
        MotionV { v: self.v.scale(s), w: self.w.scale(s) }
    }

    /// Spatial cross product against a motion (Coriolis term).
    pub open spec fn cross_v(self, o: MotionV) -> MotionV {
        MotionV { v: self.w.cross(o.v).plus(self.v.cross(o.w)), w: self.w.cross(o.w) }
    }

    /// Spatial cross product against a force (gyroscopic term).
    pub open spec fn cross_f(self, o: ForceV) -> ForceV {
        ForceV { f: self.w.cross(o.f), m: self.w.cross(o.m).plus(self.v.cross(o.f)) }
    }

    /// Linear velocity of a point carried by this motion.
    pub open spec fn velocity_point(self, pt: V3) -> V3 {
        self.w.cross(pt).plus(self.v)
    }

    /// Power pairing with a force.
    pub open spec fn pair(self, o: ForceV) -> int {
        fadd(self.w.dot(o.m), self.v.dot(o.f))
    }
}

/// Mathematical view of a spatial force vector.
pub ghost struct ForceV {
    pub f: V3,
    pub m: V3,
}

impl ForceV {
    /// The zero force.
    pub open spec fn zero() -> ForceV {
        ForceV { f: V3::zero(), m: V3::zero() }
    }

    /// Component-wise sum.
    pub open spec fn plus(self, o: ForceV) -> ForceV {
        ForceV { f: self.f.plus(o.f), m: self.m.plus(o.m) }
    }

    /// Component-wise difference.
    pub open spec fn minus(self, o: ForceV) -> ForceV {
        ForceV { f: self.f.minus(o.f), m: self.m.minus(o.m) }
    }

    /// Scaling by a scalar.
    pub open spec fn scale(self, s: int) -> ForceV {
        ForceV { f: self.f.scale(s), m: self.m.scale(s) }
    }

    /// Rank-one articulated inertia `self * self^T`.
    pub open spec fn self_outer(self) -> InertiaAbV {
        InertiaAbV {
            m: M3::outer(self.f, self.f),
            c: M3::outer(self.m, self.f),
            moi: M3::outer(self.m, self.m),
        }
    }

    /// The spatial force of a linear force acting at a point.
    pub open spec fn at_point(force: V3, point: V3) -> ForceV {
        ForceV { f: force, m: point.cross(force) }
    }
}

/// Mathematical view of a rigid-body inertia.
pub ghost struct InertiaV {
    pub mass: int,
    pub c: V3,
    pub moi: M3,
}

impl InertiaV {
    /// The zero inertia.
    pub open spec fn zero() -> InertiaV {
        InertiaV { mass: 0, c: V3::zero(), moi: M3::zero() }
    }

    /// Force produced by a motion through this inertia.
    pub open spec fn mul_motion(self, mo: MotionV) -> ForceV {
        ForceV {
            f: mo.v.scale(self.mass).minus(self.c.cross(mo.w)),
            m: self.moi.mulv(mo.w).plus(self.c.cross(mo.v)),
        }
    }

    /// Lossless conversion into the articulated-body representation.
    pub open spec fn to_articulated(self) -> InertiaAbV {
        let cx = M3::skew(self.c);
        InertiaAbV {
            m: M3::id().scale(self.mass),
            c: cx.scale(self.mass),
            moi: self.moi.minus(cx.scale(self.mass).mulm(cx)),
        }
    }
}

/// Mathematical view of an articulated-body inertia: three 3×3 blocks.
pub ghost struct InertiaAbV {
    pub m: M3,
    pub c: M3,
    pub moi: M3,
}

impl InertiaAbV {
    /// The zero operator.
    pub open spec fn zero() -> InertiaAbV {
        InertiaAbV { m: M3::zero(), c: M3::zero(), moi: M3::zero() }
    }

    /// Block-wise sum.
    pub open spec fn plus(self, o: InertiaAbV) -> InertiaAbV {
        InertiaAbV { m: self.m.plus(o.m), c: self.c.plus(o.c), moi: self.moi.plus(o.moi) }
    }

    /// Block-wise difference.
    pub open spec fn minus(self, o: InertiaAbV) -> InertiaAbV {
        InertiaAbV { m: self.m.minus(o.m), c: self.c.minus(o.c), moi: self.moi.minus(o.moi) }
    }

    /// Scaling by a scalar.
    pub open spec fn scale(self, s: int) -> InertiaAbV {
        InertiaAbV { m: self.m.scale(s), c: self.c.scale(s), moi: self.moi.scale(s) }
    }

    /// Force produced by a motion through this operator.
    pub open spec fn mul_motion(self, mo: MotionV) -> ForceV {
        ForceV {
            f: self.m.mulv(mo.v).plus(self.c.transpose().mulv(mo.w)),
            m: self.moi.mulv(mo.w).plus(self.c.mulv(mo.v)),
        }
    }
}

/// A rigid coordinate-frame change: position then rotation.
#[derive(Clone, Copy, Debug, PartialEq, Eq, Structural)]
pub struct Xform {
    pub position: Vec3,
    pub rotation: Mat3,
}

impl View for Xform {
    type V = XformV;

    open spec fn view(&self) -> XformV {
        XformV { p: self.position@, r: self.rotation@ }
    }
}

impl Xform {
    /// The frame change with the given position and rotation.
    pub fn new(position: Vec3, rotation: Mat3) -> (r: Xform)
        ensures
            r@ == (XformV { p: position@, r: rotation@ }),
    {
        Xform { position, rotation }
    }

    /// The identity frame change.
    pub fn identity() -> (r: Xform)
        ensures
            r@ == XformV::id(),
    {
        Xform { position: Vec3::zero(), rotation: Mat3::identity() }
    }

    /// Inverse frame change.
    pub fn inverse(self) -> (r: Xform)
        ensures
            r@ == self@.inverse(),
    {
        Xform {
            position: self.rotation.mulv(self.position).neg(),
            rotation: self.rotation.transpose(),
        }
    }

    /// Rotation about the x axis by an angle in radians.
    pub fn rotx(angle: Fx) -> (r: Xform)
        ensures
            r@ == (XformV { p: V3::zero(), r: rot_x_spec(angle@) }),
    {
        let c: Fx = crate::trig::cos(angle);
        let s: Fx = crate::trig::sin(angle);
        Xform {
            position: Vec3::zero(),
            rotation: Mat3 {
                rx: Vec3 { x: Fx::one(), y: Fx::zero(), z: Fx::zero() },
                ry: Vec3 { x: Fx::zero(), y: c, z: s },
                rz: Vec3 { x: Fx::zero(), y: s.neg(), z: c },
            },
        }
    }

    /// Rotation about the y axis by an angle in radians.
    pub fn roty(angle: Fx) -> (r: Xform)
        ensures
            r@ == (XformV { p: V3::zero(), r: rot_y_spec(angle@) }),
    {
        let c: Fx = crate::trig::cos(angle);
        let s: Fx = crate::trig::sin(angle);
        Xform {
            position: Vec3::zero(),
            rotation: Mat3 {
                rx: Vec3 { x: c, y: Fx::zero(), z: s.neg() },
                ry: Vec3 { x: Fx::zero(), y: Fx::one(), z: Fx::zero() },
                rz: Vec3 { x: s, y: Fx::zero(), z: c },
            },
        }
    }

    /// Rotation about the z axis by an angle in radians.
    pub fn rotz(angle: Fx) -> (r: Xform)
        ensures
            r@ == (XformV { p: V3::zero(), r: rot_z_spec(angle@) }),
    {
        let c: Fx = crate::trig::cos(angle);
        let s: Fx = crate::trig::sin(angle);
        Xform {
            position: Vec3::zero(),
            rotation: Mat3 {
                rx: Vec3 { x: c, y: s, z: Fx::zero() },
                ry: Vec3 { x: s.neg(), y: c, z: Fx::zero() },
                rz: Vec3 { x: Fx::zero(), y: Fx::zero(), z: Fx::one() },
            },
        }
    }

    /// Translation along the x axis.
    pub fn posx(x: Fx) -> (r: Xform)
        ensures
            r@ == (XformV { p: V3 { x: x@, y: 0, z: 0 }, r: M3::id() }),
    {
        Xform {
            position: Vec3 { x, y: Fx::zero(), z: Fx::zero() },
            rotation: Mat3::identity(),
        }
    }

    /// Translation along the y axis.
    pub fn posy(y: Fx) -> (r: Xform)
        ensures
            r@ == (XformV { p: V3 { x: 0, y: y@, z: 0 }, r: M3::id() }),
    {
        Xform {
            position: Vec3 { x: Fx::zero(), y, z: Fx::zero() },
            rotation: Mat3::identity(),
        }
    }

    /// Translation along the z axis.
    pub fn posz(z: Fx) -> (r: Xform)
        ensures
            r@ == (XformV { p: V3 { x: 0, y: 0, z: z@ }, r: M3::id() }),
    {
        Xform {
            position: Vec3 { x: Fx::zero(), y: Fx::zero(), z },
            rotation: Mat3::identity(),
        }
    }

    /// Translation by an arbitrary vector.
    pub fn pos(x: Fx, y: Fx, z: Fx) -> (r: Xform)
        ensures
            r@ == (XformV { p: V3 { x: x@, y: y@, z: z@ }, r: M3::id() }),
    {
        Xform { position: Vec3 { x, y, z }, rotation: Mat3::identity() }
    }

    /// Frame-change composition; `a.compose(b)` first applies `b`'s frame.
    pub fn compose(self, o: Xform) -> (r: Xform)
        ensures
            r@ == self@.compose(o@),
    {
        Xform {
            position: o.position.plus(o.rotation.transpose().mulv(self.position)),
            rotation: self.rotation.mulm(o.rotation),
        }
    }

    /// Action on a point.
    pub fn transform_point(self, pt: Vec3) -> (r: Vec3)
        ensures
            r@ == self@.transform_point(pt@),
    {
        self.rotation.mulv(pt.minus(self.position))
    }

    /// Action on a free vector (rotation only).
    pub fn rotate(self, v: Vec3) -> (r: Vec3)
        ensures
            r@ == self@.rotate(v@),
    {
        self.rotation.mulv(v)
    }

    /// Action on a spatial motion vector.
    pub fn xform_motion(self, m: Motion) -> (r: Motion)
        ensures
            r@ == self@.xform_motion(m@),
    {
        Motion {
            v: self.rotation.mulv(m.v.minus(self.position.cross(m.w))),
            w: self.rotation.mulv(m.w),
        }
    }

    /// Action on a spatial force vector.
    pub fn xform_force(self, f: Force) -> (r: Force)
        ensures
            r@ == self@.xform_force(f@),
    {
        Force {
            f: self.rotation.mulv(f.f),
            m: self.rotation.mulv(f.m.minus(self.position.cross(f.f))),
        }
    }

    /// Congruence action on an articulated-body inertia.
    pub fn xform_inertia(self, i: InertiaAB) -> (r: InertiaAB)
        ensures
            r@ == self@.xform_inertia(i@),
    {
        let rot: Mat3 = self.rotation;
        let rt: Mat3 = rot.transpose();
        let px: Mat3 = Mat3::skew(self.position);
        InertiaAB {
            m: rot.mulm(i.m).mulm(rt),
            c: rot.mulm(i.c.minus(px.mulm(i.m))).mulm(rt),
            moi: rot.mulm(
                i.moi.minus(px.mulm(i.c.transpose())).plus(i.c.minus(px.mulm(i.m)).mulm(px)),
            ).mulm(rt),
        }
    }
}

/// Rotation matrix about x built from the fixed-point circular functions.
pub open spec fn rot_x_spec(angle: int) -> M3 {
    let c = crate::trig::cos_spec(angle);
    let s = crate::trig::sin_spec(angle);
    M3 {
        rx: V3 { x: crate::fx::SCALE as int, y: 0, z: 0 },
        ry: V3 { x: 0, y: c, z: s },
        rz: V3 { x: 0, y: crate::fx::fneg(s), z: c },
    }
}

/// Rotation matrix about y built from the fixed-point circular functions.
pub open spec fn rot_y_spec(angle: int) -> M3 {
    let c = crate::trig::cos_spec(angle);
    let s = crate::trig::sin_spec(angle);
    M3 {
        rx: V3 { x: c, y: 0, z: crate::fx::fneg(s) },
        ry: V3 { x: 0, y: crate::fx::SCALE as int, z: 0 },
        rz: V3 { x: s, y: 0, z: c },
    }
}

/// Rotation matrix about z built from the fixed-point circular functions.
pub open spec fn rot_z_spec(angle: int) -> M3 {
    let c = crate::trig::cos_spec(angle);
    let s = crate::trig::sin_spec(angle);
    M3 {
        rx: V3 { x: c, y: s, z: 0 },
        ry: V3 { x: crate::fx::fneg(s), y: c, z: 0 },
        rz: V3 { x: 0, y: 0, z: crate::fx::SCALE as int },
    }
}

/// A spatial motion vector: linear part `v`, angular part `w`.
#[derive(Clone, Copy, Debug, PartialEq, Eq, Structural)]
pub struct Motion {
    pub v: Vec3,
    pub w: Vec3,
}

impl View for Motion {
    type V = MotionV;

    open spec fn view(&self) -> MotionV {
        MotionV { v: self.v@, w: self.w@ }
    }
}

impl Motion {
    /// The motion with the given linear and angular parts.
    pub fn new(v: Vec3, w: Vec3) -> (r: Motion)
        ensures
            r@ == (MotionV { v: v@, w: w@ }),
    {
        Motion { v, w }
    }

    /// The zero motion.
    pub fn zero() -> (r: Motion)
        ensures
            r@ == MotionV::zero(),
    {
        Motion { v: Vec3::zero(), w: Vec3::zero() }
    }

    /// Component-wise sum.
    pub fn plus(self, o: Motion) -> (r: Motion)
        ensures
            r@ == self@.plus(o@),
    {
        Motion { v: self.v.plus(o.v), w: self.w.plus(o.w) }
    }

    /// Scaling by a scalar.
    pub fn scale(self, s: Fx) -> (r: Motion)
        ensures
            r@ == self@.scale(s@),
    {
        Motion { v: self.v.scale(s), w: self.w.scale(s) }
    }

    /// Spatial cross product against a motion (Coriolis term).
    pub fn cross_v(self, o: Motion) -> (r: Motion)
        ensures
            r@ == self@.cross_v(o@),
    {
        Motion { v: self.w.cross(o.v).plus(self.v.cross(o.w)), w: self.w.cross(o.w) }
    }

    /// Spatial cross product against a force (gyroscopic term).
    pub fn cross_f(self, o: Force) -> (r: Force)
        ensures
            r@ == self@.cross_f(o@),
    {
        Force { f: self.w.cross(o.f), m: self.w.cross(o.m).plus(self.v.cross(o.f)) }
    }

    /// Linear velocity of a point carried by this motion.
    pub fn velocity_point(self, pt: Vec3) -> (r: Vec3)
        ensures
            r@ == self@.velocity_point(pt@),
    {
        self.w.cross(pt).plus(self.v)
    }

    /// Power pairing with a force.
    pub fn pair(self, o: Force) -> (r: Fx)
        ensures
            r@ == self@.pair(o@),
    {
        self.w.dot(o.m).plus(self.v.dot(o.f))
    }
}

/// A spatial force vector: linear force `f`, moment `m`.
#[derive(Clone, Copy, Debug, PartialEq, Eq, Structural)]
pub struct Force {
    pub f: Vec3,
    pub m: Vec3,
}

impl View for Force {
    type V = ForceV;

    open spec fn view(&self) -> ForceV {
        ForceV { f: self.f@, m: self.m@ }
    }
}

impl Force {
    /// The force with the given linear and moment parts.
    pub fn new(f: Vec3, m: Vec3) -> (r: Force)
        ensures
            r@ == (ForceV { f: f@, m: m@ }),
    {
        Force { f, m }
    }

    /// The zero force.
    pub fn zero() -> (r: Force)
        ensures
            r@ == ForceV::zero(),
    {
        Force { f: Vec3::zero(), m: Vec3::zero() }
    }

    /// Component-wise sum.
    pub fn plus(self, o: Force) -> (r: Force)
        ensures
            r@ == self@.plus(o@),
    {
        Force { f: self.f.plus(o.f), m: self.m.plus(o.m) }
    }

    /// Component-wise difference.
    pub fn minus(self, o: Force) -> (r: Force)
        ensures
            r@ == self@.minus(o@),
    {
        Force { f: self.f.minus(o.f), m: self.m.minus(o.m) }
    }

    /// Scaling by a scalar.
    pub fn scale(self, s: Fx) -> (r: Force)
        ensures
            r@ == self@.scale(s@),
    {
        Force { f: self.f.scale(s), m: self.m.scale(s) }
    }

    /// Rank-one articulated inertia `self * self^T`.
    pub fn self_outer_product(self) -> (r: InertiaAB)
        ensures
            r@ == self@.self_outer(),
    {
        InertiaAB {
            m: Mat3::outer(self.f, self.f),
            c: Mat3::outer(self.m, self.f),
            moi: Mat3::outer(self.m, self.m),
        }
    }

    /// The spatial force of a linear force acting at a point.
    pub fn force_point(force: Vec3, point: Vec3) -> (r: Force)
        ensures
            r@ == ForceV::at_point(force@, point@),
    {
        Force { f: force, m: point.cross(force) }
    }
}

/// A rigid-body inertia: mass, first moment offset, rotational inertia.
#[derive(Clone, Copy, Debug, PartialEq, Eq, Structural)]
pub struct Inertia {
    pub mass: Fx,
    pub c: Vec3,
    pub moi: Mat3,
}

impl View for Inertia {
    type V = InertiaV;

    open spec fn view(&self) -> InertiaV {
        InertiaV { mass: self.mass@, c: self.c@, moi: self.moi@ }
    }
}

impl Inertia {
    /// The inertia with the given mass, center offset and tensor.
    pub fn new(mass: Fx, c: Vec3, moi: Mat3) -> (r: Inertia)
        ensures
            r@ == (InertiaV { mass: mass@, c: c@, moi: moi@ }),
    {
        Inertia { mass, c, moi }
    }

    /// The zero inertia.
    pub fn zero() -> (r: Inertia)
        ensures
            r@ == InertiaV::zero(),
    {
        Inertia { mass: Fx::zero(), c: Vec3::zero(), moi: Mat3::zero() }
    }

    /// Force produced by a motion through this inertia.
    pub fn mul_motion(self, mo: Motion) -> (r: Force)
        ensures
            r@ == self@.mul_motion(mo@),
    {
        Force {
            f: mo.v.scale(self.mass).minus(self.c.cross(mo.w)),
            m: self.moi.mulv(mo.w).plus(self.c.cross(mo.v)),
        }
    }

    /// Lossless conversion into the articulated-body representation.
    pub fn to_articulated(self) -> (r: InertiaAB)
        ensures
            r@ == self@.to_articulated(),
    {
        let cx: Mat3 = Mat3::skew(self.c);
        InertiaAB {
            m: Mat3::identity().scale(self.mass),
            c: cx.scale(self.mass),
            moi: self.moi.minus(cx.scale(self.mass).mulm(cx)),
        }
    }
}

/// An articulated-body inertia: a 6×6 symmetric operator in three blocks.
#[derive(Clone, Copy, Debug, PartialEq, Eq, Structural)]
pub struct InertiaAB {
    pub m: Mat3,
    pub c: Mat3,
    pub moi: Mat3,
}

impl View for InertiaAB {
    type V = InertiaAbV;

    open spec fn view(&self) -> InertiaAbV {
        InertiaAbV { m: self.m@, c: self.c@, moi: self.moi@ }
    }
}

impl InertiaAB {
    /// The zero operator.
    pub fn zero() -> (r: InertiaAB)
        ensures
            r@ == InertiaAbV::zero(),
    {
        InertiaAB { m: Mat3::zero(), c: Mat3::zero(), moi: Mat3::zero() }
    }

    /// Block-wise sum.
    pub fn plus(self, o: InertiaAB) -> (r: InertiaAB)
        ensures
            r@ == self@.plus(o@),
    {
        InertiaAB { m: self.m.plus(o.m), c: self.c.plus(o.c), moi: self.moi.plus(o.moi) }
    }

    /// Block-wise difference.
    pub fn minus(self, o: InertiaAB) -> (r: InertiaAB)
        ensures
            r@ == self@.minus(o@),
    {
        InertiaAB { m: self.m.minus(o.m), c: self.c.minus(o.c), moi: self.moi.minus(o.moi) }
    }

    /// Scaling by a scalar.
    pub fn scale(self, s: Fx) -> (r: InertiaAB)
        ensures
            r@ == self@.scale(s@),
    {
        InertiaAB { m: self.m.scale(s), c: self.c.scale(s), moi: self.moi.scale(s) }
    }

    /// Force produced by a motion through this operator.
    pub fn mul_motion(self, mo: Motion) -> (r: Force)
        ensures
            r@ == self@.mul_motion(mo@),
    {
        Force {
            f: self.m.mulv(mo.v).plus(self.c.transpose().mulv(mo.w)),
            m: self.moi.mulv(mo.w).plus(self.c.mulv(mo.v)),
        }
    }
}

} // verus!
