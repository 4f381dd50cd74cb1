//! Joint/body nodes of the articulated tree.
//!
//! A node carries one scalar degree of freedom: its kind (a fixed base or a
//! single-axis rotational/translational joint), its motion subspace, the
//! attached rigid-body inertia, the fixed offset from the parent frame, the
//! joint state `q`/`qd`/`qdd` with the applied generalized torque and
//! external spatial force, and the per-pass scratch quantities the forward
//! dynamics passes overwrite each sub-step.

use vstd::prelude::*;

use crate::fx::Fx;
use crate::linalg::Vec3;
use crate::sva::{Force, ForceV, Inertia, InertiaAB, InertiaAbV, InertiaV, Motion, MotionV, Xform, XformV};

verus! {

/// The seven joint kinds: a fixed base, three rotational axes, three
/// translational axes.
#[derive(Clone, Copy, Debug, PartialEq, Eq, Structural)]
pub enum JointType {
    Base,
    Rx,
    Ry,
    Rz,
    Px,
    Py,
    Pz,
}

/// Mathematical view of a joint node.
pub ghost struct JointV {
    pub joint_type: JointType,
    pub s: MotionV,
    pub i: InertiaV,
    pub xt: XformV,
    pub q: int,
    pub qd: int,
    pub qdd: int,
    pub xl: XformV,
    pub xj: XformV,
    pub x: XformV,
    pub v: MotionV,
    pub vj: MotionV,
    pub c: MotionV,
    pub a: MotionV,
    pub iaa: InertiaAbV,
    pub paa: ForceV,
    pub tau: int,
    pub f_ext: ForceV,
    pub dd: int,
    pub u: int,
    pub uu: ForceV,
}

impl JointV {
    /// A freshly constructed node: structural fields as given, state and
    /// scratch fields zeroed, transforms at identity.
    pub open spec fn init(joint_type: JointType, s: MotionV, i: InertiaV, xt: XformV) -> JointV {
        JointV {
            joint_type,
            s,
            i,
            xt,
            q: 0,
            qd: 0,
            qdd: 0,
            xl: XformV::id(),
            xj: XformV::id(),
            x: XformV::id(),
            v: MotionV::zero(),
            vj: MotionV::zero(),
            c: MotionV::zero(),
            a: MotionV::zero(),
            iaa: InertiaAbV::zero(),
            paa: ForceV::zero(),
            tau: 0,
            f_ext: ForceV::zero(),
            dd: 0,
            u: 0,
            uu: ForceV::zero(),
        }
    }
}

/// One node of the articulated tree.
#[derive(Clone, Copy, Debug)]
pub struct Joint {
    pub joint_type: JointType,
    /// Motion subspace: the spatial direction freed by this joint.
    pub s: Motion,
    /// Rigid-body inertia attached to this node.
    pub i: Inertia,
    /// Fixed offset transform from the parent joint frame.
    pub xt: Xform,
    /// Joint position.
    pub q: Fx,
    /// Joint velocity.
    pub qd: Fx,
    /// Joint acceleration (solved each sub-step).
    pub qdd: Fx,
    /// Joint-local transform including the joint displacement.
    pub xl: Xform,
    /// Displacement transform of the joint coordinate alone.
    pub xj: Xform,
    /// Cumulative transform from this joint's frame to the base frame.
    pub x: Xform,
    /// Spatial velocity in the joint frame.
    pub v: Motion,
    /// Joint-local spatial velocity contribution.
    pub vj: Motion,
    /// Velocity-dependent bias motion.
    pub c: Motion,
    /// Spatial acceleration.
    pub a: Motion,
    /// Running articulated-body inertia.
    pub iaa: InertiaAB,
    /// Running bias force.
    pub paa: Force,
    /// Applied generalized torque, reset each sub-step.
    pub tau: Fx,
    /// Applied external spatial force, reset each sub-step.
    pub f_ext: Force,
    /// Effective inertia along the joint axis.
    pub dd: Fx,
    /// Net generalized force along the joint axis.
    pub u: Fx,
    /// Articulated inertia projected through the subspace.
    pub uu: Force,
}

impl View for Joint {
    type V = JointV;

    open spec fn view(&self) -> JointV {
        JointV {
            joint_type: self.joint_type,
            s: self.s@,
            i: self.i@,
            xt: self.xt@,
            q: self.q@,
            qd: self.qd@,
            qdd: self.qdd@,
            xl: self.xl@,
            xj: self.xj@,
            x: self.x@,
            v: self.v@,
            vj: self.vj@,
            c: self.c@,
            a: self.a@,
            iaa: self.iaa@,
            paa: self.paa@,
            tau: self.tau@,
            f_ext: self.f_ext@,
            dd: self.dd@,
            u: self.u@,
            uu: self.uu@,
        }
    }
}

impl Joint {
    /// A node with the given structural fields and zeroed state.
    fn build(joint_type: JointType, s: Motion, i: Inertia, xt: Xform) -> (r: Joint)
        ensures
            r@ == JointV::init(joint_type, s@, i@, xt@),
    {
        Joint {
            joint_type,
            s,
            i,
            xt,
            q: Fx::zero(),
            qd: Fx::zero(),
            qdd: Fx::zero(),
            xl: Xform::identity(),
            xj: Xform::identity(),
            x: Xform::identity(),
            v: Motion::zero(),
            vj: Motion::zero(),
            c: Motion::zero(),
            a: Motion::zero(),
            iaa: InertiaAB::zero(),
            paa: Force::zero(),
            tau: Fx::zero(),
            f_ext: Force::zero(),
            dd: Fx::zero(),
            u: Fx::zero(),
            uu: Force::zero(),
        }
    }

    /// The synthetic base node; `a` is its fixed acceleration boundary
    /// condition (typically gravity).
    pub fn base(a: Motion) -> (r: Joint)
        ensures
            r@ == (JointV {
                a: a@,
                ..JointV::init(JointType::Base, MotionV::zero(), InertiaV::zero(), XformV::id())
            }),
    {
        let mut j: Joint = Joint::build(
            JointType::Base,
            Motion::zero(),
            Inertia::zero(),
            Xform::identity(),
        );
        j.a = a;
        j
    }

    /// A rotational joint about the x axis.
    pub fn rx(inertia: Inertia, xt: Xform) -> (r: Joint)
        ensures
            r@ == JointV::init(
                JointType::Rx,
                (MotionV { v: crate::linalg::V3::zero(), w: crate::linalg::V3 { x: crate::fx::SCALE as int, y: 0, z: 0 } }),
                inertia@,
                xt@,
            ),
    {
        Joint::build(JointType::Rx, Motion::new(Vec3::zero(), Vec3::unit_x()), inertia, xt)
    }

    /// A rotational joint about the y axis.
    pub fn ry(inertia: Inertia, xt: Xform) -> (r: Joint)
        ensures
            r@ == JointV::init(
                JointType::Ry,
                (MotionV { v: crate::linalg::V3::zero(), w: crate::linalg::V3 { x: 0, y: crate::fx::SCALE as int, z: 0 } }),
                inertia@,
                xt@,
            ),
    {
        Joint::build(JointType::Ry, Motion::new(Vec3::zero(), Vec3::unit_y()), inertia, xt)
    }

    /// A rotational joint about the z axis.
    pub fn rz(inertia: Inertia, xt: Xform) -> (r: Joint)
        ensures
            r@ == JointV::init(
                JointType::Rz,
                (MotionV { v: crate::linalg::V3::zero(), w: crate::linalg::V3 { x: 0, y: 0, z: crate::fx::SCALE as int } }),
                inertia@,
                xt@,
            ),
    {
        Joint::build(JointType::Rz, Motion::new(Vec3::zero(), Vec3::unit_z()), inertia, xt)
    }

    /// A translational joint along the x axis.
    pub fn px(inertia: Inertia, xt: Xform) -> (r: Joint)
        ensures
            r@ == JointV::init(
                JointType::Px,
                (MotionV { v: crate::linalg::V3 { x: crate::fx::SCALE as int, y: 0, z: 0 }, w: crate::linalg::V3::zero() }),
                inertia@,
                xt@,
            ),
    {
        Joint::build(JointType::Px, Motion::new(Vec3::unit_x(), Vec3::zero()), inertia, xt)
    }

    /// A translational joint along the y axis.
    pub fn py(inertia: Inertia, xt: Xform) -> (r: Joint)
        ensures
            r@ == JointV::init(
                JointType::Py,
                (MotionV { v: crate::linalg::V3 { x: 0, y: crate::fx::SCALE as int, z: 0 }, w: crate::linalg::V3::zero() }),
                inertia@,
                xt@,
            ),
    {
        Joint::build(JointType::Py, Motion::new(Vec3::unit_y(), Vec3::zero()), inertia, xt)
    }

    /// A translational joint along the z axis.
    pub fn pz(inertia: Inertia, xt: Xform) -> (r: Joint)
        ensures
            r@ == JointV::init(
                JointType::Pz,
                (MotionV { v: crate::linalg::V3 { x: 0, y: 0, z: crate::fx::SCALE as int }, w: crate::linalg::V3::zero() }),
                inertia@,
                xt@,
            ),
    {
        Joint::build(JointType::Pz, Motion::new(Vec3::unit_z(), Vec3::zero()), inertia, xt)
    }

    /// The `(q, qd)` pair the integrator owns.
    pub fn get_state(&self) -> (r: JointState)
        ensures
            r@ == (JointStateV { q: self@.q, qd: self@.qd }),
    {
        JointState { q: self.q, qd: self.qd }
    }

    /// Write an integrator state back into the joint.
    pub fn set_state(&mut self, state: &JointState)
        ensures
            *final(self) == (Joint { q: state.q, qd: state.qd, ..*old(self) }),
    {
        self.q = state.q;
        self.qd = state.qd;
    }

    /// The `(qd, qdd)` derivative pair the integrator reads back.
    pub fn get_dstate(&self) -> (r: JointState)
        ensures
            r@ == (JointStateV { q: self@.qd, qd: self@.qdd }),
    {
        JointState { q: self.qd, qd: self.qdd }
    }

    /// Clear the per-sub-step accumulators.
    pub fn reset(&mut self)
        ensures
            *final(self) == (Joint {
                qdd: Fx { m: 0 },
                f_ext: Force { f: Vec3 { x: Fx { m: 0 }, y: Fx { m: 0 }, z: Fx { m: 0 } }, m: Vec3 { x: Fx { m: 0 }, y: Fx { m: 0 }, z: Fx { m: 0 } } },
                tau: Fx { m: 0 },
                ..*old(self)
            }),
    {
        self.qdd = Fx::zero();
        self.f_ext = Force::zero();
        self.tau = Fx::zero();
    }
}

/// Mathematical view of an integrator state pair.
pub ghost struct JointStateV {
    pub q: int,
    pub qd: int,
}

impl JointStateV {
    /// Component-wise saturating sum.
    pub open spec fn plus(self, o: JointStateV) -> JointStateV {
        JointStateV { q: crate::fx::fadd(self.q, o.q), qd: crate::fx::fadd(self.qd, o.qd) }
    }

    /// Scaling by a fixed-point scalar.
    pub open spec fn scale(self, s: int) -> JointStateV {
        JointStateV { q: crate::fx::fmul(self.q, s), qd: crate::fx::fmul(self.qd, s) }
    }
}

/// A position/velocity pair for one degree of freedom.
#[derive(Clone, Copy, Debug, PartialEq, Eq, Structural)]
pub struct JointState {
    pub q: Fx,
    pub qd: Fx,
}

impl View for JointState {
    type V = JointStateV;

    open spec fn view(&self) -> JointStateV {
        JointStateV { q: self.q@, qd: self.qd@ }
    }
}

impl JointState {
    /// The pair with the given position and velocity.
    pub fn new(q: Fx, qd: Fx) -> (r: JointState)
        ensures
            r@ == (JointStateV { q: q@, qd: qd@ }),
    {
        JointState { q, qd }
    }

    /// The zero pair.
    pub fn zero() -> (r: JointState)
        ensures
            r@ == (JointStateV { q: 0, qd: 0 }),
    {
        JointState { q: Fx::zero(), qd: Fx::zero() }
    }

    /// The pair currently held by a joint.
    pub fn from_joint(joint: &Joint) -> (r: JointState)
        ensures
            r@ == (JointStateV { q: joint@.q, qd: joint@.qd }),
    {
        JointState { q: joint.q, qd: joint.qd }
    }

    /// Component-wise sum.
    pub fn plus(self, o: JointState) -> (r: JointState)
        ensures
            r@ == self@.plus(o@),
    {
        JointState { q: self.q.plus(o.q), qd: self.qd.plus(o.qd) }
    }

    /// Scaling by a scalar.
    pub fn scale(self, s: Fx) -> (r: JointState)
        ensures
            r@ == self@.scale(s@),
    {
        JointState { q: self.q.times(s), qd: self.qd.times(s) }
    }
}

} // verus!
