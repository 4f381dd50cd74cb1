//! Per-joint updates of the articulated-body forward-dynamics passes.
//!
//! Pass 1 walks the tree outward and rebuilds each joint's kinematics from
//! its position and velocity; the external-force fold projects accumulated
//! `f_ext` into the bias force; pass 2 walks inward propagating reduced
//! articulated inertias and bias forces into parents; pass 3 walks outward
//! again and solves each scalar joint acceleration.  Every update function
//! returns exactly the value of its spec-level counterpart.

use vstd::prelude::*;

use crate::fx::{fadd, fdiv, fmul, fsub, Fx, SCALE};
use crate::joint::{Joint, JointType, JointV};
use crate::linalg::V3;
use crate::sva::{ForceV, MotionV, Xform, XformV};

verus! {

/// Displacement transform of a joint coordinate along its axis.
pub open spec fn joint_displacement(jt: JointType, q: int) -> XformV {
    match jt {
        JointType::Base => XformV::id(),
        JointType::Rx => XformV { p: V3::zero(), r: crate::sva::rot_x_spec(q) },
        JointType::Ry => XformV { p: V3::zero(), r: crate::sva::rot_y_spec(q) },
        JointType::Rz => XformV { p: V3::zero(), r: crate::sva::rot_z_spec(q) },
        JointType::Px => XformV { p: V3 { x: q, y: 0, z: 0 }, r: crate::linalg::M3::id() },
        JointType::Py => XformV { p: V3 { x: 0, y: q, z: 0 }, r: crate::linalg::M3::id() },
        JointType::Pz => XformV { p: V3 { x: 0, y: 0, z: q }, r: crate::linalg::M3::id() },
    }
}

/// Outward kinematics update of one joint below its parent.
#[verifier::opaque]
pub open spec fn pass1_spec(j: JointV, p: JointV) -> JointV {
    let xj = joint_displacement(j.joint_type, j.q);
    let vj = j.s.scale(j.qd);
    let xl = xj.compose(j.xt);
    let x = xl.compose(p.x);
    let v = xl.xform_motion(p.v).plus(vj);
    JointV {
        tau: 0,
        f_ext: ForceV::zero(),
        qdd: 0,
        a: MotionV::zero(),
        xj,
        vj,
        xl,
        x,
        v,
        c: v.cross_v(vj),
        iaa: j.i.to_articulated(),
        paa: v.cross_f(j.i.mul_motion(v)),
        ..j
    }
}

/// Fold of the accumulated external force into the bias force.
#[verifier::opaque]
pub open spec fn apply_external_spec(j: JointV) -> JointV {
    JointV { paa: j.paa.minus(j.x.xform_force(j.f_ext)), ..j }
}

/// Local part of the inward pass: subspace projections of the running
/// articulated inertia and bias force.
#[verifier::opaque]
pub open spec fn pass2_local_spec(j: JointV) -> JointV {
    let uu = j.iaa.mul_motion(j.s);
    JointV { uu, dd: j.s.pair(uu), u: fsub(j.tau, j.s.pair(j.paa)), ..j }
}

/// Parent part of the inward pass: the rank-one-reduced inertia and bias
/// force of a child, pushed through the child's local transform inverse.
#[verifier::opaque]
pub open spec fn pass2_parent_spec(j: JointV, p: JointV) -> JointV {
    let dd_inv = fdiv(SCALE as int, j.dd);
    let ia = j.iaa.minus(j.uu.self_outer().scale(dd_inv));
    let pa = j.paa.plus(ia.mul_motion(j.c)).plus(j.uu.scale(fmul(dd_inv, j.u)));
    let xli = j.xl.inverse();
    JointV { iaa: p.iaa.plus(xli.xform_inertia(ia)), paa: p.paa.plus(xli.xform_force(pa)), ..p }
}

/// Outward acceleration solve of one joint below its parent.
#[verifier::opaque]
pub open spec fn pass3_spec(j: JointV, p: JointV) -> JointV {
    let ap = j.xl.xform_motion(p.a).plus(j.c);
    let dd_inv = fdiv(SCALE as int, j.dd);
    let te = fsub(j.u, fadd(j.uu.m.dot(ap.w), j.uu.f.dot(ap.v)));
    let qdd = fmul(dd_inv, te);
    JointV { qdd, a: ap.plus(j.s.scale(qdd)), ..j }
}

/// Pass-1 update: reset the per-step accumulators and recompute the joint's
/// kinematics, initial articulated inertia and gyroscopic bias force.
pub fn loop_1_update(joint: &mut Joint, parent: &Joint)
    ensures
        final(joint)@ == pass1_spec(old(joint)@, parent@),
{
    proof {
        reveal(pass1_spec);
    }
    joint.tau = Fx::zero();
    joint.f_ext = crate::sva::Force::zero();
    joint.qdd = Fx::zero();
    joint.a = crate::sva::Motion::zero();

    joint.xj = match joint.joint_type {
        JointType::Base => Xform::identity(),
        JointType::Rx => Xform::rotx(joint.q),
        JointType::Ry => Xform::roty(joint.q),
        JointType::Rz => Xform::rotz(joint.q),
        JointType::Px => Xform::posx(joint.q),
        JointType::Py => Xform::posy(joint.q),
        JointType::Pz => Xform::posz(joint.q),
    };

    joint.vj = joint.s.scale(joint.qd);
    joint.xl = joint.xj.compose(joint.xt);

    joint.x = joint.xl.compose(parent.x);
    joint.v = joint.xl.xform_motion(parent.v).plus(joint.vj);

    joint.c = joint.v.cross_v(joint.vj);
    joint.iaa = joint.i.to_articulated();
    joint.paa = joint.v.cross_f(joint.i.mul_motion(joint.v));
}

/// Fold the finalized external force into the bias force.
pub fn apply_external_update(joint: &mut Joint)
    ensures
        final(joint)@ == apply_external_spec(old(joint)@),
{
    proof {
        reveal(apply_external_spec);
    }
    joint.paa = joint.paa.minus(joint.x.xform_force(joint.f_ext));
}

/// Pass-2 local update: project the running articulated inertia and bias
/// force onto the joint's motion subspace.
pub fn loop_2_local(joint: &mut Joint)
    ensures
        final(joint)@ == pass2_local_spec(old(joint)@),
{
    proof {
        reveal(pass2_local_spec);
    }
    joint.uu = joint.iaa.mul_motion(joint.s);
    joint.dd = joint.s.pair(joint.uu);
    joint.u = joint.tau.minus(joint.s.pair(joint.paa));
}

/// Pass-2 parent update: push the joint's reduced articulated inertia and
/// bias force into its parent.
pub fn loop_2_propagate(joint: &Joint, parent: &mut Joint)
    requires
        joint@.dd != 0,
    ensures
        final(parent)@ == pass2_parent_spec(joint@, old(parent)@),
{
    proof {
        reveal(pass2_parent_spec);
    }
    let dd_inv: Fx = Fx::one().over(joint.dd);
    let ia = joint.iaa.minus(joint.uu.self_outer_product().scale(dd_inv));
    let pa = joint.paa.plus(ia.mul_motion(joint.c)).plus(joint.uu.scale(dd_inv.times(joint.u)));
    let xli = joint.xl.inverse();
    parent.iaa = parent.iaa.plus(xli.xform_inertia(ia));
    parent.paa = parent.paa.plus(xli.xform_force(pa));
}

/// Pass-3 update: solve the scalar joint acceleration and form the joint's
/// spatial acceleration.
pub fn loop_3_update(joint: &mut Joint, parent: &Joint)
    requires
        old(joint)@.dd != 0,
    ensures
        final(joint)@ == pass3_spec(old(joint)@, parent@),
{
    proof {
        reveal(pass3_spec);
    }
    let ap = joint.xl.xform_motion(parent.a).plus(joint.c);
    let dd_inv: Fx = Fx::one().over(joint.dd);
    let te = joint.u.minus(joint.uu.m.dot(ap.w).plus(joint.uu.f.dot(ap.v)));
    joint.qdd = dd_inv.times(te);
    joint.a = ap.plus(joint.s.scale(joint.qdd));
}

} // verus!
