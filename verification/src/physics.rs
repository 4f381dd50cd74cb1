//! Force contributors: suspension springs, steering, drivetrain, brakes.
//!
//! Each contributor reads one joint's state and adds a generalized torque
//! (or sets a position-controlled joint's position) between the kinematics
//! pass and the inertia-projection pass.  Contributions are additive, so
//! the order among independent contributors does not matter; each `..._system`
//! function's contract states the exact new joint view.

use vstd::prelude::*;

use crate::fx::{fadd, fclamp, fdiv, fmin, fmul, fneg, fsub, iabs, Fx, SCALE};
use crate::interp::{interpolate_spec, Interpolator1D};
use crate::joint::JointV;
use crate::structure::MultibodySystem;

verus! {

/// Driver inputs, each on the `[-1, 1]` (steering) or `[0, 1]` scale.
#[derive(Clone, Copy, Debug, PartialEq, Eq, Structural)]
pub struct CarControl {
    pub throttle: Fx,
    pub steering: Fx,
    pub brake: Fx,
}

/// A spring-damper with preload acting on one suspension joint.
#[derive(Clone, Copy, Debug, PartialEq, Eq, Structural)]
pub struct SuspensionComponent {
    pub joint_index: usize,
    pub stiffness: Fx,
    pub damping: Fx,
    pub preload: Fx,
}

impl SuspensionComponent {
    /// A suspension element with the given rates.
    pub fn new(joint_index: usize, stiffness: Fx, damping: Fx, preload: Fx) -> (r:
        SuspensionComponent)
        ensures
            r == (SuspensionComponent { joint_index, stiffness, damping, preload }),
    {
        SuspensionComponent { joint_index, stiffness, damping, preload }
    }
}

/// Torque a suspension element applies: spring, damper and preload, pulling
/// against the joint displacement.
pub open spec fn suspension_torque(k: int, c: int, preload: int, q: int, qd: int) -> int {
    fneg(fadd(fadd(fmul(k, q), fmul(c, qd)), preload))
}

/// Apply one suspension element's torque onto its joint.
pub fn suspension_system(sys: &mut MultibodySystem, susp: &SuspensionComponent)
    requires
        old(sys).wf(),
        susp.joint_index < old(sys).views().len(),
    ensures
        final(sys).wf(),
        final(sys).parent@ == old(sys).parent@,
        final(sys).views() == old(sys).views().update(
            susp.joint_index as int,
            JointV {
                tau: fadd(
                    old(sys).views()[susp.joint_index as int].tau,
                    suspension_torque(
                        susp.stiffness@,
                        susp.damping@,
                        susp.preload@,
                        old(sys).views()[susp.joint_index as int].q,
                        old(sys).views()[susp.joint_index as int].qd,
                    ),
                ),
                ..old(sys).views()[susp.joint_index as int]
            },
        ),
{
    let j = sys.joint(susp.joint_index);
    let t: Fx = susp.stiffness.times(j.q).plus(susp.damping.times(j.qd)).plus(susp.preload).neg();
    sys.add_tau(susp.joint_index, t);
}

/// Direct steering: the joint angle follows the input times a maximum angle.
#[derive(Clone, Copy, Debug, PartialEq, Eq, Structural)]
pub struct Steering {
    pub joint_index: usize,
    pub max_angle: Fx,
}

impl Steering {
    /// A direct steering element with the given maximum angle.
    pub fn new(joint_index: usize, max_angle: Fx) -> (r: Steering)
        ensures
            r == (Steering { joint_index, max_angle }),
    {
        Steering { joint_index, max_angle }
    }
}

/// Set a position-controlled steering joint from the driver input.
pub fn steering_system(sys: &mut MultibodySystem, steering: &Steering, control: &CarControl)
    requires
        old(sys).wf(),
        steering.joint_index < old(sys).views().len(),
    ensures
        final(sys).wf(),
        final(sys).parent@ == old(sys).parent@,
        final(sys).views() == old(sys).views().update(
            steering.joint_index as int,
            JointV {
                q: fmul(control.steering@, steering.max_angle@),
                ..old(sys).views()[steering.joint_index as int]
            },
        ),
{
    sys.set_q(steering.joint_index, control.steering.times(steering.max_angle));
}

/// Curvature steering: the wheel angle realizes a commanded path curvature
/// for a wheel at planar offset `(x, y)` from the vehicle reference point.
#[derive(Clone, Copy, Debug, PartialEq, Eq, Structural)]
pub struct SteeringCurvature {
    pub joint_index: usize,
    pub x: Fx,
    pub y: Fx,
    pub max_curvature: Fx,
}

impl SteeringCurvature {
    /// A curvature steering element for a wheel at the given offset.
    pub fn new(joint_index: usize, max_curvature: Fx, x: Fx, y: Fx) -> (r: SteeringCurvature)
        ensures
            r == (SteeringCurvature { joint_index, x, y, max_curvature }),
    {
        SteeringCurvature { joint_index, x, y, max_curvature }
    }
}

/// The wheel angle commanded by a curvature steering element, or `None`
/// when the Ackermann denominator vanishes (the angle is then left alone).
pub open spec fn curvature_angle(sc: SteeringCurvature, steering: int) -> Option<int> {
    let vehicle_curvature = fmul(sc.max_curvature@, steering);
    let denom = fsub(SCALE as int, fmul(vehicle_curvature, sc.y@));
    if denom == 0 {
        None
    } else {
        let wheel_curvature = fdiv(vehicle_curvature, denom);
        Some(crate::trig::atan_spec(fmul(wheel_curvature, sc.x@)))
    }
}

/// Set a curvature-steered joint from the driver input.
pub fn steering_curvature_system(
    sys: &mut MultibodySystem,
    sc: &SteeringCurvature,
    control: &CarControl,
)
    requires
        old(sys).wf(),
        sc.joint_index < old(sys).views().len(),
    ensures
        final(sys).wf(),
        final(sys).parent@ == old(sys).parent@,
        match curvature_angle(*sc, control.steering@) {
            Some(q) => final(sys).views() == old(sys).views().update(
                sc.joint_index as int,
                JointV { q, ..old(sys).views()[sc.joint_index as int] },
            ),
            None => final(sys).views() == old(sys).views(),
        },
{
    let vehicle_curvature: Fx = sc.max_curvature.times(control.steering);
    let denom: Fx = Fx::one().minus(vehicle_curvature.times(sc.y));
    if denom.is_zero() {
        return ;
    }
    let wheel_curvature: Fx = vehicle_curvature.over(denom);
    let q: Fx = crate::trig::atan(wheel_curvature.times(sc.x));
    sys.set_q(sc.joint_index, q);
}

/// A torque-limited driven wheel.
#[derive(Clone, Copy, Debug, PartialEq, Eq, Structural)]
pub struct DrivenWheel {
    pub joint_index: usize,
    pub max_torque: Fx,
    pub max_speed: Fx,
    pub max_power: Fx,
}

impl DrivenWheel {
    /// A driven wheel with the given torque, speed and power limits.
    pub fn new(joint_index: usize, max_torque: Fx, max_speed: Fx, max_power: Fx) -> (r: DrivenWheel)
        ensures
            r == (DrivenWheel { joint_index, max_torque, max_speed, max_power }),
    {
        DrivenWheel { joint_index, max_torque, max_speed, max_power }
    }
}

/// The torque a driven wheel adds: the commanded fraction of the torque
/// limit, power-limited at speed, zero at or beyond the speed limit.
pub open spec fn driven_wheel_torque(dw: DrivenWheel, throttle: int, qd: int) -> int {
    if iabs(qd) < dw.max_speed@ {
        let limit = if qd == 0 {
            dw.max_torque@
        } else {
            fmin(dw.max_torque@, crate::fx::fabs(fdiv(dw.max_power@, qd)))
        };
        fmul(throttle, limit)
    } else {
        0
    }
}

/// Apply one driven wheel's torque onto its joint.
pub fn driven_wheel_system(sys: &mut MultibodySystem, dw: &DrivenWheel, control: &CarControl)
    requires
        old(sys).wf(),
        dw.joint_index < old(sys).views().len(),
    ensures
        final(sys).wf(),
        final(sys).parent@ == old(sys).parent@,
        final(sys).views() == old(sys).views().update(
            dw.joint_index as int,
            JointV {
                tau: fadd(
                    old(sys).views()[dw.joint_index as int].tau,
                    driven_wheel_torque(
                        *dw,
                        control.throttle@,
                        old(sys).views()[dw.joint_index as int].qd,
                    ),
                ),
                ..old(sys).views()[dw.joint_index as int]
            },
        ),
{
    let qd: Fx = sys.joint(dw.joint_index).qd;
    let t: Fx = if qd.abs().lt(dw.max_speed) {
        let limit: Fx = if qd.is_zero() {
            dw.max_torque
        } else {
            dw.max_torque.min(dw.max_power.over(qd).abs())
        };
        control.throttle.times(limit)
    } else {
        Fx::zero()
    };
    sys.add_tau(dw.joint_index, t);
}

/// A driven wheel whose torque limit comes from a speed-torque table.
#[derive(Clone, Debug)]
pub struct DrivenWheelLookup {
    pub joint_index: usize,
    pub torque_lookup: Interpolator1D,
    pub max_speed: Fx,
    pub max_speed_power: Fx,
}

/// The signed torque limit of a lookup-driven wheel at a given speed.
pub open spec fn lookup_limit_torque(dw: DrivenWheelLookup, speed: int) -> int {
    let sign: int = if speed < 0 {
        fneg(SCALE as int)
    } else {
        SCALE as int
    };
    let abs_speed = crate::fx::fabs(speed);
    if abs_speed > dw.max_speed@ {
        0
    } else if abs_speed < dw.max_speed@ {
        fmul(sign, interpolate_spec(dw.torque_lookup.x@, dw.torque_lookup.y@, abs_speed))
    } else if abs_speed == 0 {
        0
    } else {
        fmul(sign, fdiv(dw.max_speed_power@, abs_speed))
    }
}

impl DrivenWheelLookup {
    /// The lookup table is well formed.
    pub open spec fn wf(self) -> bool {
        self.torque_lookup.wf()
    }

    /// A lookup-driven wheel from a speed column and a torque column; the
    /// last row fixes the speed limit and the constant-power branch.
    pub fn new(joint_index: usize, speeds: Vec<Fx>, torques: Vec<Fx>) -> (r: DrivenWheelLookup)
        requires
            speeds@.len() == torques@.len(),
            speeds@.len() >= 1,
            forall|i: int, j: int|
                0 <= i < j < speeds@.len() ==> (#[trigger] speeds@[i])@ < (#[trigger] speeds@[j])@,
        ensures
            r.wf(),
            r.joint_index == joint_index,
            r.torque_lookup.x@ == speeds@,
            r.torque_lookup.y@ == torques@,
            r.max_speed@ == speeds@[speeds@.len() - 1]@,
            r.max_speed_power@ == fmul(torques@[torques@.len() - 1]@, speeds@[speeds@.len() - 1]@),
    {
        let n: usize = speeds.len();
        let max_speed: Fx = speeds[n - 1];
        let max_speed_power: Fx = torques[n - 1].times(max_speed);
        DrivenWheelLookup {
            joint_index,
            torque_lookup: Interpolator1D::new(speeds, torques),
            max_speed,
            max_speed_power,
        }
    }

    /// The signed torque limit at a given speed.
    pub fn limit_torque(&self, speed: Fx) -> (r: Fx)
        requires
            self.wf(),
        ensures
            r@ == lookup_limit_torque(*self, speed@),
    {
        let sign: Fx = if speed.lt(Fx::zero()) {
            Fx::one().neg()
        } else {
            Fx::one()
        };
        let abs_speed: Fx = speed.abs();
        if self.max_speed.lt(abs_speed) {
            return Fx::zero();
        }
        if abs_speed.lt(self.max_speed) {
            return sign.times(self.torque_lookup.interpolate(abs_speed));
        }
        if abs_speed.is_zero() {
            return Fx::zero();
        }
        sign.times(self.max_speed_power.over(abs_speed))
    }
}

/// Apply one lookup-driven wheel's torque onto its joint.
pub fn driven_wheel_lookup_system(
    sys: &mut MultibodySystem,
    dw: &DrivenWheelLookup,
    control: &CarControl,
)
    requires
        old(sys).wf(),
        dw.wf(),
        dw.joint_index < old(sys).views().len(),
    ensures
        final(sys).wf(),
        final(sys).parent@ == old(sys).parent@,
        final(sys).views() == old(sys).views().update(
            dw.joint_index as int,
            JointV {
                tau: fadd(
                    old(sys).views()[dw.joint_index as int].tau,
                    fmul(
                        control.throttle@,
                        crate::fx::fabs(
                            lookup_limit_torque(
                                *dw,
                                old(sys).views()[dw.joint_index as int].qd,
                            ),
                        ),
                    ),
                ),
                ..old(sys).views()[dw.joint_index as int]
            },
        ),
{
    let qd: Fx = sys.joint(dw.joint_index).qd;
    let torque_limit: Fx = dw.limit_torque(qd).abs();
    let commanded: Fx = control.throttle.times(torque_limit);
    sys.add_tau(dw.joint_index, commanded);
}

/// A brake acting on one wheel.
#[derive(Clone, Copy, Debug, PartialEq, Eq, Structural)]
pub struct BrakeWheel {
    pub joint_index: usize,
    pub max_torque: Fx,
}

impl BrakeWheel {
    /// A brake with the given maximum torque.
    pub fn new(joint_index: usize, max_torque: Fx) -> (r: BrakeWheel)
        ensures
            r == (BrakeWheel { joint_index, max_torque }),
    {
        BrakeWheel { joint_index, max_torque }
    }
}

/// The torque a brake adds: opposing the wheel speed, ramped linearly
/// through zero speed.
pub open spec fn brake_torque(bw: BrakeWheel, brake: int, qd: int) -> int {
    fmul(fmul(fneg(brake), bw.max_torque@), fclamp(qd, fneg(SCALE as int), SCALE as int))
}

/// Apply one brake's torque onto its wheel joint.
pub fn brake_wheel_system(sys: &mut MultibodySystem, bw: &BrakeWheel, control: &CarControl)
    requires
        old(sys).wf(),
        bw.joint_index < old(sys).views().len(),
    ensures
        final(sys).wf(),
        final(sys).parent@ == old(sys).parent@,
        final(sys).views() == old(sys).views().update(
            bw.joint_index as int,
            JointV {
                tau: fadd(
                    old(sys).views()[bw.joint_index as int].tau,
                    brake_torque(*bw, control.brake@, old(sys).views()[bw.joint_index as int].qd),
                ),
                ..old(sys).views()[bw.joint_index as int]
            },
        ),
{
    let qd: Fx = sys.joint(bw.joint_index).qd;
    let one: Fx = Fx::one();
    let t: Fx = control.brake.neg().times(bw.max_torque).times(qd.clamp(one.neg(), one));
    sys.add_tau(bw.joint_index, t);
}

} // verus!
