//! Multi-point tire contact and friction model.
//!
//! A wheel carries a fixed cloud of sample points on its undeformed surface.
//! Each step, every point is carried to world coordinates and queried
//! against the terrain; active points receive an activation weight ramping
//! in over a configurable length, a local contact frame, slip quantities
//! measured at a rolling-radius reference point, and a normal plus
//! linear-then-saturating tangential force.  The per-point forces accumulate
//! into one spatial force about the wheel, whose aligning moment passes
//! through a first-order low-pass filter that persists across steps.
//!
//! Where floating-point arithmetic would produce non-finite values (a
//! zero-length frame axis, a zero divisor), the model leaves that sample
//! point without a force contribution; every such case is stated in the
//! spec functions.

use vstd::prelude::*;

use crate::fx::{fadd, fclamp, fdiv, fmax, fmul, fneg, fsub, Fx, SCALE};
use crate::joint::{Joint, JointV};
use crate::linalg::{V3, Vec3};
use crate::sva::{Force, ForceV, MotionV, XformV};
use crate::terrain::{GridTerrain, InterferenceV};

verus! {

/// A wheel's contact configuration, point cloud, and filter state.
pub struct PointTire {
    /// Arena index of the wheel joint the force is applied to.
    pub joint_index: usize,
    /// Arena index of the wheel's parent joint (the upright).
    pub parent_index: usize,
    /// Sample points on the undeformed tire surface, in the wheel frame.
    pub points: Vec<Vec3>,
    /// Linear and quadratic normal stiffness.
    pub stiffness: [Fx; 2],
    /// Normal damping rate.
    pub damping: Fx,
    /// Friction coefficient scaling both tangential directions.
    pub coefficient_of_friction: Fx,
    /// Slope of the linear slip-to-force map before saturation.
    pub normalized_slip_stiffness: Fx,
    /// Radius of the rolling reference point used for slip measurement.
    pub rolling_radius: Fx,
    /// Floor on the slip denominators at low ground speed.
    pub low_speed: Fx,
    /// Per-step weight of the aligning-moment low-pass filter, in `[0, 1]`.
    pub filter_weight: Fx,
    /// Filter state: the smoothed aligning moment, persisted across steps.
    pub my_filtered: Fx,
    /// Length over which the activation weight ramps from zero to one.
    pub activation_length: Fx,
}

/// Activation weight of a contact of the given depth: a ramp over the
/// activation length, clamped to `[0, 1]` (full weight when the ramp length
/// is zero).
pub open spec fn activation_weight(al: int, mag: int) -> int {
    if al == 0 {
        SCALE as int
    } else {
        fclamp(fdiv(mag, al), 0, SCALE as int)
    }
}

/// Slip of a contact: the relative ground speed, reversed and normalized
/// by the (floored) parent ground speed.
pub open spec fn slip_ratio_spec(ground_speed: int, speed_floor: int) -> int {
    fdiv(fneg(ground_speed), speed_floor)
}

/// Tangential force of a contact: linear in slip until saturation, scaled
/// by the normal load and the friction coefficient.
pub open spec fn tangential_force_spec(slip: int, slip_stiffness: int, normal_mag: int, mu: int) -> int {
    fmul(fmul(fclamp(fmul(slip, slip_stiffness), fneg(SCALE as int), SCALE as int), normal_mag), mu)
}

/// The force contributed by one active sample point, or `None` when a frame
/// axis degenerates or a divisor vanishes.
#[verifier::opaque]
pub open spec fn point_force_spec(
    tire: PointTire,
    contact: InterferenceV,
    point_abs: V3,
    v0: MotionV,
    vp0: MotionV,
    center_abs: V3,
    lateral_abs: V3,
    active_points: int,
) -> Option<ForceV> {
    let n = contact.normal;
    let cl0 = lateral_abs.minus(n.scale(n.dot(lateral_abs)));
    let clg0 = cl0.scale_div(cl0.norm()).cross(n);
    let tu0 = clg0.scale_div(clg0.norm()).cross(lateral_abs);
    let radial0 = point_abs.minus(center_abs);
    let radial1 = radial0.minus(lateral_abs.scale(radial0.dot(lateral_abs)));
    if active_points == 0 || cl0.norm() == 0 || clg0.norm() == 0 || tu0.norm() == 0
        || radial1.norm() == 0 {
        None
    } else {
        let contact_lateral = cl0.scale_div(cl0.norm());
        let contact_longitudinal = clg0.scale_div(clg0.norm());
        let tire_up = tu0.scale_div(tu0.norm());
        let radial = radial1.scale_div(radial1.norm());
        let denom_r = fneg(tire_up.dot(radial));
        if denom_r == 0 {
            None
        } else {
            let rolling_radius_point = center_abs.plus(
                radial.scale(tire.rolling_radius@).scale_div(denom_r),
            );
            let vel_rolling = v0.velocity_point(rolling_radius_point);
            let plane_velocity_rolling = vel_rolling.minus(n.scale(vel_rolling.dot(n)));
            let vel_contact = v0.velocity_point(contact.position);
            let plane_velocity_contact = vel_contact.minus(n.scale(vel_contact.dot(n)));
            let vel_parent = vp0.velocity_point(contact.position);
            let normal_velocity_parent = vel_parent.dot(n);
            let ground_speed_lat = plane_velocity_contact.dot(contact_lateral);
            let ground_speed_long = plane_velocity_rolling.dot(contact_longitudinal);
            let plane_velocity_parent = vel_parent.minus(n.scale(normal_velocity_parent));
            let ground_speed_parent_long = plane_velocity_parent.dot(contact_longitudinal);
            let gspl_abs = fmax(crate::fx::fabs(ground_speed_parent_long), tire.low_speed@);
            if gspl_abs == 0 {
                None
            } else {
                let slip_ratio = slip_ratio_spec(ground_speed_long, gspl_abs);
                let slip_angle = slip_ratio_spec(ground_speed_lat, gspl_abs);
                let mag = contact.magnitude;
                let stiffness_force = fdiv(
                    fadd(fmul(tire.stiffness[0]@, mag), fmul(tire.stiffness[1]@, fmul(mag, mag))),
                    active_points,
                );
                let damping_force = fclamp(
                    fmul(fdiv(fneg(tire.damping@), active_points), normal_velocity_parent),
                    fmul(fneg(stiffness_force), 500_000),
                    stiffness_force,
                );
                let normal_force_magnitude = fadd(stiffness_force, damping_force);
                let normal_force = n.scale(normal_force_magnitude);
                let long_force = tangential_force_spec(
                    slip_ratio,
                    tire.normalized_slip_stiffness@,
                    normal_force_magnitude,
                    tire.coefficient_of_friction@,
                );
                let lat_force = tangential_force_spec(
                    slip_angle,
                    tire.normalized_slip_stiffness@,
                    normal_force_magnitude,
                    tire.coefficient_of_friction@,
                );
                let plane_force = contact_lateral.scale(lat_force).plus(
                    contact_longitudinal.scale(long_force),
                );
                let active = activation_weight(tire.activation_length@, mag);
                let force = normal_force.plus(plane_force).scale(active);
                Some(ForceV::at_point(force, contact.position))
            }
        }
    }
}

/// Sum of the activation weights of the first `k` sample points that touch
/// the terrain.
pub open spec fn active_sum_upto(tire: PointTire, terrain: GridTerrain, x0i: XformV, k: nat) -> int
    decreases k,
{
    if k == 0 {
        0
    } else {
        let prev = active_sum_upto(tire, terrain, x0i, (k - 1) as nat);
        match terrain.interference_spec(x0i.transform_point(tire.points[k - 1]@)) {
            Some(c) => fadd(prev, activation_weight(tire.activation_length@, c.magnitude)),
            None => prev,
        }
    }
}

/// Accumulated spatial force of the first `k` sample points.
pub open spec fn force_sum_upto(
    tire: PointTire,
    terrain: GridTerrain,
    x0i: XformV,
    v0: MotionV,
    vp0: MotionV,
    center_abs: V3,
    lateral_abs: V3,
    active_points: int,
    k: nat,
) -> ForceV
    decreases k,
{
    if k == 0 {
        ForceV::zero()
    } else {
        let prev = force_sum_upto(
            tire,
            terrain,
            x0i,
            v0,
            vp0,
            center_abs,
            lateral_abs,
            active_points,
            (k - 1) as nat,
        );
        let point_abs = x0i.transform_point(tire.points[k - 1]@);
        match terrain.interference_spec(point_abs) {
            Some(c) => match point_force_spec(
                tire,
                c,
                point_abs,
                v0,
                vp0,
                center_abs,
                lateral_abs,
                active_points,
            ) {
                Some(f) => prev.plus(f),
                None => prev,
            },
            None => prev,
        }
    }
}

/// The wheel's resultant external force and the new filter state, given the
/// wheel and parent kinematics.
#[verifier::opaque]
pub open spec fn wheel_force_spec(
    tire: PointTire,
    terrain: GridTerrain,
    jx: XformV,
    jv: MotionV,
    px: XformV,
    pv: MotionV,
) -> (ForceV, int) {
    let x0i = jx.inverse();
    let v0 = x0i.xform_motion(jv);
    let xp0 = px.inverse();
    let vp0 = xp0.xform_motion(pv);
    let center_abs = xp0.transform_point(V3::zero());
    let lateral_abs = x0i.rotate(V3 { x: 0, y: SCALE as int, z: 0 });
    let n = tire.points@.len();
    let active_points = active_sum_upto(tire, terrain, x0i, n);
    let raw = force_sum_upto(
        tire,
        terrain,
        x0i,
        v0,
        vp0,
        center_abs,
        lateral_abs,
        active_points,
        n,
    );
    let f_parent = px.xform_force(raw);
    let w = tire.filter_weight@;
    let my = fadd(fmul(tire.my_filtered@, w), fmul(f_parent.m.y, fsub(SCALE as int, w)));
    let filtered = ForceV { f: f_parent.f, m: V3 { y: my, ..f_parent.m } };
    (px.inverse().xform_force(filtered), my)
}

impl PointTire {
    /// The force of one sample point, or `None` when its local frame
    /// degenerates.
    fn point_force(
        &self,
        contact: &crate::terrain::Interference,
        point_abs: Vec3,
        v0: crate::sva::Motion,
        vp0: crate::sva::Motion,
        center_abs: Vec3,
        lateral_abs: Vec3,
        active_points: Fx,
    ) -> (r: Option<Force>)
        ensures
            match r {
                Some(f) => point_force_spec(
                    *self,
                    contact@,
                    point_abs@,
                    v0@,
                    vp0@,
                    center_abs@,
                    lateral_abs@,
                    active_points@,
                ) == Some(f@),
                None => point_force_spec(
                    *self,
                    contact@,
                    point_abs@,
                    v0@,
                    vp0@,
                    center_abs@,
                    lateral_abs@,
                    active_points@,
                ) is None,
            },
    {
        proof {
            reveal(point_force_spec);
        }
        let n: Vec3 = contact.normal;
        let cl0: Vec3 = lateral_abs.minus(n.scale(n.dot(lateral_abs)));
        if active_points.is_zero() || cl0.norm().is_zero() {
            return None;
        }
        let contact_lateral: Vec3 = cl0.normalize();
        let clg0: Vec3 = contact_lateral.cross(n);
        if clg0.norm().is_zero() {
            return None;
        }
        let contact_longitudinal: Vec3 = clg0.normalize();
        let tu0: Vec3 = contact_longitudinal.cross(lateral_abs);
        if tu0.norm().is_zero() {
            return None;
        }
        let tire_up: Vec3 = tu0.normalize();
        let radial0: Vec3 = point_abs.minus(center_abs);
        let radial1: Vec3 = radial0.minus(lateral_abs.scale(radial0.dot(lateral_abs)));
        if radial1.norm().is_zero() {
            return None;
        }
        let radial: Vec3 = radial1.normalize();
        let denom_r: Fx = tire_up.dot(radial).neg();
        if denom_r.is_zero() {
            return None;
        }
        let rolling_radius_point: Vec3 = center_abs.plus(
            radial.scale(self.rolling_radius).scale_div(denom_r),
        );
        let vel_rolling: Vec3 = v0.velocity_point(rolling_radius_point);
        let plane_velocity_rolling: Vec3 = vel_rolling.minus(n.scale(vel_rolling.dot(n)));
        let vel_contact: Vec3 = v0.velocity_point(contact.position);
        let plane_velocity_contact: Vec3 = vel_contact.minus(n.scale(vel_contact.dot(n)));
        let vel_parent: Vec3 = vp0.velocity_point(contact.position);
        let normal_velocity_parent: Fx = vel_parent.dot(n);
        let ground_speed_lat: Fx = plane_velocity_contact.dot(contact_lateral);
        let ground_speed_long: Fx = plane_velocity_rolling.dot(contact_longitudinal);
        let plane_velocity_parent: Vec3 = vel_parent.minus(n.scale(normal_velocity_parent));
        let ground_speed_parent_long: Fx = plane_velocity_parent.dot(contact_longitudinal);
        let gspl_abs: Fx = ground_speed_parent_long.abs().max(self.low_speed);
        if gspl_abs.is_zero() {
            return None;
        }
        let slip_ratio: Fx = ground_speed_long.neg().over(gspl_abs);
        let slip_angle: Fx = ground_speed_lat.neg().over(gspl_abs);
        let mag: Fx = contact.magnitude;
        let stiffness_force: Fx = self.stiffness[0].times(mag).plus(
            self.stiffness[1].times(mag.times(mag)),
        ).over(active_points);
        let damping_force: Fx = self.damping.neg().over(active_points).times(
            normal_velocity_parent,
        ).clamp(stiffness_force.neg().times(Fx { m: 500_000 }), stiffness_force);
        let normal_force_magnitude: Fx = stiffness_force.plus(damping_force);
        let normal_force: Vec3 = n.scale(normal_force_magnitude);
        let one: Fx = Fx::one();
        let normalized_long: Fx = slip_ratio.times(self.normalized_slip_stiffness).clamp(
            one.neg(),
            one,
        );
        let normalized_lat: Fx = slip_angle.times(self.normalized_slip_stiffness).clamp(
            one.neg(),
            one,
        );
        let long_force: Fx = normalized_long.times(normal_force_magnitude).times(
            self.coefficient_of_friction,
        );
        let lat_force: Fx = normalized_lat.times(normal_force_magnitude).times(
            self.coefficient_of_friction,
        );
        let plane_force: Vec3 = contact_lateral.scale(lat_force).plus(
            contact_longitudinal.scale(long_force),
        );
        let active: Fx = self.activation(mag);
        let force: Vec3 = normal_force.plus(plane_force).scale(active);
        Some(Force::force_point(force, contact.position))
    }

    /// The activation weight for a contact of the given depth.
    fn activation(&self, mag: Fx) -> (r: Fx)
        ensures
            r@ == activation_weight(self.activation_length@, mag@),
    {
        if self.activation_length.is_zero() {
            Fx::one()
        } else {
            mag.over(self.activation_length).clamp(Fx::zero(), Fx::one())
        }
    }

    /// Resultant contact force of the wheel against the terrain, with the
    /// aligning moment passed through the low-pass filter; updates the
    /// filter state.
    #[verifier::rlimit(60)]
    pub fn wheel_contact_force(
        &mut self,
        joint: &Joint,
        parent: &Joint,
        terrain: &GridTerrain,
    ) -> (f: Force)
        requires
            terrain.wf(),
        ensures
            f@ == wheel_force_spec(
                *old(self),
                *terrain,
                joint@.x,
                joint@.v,
                parent@.x,
                parent@.v,
            ).0,
            final(self).my_filtered@ == wheel_force_spec(
                *old(self),
                *terrain,
                joint@.x,
                joint@.v,
                parent@.x,
                parent@.v,
            ).1,
            *final(self) == (PointTire { my_filtered: final(self).my_filtered, ..*old(self) }),
    {
        proof {
            reveal(wheel_force_spec);
        }
        let x0i: crate::sva::Xform = joint.x.inverse();
        let v0: crate::sva::Motion = x0i.xform_motion(joint.v);
        let xp0: crate::sva::Xform = parent.x.inverse();
        let vp0: crate::sva::Motion = xp0.xform_motion(parent.v);
        let center_abs: Vec3 = xp0.transform_point(Vec3::zero());
        let lateral_abs: Vec3 = x0i.rotate(Vec3::unit_y());

        let n: usize = self.points.len();

        let mut active_points: Fx = Fx::zero();
        let mut i: usize = 0;
        while i < n
            invariant
                n == self.points@.len(),
                i <= n,
                terrain.wf(),
                x0i@ == joint@.x.inverse(),
                active_points@ == active_sum_upto(*self, *terrain, x0i@, i as nat),
            decreases n - i,
        {
            let point_abs: Vec3 = x0i.transform_point(self.points[i]);
            if let Some(contact) = terrain.interference(point_abs) {
                active_points = active_points.plus(self.activation(contact.magnitude));
            }
            i = i + 1;
        }

        let mut f_ext: Force = Force::zero();
        let mut i: usize = 0;
        while i < n
            invariant
                n == self.points@.len(),
                i <= n,
                terrain.wf(),
                x0i@ == joint@.x.inverse(),
                v0@ == x0i@.xform_motion(joint@.v),
                vp0@ == parent@.x.inverse().xform_motion(parent@.v),
                center_abs@ == parent@.x.inverse().transform_point(V3::zero()),
                lateral_abs@ == x0i@.rotate(V3 { x: 0, y: SCALE as int, z: 0 }),
                active_points@ == active_sum_upto(*self, *terrain, x0i@, n as nat),
                f_ext@ == force_sum_upto(
                    *self,
                    *terrain,
                    x0i@,
                    v0@,
                    vp0@,
                    center_abs@,
                    lateral_abs@,
                    active_points@,
                    i as nat,
                ),
            decreases n - i,
        {
            let point_abs: Vec3 = x0i.transform_point(self.points[i]);
            if let Some(contact) = terrain.interference(point_abs) {
                if let Some(f) = self.point_force(
                    &contact,
                    point_abs,
                    v0,
                    vp0,
                    center_abs,
                    lateral_abs,
                    active_points,
                ) {
                    f_ext = f_ext.plus(f);
                }
            }
            i = i + 1;
        }

        let f_parent: Force = parent.x.xform_force(f_ext);
        let one_minus: Fx = Fx::one().minus(self.filter_weight);
        let my: Fx = self.my_filtered.times(self.filter_weight).plus(
            f_parent.m.y.times(one_minus),
        );
        self.my_filtered = my;
        let filtered: Force = Force {
            f: f_parent.f,
            m: Vec3 { x: f_parent.m.x, y: my, z: f_parent.m.z },
        };
        parent.x.inverse().xform_force(filtered)
    }
}

/// Joint views and tire records after the first `k` wheels have applied
/// their contact forces, in order: each wheel adds its resultant force onto
/// its joint's `f_ext` and stores its new filter state.
#[verifier::opaque]
pub open spec fn tires_fold(
    joints: Seq<JointV>,
    tires: Seq<PointTire>,
    terrain: GridTerrain,
    k: nat,
) -> (Seq<JointV>, Seq<PointTire>)
    decreases k,
{
    if k == 0 {
        (joints, tires)
    } else {
        let prev = tires_fold(joints, tires, terrain, (k - 1) as nat);
        let t = prev.1[k - 1];
        let ji = t.joint_index as int;
        let pi = t.parent_index as int;
        let res = wheel_force_spec(
            t,
            terrain,
            prev.0[ji].x,
            prev.0[ji].v,
            prev.0[pi].x,
            prev.0[pi].v,
        );
        (
            prev.0.update(ji, JointV { f_ext: prev.0[ji].f_ext.plus(res.0), ..prev.0[ji] }),
            prev.1.update(k - 1, PointTire { my_filtered: Fx { m: res.1 as i64 }, ..t }),
        )
    }
}

/// Every wheel's joint and parent handle stays inside the arena.
pub open spec fn tires_wf(tires: Seq<PointTire>, n_joints: nat) -> bool {
    forall|i: int|
        0 <= i < tires.len() ==> (#[trigger] tires[i]).joint_index < n_joints && tires[i].parent_index
            < n_joints
}

/// Apply every wheel's terrain contact force onto its joint, updating each
/// wheel's aligning-moment filter state.
#[verifier::rlimit(60)]
pub fn point_tire_system(
    sys: &mut crate::structure::MultibodySystem,
    tires: &mut Vec<PointTire>,
    terrain: &GridTerrain,
)
    requires
        old(sys).wf(),
        terrain.wf(),
        tires_wf(old(tires)@, old(sys).views().len()),
    ensures
        final(sys).wf(),
        final(sys).parent@ == old(sys).parent@,
        final(tires)@.len() == old(tires)@.len(),
        tires_wf(final(tires)@, final(sys).views().len()),
        (final(sys).views(), final(tires)@) == tires_fold(
            old(sys).views(),
            old(tires)@,
            *terrain,
            old(tires)@.len(),
        ),
{
    let n: usize = tires.len();
    proof {
        reveal_with_fuel(tires_fold, 1);
    }
    let mut k: usize = 0;
    while k < n
        invariant
            sys.wf(),
            terrain.wf(),
            sys.parent@ == old(sys).parent@,
            sys.views().len() == old(sys).views().len(),
            n == tires@.len(),
            k <= n,
            tires_wf(tires@, sys.views().len()),
            (sys.views(), tires@) == tires_fold(
                old(sys).views(),
                old(tires)@,
                *terrain,
                k as nat,
            ),
        decreases n - k,
    {
        let ji: usize = tires[k].joint_index;
        let pi: usize = tires[k].parent_index;
        let joint: Joint = *sys.joint(ji);
        let parent: Joint = *sys.joint(pi);
        let ghost pre_tires = tires@;
        let tire_ref: &mut PointTire = &mut tires[k];
        let f: Force = tire_ref.wheel_contact_force(&joint, &parent, terrain);
        sys.add_f_ext(ji, f);
        proof {
            reveal_with_fuel(tires_fold, 2);
            let prev = tires_fold(old(sys).views(), old(tires)@, *terrain, k as nat);
            assert(tires@ =~= prev.1.update(
                k as int,
                PointTire {
                    my_filtered: tires@[k as int].my_filtered,
                    ..prev.1[k as int]
                },
            ));
            let res = wheel_force_spec(
                prev.1[k as int],
                *terrain,
                prev.0[ji as int].x,
                prev.0[ji as int].v,
                prev.0[pi as int].x,
                prev.0[pi as int].v,
            );
            assert(tires@[k as int].my_filtered.m as int == res.1);
            assert(tires@[k as int].my_filtered == (Fx { m: res.1 as i64 }));
            assert(tires_fold(old(sys).views(), old(tires)@, *terrain, (k + 1) as nat).1
                =~= tires@);
            assert(tires_fold(old(sys).views(), old(tires)@, *terrain, (k + 1) as nat).0
                =~= sys.views());
        }
        k = k + 1;
    }
}

/// Angle of the `i`-th circumferential slice: `i` accumulated increments.
pub open spec fn theta_at(d_theta: int, i: nat) -> int
    decreases i,
{
    if i == 0 {
        0
    } else {
        fadd(theta_at(d_theta, (i - 1) as nat), d_theta)
    }
}

/// Lateral offset of the `w`-th point across the width.
pub open spec fn y_at(y0: int, y_step: int, w: nat) -> int
    decreases w,
{
    if w == 0 {
        y0
    } else {
        fadd(y_at(y0, y_step, (w - 1) as nat), y_step)
    }
}

/// One sample point of the cloud: on the circle of the given radius, at a
/// slice angle staggered across the width.
pub open spec fn tire_point(
    radius: int,
    d_theta: int,
    y0: int,
    y_step: int,
    npw: nat,
    i: nat,
    w: nat,
) -> V3 {
    let tp = fadd(
        theta_at(d_theta, i),
        fmul(fdiv(crate::fx::sat(w * SCALE), crate::fx::sat(npw * SCALE)), d_theta),
    );
    V3 {
        x: fmul(radius, crate::trig::sin_spec(tp)),
        y: y_at(y0, y_step, w),
        z: fmul(radius, crate::trig::cos_spec(tp)),
    }
}

impl PointTire {
    /// A wheel with a freshly generated point cloud: `num_points_radius`
    /// circumferential slices, `num_points_width` points across the width,
    /// each row staggered by a fraction of the slice angle.
    pub fn new(
        joint_index: usize,
        parent_index: usize,
        stiffness: [Fx; 2],
        damping: Fx,
        coefficient_of_friction: Fx,
        normalized_slip_stiffness: Fx,
        rolling_radius: Fx,
        low_speed: Fx,
        radius: Fx,
        width: Fx,
        filter_weight: Fx,
        num_points_width: usize,
        num_points_radius: usize,
        activation_length: Fx,
    ) -> (r: PointTire)
        requires
            1 <= num_points_width,
            1 <= num_points_radius,
            num_points_width * num_points_radius <= 1_000_000,
        ensures
            r == (PointTire {
                joint_index,
                parent_index,
                points: r.points,
                stiffness,
                damping,
                coefficient_of_friction,
                normalized_slip_stiffness,
                rolling_radius,
                low_speed,
                filter_weight,
                my_filtered: Fx { m: 0 },
                activation_length,
            }),
            r.points@.len() == num_points_radius * num_points_width,
            forall|i: int, w: int|
                0 <= i < num_points_radius && 0 <= w < num_points_width
                    ==> (#[trigger] r.points@[i * num_points_width + w])@ == tire_point(
                    radius@,
                    fdiv(crate::trig::TWO_PI_FX as int, crate::fx::sat(num_points_radius * SCALE)),
                    point_row_origin(width@, num_points_width as nat),
                    point_row_step(width@, num_points_width as nat),
                    num_points_width as nat,
                    i as nat,
                    w as nat,
                ),
    {
        let npw: usize = num_points_width;
        let npr: usize = num_points_radius;
        let npr_fx: Fx = Fx::whole(npr as i64);
        proof {
            assert(npr <= 1_000_000) by (nonlinear_arith)
                requires
                    npw >= 1,
                    npw * npr <= 1_000_000,
                    npr >= 0,
            ;
            assert(npr as int * SCALE >= SCALE && npr as int * SCALE <= 1_000_000_000_000)
                by (nonlinear_arith)
                requires
                    1 <= npr <= 1_000_000,
            ;
        }
        let d_theta: Fx = Fx { m: crate::trig::TWO_PI_FX }.over(npr_fx);
        let half_width: Fx;
        let y_step: Fx;
        if npw == 1 {
            half_width = Fx::zero();
            y_step = Fx::zero();
        } else {
            let m1: usize = npw - 1;
            let denom: Fx = Fx::whole(m1 as i64);
            proof {
                assert(m1 as int == npw as int - 1);
                assert(npw <= 1_000_000) by (nonlinear_arith)
                    requires
                        npr >= 1,
                        npw * npr <= 1_000_000,
                        npw >= 0,
                ;
                assert(m1 as int * SCALE >= SCALE && m1 as int * SCALE <= 1_000_000_000_000)
                    by (nonlinear_arith)
                    requires
                        1 <= m1 <= 1_000_000,
                ;
                assert(denom@ >= SCALE);
            }
            y_step = width.over(denom);
            half_width = width.times(Fx { m: 500_000 });
        }
        let y0: Fx = half_width.neg();
        let ghost d_theta_g = d_theta@;
        let ghost y0_g = y0@;
        let ghost y_step_g = y_step@;

        let mut points: Vec<Vec3> = Vec::new();
        let mut theta: Fx = Fx::zero();
        let mut i: usize = 0;
        while i < npr
            invariant
                1 <= npw,
                1 <= npr,
                npw * npr <= 1_000_000,
                i <= npr,
                theta@ == theta_at(d_theta_g, i as nat),
                points@.len() == i * npw,
                y0_g == point_row_origin(width@, npw as nat),
                y_step_g == point_row_step(width@, npw as nat),
                d_theta@ == d_theta_g,
                y0@ == y0_g,
                y_step@ == y_step_g,
                forall|a: int, b: int|
                    0 <= a < i && 0 <= b < npw ==> (#[trigger] points@[a * npw + b])@ == tire_point(
                        radius@,
                        d_theta_g,
                        y0_g,
                        y_step_g,
                        npw as nat,
                        a as nat,
                        b as nat,
                    ),
            decreases npr - i,
        {
            proof {
                assert(i * npw + npw <= npr * npw) by (nonlinear_arith)
                    requires
                        i < npr,
                        npw >= 0,
                ;
                assert(npr * npw == npw * npr) by (nonlinear_arith);
            }
            let mut y_pos: Fx = y0;
            let mut w: usize = 0;
            while w < npw
                invariant
                    1 <= npw,
                    i < npr,
                    npw * npr <= 1_000_000,
                    i * npw + npw <= npw * npr,
                    w <= npw,
                    theta@ == theta_at(d_theta_g, i as nat),
                    y_pos@ == y_at(y0_g, y_step_g, w as nat),
                    points@.len() == i * npw + w,
                    d_theta@ == d_theta_g,
                    y0@ == y0_g,
                    y_step@ == y_step_g,
                    forall|a: int, b: int|
                        0 <= a < i && 0 <= b < npw ==> (#[trigger] points@[a * npw + b])@
                            == tire_point(
                            radius@,
                            d_theta_g,
                            y0_g,
                            y_step_g,
                            npw as nat,
                            a as nat,
                            b as nat,
                        ),
                    forall|b: int|
                        0 <= b < w ==> (#[trigger] points@[i * npw + b])@ == tire_point(
                            radius@,
                            d_theta_g,
                            y0_g,
                            y_step_g,
                            npw as nat,
                            i as nat,
                            b as nat,
                        ),
                decreases npw - w,
            {
                let frac: Fx = Fx::whole(w as i64).over(Fx::whole(npw as i64));
                let theta_point: Fx = theta.plus(frac.times(d_theta));
                let point: Vec3 = Vec3 {
                    x: radius.times(crate::trig::sin(theta_point)),
                    y: y_pos,
                    z: radius.times(crate::trig::cos(theta_point)),
                };
                let ghost pre = points@;
                points.push(point);
                proof {
                    assert forall|a: int, b: int| 0 <= a < i && 0 <= b < npw implies (
                    #[trigger] points@[a * npw + b])@ == tire_point(
                        radius@,
                        d_theta_g,
                        y0_g,
                        y_step_g,
                        npw as nat,
                        a as nat,
                        b as nat,
                    ) by {
                        assert(0 <= a * npw + b < i * npw + w) by (nonlinear_arith)
                            requires
                                0 <= a < i,
                                0 <= b < npw,
                                0 <= w,
                        ;
                        assert(points@[a * npw + b] == pre[a * npw + b]);
                    }
                    assert forall|b: int| 0 <= b < w + 1 implies (#[trigger] points@[i * npw + b])@
                        == tire_point(
                        radius@,
                        d_theta_g,
                        y0_g,
                        y_step_g,
                        npw as nat,
                        i as nat,
                        b as nat,
                    ) by {
                        if b < w {
                            assert(0 <= i * npw + b < i * npw + w) by (nonlinear_arith)
                                requires
                                    0 <= b < w,
                                    0 <= i,
                                    0 <= npw,
                            ;
                            assert(points@[i * npw + b] == pre[i * npw + b]);
                        } else {
                            assert(points@[i * npw + b] == point);
                        }
                    }
                }
                y_pos = y_pos.plus(y_step);
                w = w + 1;
            }
            theta = theta.plus(d_theta);
            proof {
                assert((i + 1) * npw == i * npw + npw) by (nonlinear_arith);
            }
            i = i + 1;
        }
        proof {
            assert(npr * npw == npw * npr) by (nonlinear_arith);
        }
        PointTire {
            joint_index,
            parent_index,
            points,
            stiffness,
            damping,
            coefficient_of_friction,
            normalized_slip_stiffness,
            rolling_radius,
            low_speed,
            filter_weight,
            my_filtered: Fx::zero(),
            activation_length,
        }
    }
}

/// Lateral coordinate of the first point of a row.
pub open spec fn point_row_origin(width: int, npw: nat) -> int {
    if npw == 1 {
        0
    } else {
        fneg(fmul(width, 500_000))
    }
}

/// Lateral spacing between adjacent points of a row.
pub open spec fn point_row_step(width: int, npw: nat) -> int {
    if npw == 1 {
        0
    } else {
        fdiv(width, crate::fx::sat((npw - 1) * SCALE))
    }
}

} // verus!
