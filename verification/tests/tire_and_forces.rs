use car_dynamics::fx::Fx;
use car_dynamics::interp::Interpolator1D;
use car_dynamics::joint::Joint;
use car_dynamics::linalg::{Mat3, Vec3};
use car_dynamics::physics::{
    brake_wheel_system, driven_wheel_system, steering_system, suspension_system, BrakeWheel,
    CarControl, DrivenWheel, DrivenWheelLookup, Steering, SuspensionComponent,
};
use car_dynamics::structure::MultibodySystem;
use car_dynamics::sva::{Inertia, Motion, Xform};
use car_dynamics::terrain::GridTerrain;
use car_dynamics::tire::PointTire;

fn whole(n: i64) -> Fx {
    Fx::whole(n)
}

fn fx(m: i64) -> Fx {
    Fx::millionths(m)
}

fn control(throttle: Fx, steering: Fx, brake: Fx) -> CarControl {
    CarControl { throttle, steering, brake }
}

/// Base, an axle sliding along x at height `center_z`, and a wheel spinning
/// about y co-located with the axle (as a vehicle upright carries its wheel).
fn wheel_rig(center_z: Fx, chassis_speed: Fx, wheel_speed: Fx) -> MultibodySystem {
    let mut sys = MultibodySystem::new();
    let base = sys.add_base(Motion::zero());
    let unit = Inertia::new(whole(1), Vec3::zero(), Mat3::identity());
    let chassis = sys.add_joint(
        base,
        Joint::px(unit, Xform::new(Vec3::new(Fx::zero(), Fx::zero(), center_z), Mat3::identity())),
    );
    let wheel = sys.add_joint(chassis, Joint::ry(unit, Xform::identity()));
    sys.joints[chassis].qd = chassis_speed;
    sys.joints[wheel].qd = wheel_speed;
    sys.loop_1();
    sys
}

fn test_tire() -> PointTire {
    PointTire::new(
        2,
        1,
        [whole(100_000), Fx::zero()],
        Fx::zero(),
        whole(1),
        whole(10),
        fx(300_000),
        fx(100_000),
        fx(300_000),
        fx(200_000),
        Fx::zero(),
        1,
        36,
        fx(10_000),
    )
}

#[test]
fn tire_cloud_has_one_point_per_slice_and_row() {
    let tire = test_tire();
    assert_eq!(tire.points.len(), 36);
    // every point sits on the circle of the tire radius in the x-z plane
    for p in tire.points.iter() {
        assert_eq!(p.y.m, 0);
        let rr = (p.x.m as f64).hypot(p.z.m as f64) / 1.0e6;
        assert!((rr - 0.3).abs() < 1.0e-3, "radius {}", rr);
    }
}

#[test]
fn resting_wheel_feels_an_upward_normal_force() {
    let mut sys = wheel_rig(fx(290_000), Fx::zero(), Fx::zero());
    let terrain = GridTerrain::new(Vec::new(), [whole(1), whole(1)]);
    let mut tire = test_tire();
    let joint = sys.joints[2];
    let parent = sys.joints[1];
    let f = tire.wheel_contact_force(&joint, &parent, &terrain);
    assert!(f.f.z.m > 0, "normal force {:?}", f.f);
    assert_eq!(f.f.x.m, 0);
    let _ = &mut sys;
}

#[test]
fn braking_slip_gives_a_rearward_friction_force() {
    // chassis moves +5 along x; the wheel spins too slowly to keep up, so
    // the contact patch slides forward and friction pulls the wheel back
    let sys = wheel_rig(fx(290_000), whole(5), whole(10));
    let terrain = GridTerrain::new(Vec::new(), [whole(1), whole(1)]);
    let mut tire = test_tire();
    let f = tire.wheel_contact_force(&sys.joints[2], &sys.joints[1], &terrain);
    assert!(f.f.z.m > 0, "normal force {:?}", f.f);
    assert!(f.f.x.m < 0, "longitudinal force {:?}", f.f);
}

#[test]
fn driving_slip_gives_a_forward_friction_force() {
    // wheel spins much faster than the chassis moves: traction pushes it on
    let sys = wheel_rig(fx(290_000), whole(5), whole(30));
    let terrain = GridTerrain::new(Vec::new(), [whole(1), whole(1)]);
    let mut tire = test_tire();
    let f = tire.wheel_contact_force(&sys.joints[2], &sys.joints[1], &terrain);
    assert!(f.f.z.m > 0);
    assert!(f.f.x.m > 0, "longitudinal force {:?}", f.f);
}

#[test]
fn aligning_moment_filter_smooths_across_steps() {
    let sys = wheel_rig(fx(290_000), whole(5), whole(10));
    let terrain = GridTerrain::new(Vec::new(), [whole(1), whole(1)]);
    let mut tire = test_tire();
    tire.filter_weight = fx(500_000);
    let f1 = tire.wheel_contact_force(&sys.joints[2], &sys.joints[1], &terrain);
    let after_one = tire.my_filtered;
    let f2 = tire.wheel_contact_force(&sys.joints[2], &sys.joints[1], &terrain);
    // with weight one half, the second filtered value moves halfway again
    assert_ne!(after_one, tire.my_filtered);
    let _ = (f1, f2);
}

#[test]
fn suspension_pulls_back_against_displacement() {
    let mut sys = MultibodySystem::new();
    let base = sys.add_base(Motion::zero());
    let j = sys.add_joint(
        base,
        Joint::pz(Inertia::new(whole(1), Vec3::zero(), Mat3::zero()), Xform::identity()),
    );
    sys.joints[j].q = fx(100_000);
    sys.joints[j].qd = fx(-50_000);
    let susp = SuspensionComponent::new(j, whole(10), whole(2), fx(300_000));
    suspension_system(&mut sys, &susp);
    // tau = -(10 * 0.1 + 2 * -0.05 + 0.3) = -1.2
    assert_eq!(sys.joints[j].tau.m, -1_200_000);
}

#[test]
fn steering_sets_the_joint_angle_from_the_input() {
    let mut sys = MultibodySystem::new();
    let base = sys.add_base(Motion::zero());
    let j = sys.add_joint(
        base,
        Joint::rz(Inertia::new(whole(1), Vec3::zero(), Mat3::identity()), Xform::identity()),
    );
    let steering = Steering::new(j, fx(500_000));
    steering_system(&mut sys, &steering, &control(Fx::zero(), fx(-400_000), Fx::zero()));
    assert_eq!(sys.joints[j].q.m, -200_000);
}

#[test]
fn driven_wheel_respects_torque_speed_and_power_limits() {
    let mut sys = MultibodySystem::new();
    let base = sys.add_base(Motion::zero());
    let j = sys.add_joint(
        base,
        Joint::ry(Inertia::new(whole(1), Vec3::zero(), Mat3::identity()), Xform::identity()),
    );
    let dw = DrivenWheel::new(j, whole(100), whole(50), whole(400));
    // slow: torque-limited
    sys.joints[j].qd = whole(2);
    driven_wheel_system(&mut sys, &dw, &control(whole(1), Fx::zero(), Fx::zero()));
    assert_eq!(sys.joints[j].tau, whole(100));
    // fast: power-limited to 400/8 = 50
    sys.joints[j].tau = Fx::zero();
    sys.joints[j].qd = whole(8);
    driven_wheel_system(&mut sys, &dw, &control(whole(1), Fx::zero(), Fx::zero()));
    assert_eq!(sys.joints[j].tau, whole(50));
    // beyond the speed limit: nothing
    sys.joints[j].tau = Fx::zero();
    sys.joints[j].qd = whole(60);
    driven_wheel_system(&mut sys, &dw, &control(whole(1), Fx::zero(), Fx::zero()));
    assert_eq!(sys.joints[j].tau, Fx::zero());
}

#[test]
fn brake_torque_opposes_the_spin_direction() {
    let mut sys = MultibodySystem::new();
    let base = sys.add_base(Motion::zero());
    let j = sys.add_joint(
        base,
        Joint::ry(Inertia::new(whole(1), Vec3::zero(), Mat3::identity()), Xform::identity()),
    );
    let brake = BrakeWheel::new(j, whole(30));
    sys.joints[j].qd = whole(5);
    brake_wheel_system(&mut sys, &brake, &control(Fx::zero(), Fx::zero(), whole(1)));
    assert_eq!(sys.joints[j].tau, whole(-30));
    sys.joints[j].tau = Fx::zero();
    sys.joints[j].qd = fx(-500_000);
    brake_wheel_system(&mut sys, &brake, &control(Fx::zero(), Fx::zero(), whole(1)));
    assert_eq!(sys.joints[j].tau, whole(15));
}

#[test]
fn interpolator_is_linear_between_samples_and_clamped_outside() {
    let table = Interpolator1D::new(
        vec![whole(0), whole(1), whole(3)],
        vec![whole(0), whole(10), whole(30)],
    );
    assert_eq!(table.interpolate(fx(500_000)), whole(5));
    assert_eq!(table.interpolate(whole(2)), whole(20));
    assert_eq!(table.interpolate(whole(-7)), whole(0));
    assert_eq!(table.interpolate(whole(9)), whole(30));
}

#[test]
fn lookup_driven_wheel_signs_and_limits_its_torque() {
    let dw = DrivenWheelLookup::new(
        0,
        vec![whole(0), whole(10), whole(20)],
        vec![whole(100), whole(80), whole(40)],
    );
    assert_eq!(dw.limit_torque(whole(5)), whole(90));
    assert_eq!(dw.limit_torque(whole(-5)), whole(-90));
    // beyond max speed: zero
    assert_eq!(dw.limit_torque(whole(25)), Fx::zero());
    // exactly at max speed: constant power 40*20/20
    assert_eq!(dw.limit_torque(whole(20)), whole(40));
}
