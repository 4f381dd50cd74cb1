use car_dynamics::fx::Fx;
use car_dynamics::integrator::{SimTime, Simulation, Solver};
use car_dynamics::joint::{Joint, JointState};
use car_dynamics::linalg::{Mat3, Vec3};
use car_dynamics::physics::{CarControl, SuspensionComponent};
use car_dynamics::structure::{DynamicsError, MultibodySystem};
use car_dynamics::sva::{Inertia, Motion, Xform};
use car_dynamics::terrain::GridTerrain;

fn whole(n: i64) -> Fx {
    Fx::whole(n)
}

fn fx(m: i64) -> Fx {
    Fx::millionths(m)
}

fn no_control() -> CarControl {
    CarControl { throttle: Fx::zero(), steering: Fx::zero(), brake: Fx::zero() }
}

/// A single body free to translate along z, with gravity expressed as the
/// base's fixed upward acceleration.
fn free_fall_system(mass: Fx, g: Fx) -> MultibodySystem {
    let mut sys = MultibodySystem::new();
    let base = sys.add_base(Motion::new(Vec3::new(Fx::zero(), Fx::zero(), g), Vec3::zero()));
    let body = Inertia::new(mass, Vec3::zero(), Mat3::zero());
    sys.add_joint(base, Joint::pz(body, Xform::identity()));
    sys
}

fn bare_simulation(sys: MultibodySystem, dt: Fx, solver: Solver) -> Simulation {
    let mut sim = Simulation {
        system: sys,
        terrain: GridTerrain::new(Vec::new(), [whole(1), whole(1)]),
        suspensions: Vec::new(),
        steerings: Vec::new(),
        steering_curvatures: Vec::new(),
        driven_wheels: Vec::new(),
        driven_wheel_lookups: Vec::new(),
        brakes: Vec::new(),
        tires: Vec::new(),
        time: SimTime::new(dt, Fx::zero(), None),
        solver,
        states: Vec::new(),
    };
    sim.initialize_state();
    sim
}

#[test]
fn free_fall_euler_velocity_is_g_dt_exactly() {
    // mass 2, g = 9.81 downward, dt = 0.01: after one Euler step
    // qd == -9.81 * 0.01 == -0.0981 to the last millionth
    let sys = free_fall_system(whole(2), fx(9_810_000));
    let mut sim = bare_simulation(sys, fx(10_000), Solver::Euler);
    sim.step(&no_control()).unwrap();
    assert_eq!(sim.states[1].qd.m, -98_100);
    assert_eq!(sim.states[1].q.m, 0);
    sim.step(&no_control()).unwrap();
    assert_eq!(sim.states[1].qd.m, -196_200);
    assert_eq!(sim.states[1].q.m, -981);
}

#[test]
fn forward_dynamics_passes_are_idempotent() {
    let mut sys = free_fall_system(whole(2), fx(9_810_000));
    sys.joints[1].qd = fx(250_000);
    sys.loop_1();
    sys.apply_external_forces();
    sys.loop_23().unwrap();
    let qdd_first = sys.joints[1].qdd;
    let a_first = sys.joints[1].a;
    sys.loop_1();
    sys.apply_external_forces();
    sys.loop_23().unwrap();
    assert_eq!(sys.joints[1].qdd, qdd_first);
    assert_eq!(sys.joints[1].a, a_first);
}

#[test]
fn zero_mass_joint_is_a_degenerate_configuration() {
    let sys = free_fall_system(whole(0), fx(9_810_000));
    let mut sim = bare_simulation(sys, fx(10_000), Solver::Euler);
    assert_eq!(sim.step(&no_control()), Err(DynamicsError::DegenerateInertia));
}

/// A spring-damper on a translational joint, no gravity.
fn spring_system(k: Fx, c: Fx, mass: Fx, q0: Fx) -> Simulation {
    let mut sys = MultibodySystem::new();
    let base = sys.add_base(Motion::zero());
    let body = Inertia::new(mass, Vec3::zero(), Mat3::zero());
    let j = sys.add_joint(base, Joint::pz(body, Xform::identity()));
    sys.joints[j].q = q0;
    let mut sim = bare_simulation(sys, fx(10_000), Solver::RK4);
    sim.suspensions.push(SuspensionComponent::new(j, k, c, Fx::zero()));
    sim.initialize_state();
    sim
}

#[test]
fn spring_damper_rk4_tracks_the_closed_form() {
    // k = 4, c = 0.4, m = 1, released from q = 1: underdamped oscillation
    let k = 4.0_f64;
    let c = 0.4_f64;
    let m = 1.0_f64;
    let mut sim = spring_system(whole(4), fx(400_000), whole(1), whole(1));
    let dt = 0.01_f64;
    let steps = 314; // about one period of the undamped oscillator
    for _ in 0..steps {
        sim.step(&no_control()).unwrap();
    }
    let t = steps as f64 * dt;
    let omega = (k / m).sqrt();
    let zeta = c / (2.0 * (k * m).sqrt());
    let omega_d = omega * (1.0 - zeta * zeta).sqrt();
    let exact = (-zeta * omega * t).exp()
        * ((omega_d * t).cos() + zeta * omega / omega_d * (omega_d * t).sin());
    let got = sim.states[1].q.m as f64 / 1.0e6;
    assert!(
        (got - exact).abs() < 2.0e-3,
        "rk4 {} vs closed form {}",
        got,
        exact
    );
}

#[test]
fn rk4_is_no_worse_than_euler_on_the_oscillator() {
    let k = 4.0_f64;
    let c = 0.4_f64;
    let m = 1.0_f64;
    let dt = 0.01_f64;
    let steps = 157;
    let t = steps as f64 * dt;
    let omega = (k / m).sqrt();
    let zeta = c / (2.0 * (k * m).sqrt());
    let omega_d = omega * (1.0 - zeta * zeta).sqrt();
    let exact = (-zeta * omega * t).exp()
        * ((omega_d * t).cos() + zeta * omega / omega_d * (omega_d * t).sin());

    let mut rk4 = spring_system(whole(4), fx(400_000), whole(1), whole(1));
    let mut euler = spring_system(whole(4), fx(400_000), whole(1), whole(1));
    euler.solver = Solver::Euler;
    for _ in 0..steps {
        rk4.step(&no_control()).unwrap();
        euler.step(&no_control()).unwrap();
    }
    let err_rk4 = (rk4.states[1].q.m as f64 / 1.0e6 - exact).abs();
    let err_euler = (euler.states[1].q.m as f64 / 1.0e6 - exact).abs();
    assert!(err_rk4 <= err_euler + 1.0e-4, "rk4 {} euler {}", err_rk4, err_euler);
}

#[test]
fn heun_and_midpoint_agree_with_rk4_to_first_order() {
    let mut heun = spring_system(whole(4), fx(400_000), whole(1), whole(1));
    heun.solver = Solver::Heun;
    let mut mid = spring_system(whole(4), fx(400_000), whole(1), whole(1));
    mid.solver = Solver::Midpoint;
    let mut rk4 = spring_system(whole(4), fx(400_000), whole(1), whole(1));
    for _ in 0..50 {
        heun.step(&no_control()).unwrap();
        mid.step(&no_control()).unwrap();
        rk4.step(&no_control()).unwrap();
    }
    let qh = heun.states[1].q.m as f64 / 1.0e6;
    let qm = mid.states[1].q.m as f64 / 1.0e6;
    let qr = rk4.states[1].q.m as f64 / 1.0e6;
    assert!((qh - qr).abs() < 1.0e-3);
    assert!((qm - qr).abs() < 1.0e-3);
}

#[test]
fn integrate_joint_state_advances_each_pair() {
    let mut sys = free_fall_system(whole(1), Fx::zero());
    sys.joints[1].qd = whole(2);
    sys.joints[1].qdd = whole(4);
    sys.integrate_joint_state(fx(500_000));
    assert_eq!(sys.joints[1].q, whole(1));
    assert_eq!(sys.joints[1].qd, whole(4));
}

#[test]
fn sim_time_counts_steps_and_detects_the_end() {
    let mut t = SimTime::new(fx(10_000), Fx::zero(), Some(fx(25_000)));
    assert!(!t.is_complete());
    t.increment();
    t.increment();
    assert!(!t.is_complete());
    assert_eq!(t.time().m, 20_000);
    t.increment();
    assert!(t.is_complete());
    t.reset();
    assert!(!t.is_complete());
}

#[test]
fn joint_state_algebra_is_componentwise() {
    let a = JointState::new(whole(1), whole(2));
    let b = JointState::new(whole(3), whole(5));
    let s = a.plus(b);
    assert_eq!(s.q, whole(4));
    assert_eq!(s.qd, whole(7));
    let h = s.scale(fx(500_000));
    assert_eq!(h.q, whole(2));
    assert_eq!(h.qd, fx(3_500_000));
}
