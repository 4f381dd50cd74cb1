//! Fixed-step explicit integration of the whole simulation.
//!
//! A [`Simulation`] owns the joint tree, the terrain, the force
//! contributors and the integrator state: one `(q, qd)` pair per joint.
//! One derivative evaluation writes a trial state into every joint, runs
//! the outward kinematics pass, lets every contributor add its forces,
//! folds external forces and runs the inward and acceleration passes, and
//! reads back `(qd, qdd)`.  The four schemes (Euler, Heun, midpoint,
//! classical fourth-order Runge-Kutta) combine one, two or four such
//! evaluations with the standard Butcher coefficients.  Everything is
//! specified exactly: [`eval_spec`] replays one evaluation over the ghost
//! views, and each scheme's contract composes it.

use vstd::prelude::*;

use crate::fx::{fadd, fdiv, fmul, Fx, SCALE};
use crate::joint::{JointState, JointStateV, JointV};
use crate::physics::{
    brake_torque, brake_wheel_system, curvature_angle, driven_wheel_lookup_system,
    driven_wheel_system, driven_wheel_torque, lookup_limit_torque, steering_curvature_system,
    steering_system, suspension_system, suspension_torque, BrakeWheel, CarControl, DrivenWheel,
    DrivenWheelLookup, Steering, SteeringCurvature, SuspensionComponent,
};
use crate::structure::{
    distribute_spec, ext_upto, pass1_upto, pass2_ok_upto, pass2_upto, pass3_ok_upto, pass3_upto,
    DynamicsError, MultibodySystem,
};
use crate::terrain::GridTerrain;
use crate::tire::{tires_fold, tires_wf, PointTire};

verus! {

/// The four explicit integration schemes.
#[derive(Clone, Copy, Debug, PartialEq, Eq, Structural)]
pub enum Solver {
    Euler,
    Heun,
    Midpoint,
    RK4,
}

/// The simulation clock: a fixed step, a step counter, and an optional end.
#[derive(Clone, Copy, Debug, PartialEq, Eq, Structural)]
pub struct SimTime {
    pub dt: Fx,
    pub index: usize,
    pub start_time: Fx,
    pub end_time: Option<Fx>,
}

/// The clock's current time: the start plus the elapsed whole steps.
pub open spec fn time_spec(t: SimTime) -> int {
    fadd(t.start_time@, fmul(crate::fx::sat(t.index * SCALE), t.dt@))
}

impl SimTime {
    /// A clock with the given step size, start, and optional end.
    pub fn new(dt: Fx, start_time: Fx, end_time: Option<Fx>) -> (r: SimTime)
        ensures
            r == (SimTime { dt, index: 0, start_time, end_time }),
    {
        SimTime { dt, index: 0, start_time, end_time }
    }

    /// The current time.
    pub fn time(&self) -> (r: Fx)
        requires
            self.index <= 0x7fffffffffffffff,
        ensures
            r@ == time_spec(*self),
    {
        self.start_time.plus(Fx::whole(self.index as i64).times(self.dt))
    }

    /// Count one more step.
    pub fn increment(&mut self)
        requires
            old(self).index < usize::MAX,
        ensures
            final(self).index == old(self).index + 1,
            *final(self) == (SimTime { index: final(self).index, ..*old(self) }),
    {
        self.index = self.index + 1;
    }

    /// Whether the clock has passed its end time.
    pub fn is_complete(&self) -> (r: bool)
        requires
            self.index <= 0x7fffffffffffffff,
        ensures
            r == match self.end_time {
                Some(end) => time_spec(*self) > end@,
                None => false,
            },
    {
        match self.end_time {
            Some(end) => end.lt(self.time()),
            None => false,
        }
    }

    /// Rewind the step counter.
    pub fn reset(&mut self)
        ensures
            *final(self) == (SimTime { index: 0, ..*old(self) }),
    {
        self.index = 0;
    }
}

/// Pointwise sum of two integrator states.
pub open spec fn states_add(a: Seq<JointState>, b: Seq<JointState>) -> Seq<JointState> {
    Seq::new(
        a.len(),
        |i: int|
            JointState {
                q: Fx { m: fadd(a[i].q@, b[i].q@) as i64 },
                qd: Fx { m: fadd(a[i].qd@, b[i].qd@) as i64 },
            },
    )
}

/// Pointwise scaling of an integrator state.
pub open spec fn states_scale(a: Seq<JointState>, s: int) -> Seq<JointState> {
    Seq::new(
        a.len(),
        |i: int|
            JointState {
                q: Fx { m: fmul(a[i].q@, s) as i64 },
                qd: Fx { m: fmul(a[i].qd@, s) as i64 },
            },
    )
}

/// Pointwise sum of two integrator states.
pub fn add_states(a: &Vec<JointState>, b: &Vec<JointState>) -> (r: Vec<JointState>)
    requires
        a@.len() == b@.len(),
    ensures
        r@ == states_add(a@, b@),
{
    let n: usize = a.len();
    let mut r: Vec<JointState> = Vec::new();
    let mut i: usize = 0;
    while i < n
        invariant
            n == a@.len(),
            n == b@.len(),
            i <= n,
            r@.len() == i,
            forall|k: int| 0 <= k < i ==> r@[k] == states_add(a@, b@)[k],
        decreases n - i,
    {
        r.push(a[i].plus(b[i]));
        i = i + 1;
    }
    proof {
        assert(r@ =~= states_add(a@, b@));
    }
    r
}

/// Pointwise scaling of an integrator state.
pub fn scale_states(a: &Vec<JointState>, s: Fx) -> (r: Vec<JointState>)
    ensures
        r@ == states_scale(a@, s@),
{
    let n: usize = a.len();
    let mut r: Vec<JointState> = Vec::new();
    let mut i: usize = 0;
    while i < n
        invariant
            n == a@.len(),
            i <= n,
            r@.len() == i,
            forall|k: int| 0 <= k < i ==> r@[k] == states_scale(a@, s@)[k],
        decreases n - i,
    {
        r.push(a[i].scale(s));
        i = i + 1;
    }
    proof {
        assert(r@ =~= states_scale(a@, s@));
    }
    r
}

/// Joint views after the suspension list has applied its first `k` torques.
#[verifier::opaque]
pub open spec fn suspensions_fold(
    s: Seq<JointV>,
    list: Seq<SuspensionComponent>,
    k: nat,
) -> Seq<JointV>
    decreases k,
{
    if k == 0 {
        s
    } else {
        let t = suspensions_fold(s, list, (k - 1) as nat);
        let c = list[k - 1];
        let i = c.joint_index as int;
        t.update(
            i,
            JointV {
                tau: fadd(
                    t[i].tau,
                    suspension_torque(c.stiffness@, c.damping@, c.preload@, t[i].q, t[i].qd),
                ),
                ..t[i]
            },
        )
    }
}

/// Joint views after the first `k` direct steering elements have set their
/// joints.
#[verifier::opaque]
pub open spec fn steerings_fold(
    s: Seq<JointV>,
    list: Seq<Steering>,
    steering: int,
    k: nat,
) -> Seq<JointV>
    decreases k,
{
    if k == 0 {
        s
    } else {
        let t = steerings_fold(s, list, steering, (k - 1) as nat);
        let c = list[k - 1];
        let i = c.joint_index as int;
        t.update(i, JointV { q: fmul(steering, c.max_angle@), ..t[i] })
    }
}

/// Joint views after the first `k` curvature steering elements have set
/// their joints.
#[verifier::opaque]
pub open spec fn curvatures_fold(
    s: Seq<JointV>,
    list: Seq<SteeringCurvature>,
    steering: int,
    k: nat,
) -> Seq<JointV>
    decreases k,
{
    if k == 0 {
        s
    } else {
        let t = curvatures_fold(s, list, steering, (k - 1) as nat);
        let c = list[k - 1];
        let i = c.joint_index as int;
        match curvature_angle(c, steering) {
            Some(q) => t.update(i, JointV { q, ..t[i] }),
            None => t,
        }
    }
}

/// Joint views after the first `k` driven wheels have applied their
/// torques.
#[verifier::opaque]
pub open spec fn drivens_fold(
    s: Seq<JointV>,
    list: Seq<DrivenWheel>,
    throttle: int,
    k: nat,
) -> Seq<JointV>
    decreases k,
{
    if k == 0 {
        s
    } else {
        let t = drivens_fold(s, list, throttle, (k - 1) as nat);
        let c = list[k - 1];
        let i = c.joint_index as int;
        t.update(
            i,
            JointV { tau: fadd(t[i].tau, driven_wheel_torque(c, throttle, t[i].qd)), ..t[i] },
        )
    }
}

/// Joint views after the first `k` lookup-driven wheels have applied their
/// torques.
#[verifier::opaque]
pub open spec fn lookups_fold(
    s: Seq<JointV>,
    list: Seq<DrivenWheelLookup>,
    throttle: int,
    k: nat,
) -> Seq<JointV>
    decreases k,
{
    if k == 0 {
        s
    } else {
        let t = lookups_fold(s, list, throttle, (k - 1) as nat);
        let c = list[k - 1];
        let i = c.joint_index as int;
        t.update(
            i,
            JointV {
                tau: fadd(
                    t[i].tau,
                    fmul(throttle, crate::fx::fabs(lookup_limit_torque(c, t[i].qd))),
                ),
                ..t[i]
            },
        )
    }
}

/// Joint views after the first `k` brakes have applied their torques.
#[verifier::opaque]
pub open spec fn brakes_fold(s: Seq<JointV>, list: Seq<BrakeWheel>, brake: int, k: nat) -> Seq<
    JointV,
>
    decreases k,
{
    if k == 0 {
        s
    } else {
        let t = brakes_fold(s, list, brake, (k - 1) as nat);
        let c = list[k - 1];
        let i = c.joint_index as int;
        t.update(i, JointV { tau: fadd(t[i].tau, brake_torque(c, brake, t[i].qd)), ..t[i] })
    }
}

/// The whole simulation: tree, terrain, contributors, clock, and the
/// integrator state the schemes advance.
pub struct Simulation {
    pub system: MultibodySystem,
    pub terrain: GridTerrain,
    pub suspensions: Vec<SuspensionComponent>,
    pub steerings: Vec<Steering>,
    pub steering_curvatures: Vec<SteeringCurvature>,
    pub driven_wheels: Vec<DrivenWheel>,
    pub driven_wheel_lookups: Vec<DrivenWheelLookup>,
    pub brakes: Vec<BrakeWheel>,
    pub tires: Vec<PointTire>,
    pub time: SimTime,
    pub solver: Solver,
    pub states: Vec<JointState>,
}

/// Trial state written into every joint, accumulators cleared.
pub open spec fn eval_distribute(joints: Seq<JointV>, states: Seq<JointState>) -> Seq<JointV> {
    Seq::new(joints.len(), |i: int| distribute_spec(joints[i], states[i]@))
}

/// Both steering passes applied, direct then curvature.
pub open spec fn eval_steer(sim: Simulation, j: Seq<JointV>, control: CarControl) -> Seq<JointV> {
    curvatures_fold(
        steerings_fold(j, sim.steerings@, control.steering@, sim.steerings@.len()),
        sim.steering_curvatures@,
        control.steering@,
        sim.steering_curvatures@.len(),
    )
}

/// Every force contributor applied: suspensions, tire contacts, lookup
/// drives, plain drives, brakes.
pub open spec fn eval_forces(
    sim: Simulation,
    j: Seq<JointV>,
    tires: Seq<PointTire>,
    control: CarControl,
) -> (Seq<JointV>, Seq<PointTire>) {
    let e1 = suspensions_fold(j, sim.suspensions@, sim.suspensions@.len());
    let f = tires_fold(e1, tires, sim.terrain, tires.len());
    let e3 = lookups_fold(
        f.0,
        sim.driven_wheel_lookups@,
        control.throttle@,
        sim.driven_wheel_lookups@.len(),
    );
    let e4 = drivens_fold(e3, sim.driven_wheels@, control.throttle@, sim.driven_wheels@.len());
    (brakes_fold(e4, sim.brakes@, control.brake@, sim.brakes@.len()), f.1)
}

/// The external-force fold and the two solving passes, with their success
/// condition.
pub open spec fn eval_solve(j: Seq<JointV>, par: Seq<usize>) -> (Seq<JointV>, bool) {
    let x1 = ext_upto(j, par, j.len());
    let ok = pass2_ok_upto(x1, par, x1.len()) && pass3_ok_upto(
        pass2_upto(x1, par, x1.len()),
        par,
        x1.len(),
    );
    (pass3_upto(pass2_upto(x1, par, x1.len()), par, x1.len()), ok)
}

/// The derivative read back from solved joints.
pub open spec fn eval_dstates(j: Seq<JointV>) -> Seq<JointState> {
    Seq::new(
        j.len(),
        |i: int| JointState { q: Fx { m: j[i].qd as i64 }, qd: Fx { m: j[i].qdd as i64 } },
    )
}

/// One derivative evaluation over the ghost views: the joint views and
/// tire records after the passes, whether the solve succeeded, and the
/// state derivative read back.
#[verifier::opaque]
pub open spec fn eval_spec(
    sim: Simulation,
    joints: Seq<JointV>,
    tires: Seq<PointTire>,
    states: Seq<JointState>,
    control: CarControl,
) -> (Seq<JointV>, Seq<PointTire>, bool, Seq<JointState>) {
    let par = sim.system.parent@;
    let d = eval_distribute(joints, states);
    let st = eval_steer(sim, d, control);
    let p1 = pass1_upto(st, par, st.len());
    let f = eval_forces(sim, p1, tires, control);
    let solved = eval_solve(f.0, par);
    (solved.0, f.1, solved.1, eval_dstates(solved.0))
}

impl Simulation {
    /// Well-formedness: tree and terrain sound, every contributor and tire
    /// handle inside the arena, lookup tables sorted, one state pair per
    /// joint.
    pub open spec fn wf(self) -> bool {
        &&& self.system.wf()
        &&& self.terrain.wf()
        &&& self.states@.len() == self.system.views().len()
        &&& tires_wf(self.tires@, self.system.views().len())
        &&& forall|i: int|
            0 <= i < self.suspensions@.len() ==> (#[trigger] self.suspensions@[i]).joint_index
                < self.system.views().len()
        &&& forall|i: int|
            0 <= i < self.steerings@.len() ==> (#[trigger] self.steerings@[i]).joint_index
                < self.system.views().len()
        &&& forall|i: int|
            0 <= i < self.steering_curvatures@.len() ==> (
            #[trigger] self.steering_curvatures@[i]).joint_index < self.system.views().len()
        &&& forall|i: int|
            0 <= i < self.driven_wheels@.len() ==> (#[trigger] self.driven_wheels@[i]).joint_index
                < self.system.views().len()
        &&& forall|i: int|
            0 <= i < self.driven_wheel_lookups@.len() ==> (
            #[trigger] self.driven_wheel_lookups@[i]).joint_index < self.system.views().len() && self.driven_wheel_lookups@[i].wf()
        &&& forall|i: int|
            0 <= i < self.brakes@.len() ==> (#[trigger] self.brakes@[i]).joint_index
                < self.system.views().len()
    }

    /// The configuration (everything but joints, tires and states) is the
    /// same in two snapshots.
    pub open spec fn same_config(self, o: Simulation) -> bool {
        &&& self.system.parent@ == o.system.parent@
        &&& self.terrain == o.terrain
        &&& self.suspensions@ == o.suspensions@
        &&& self.steerings@ == o.steerings@
        &&& self.steering_curvatures@ == o.steering_curvatures@
        &&& self.driven_wheels@ == o.driven_wheels@
        &&& self.driven_wheel_lookups@ == o.driven_wheel_lookups@
        &&& self.brakes@ == o.brakes@
        &&& self.solver == o.solver
    }

    /// Load the integrator state from the joints as built.
    pub fn initialize_state(&mut self)
        requires
            old(self).wf(),
        ensures
            final(self).wf(),
            *final(self) == (Simulation { states: final(self).states, ..*old(self) }),
            final(self).states@.len() == old(self).system.views().len(),
            forall|i: int|
                0 <= i < old(self).system.views().len() ==> (#[trigger] final(self).states@[i])@
                    == (JointStateV {
                    q: old(self).system.views()[i].q,
                    qd: old(self).system.views()[i].qd,
                }),
    {
        let s: Vec<JointState> = self.system.get_states();
        self.states = s;
    }

    /// Apply both steering passes to the joints.
    fn apply_steering(&mut self, control: &CarControl)
        requires
            old(self).wf(),
        ensures
            final(self).wf(),
            final(self).same_config(*old(self)),
            final(self).terrain == old(self).terrain,
            final(self).time == old(self).time,
            final(self).states@ == old(self).states@,
            final(self).tires@ == old(self).tires@,
            final(self).system.views() == eval_steer(
                *old(self),
                old(self).system.views(),
                *control,
            ),
    {
        let ghost sim0 = *old(self);
        let ghost par = self.system.parent@;
        let n: usize = self.system.len();
        let ghost s_start = self.system.views();
        proof {
            reveal_with_fuel(steerings_fold, 1);
            reveal_with_fuel(curvatures_fold, 1);
        }
        let m: usize = self.steerings.len();
        let mut k: usize = 0;
        while k < m
            invariant
                self.system.wf(),
                self.system.parent@ == par,
                self.system.views().len() == n as nat,
                m == self.steerings@.len(),
                self.same_config(sim0),
                self.terrain == sim0.terrain,
                self.time == sim0.time,
                self.states@ == sim0.states@,
                self.tires@ == sim0.tires@,
                k <= m,
                forall|i: int| 0 <= i < m ==> (#[trigger] self.steerings@[i]).joint_index < n,
                self.system.views() == steerings_fold(
                    s_start,
                    self.steerings@,
                    control.steering@,
                    k as nat,
                ),
            decreases m - k,
        {
            let c: Steering = self.steerings[k];
            steering_system(&mut self.system, &c, control);
            proof {
                reveal_with_fuel(steerings_fold, 2);
            }
            k = k + 1;
        }

        let ghost s_cv = self.system.views();
        let m: usize = self.steering_curvatures.len();
        let mut k: usize = 0;
        while k < m
            invariant
                self.system.wf(),
                self.system.parent@ == par,
                self.system.views().len() == n as nat,
                m == self.steering_curvatures@.len(),
                self.same_config(sim0),
                self.terrain == sim0.terrain,
                self.time == sim0.time,
                self.states@ == sim0.states@,
                self.tires@ == sim0.tires@,
                s_cv == steerings_fold(
                    s_start,
                    sim0.steerings@,
                    control.steering@,
                    sim0.steerings@.len(),
                ),
                k <= m,
                forall|i: int|
                    0 <= i < m ==> (#[trigger] self.steering_curvatures@[i]).joint_index < n,
                self.system.views() == curvatures_fold(
                    s_cv,
                    self.steering_curvatures@,
                    control.steering@,
                    k as nat,
                ),
            decreases m - k,
        {
            let c: SteeringCurvature = self.steering_curvatures[k];
            steering_curvature_system(&mut self.system, &c, control);
            proof {
                reveal_with_fuel(curvatures_fold, 2);
            }
            k = k + 1;
        }
    }

    /// Apply every force contributor: suspensions, tire contacts, lookup
    /// drives, plain drives, brakes.
    fn apply_force_contributors(&mut self, control: &CarControl)
        requires
            old(self).wf(),
        ensures
            final(self).wf(),
            final(self).same_config(*old(self)),
            final(self).terrain == old(self).terrain,
            final(self).time == old(self).time,
            final(self).states@ == old(self).states@,
            final(self).tires@.len() == old(self).tires@.len(),
            tires_wf(final(self).tires@, final(self).system.views().len()),
            (final(self).system.views(), final(self).tires@) == eval_forces(
                *old(self),
                old(self).system.views(),
                old(self).tires@,
                *control,
            ),
    {
        let ghost sim0 = *old(self);
        let ghost par = self.system.parent@;
        let n: usize = self.system.len();
        let ghost s_p1 = self.system.views();
        proof {
            reveal_with_fuel(suspensions_fold, 1);
            reveal_with_fuel(lookups_fold, 1);
            reveal_with_fuel(drivens_fold, 1);
            reveal_with_fuel(brakes_fold, 1);
        }

        let m: usize = self.suspensions.len();
        let mut k: usize = 0;
        while k < m
            invariant
                self.system.wf(),
                self.system.parent@ == par,
                self.system.views().len() == n as nat,
                m == self.suspensions@.len(),
                self.same_config(sim0),
                self.terrain == sim0.terrain,
                self.time == sim0.time,
                self.states@ == sim0.states@,
                self.tires@ == sim0.tires@,
                k <= m,
                forall|i: int| 0 <= i < m ==> (#[trigger] self.suspensions@[i]).joint_index < n,
                self.system.views() == suspensions_fold(s_p1, self.suspensions@, k as nat),
            decreases m - k,
        {
            let c: SuspensionComponent = self.suspensions[k];
            suspension_system(&mut self.system, &c);
            proof {
                reveal_with_fuel(suspensions_fold, 2);
            }
            k = k + 1;
        }

        let ghost s_su = self.system.views();
        let ghost t0 = self.tires@;
        crate::tire::point_tire_system(&mut self.system, &mut self.tires, &self.terrain);
        let ghost t_after = self.tires@;

        let ghost s_ti = self.system.views();
        let m: usize = self.driven_wheel_lookups.len();
        let mut k: usize = 0;
        while k < m
            invariant
                self.system.wf(),
                self.system.parent@ == par,
                self.system.views().len() == n as nat,
                m == self.driven_wheel_lookups@.len(),
                self.same_config(sim0),
                self.terrain == sim0.terrain,
                self.time == sim0.time,
                self.states@ == sim0.states@,
                self.tires@ == t_after,
                k <= m,
                forall|i: int|
                    0 <= i < m ==> (#[trigger] self.driven_wheel_lookups@[i]).joint_index < n
                        && self.driven_wheel_lookups@[i].wf(),
                self.system.views() == lookups_fold(
                    s_ti,
                    self.driven_wheel_lookups@,
                    control.throttle@,
                    k as nat,
                ),
            decreases m - k,
        {
            driven_wheel_lookup_system2(&mut self.system, &self.driven_wheel_lookups, k, control);
            proof {
                reveal_with_fuel(lookups_fold, 2);
            }
            k = k + 1;
        }

        let ghost s_lk = self.system.views();
        let m: usize = self.driven_wheels.len();
        let mut k: usize = 0;
        while k < m
            invariant
                self.system.wf(),
                self.system.parent@ == par,
                self.system.views().len() == n as nat,
                m == self.driven_wheels@.len(),
                self.same_config(sim0),
                self.terrain == sim0.terrain,
                self.time == sim0.time,
                self.states@ == sim0.states@,
                self.tires@ == t_after,
                k <= m,
                forall|i: int| 0 <= i < m ==> (#[trigger] self.driven_wheels@[i]).joint_index < n,
                self.system.views() == drivens_fold(
                    s_lk,
                    self.driven_wheels@,
                    control.throttle@,
                    k as nat,
                ),
            decreases m - k,
        {
            let c: DrivenWheel = self.driven_wheels[k];
            driven_wheel_system(&mut self.system, &c, control);
            proof {
                reveal_with_fuel(drivens_fold, 2);
            }
            k = k + 1;
        }

        let ghost s_dw = self.system.views();
        let m: usize = self.brakes.len();
        let mut k: usize = 0;
        while k < m
            invariant
                self.system.wf(),
                self.system.parent@ == par,
                self.system.views().len() == n as nat,
                m == self.brakes@.len(),
                self.same_config(sim0),
                self.terrain == sim0.terrain,
                self.time == sim0.time,
                self.states@ == sim0.states@,
                self.tires@ == t_after,
                s_su == suspensions_fold(s_p1, sim0.suspensions@, sim0.suspensions@.len()),
                (s_ti, t_after) == tires_fold(s_su, t0, sim0.terrain, t0.len()),
                t0 == sim0.tires@,
                s_lk == lookups_fold(
                    s_ti,
                    sim0.driven_wheel_lookups@,
                    control.throttle@,
                    sim0.driven_wheel_lookups@.len(),
                ),
                s_dw == drivens_fold(
                    s_lk,
                    sim0.driven_wheels@,
                    control.throttle@,
                    sim0.driven_wheels@.len(),
                ),
                k <= m,
                forall|i: int| 0 <= i < m ==> (#[trigger] self.brakes@[i]).joint_index < n,
                self.system.views() == brakes_fold(s_dw, self.brakes@, control.brake@, k as nat),
            decreases m - k,
        {
            let c: BrakeWheel = self.brakes[k];
            brake_wheel_system(&mut self.system, &c, control);
            proof {
                reveal_with_fuel(brakes_fold, 2);
            }
            k = k + 1;
        }
    }

    /// One derivative evaluation at a trial state: distribute the state,
    /// run the kinematics pass, apply every contributor, fold external
    /// forces, run the inward and acceleration passes, and read back the
    /// derivative.  Fails exactly when the solve hits a degenerate
    /// effective inertia.
    #[verifier::rlimit(100)]
    pub fn evaluate_state(&mut self, states: &Vec<JointState>, control: &CarControl) -> (r: Result<
        Vec<JointState>,
        DynamicsError,
    >)
        requires
            old(self).wf(),
            states@.len() == old(self).system.views().len(),
        ensures
            final(self).wf(),
            final(self).same_config(*old(self)),
            final(self).time == old(self).time,
            final(self).states@ == old(self).states@,
            final(self).system.views().len() == old(self).system.views().len(),
            final(self).tires@.len() == old(self).tires@.len(),
            r is Ok ==> r->Ok_0@.len() == old(self).system.views().len(),
            r is Ok <==> eval_spec(
                *old(self),
                old(self).system.views(),
                old(self).tires@,
                states@,
                *control,
            ).2,
            r is Ok ==> {
                let e = eval_spec(
                    *old(self),
                    old(self).system.views(),
                    old(self).tires@,
                    states@,
                    *control,
                );
                final(self).system.views() == e.0 && final(self).tires@ == e.1 && r->Ok_0@ == e.3
            },
    {
        let ghost sim0 = *old(self);
        let ghost j0 = self.system.views();
        let ghost t0 = self.tires@;
        let ghost par = self.system.parent@;
        let n: usize = self.system.len();

        self.system.distribute_state(states);
        proof {
            assert(self.system.views() =~= eval_distribute(j0, states@));
        }

        self.apply_steering(control);
        proof {
            assert(self.system.views() == eval_steer(sim0, eval_distribute(j0, states@), *control));
        }

        self.system.loop_1();
        let ghost s_p1 = self.system.views();

        self.apply_force_contributors(control);
        proof {
            assert((self.system.views(), self.tires@) == eval_forces(sim0, s_p1, t0, *control));
        }
        let ghost s_forces = self.system.views();

        self.system.apply_external_forces();
        let solve: Result<(), DynamicsError> = self.system.loop_23();
        proof {
            reveal(eval_spec);
            let e = eval_spec(sim0, j0, t0, states@, *control);
            assert(e.0 == eval_solve(s_forces, par).0);
            assert(e.2 == eval_solve(s_forces, par).1);
            assert(e.1 == self.tires@);
        }
        match solve {
            Ok(()) => {
                let ds: Vec<JointState> = self.system.get_dstates();
                proof {
                    reveal(eval_spec);
                    let e = eval_spec(sim0, j0, t0, states@, *control);
                    assert(self.system.views() == e.0);
                    assert(ds@ =~= eval_dstates(self.system.views()));
                }
                Ok(ds)
            },
            Err(e) => Err(e),
        }
    }

    /// One macro step of the selected scheme, without touching the clock.
    #[verifier::rlimit(100)]
    fn step_inner(&mut self, control: &CarControl) -> (r: Result<(), DynamicsError>)
        requires
            old(self).wf(),
        ensures
            final(self).wf(),
            final(self).same_config(*old(self)),
            final(self).time == old(self).time,
            r is Ok <==> step_spec(*old(self), *control).0,
            r is Ok ==> {
                let e = step_spec(*old(self), *control);
                final(self).states@ == e.1 && final(self).system.views() == e.2
                    && final(self).tires@ == e.3
            },
            !(r is Ok) ==> final(self).states@ == old(self).states@,
    {
        let ghost sim0 = *old(self);
        let s0: Vec<JointState> = copy_states(&self.states);
        let dt: Fx = self.time.dt;
        let half_dt: Fx = dt.times(Fx { m: 500_000 });
        match self.solver {
            Solver::Euler => {
                let d1: Vec<JointState> = match self.evaluate_state(&s0, control) {
                    Ok(d) => d,
                    Err(e) => {
                        return Err(e);
                    },
                };
                let new_states: Vec<JointState> = add_states(&s0, &scale_states(&d1, dt));
                self.states = new_states;
                Ok(())
            },
            Solver::Heun => {
                let d1: Vec<JointState> = match self.evaluate_state(&s0, control) {
                    Ok(d) => d,
                    Err(e) => {
                        return Err(e);
                    },
                };
                let trial: Vec<JointState> = add_states(&s0, &scale_states(&d1, dt));
                proof {
                    lemma_eval_config(*self, sim0, self.system.views(), self.tires@, trial@, *control);
                }
                let d2: Vec<JointState> = match self.evaluate_state(&trial, control) {
                    Ok(d) => d,
                    Err(e) => {
                        return Err(e);
                    },
                };
                let new_states: Vec<JointState> = add_states(
                    &s0,
                    &scale_states(&add_states(&d1, &d2), half_dt),
                );
                self.states = new_states;
                Ok(())
            },
            Solver::Midpoint => {
                let d1: Vec<JointState> = match self.evaluate_state(&s0, control) {
                    Ok(d) => d,
                    Err(e) => {
                        return Err(e);
                    },
                };
                let trial: Vec<JointState> = add_states(&s0, &scale_states(&d1, half_dt));
                proof {
                    lemma_eval_config(*self, sim0, self.system.views(), self.tires@, trial@, *control);
                }
                let d2: Vec<JointState> = match self.evaluate_state(&trial, control) {
                    Ok(d) => d,
                    Err(e) => {
                        return Err(e);
                    },
                };
                let new_states: Vec<JointState> = add_states(&s0, &scale_states(&d2, dt));
                self.states = new_states;
                Ok(())
            },
            Solver::RK4 => {
                let d1: Vec<JointState> = match self.evaluate_state(&s0, control) {
                    Ok(d) => d,
                    Err(e) => {
                        return Err(e);
                    },
                };
                let t1: Vec<JointState> = add_states(&s0, &scale_states(&d1, half_dt));
                proof {
                    lemma_eval_config(*self, sim0, self.system.views(), self.tires@, t1@, *control);
                }
                let d2: Vec<JointState> = match self.evaluate_state(&t1, control) {
                    Ok(d) => d,
                    Err(e) => {
                        return Err(e);
                    },
                };
                let t2: Vec<JointState> = add_states(&s0, &scale_states(&d2, half_dt));
                proof {
                    lemma_eval_config(*self, sim0, self.system.views(), self.tires@, t2@, *control);
                }
                let d3: Vec<JointState> = match self.evaluate_state(&t2, control) {
                    Ok(d) => d,
                    Err(e) => {
                        return Err(e);
                    },
                };
                let t3: Vec<JointState> = add_states(&s0, &scale_states(&d3, dt));
                proof {
                    lemma_eval_config(*self, sim0, self.system.views(), self.tires@, t3@, *control);
                }
                let d4: Vec<JointState> = match self.evaluate_state(&t3, control) {
                    Ok(d) => d,
                    Err(e) => {
                        return Err(e);
                    },
                };
                let change: Vec<JointState> = add_states(
                    &add_states(
                        &add_states(&d1, &scale_states(&d2, Fx { m: 2_000_000 })),
                        &scale_states(&d3, Fx { m: 2_000_000 }),
                    ),
                    &d4,
                );
                let sixth: Fx = dt.over(Fx { m: 6_000_000 });
                let new_states: Vec<JointState> = add_states(&s0, &scale_states(&change, sixth));
                self.states = new_states;
                Ok(())
            },
        }
    }

    /// Advance the simulation by one fixed step of the selected scheme and
    /// count it on the clock.  Fails, leaving the stored state unchanged,
    /// exactly when a derivative evaluation hits a degenerate effective
    /// inertia.
    pub fn step(&mut self, control: &CarControl) -> (r: Result<(), DynamicsError>)
        requires
            old(self).wf(),
            old(self).time.index < usize::MAX,
        ensures
            final(self).wf(),
            final(self).same_config(*old(self)),
            final(self).time.index == old(self).time.index + 1,
            final(self).time == (SimTime { index: final(self).time.index, ..old(self).time }),
            r is Ok <==> step_spec(*old(self), *control).0,
            r is Ok ==> {
                let e = step_spec(*old(self), *control);
                final(self).states@ == e.1 && final(self).system.views() == e.2
                    && final(self).tires@ == e.3
            },
            !(r is Ok) ==> final(self).states@ == old(self).states@,
    {
        let r: Result<(), DynamicsError> = self.step_inner(control);
        self.time.increment();
        r
    }
}


/// Two simulations with the same configuration evaluate identically.
proof fn lemma_eval_config(
    a: Simulation,
    b: Simulation,
    j: Seq<JointV>,
    t: Seq<PointTire>,
    st: Seq<JointState>,
    c: CarControl,
)
    requires
        a.same_config(b),
    ensures
        eval_spec(a, j, t, st, c) == eval_spec(b, j, t, st, c),
{
    reveal(eval_spec);
}

/// One Euler step: a single evaluation, states advanced by `dt`.
pub open spec fn euler_spec(sim: Simulation, control: CarControl) -> (
    bool,
    Seq<JointState>,
    Seq<JointV>,
    Seq<PointTire>,
) {
    let s0 = sim.states@;
    let dt = sim.time.dt@;
    let e1 = eval_spec(sim, sim.system.views(), sim.tires@, s0, control);
    (e1.2, states_add(s0, states_scale(e1.3, dt)), e1.0, e1.1)
}

/// One Heun step: derivative at the start and at the Euler endpoint,
/// averaged.
pub open spec fn heun_spec(sim: Simulation, control: CarControl) -> (
    bool,
    Seq<JointState>,
    Seq<JointV>,
    Seq<PointTire>,
) {
    let s0 = sim.states@;
    let dt = sim.time.dt@;
    let e1 = eval_spec(sim, sim.system.views(), sim.tires@, s0, control);
    let trial = states_add(s0, states_scale(e1.3, dt));
    let e2 = eval_spec(sim, e1.0, e1.1, trial, control);
    (
        e1.2 && e2.2,
        states_add(s0, states_scale(states_add(e1.3, e2.3), fmul(dt, 500_000))),
        e2.0,
        e2.1,
    )
}

/// One midpoint step: derivative at the start, then at the half step.
pub open spec fn midpoint_spec(sim: Simulation, control: CarControl) -> (
    bool,
    Seq<JointState>,
    Seq<JointV>,
    Seq<PointTire>,
) {
    let s0 = sim.states@;
    let dt = sim.time.dt@;
    let e1 = eval_spec(sim, sim.system.views(), sim.tires@, s0, control);
    let trial = states_add(s0, states_scale(e1.3, fmul(dt, 500_000)));
    let e2 = eval_spec(sim, e1.0, e1.1, trial, control);
    (e1.2 && e2.2, states_add(s0, states_scale(e2.3, dt)), e2.0, e2.1)
}

/// One classical fourth-order Runge-Kutta step.
pub open spec fn rk4_spec(sim: Simulation, control: CarControl) -> (
    bool,
    Seq<JointState>,
    Seq<JointV>,
    Seq<PointTire>,
) {
    let s0 = sim.states@;
    let dt = sim.time.dt@;
    let e1 = eval_spec(sim, sim.system.views(), sim.tires@, s0, control);
    let t1 = states_add(s0, states_scale(e1.3, fmul(dt, 500_000)));
    let e2 = eval_spec(sim, e1.0, e1.1, t1, control);
    let t2 = states_add(s0, states_scale(e2.3, fmul(dt, 500_000)));
    let e3 = eval_spec(sim, e2.0, e2.1, t2, control);
    let t3 = states_add(s0, states_scale(e3.3, dt));
    let e4 = eval_spec(sim, e3.0, e3.1, t3, control);
    let change = states_add(
        states_add(states_add(e1.3, states_scale(e2.3, 2_000_000)), states_scale(e3.3, 2_000_000)),
        e4.3,
    );
    (
        e1.2 && e2.2 && e3.2 && e4.2,
        states_add(s0, states_scale(change, fdiv(dt, 6_000_000))),
        e4.0,
        e4.1,
    )
}

/// The selected scheme's step, as one spec value.
pub open spec fn step_spec(sim: Simulation, control: CarControl) -> (
    bool,
    Seq<JointState>,
    Seq<JointV>,
    Seq<PointTire>,
) {
    match sim.solver {
        Solver::Euler => euler_spec(sim, control),
        Solver::Heun => heun_spec(sim, control),
        Solver::Midpoint => midpoint_spec(sim, control),
        Solver::RK4 => rk4_spec(sim, control),
    }
}

/// An exact copy of an integrator state.
fn copy_states(a: &Vec<JointState>) -> (r: Vec<JointState>)
    ensures
        r@ == a@,
{
    let n: usize = a.len();
    let mut r: Vec<JointState> = Vec::new();
    let mut i: usize = 0;
    while i < n
        invariant
            n == a@.len(),
            i <= n,
            r@.len() == i,
            forall|k: int| 0 <= k < i ==> r@[k] == a@[k],
        decreases n - i,
    {
        r.push(a[i]);
        i = i + 1;
    }
    proof {
        assert(r@ =~= a@);
    }
    r
}

/// Apply one lookup-driven wheel, addressed by list index (keeps the list
/// borrow and the tree borrow apart).
fn driven_wheel_lookup_system2(
    sys: &mut MultibodySystem,
    list: &Vec<DrivenWheelLookup>,
    k: usize,
    control: &CarControl,
)
    requires
        old(sys).wf(),
        k < list@.len(),
        list@[k as int].wf(),
        list@[k as int].joint_index < old(sys).views().len(),
    ensures
        final(sys).wf(),
        final(sys).parent@ == old(sys).parent@,
        final(sys).views() == old(sys).views().update(
            list@[k as int].joint_index as int,
            JointV {
                tau: fadd(
                    old(sys).views()[list@[k as int].joint_index as int].tau,
                    fmul(
                        control.throttle@,
                        crate::fx::fabs(
                            lookup_limit_torque(
                                list@[k as int],
                                old(sys).views()[list@[k as int].joint_index as int].qd,
                            ),
                        ),
                    ),
                ),
                ..old(sys).views()[list@[k as int].joint_index as int]
            },
        ),
{
    driven_wheel_lookup_system(sys, &list[k], control);
}

} // verus!
