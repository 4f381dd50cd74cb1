//! The articulated tree: an arena of joint records plus parent indices.
//!
//! Joints are appended at scene-build time; every joint's parent has a
//! smaller index, so an ascending walk visits parents before children and a
//! descending walk visits children before parents.  A root is a joint that
//! is its own parent.  The three forward-dynamics passes are exact
//! sequential folds of the per-joint updates of [`crate::algorithms`]; the
//! spec functions [`pass1_upto`], [`pass2_upto`] and [`pass3_upto`] replay
//! those folds over the ghost views, and each pass's contract says the
//! stored joints equal the replay.

use vstd::prelude::*;

use crate::algorithms::{
    apply_external_spec, apply_external_update, loop_1_update, loop_2_local, loop_2_propagate,
    loop_3_update, pass1_spec, pass2_local_spec, pass2_parent_spec, pass3_spec,
};
use crate::fx::{fadd, fmul, Fx};
use crate::joint::{Joint, JointState, JointStateV, JointType, JointV};
use crate::sva::{Force, ForceV, InertiaV, Motion, MotionV, XformV};

verus! {

/// A configuration the equations of motion cannot be solved for.
#[derive(Clone, Copy, Debug, PartialEq, Eq, Structural)]
pub enum DynamicsError {
    /// Some joint saw a non-positive effective inertia along its axis.
    DegenerateInertia,
}

/// Views after the outward kinematics pass has processed the first `k`
/// joints in index order (roots are left unchanged).
pub open spec fn pass1_upto(s: Seq<JointV>, par: Seq<usize>, k: nat) -> Seq<JointV>
    decreases k,
{
    if k == 0 {
        s
    } else {
        let t = pass1_upto(s, par, (k - 1) as nat);
        let i = k - 1;
        if par[i] as int == i {
            t
        } else {
            t.update(i, pass1_spec(t[i], t[par[i] as int]))
        }
    }
}

/// Views after the external-force fold has processed the first `k` joints.
pub open spec fn ext_upto(s: Seq<JointV>, par: Seq<usize>, k: nat) -> Seq<JointV>
    decreases k,
{
    if k == 0 {
        s
    } else {
        let t = ext_upto(s, par, (k - 1) as nat);
        let i = k - 1;
        if par[i] as int == i {
            t
        } else {
            t.update(i, apply_external_spec(t[i]))
        }
    }
}

/// Views after the inward pass has processed `k` joints in descending index
/// order: each non-root joint is projected locally and its reduction pushed
/// into its parent.
pub open spec fn pass2_upto(s: Seq<JointV>, par: Seq<usize>, k: nat) -> Seq<JointV>
    decreases k,
{
    if k == 0 {
        s
    } else {
        let t = pass2_upto(s, par, (k - 1) as nat);
        let i = s.len() - k;
        if par[i] as int == i {
            t
        } else {
            let j1 = pass2_local_spec(t[i]);
            t.update(i, j1).update(par[i] as int, pass2_parent_spec(j1, t[par[i] as int]))
        }
    }
}

/// Whether every joint processed by the first `k` inward steps had a
/// strictly positive effective inertia along its axis.
pub open spec fn pass2_ok_upto(s: Seq<JointV>, par: Seq<usize>, k: nat) -> bool
    decreases k,
{
    if k == 0 {
        true
    } else {
        let i = s.len() - k;
        pass2_ok_upto(s, par, (k - 1) as nat) && (par[i] as int == i || pass2_local_spec(
            pass2_upto(s, par, (k - 1) as nat)[i],
        ).dd > 0)
    }
}

/// Views after the outward acceleration solve has processed the first `k`
/// joints in index order.
pub open spec fn pass3_upto(s: Seq<JointV>, par: Seq<usize>, k: nat) -> Seq<JointV>
    decreases k,
{
    if k == 0 {
        s
    } else {
        let t = pass3_upto(s, par, (k - 1) as nat);
        let i = k - 1;
        if par[i] as int == i {
            t
        } else {
            t.update(i, pass3_spec(t[i], t[par[i] as int]))
        }
    }
}

/// Whether every joint processed by the first `k` acceleration-solve steps
/// carried a non-zero effective inertia (the divisor of the solve).
pub open spec fn pass3_ok_upto(s: Seq<JointV>, par: Seq<usize>, k: nat) -> bool
    decreases k,
{
    if k == 0 {
        true
    } else {
        let i = k - 1;
        pass3_ok_upto(s, par, (k - 1) as nat) && (par[i] as int == i || pass3_upto(
            s,
            par,
            (k - 1) as nat,
        )[i].dd != 0)
    }
}

/// A longer inward prefix being sound implies every shorter one is.
proof fn lemma_pass2_ok_mono(s: Seq<JointV>, par: Seq<usize>, k1: nat, k2: nat)
    requires
        k1 <= k2,
        pass2_ok_upto(s, par, k2),
    ensures
        pass2_ok_upto(s, par, k1),
    decreases k2,
{
    if k1 < k2 {
        lemma_pass2_ok_mono(s, par, k1, (k2 - 1) as nat);
    }
}

/// A longer acceleration-solve prefix being sound implies every shorter one
/// is.
proof fn lemma_pass3_ok_mono(s: Seq<JointV>, par: Seq<usize>, k1: nat, k2: nat)
    requires
        k1 <= k2,
        pass3_ok_upto(s, par, k2),
    ensures
        pass3_ok_upto(s, par, k1),
    decreases k2,
{
    if k1 < k2 {
        lemma_pass3_ok_mono(s, par, k1, (k2 - 1) as nat);
    }
}

/// One joint advanced by a fixed time step: position by the old velocity,
/// velocity by the solved acceleration.
pub open spec fn integrate_spec(j: JointV, dt: int) -> JointV {
    JointV { q: fadd(j.q, fmul(j.qd, dt)), qd: fadd(j.qd, fmul(j.qdd, dt)), ..j }
}

/// One joint reloaded from an integrator state, with the per-sub-step
/// accumulators cleared.
pub open spec fn distribute_spec(j: JointV, st: JointStateV) -> JointV {
    JointV { q: st.q, qd: st.qd, qdd: 0, tau: 0, f_ext: ForceV::zero(), ..j }
}

/// The articulated tree: joint records and parent indices.
pub struct MultibodySystem {
    pub joints: Vec<Joint>,
    pub parent: Vec<usize>,
}

impl MultibodySystem {
    /// Ghost views of all joints, in arena order.
    pub open spec fn views(self) -> Seq<JointV> {
        self.joints@.map_values(|j: Joint| j@)
    }

    /// Well-formedness: one parent per joint, each parent at a smaller
    /// index, roots being their own parent.
    pub open spec fn wf(self) -> bool {
        &&& self.parent@.len() == self.joints@.len()
        &&& forall|i: int|
            0 <= i < self.parent@.len() ==> (#[trigger] self.parent@[i]) as int <= i
    }

    /// An empty tree.
    pub fn new() -> (r: MultibodySystem)
        ensures
            r.wf(),
            r.views() == Seq::<JointV>::empty(),
            r.parent@ == Seq::<usize>::empty(),
    {
        let r = MultibodySystem { joints: Vec::new(), parent: Vec::new() };
        proof {
            assert(r.views() =~= Seq::<JointV>::empty());
        }
        r
    }

    /// Number of joints.
    pub fn len(&self) -> (r: usize)
        ensures
            r == self.views().len(),
    {
        self.joints.len()
    }

    /// Read access to one joint.
    pub fn joint(&self, i: usize) -> (r: &Joint)
        requires
            i < self.views().len(),
        ensures
            r@ == self.views()[i as int],
    {
        &self.joints[i]
    }

    /// Append a root node whose fixed acceleration `a` is the boundary
    /// condition of its mechanism (typically gravity), returning its handle.
    pub fn add_base(&mut self, a: Motion) -> (idx: usize)
        requires
            old(self).wf(),
        ensures
            final(self).wf(),
            idx == old(self).views().len(),
            final(self).views() == old(self).views().push(
                JointV {
                    a: a@,
                    ..JointV::init(JointType::Base, MotionV::zero(), InertiaV::zero(), XformV::id())
                },
            ),
            final(self).parent@ == old(self).parent@.push(idx),
    {
        let idx: usize = self.joints.len();
        self.joints.push(Joint::base(a));
        self.parent.push(idx);
        proof {
            assert(self.views() =~= old(self).views().push(
                JointV {
                    a: a@,
                    ..JointV::init(JointType::Base, MotionV::zero(), InertiaV::zero(), XformV::id())
                },
            ));
        }
        idx
    }

    /// Append a joint under an existing parent, returning its handle.
    pub fn add_joint(&mut self, parent: usize, joint: Joint) -> (idx: usize)
        requires
            old(self).wf(),
            parent < old(self).views().len(),
        ensures
            final(self).wf(),
            idx == old(self).views().len(),
            final(self).views() == old(self).views().push(joint@),
            final(self).parent@ == old(self).parent@.push(parent),
    {
        let idx: usize = self.joints.len();
        self.joints.push(joint);
        self.parent.push(parent);
        proof {
            assert(self.views() =~= old(self).views().push(joint@));
        }
        idx
    }

    /// Add a generalized torque onto one joint.
    pub fn add_tau(&mut self, i: usize, t: Fx)
        requires
            old(self).wf(),
            i < old(self).views().len(),
        ensures
            final(self).wf(),
            final(self).parent@ == old(self).parent@,
            final(self).views() == old(self).views().update(
                i as int,
                JointV { tau: fadd(old(self).views()[i as int].tau, t@), ..old(self).views()[i as int] },
            ),
    {
        let tau: Fx = self.joints[i].tau.plus(t);
        self.joints[i].tau = tau;
        proof {
            assert(self.views() =~= old(self).views().update(
                i as int,
                JointV { tau: fadd(old(self).views()[i as int].tau, t@), ..old(self).views()[i as int] },
            ));
        }
    }

    /// Add an external spatial force onto one joint.
    pub fn add_f_ext(&mut self, i: usize, f: Force)
        requires
            old(self).wf(),
            i < old(self).views().len(),
        ensures
            final(self).wf(),
            final(self).parent@ == old(self).parent@,
            final(self).views() == old(self).views().update(
                i as int,
                JointV {
                    f_ext: old(self).views()[i as int].f_ext.plus(f@),
                    ..old(self).views()[i as int]
                },
            ),
    {
        let f_ext: Force = self.joints[i].f_ext.plus(f);
        self.joints[i].f_ext = f_ext;
        proof {
            assert(self.views() =~= old(self).views().update(
                i as int,
                JointV {
                    f_ext: old(self).views()[i as int].f_ext.plus(f@),
                    ..old(self).views()[i as int]
                },
            ));
        }
    }

    /// Overwrite one joint's position (position-controlled joints).
    pub fn set_q(&mut self, i: usize, q: Fx)
        requires
            old(self).wf(),
            i < old(self).views().len(),
        ensures
            final(self).wf(),
            final(self).parent@ == old(self).parent@,
            final(self).views() == old(self).views().update(
                i as int,
                JointV { q: q@, ..old(self).views()[i as int] },
            ),
    {
        self.joints[i].q = q;
        proof {
            assert(self.views() =~= old(self).views().update(
                i as int,
                JointV { q: q@, ..old(self).views()[i as int] },
            ));
        }
    }

    /// Outward kinematics pass over the whole arena, parents before
    /// children.
    #[verifier::rlimit(50)]
    pub fn loop_1(&mut self)
        requires
            old(self).wf(),
        ensures
            final(self).wf(),
            final(self).parent@ == old(self).parent@,
            final(self).views() == pass1_upto(
                old(self).views(),
                old(self).parent@,
                old(self).views().len(),
            ),
    {
        let ghost s0 = self.views();
        let ghost par = self.parent@;
        let n: usize = self.joints.len();
        let mut i: usize = 0;
        while i < n
            invariant
                self.wf(),
                s0 == old(self).views(),
                par == old(self).parent@,
                self.parent@ == par,
                self.joints@.len() == n,
                n == s0.len(),
                i <= n,
                self.views() == pass1_upto(s0, par, i as nat),
            decreases n - i,
        {
            let pi: usize = self.parent[i];
            if pi != i {
                let p: Joint = self.joints[pi];
                let mut j: Joint = self.joints[i];
                loop_1_update(&mut j, &p);
                self.joints[i] = j;
                proof {
                    let t = pass1_upto(s0, par, i as nat);
                    assert(pass1_upto(s0, par, (i + 1) as nat) == t.update(
                        i as int,
                        pass1_spec(t[i as int], t[par[i as int] as int]),
                    ));
                    assert(self.views() =~= t.update(i as int, j@));
                }
            }
            i = i + 1;
        }
    }

    /// Fold every joint's finalized external force into its bias force.
    #[verifier::rlimit(50)]
    pub fn apply_external_forces(&mut self)
        requires
            old(self).wf(),
        ensures
            final(self).wf(),
            final(self).parent@ == old(self).parent@,
            final(self).views() == ext_upto(
                old(self).views(),
                old(self).parent@,
                old(self).views().len(),
            ),
    {
        let ghost s0 = self.views();
        let ghost par = self.parent@;
        let n: usize = self.joints.len();
        let mut i: usize = 0;
        while i < n
            invariant
                self.wf(),
                s0 == old(self).views(),
                par == old(self).parent@,
                self.parent@ == par,
                self.joints@.len() == n,
                n == s0.len(),
                i <= n,
                self.views() == ext_upto(s0, par, i as nat),
            decreases n - i,
        {
            let pi: usize = self.parent[i];
            if pi != i {
                let mut j: Joint = self.joints[i];
                apply_external_update(&mut j);
                self.joints[i] = j;
                proof {
                    let t = ext_upto(s0, par, i as nat);
                    assert(ext_upto(s0, par, (i + 1) as nat) == t.update(
                        i as int,
                        apply_external_spec(t[i as int]),
                    ));
                    assert(self.views() =~= t.update(i as int, j@));
                }
            }
            i = i + 1;
        }
    }

    /// Inward inertia-projection pass followed by the outward acceleration
    /// solve.  Fails, and stops the solve, exactly when some joint's
    /// effective inertia is degenerate.
    #[verifier::rlimit(50)]
    pub fn loop_23(&mut self) -> (r: Result<(), DynamicsError>)
        requires
            old(self).wf(),
        ensures
            final(self).wf(),
            final(self).parent@ == old(self).parent@,
            r is Ok <==> (pass2_ok_upto(old(self).views(), old(self).parent@, old(self).views().len())
                && pass3_ok_upto(
                pass2_upto(old(self).views(), old(self).parent@, old(self).views().len()),
                old(self).parent@,
                old(self).views().len(),
            )),
            r is Ok ==> final(self).views() == pass3_upto(
                pass2_upto(old(self).views(), old(self).parent@, old(self).views().len()),
                old(self).parent@,
                old(self).views().len(),
            ),
    {
        let ghost s0 = self.views();
        let ghost par = self.parent@;
        let n: usize = self.joints.len();

        let mut k: usize = 0;
        while k < n
            invariant
                self.wf(),
                s0 == old(self).views(),
                par == old(self).parent@,
                self.parent@ == par,
                self.joints@.len() == n,
                n == s0.len(),
                k <= n,
                self.views() == pass2_upto(s0, par, k as nat),
                pass2_ok_upto(s0, par, k as nat),
            decreases n - k,
        {
            let i: usize = n - 1 - k;
            let pi: usize = self.parent[i];
            if pi != i {
                let mut j: Joint = self.joints[i];
                loop_2_local(&mut j);
                self.joints[i] = j;
                if !Fx::zero().lt(j.dd) {
                    proof {
                        let t = pass2_upto(s0, par, k as nat);
                        assert(j@ == pass2_local_spec(t[i as int]));
                        assert(!pass2_ok_upto(s0, par, (k + 1) as nat));
                        if pass2_ok_upto(s0, par, n as nat) {
                            lemma_pass2_ok_mono(s0, par, (k + 1) as nat, n as nat);
                        }
                    }
                    return Err(DynamicsError::DegenerateInertia);
                }
                let mut p: Joint = self.joints[pi];
                loop_2_propagate(&j, &mut p);
                self.joints[pi] = p;
                proof {
                    let t = pass2_upto(s0, par, k as nat);
                    let j1 = pass2_local_spec(t[i as int]);
                    assert(pass2_upto(s0, par, (k + 1) as nat) == t.update(i as int, j1).update(
                        par[i as int] as int,
                        pass2_parent_spec(j1, t[par[i as int] as int]),
                    ));
                    assert(self.views() =~= t.update(i as int, j@).update(pi as int, p@));
                }
            }
            k = k + 1;
        }

        let ghost s2 = pass2_upto(s0, par, n as nat);
        let mut i: usize = 0;
        while i < n
            invariant
                self.wf(),
                s0 == old(self).views(),
                par == old(self).parent@,
                s2 == pass2_upto(s0, par, n as nat),
                self.parent@ == par,
                self.joints@.len() == n,
                n == s0.len(),
                n == s2.len(),
                i <= n,
                pass2_ok_upto(s0, par, n as nat),
                self.views() == pass3_upto(s2, par, i as nat),
                pass3_ok_upto(s2, par, i as nat),
            decreases n - i,
        {
            let pi: usize = self.parent[i];
            if pi != i {
                let p: Joint = self.joints[pi];
                let mut j: Joint = self.joints[i];
                if j.dd.is_zero() {
                    proof {
                        let t = pass3_upto(s2, par, i as nat);
                        assert(j@ == t[i as int]);
                        assert(!pass3_ok_upto(s2, par, (i + 1) as nat));
                        if pass3_ok_upto(s2, par, n as nat) {
                            lemma_pass3_ok_mono(s2, par, (i + 1) as nat, n as nat);
                        }
                    }
                    return Err(DynamicsError::DegenerateInertia);
                }
                loop_3_update(&mut j, &p);
                self.joints[i] = j;
                proof {
                    let t = pass3_upto(s2, par, i as nat);
                    assert(pass3_upto(s2, par, (i + 1) as nat) == t.update(
                        i as int,
                        pass3_spec(t[i as int], t[par[i as int] as int]),
                    ));
                    assert(self.views() =~= t.update(i as int, j@));
                }
            }
            i = i + 1;
        }
        Ok(())
    }

    /// Advance every joint's `(q, qd)` by one step of its own derivative
    /// (the simplest built-in integration rule).
    pub fn integrate_joint_state(&mut self, dt: Fx)
        requires
            old(self).wf(),
        ensures
            final(self).wf(),
            final(self).parent@ == old(self).parent@,
            final(self).views().len() == old(self).views().len(),
            forall|i: int|
                0 <= i < old(self).views().len() ==> final(self).views()[i] == integrate_spec(
                    old(self).views()[i],
                    dt@,
                ),
    {
        let n: usize = self.joints.len();
        let mut i: usize = 0;
        while i < n
            invariant
                self.wf(),
                self.parent@ == old(self).parent@,
                self.joints@.len() == n,
                n == old(self).views().len(),
                i <= n,
                forall|k: int|
                    0 <= k < i ==> self.views()[k] == integrate_spec(old(self).views()[k], dt@),
                forall|k: int| i <= k < n ==> self.views()[k] == old(self).views()[k],
            decreases n - i,
        {
            let ghost pre = self.views();
            let mut j: Joint = self.joints[i];
            j.q = j.q.plus(j.qd.times(dt));
            j.qd = j.qd.plus(j.qdd.times(dt));
            self.joints[i] = j;
            proof {
                assert forall|k: int| 0 <= k < i + 1 implies self.views()[k] == integrate_spec(
                    old(self).views()[k],
                    dt@,
                ) by {
                    if k == i {
                        assert(self.views()[k] == j@);
                    } else {
                        assert(self.views()[k] == pre[k]);
                    }
                }
                assert forall|k: int| i + 1 <= k < n implies self.views()[k] == old(self).views()[k]
                    by {
                    assert(self.views()[k] == pre[k]);
                }
            }
            i = i + 1;
        }
    }

    /// The integrator state currently held by the joints.
    pub fn get_states(&self) -> (r: Vec<JointState>)
        ensures
            r@.len() == self.views().len(),
            forall|i: int|
                0 <= i < self.views().len() ==> (#[trigger] r@[i])@ == (JointStateV {
                    q: self.views()[i].q,
                    qd: self.views()[i].qd,
                }),
    {
        let n: usize = self.joints.len();
        let mut r: Vec<JointState> = Vec::new();
        let mut i: usize = 0;
        while i < n
            invariant
                n == self.views().len(),
                i <= n,
                r@.len() == i,
                forall|k: int|
                    0 <= k < i ==> (#[trigger] r@[k])@ == (JointStateV {
                        q: self.views()[k].q,
                        qd: self.views()[k].qd,
                    }),
            decreases n - i,
        {
            r.push(self.joints[i].get_state());
            i = i + 1;
        }
        r
    }

    /// The derivative of the integrator state: `(qd, qdd)` per joint.
    pub fn get_dstates(&self) -> (r: Vec<JointState>)
        ensures
            r@.len() == self.views().len(),
            forall|i: int|
                0 <= i < self.views().len() ==> (#[trigger] r@[i])@ == (JointStateV {
                    q: self.views()[i].qd,
                    qd: self.views()[i].qdd,
                }),
    {
        let n: usize = self.joints.len();
        let mut r: Vec<JointState> = Vec::new();
        let mut i: usize = 0;
        while i < n
            invariant
                n == self.views().len(),
                i <= n,
                r@.len() == i,
                forall|k: int|
                    0 <= k < i ==> (#[trigger] r@[k])@ == (JointStateV {
                        q: self.views()[k].qd,
                        qd: self.views()[k].qdd,
                    }),
            decreases n - i,
        {
            r.push(self.joints[i].get_dstate());
            i = i + 1;
        }
        r
    }

    /// Write a trial integrator state into every joint and clear the
    /// per-sub-step accumulators.
    pub fn distribute_state(&mut self, states: &Vec<JointState>)
        requires
            old(self).wf(),
            states@.len() == old(self).views().len(),
        ensures
            final(self).wf(),
            final(self).parent@ == old(self).parent@,
            final(self).views().len() == old(self).views().len(),
            forall|i: int|
                0 <= i < old(self).views().len() ==> final(self).views()[i] == distribute_spec(
                    old(self).views()[i],
                    states@[i]@,
                ),
    {
        let n: usize = self.joints.len();
        let mut i: usize = 0;
        while i < n
            invariant
                self.wf(),
                self.parent@ == old(self).parent@,
                self.joints@.len() == n,
                n == old(self).views().len(),
                n == states@.len(),
                i <= n,
                forall|k: int|
                    0 <= k < i ==> self.views()[k] == distribute_spec(
                        old(self).views()[k],
                        states@[k]@,
                    ),
                forall|k: int| i <= k < n ==> self.views()[k] == old(self).views()[k],
            decreases n - i,
        {
            let ghost pre = self.views();
            let mut j: Joint = self.joints[i];
            j.set_state(&states[i]);
            j.reset();
            self.joints[i] = j;
            proof {
                assert forall|k: int| 0 <= k < i + 1 implies self.views()[k] == distribute_spec(
                    old(self).views()[k],
                    states@[k]@,
                ) by {
                    if k == i {
                        assert(self.views()[k] == j@);
                    } else {
                        assert(self.views()[k] == pre[k]);
                    }
                }
                assert forall|k: int| i + 1 <= k < n implies self.views()[k] == old(self).views()[k]
                    by {
                    assert(self.views()[k] == pre[k]);
                }
            }
            i = i + 1;
        }
    }
}

} // verus!
