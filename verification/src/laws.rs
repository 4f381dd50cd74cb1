//! General properties of the library, stated and proved once for all
//! inputs.

use vstd::prelude::*;

use crate::fx::{fmul, fneg, iabs, tdiv, SCALE};
use crate::terrain::{
    mirror_interference_spec, mirror_point_spec, plane_interference_spec, rotate_interference_spec,
    rotate_point_spec, step_interference_spec, InterferenceV, Mirror, Rotate, RotationDirection,
};
use crate::joint::JointV;
use crate::linalg::V3;
use crate::structure::{ext_upto, pass1_upto, pass2_upto, pass3_upto};
use crate::tire::{slip_ratio_spec, tangential_force_spec};

verus! {

/// Terrain round trip on a flat tile: one unit below the surface the query
/// reports one unit of magnitude, the upward normal, and the contact point
/// directly above; one unit above it reports no contact.
pub proof fn lemma_plane_round_trip(p: V3)
    ensures
        p.z == -(SCALE as int) ==> plane_interference_spec(p) == Some(
            InterferenceV {
                magnitude: SCALE as int,
                position: V3 { x: p.x, y: p.y, z: 0 },
                normal: V3 { x: 0, y: 0, z: SCALE as int },
            },
        ),
        p.z == SCALE as int ==> plane_interference_spec(p) is None,
{
}

/// Mirror/rotate composition: a stepped tile that carries a mirror and a
/// rotation answers exactly as its canonical (unmirrored, unrotated) twin
/// queried at the inverse-transformed point, with the contact carried
/// forward through the mirror and then the rotation.
pub proof fn lemma_step_mirror_rotate(size: int, height: int, r: Rotate, m: Mirror, p: V3)
    ensures
        step_interference_spec(size, height, r, m, p) == match step_interference_spec(
            size,
            height,
            Rotate::Zero,
            Mirror::Identity,
            mirror_point_spec(rotate_point_spec(p, size, r, RotationDirection::Reverse), size, m),
        ) {
            Some(i) => Some(
                rotate_interference_spec(
                    mirror_interference_spec(i, size, m),
                    size,
                    r,
                    RotationDirection::Forward,
                ),
            ),
            None => None,
        },
{
}

/// Tire slip sign convention: when the rolling reference point moves
/// backward along the contact longitudinal axis (the wheel turning slower
/// than the ground passes under it, braking slip), the slip ratio is
/// non-negative — at least one once the relative speed reaches the
/// denominator floor — and the longitudinal force is non-negative, opposing
/// the relative motion.
pub proof fn lemma_slip_sign(ground_speed: int, speed_floor: int, slip_stiffness: int, normal_mag: int, mu: int)
    requires
        ground_speed < 0,
        iabs(ground_speed) <= i64::MAX as int,
        0 < speed_floor <= i64::MAX as int,
        slip_stiffness >= 0,
        normal_mag >= 0,
        mu >= 0,
    ensures
        slip_ratio_spec(ground_speed, speed_floor) >= 0,
        ground_speed <= -speed_floor ==> slip_ratio_spec(ground_speed, speed_floor)
            >= SCALE as int,
        tangential_force_spec(
            slip_ratio_spec(ground_speed, speed_floor),
            slip_stiffness,
            normal_mag,
            mu,
        ) >= 0,
{
    let neg = fneg(ground_speed);
    assert(neg > 0);
    let num = neg * SCALE;
    assert(num > 0) by (nonlinear_arith)
        requires
            neg > 0,
            SCALE as int > 0,
            num == neg * SCALE,
    ;
    assert(iabs(num) / iabs(speed_floor) >= 0);
    let slip = slip_ratio_spec(ground_speed, speed_floor);
    assert(slip >= 0);
    if ground_speed <= -speed_floor {
        assert(num >= speed_floor * SCALE) by (nonlinear_arith)
            requires
                neg >= speed_floor,
                SCALE as int > 0,
                num == neg * SCALE,
        ;
        assert(num / speed_floor >= (speed_floor * SCALE) / speed_floor) by (nonlinear_arith)
            requires
                num >= speed_floor * SCALE,
                speed_floor > 0,
        ;
        assert((speed_floor * SCALE) / speed_floor == SCALE) by (nonlinear_arith)
            requires
                speed_floor > 0,
        ;
        assert(iabs(num) == num && iabs(speed_floor) == speed_floor);
        assert(tdiv(num, speed_floor) == num / speed_floor);
        assert(slip >= SCALE as int);
    }
    let scaled = fmul(slip, slip_stiffness);
    assert(slip * slip_stiffness >= 0) by (nonlinear_arith)
        requires
            slip >= 0,
            slip_stiffness >= 0,
    ;
    assert(scaled >= 0);
    let clamped = crate::fx::fclamp(scaled, fneg(SCALE as int), SCALE as int);
    assert(clamped >= 0);
    assert(clamped * normal_mag >= 0) by (nonlinear_arith)
        requires
            clamped >= 0,
            normal_mag >= 0,
    ;
    let with_load = fmul(clamped, normal_mag);
    assert(with_load >= 0);
    assert(with_load * mu >= 0) by (nonlinear_arith)
        requires
            with_load >= 0,
            mu >= 0,
    ;
}

/// Sign of a diagonal rotation entry (`1` for `+1`, `-1` for `-1`).
pub open spec fn fsgn(e: int) -> int {
    if e == SCALE as int {
        1
    } else {
        -1
    }
}

/// A rotation that only flips axes: diagonal entries of one unit magnitude,
/// zeros elsewhere.  Such rotations are exactly orthonormal on the
/// fixed-point grid.
pub open spec fn flip_rot(r: crate::linalg::M3) -> bool {
    &&& (r.rx.x == SCALE as int || r.rx.x == -(SCALE as int)) && r.rx.y == 0 && r.rx.z == 0
    &&& r.ry.x == 0 && (r.ry.y == SCALE as int || r.ry.y == -(SCALE as int)) && r.ry.z == 0
    &&& r.rz.x == 0 && r.rz.y == 0 && (r.rz.z == SCALE as int || r.rz.z == -(SCALE as int))
}

/// Vector components small enough that no fixed-point result saturates
/// anywhere in a short chain of compositions and applications.
pub open spec fn small3(v: V3) -> bool {
    iabs(v.x) <= 0x16345785D8A0000 && iabs(v.y) <= 0x16345785D8A0000 && iabs(v.z)
        <= 0x16345785D8A0000
}

/// A transform in the exactly-representable class: an axis-flip rotation
/// over a bounded translation.
pub open spec fn tame_xform(x: crate::sva::XformV) -> bool {
    flip_rot(x.r) && small3(x.p)
}

/// A unit-magnitude fixed-point factor scales exactly.
proof fn lemma_fmul_unit(e: int, x: int)
    requires
        e == SCALE as int || e == -(SCALE as int),
        iabs(x) <= i64::MAX as int,
    ensures
        fmul(e, x) == fsgn(e) * x,
        fmul(x, e) == fsgn(e) * x,
{
    assert(iabs(e * x) == SCALE * iabs(x) && iabs(x * e) == SCALE * iabs(x)) by (nonlinear_arith)
        requires
            e == SCALE as int || e == -(SCALE as int),
            SCALE as int > 0,
    ;
    assert((SCALE * iabs(x)) / (SCALE as int) == iabs(x)) by (nonlinear_arith)
        requires
            SCALE as int > 0,
    ;
}

/// A zero fixed-point factor vanishes.
proof fn lemma_fmul_zero(x: int)
    ensures
        fmul(0, x) == 0,
        fmul(x, 0) == 0,
{
    assert(0 * x == 0 && x * 0 == 0) by (nonlinear_arith);
}

/// An axis-flip rotation applied to a bounded vector flips components
/// exactly.
proof fn lemma_flip_mulv(r: crate::linalg::M3, v: V3)
    requires
        flip_rot(r),
        iabs(v.x) <= i64::MAX as int,
        iabs(v.y) <= i64::MAX as int,
        iabs(v.z) <= i64::MAX as int,
    ensures
        r.mulv(v) == (V3 {
            x: fsgn(r.rx.x) * v.x,
            y: fsgn(r.ry.y) * v.y,
            z: fsgn(r.rz.z) * v.z,
        }),
{
    lemma_fmul_unit(r.rx.x, v.x);
    lemma_fmul_unit(r.ry.y, v.y);
    lemma_fmul_unit(r.rz.z, v.z);
    lemma_fmul_zero(v.x);
    lemma_fmul_zero(v.y);
    lemma_fmul_zero(v.z);
}

/// The composition of two tame transforms: signs multiply on the diagonal
/// and the translation adds exactly.
#[verifier::rlimit(100)]
proof fn lemma_tame_compose(a: crate::sva::XformV, b: crate::sva::XformV, bound: int)
    requires
        flip_rot(a.r),
        flip_rot(b.r),
        iabs(a.p.x) <= bound,
        iabs(a.p.y) <= bound,
        iabs(a.p.z) <= bound,
        iabs(b.p.x) <= bound,
        iabs(b.p.y) <= bound,
        iabs(b.p.z) <= bound,
        0 <= bound <= 0x1000000000000000,
    ensures
        flip_rot(a.compose(b).r),
        fsgn(a.compose(b).r.rx.x) == fsgn(a.r.rx.x) * fsgn(b.r.rx.x),
        fsgn(a.compose(b).r.ry.y) == fsgn(a.r.ry.y) * fsgn(b.r.ry.y),
        fsgn(a.compose(b).r.rz.z) == fsgn(a.r.rz.z) * fsgn(b.r.rz.z),
        a.compose(b).p == (V3 {
            x: b.p.x + fsgn(b.r.rx.x) * a.p.x,
            y: b.p.y + fsgn(b.r.ry.y) * a.p.y,
            z: b.p.z + fsgn(b.r.rz.z) * a.p.z,
        }),
        iabs(a.compose(b).p.x) <= 2 * bound,
        iabs(a.compose(b).p.y) <= 2 * bound,
        iabs(a.compose(b).p.z) <= 2 * bound,
{
    assert(b.r.transpose() == b.r);
    lemma_flip_mulv(b.r.transpose(), a.p);
    lemma_flip_mulv(b.r.transpose(), a.r.rx);
    lemma_flip_mulv(b.r.transpose(), a.r.ry);
    lemma_flip_mulv(b.r.transpose(), a.r.rz);
    assert(a.compose(b).r == (crate::linalg::M3 {
        rx: V3 { x: fsgn(b.r.rx.x) * a.r.rx.x, y: 0, z: 0 },
        ry: V3 { x: 0, y: fsgn(b.r.ry.y) * a.r.ry.y, z: 0 },
        rz: V3 { x: 0, y: 0, z: fsgn(b.r.rz.z) * a.r.rz.z },
    }));
    assert(flip_rot(a.compose(b).r));
    lemma_sign_entry(a.r.rx.x, b.r.rx.x);
    lemma_sign_entry(a.r.ry.y, b.r.ry.y);
    lemma_sign_entry(a.r.rz.z, b.r.rz.z);
}

/// The sign of a flipped unit entry is the product of the signs.
proof fn lemma_sign_entry(e1: int, e2: int)
    requires
        e1 == SCALE as int || e1 == -(SCALE as int),
        e2 == SCALE as int || e2 == -(SCALE as int),
    ensures
        fsgn(fsgn(e2) * e1) == fsgn(e1) * fsgn(e2),
{
    if e1 == SCALE as int {
        if e2 == SCALE as int {
            assert(fsgn(e2) * e1 == e1);
        } else {
            assert(fsgn(e2) * e1 == -e1);
        }
    } else {
        if e2 == SCALE as int {
            assert(fsgn(e2) * e1 == e1);
        } else {
            assert(fsgn(e2) * e1 == -e1);
        }
    }
}

/// A tame transform applied to a bounded point: subtract, then flip.
proof fn lemma_tame_point(a: crate::sva::XformV, p: V3, bound: int)
    requires
        flip_rot(a.r),
        iabs(a.p.x) <= bound,
        iabs(a.p.y) <= bound,
        iabs(a.p.z) <= bound,
        iabs(p.x) <= bound,
        iabs(p.y) <= bound,
        iabs(p.z) <= bound,
        0 <= bound <= 0x1000000000000000,
    ensures
        a.transform_point(p) == (V3 {
            x: fsgn(a.r.rx.x) * (p.x - a.p.x),
            y: fsgn(a.r.ry.y) * (p.y - a.p.y),
            z: fsgn(a.r.rz.z) * (p.z - a.p.z),
        }),
        iabs(a.transform_point(p).x) <= 2 * bound,
        iabs(a.transform_point(p).y) <= 2 * bound,
        iabs(a.transform_point(p).z) <= 2 * bound,
{
    let d = p.minus(a.p);
    lemma_flip_mulv(a.r, d);
    assert forall|s: int, x: int|
        (s == 1 || s == -1) && -2 * bound <= x <= 2 * bound implies -2 * bound <= #[trigger] (s
        * x) <= 2 * bound by {
        assert(-2 * bound <= s * x <= 2 * bound) by (nonlinear_arith)
            requires
                s == 1 || s == -1,
                -2 * bound <= x <= 2 * bound,
        ;
    }
    assert(-2 * bound <= fsgn(a.r.rx.x) * (p.x - a.p.x) <= 2 * bound);
    assert(-2 * bound <= fsgn(a.r.ry.y) * (p.y - a.p.y) <= 2 * bound);
    assert(-2 * bound <= fsgn(a.r.rz.z) * (p.z - a.p.z) <= 2 * bound);
}

/// Composition of rigid transforms is associative as an action on points,
/// over the exactly-representable class: axis-flip rotations and bounded
/// translations.  (Outside this class the products of general fixed-point
/// entries round, and the two groupings can differ in the last digit.)
pub proof fn lemma_compose_assoc_on_points(
    a: crate::sva::XformV,
    b: crate::sva::XformV,
    c: crate::sva::XformV,
    p: V3,
)
    requires
        tame_xform(a),
        tame_xform(b),
        tame_xform(c),
        small3(p),
    ensures
        a.compose(b).compose(c).transform_point(p) == a.compose(b.compose(c)).transform_point(p),
{
    let bound: int = 0x16345785D8A0000;
    lemma_tame_compose(a, b, bound);
    lemma_tame_compose(a.compose(b), c, 2 * bound);
    lemma_tame_compose(b, c, bound);
    lemma_tame_compose(a, b.compose(c), 2 * bound);
    lemma_tame_point(a.compose(b).compose(c), p, 4 * bound);
    lemma_tame_point(a.compose(b.compose(c)), p, 4 * bound);
    lemma_assoc_scalar(
        fsgn(a.r.rx.x),
        fsgn(b.r.rx.x),
        fsgn(c.r.rx.x),
        a.p.x,
        b.p.x,
        c.p.x,
        p.x,
    );
    lemma_assoc_scalar(
        fsgn(a.r.ry.y),
        fsgn(b.r.ry.y),
        fsgn(c.r.ry.y),
        a.p.y,
        b.p.y,
        c.p.y,
        p.y,
    );
    lemma_assoc_scalar(
        fsgn(a.r.rz.z),
        fsgn(b.r.rz.z),
        fsgn(c.r.rz.z),
        a.p.z,
        b.p.z,
        c.p.z,
        p.z,
    );
}

/// One component of the associativity identity, over unit signs.
proof fn lemma_assoc_scalar(sa: int, sb: int, sc: int, pa: int, pb: int, pc: int, x: int)
    requires
        sa == 1 || sa == -1,
        sb == 1 || sb == -1,
        sc == 1 || sc == -1,
    ensures
        (sa * sb * sc) * (x - (pc + sc * (pb + sb * pa))) == (sa * (sb * sc)) * (x - ((pc + sc
            * pb) + (sb * sc) * pa)),
{
    assert((sa * sb * sc) * (x - (pc + sc * (pb + sb * pa))) == (sa * (sb * sc)) * (x - ((pc + sc
        * pb) + (sb * sc) * pa))) by (nonlinear_arith)
        requires
            sa == 1 || sa == -1,
            sb == 1 || sb == -1,
            sc == 1 || sc == -1,
    ;
}

/// A tame transform composed with its inverse acts as the identity on
/// bounded points.
pub proof fn lemma_inverse_identity_on_points(a: crate::sva::XformV, p: V3)
    requires
        tame_xform(a),
        small3(p),
    ensures
        a.compose(a.inverse()).transform_point(p) == p,
{
    let bound: int = 0x16345785D8A0000;
    lemma_flip_mulv(a.r, a.p);
    assert(a.inverse().r == a.r);
    assert forall|s: int, x: int|
        (s == 1 || s == -1) && -bound <= x <= bound implies -bound <= #[trigger] (s * x)
        <= bound by {
        assert(-bound <= s * x <= bound) by (nonlinear_arith)
            requires
                s == 1 || s == -1,
                -bound <= x <= bound,
        ;
    }
    assert(-bound <= fsgn(a.r.rx.x) * a.p.x <= bound);
    assert(-bound <= fsgn(a.r.ry.y) * a.p.y <= bound);
    assert(-bound <= fsgn(a.r.rz.z) * a.p.z <= bound);
    lemma_tame_compose(a, a.inverse(), bound);
    let comp = a.compose(a.inverse());
    assert(fsgn(comp.r.rx.x) == fsgn(a.r.rx.x) * fsgn(a.r.rx.x));
    assert forall|s: int| s == 1 || s == -1 implies #[trigger] (s * s) == 1 by {
        assert(s * s == 1) by (nonlinear_arith)
            requires
                s == 1 || s == -1,
        ;
    }
    assert forall|s: int, x: int| s == 1 || s == -1 implies #[trigger] (s * (-(s * x))) == -x
        && s * (s * x) == x by {
        assert(s * (-(s * x)) == -x && s * (s * x) == x) by (nonlinear_arith)
            requires
                s == 1 || s == -1,
        ;
    }
    lemma_tame_point(comp, p, 2 * bound);
}

/// The pure engine pipeline: outward kinematics, the external-force fold,
/// the inward projection, and the acceleration solve, over a whole arena.
pub open spec fn engine_spec(s: Seq<JointV>, par: Seq<usize>) -> Seq<JointV> {
    pass3_upto(
        pass2_upto(ext_upto(pass1_upto(s, par, s.len()), par, s.len()), par, s.len()),
        par,
        s.len(),
    )
}

/// Parent indices that form a tree over the arena.
pub open spec fn tree_par(par: Seq<usize>, n: nat) -> bool {
    par.len() == n && forall|i: int| 0 <= i < n ==> (#[trigger] par[i]) as int <= i
}

/// Two joints that agree everywhere but the running articulated inertia and
/// bias force (the only root fields an inward pass accumulates into).
pub open spec fn root_similar(a: JointV, b: JointV) -> bool {
    a == (JointV { iaa: a.iaa, paa: a.paa, ..b })
}

/// Two joints that agree on everything the outward kinematics pass reads:
/// the structural fields and the joint state.
pub open spec fn nonroot_in(a: JointV, b: JointV) -> bool {
    a.joint_type == b.joint_type && a.s == b.s && a.i == b.i && a.xt == b.xt && a.q == b.q && a.qd
        == b.qd
}

/// Two joints that agree everywhere but the stale subspace projections the
/// inward pass will recompute.
pub open spec fn eq_but_proj(a: JointV, b: JointV) -> bool {
    a == (JointV { dd: a.dd, u: a.u, uu: a.uu, ..b })
}

/// Arena-wide relation before the engine: roots similar, non-roots agreeing
/// on structure and state.
pub open spec fn engine_inputs_eq(s1: Seq<JointV>, s2: Seq<JointV>, par: Seq<usize>) -> bool {
    s1.len() == s2.len() && forall|i: int|
        0 <= i < s1.len() ==> if (#[trigger] par[i]) as int == i {
            root_similar(s1[i], s2[i])
        } else {
            nonroot_in(s1[i], s2[i])
        }
}

/// Arena-wide relation after the outward passes: roots similar, non-roots
/// equal but for the stale projections.
pub open spec fn kinematics_eq(s1: Seq<JointV>, s2: Seq<JointV>, par: Seq<usize>) -> bool {
    s1.len() == s2.len() && forall|i: int|
        0 <= i < s1.len() ==> if (#[trigger] par[i]) as int == i {
            root_similar(s1[i], s2[i])
        } else {
            eq_but_proj(s1[i], s2[i])
        }
}

/// The outward kinematics pass maps engine-equal inputs to kinematics-equal
/// outputs.
#[verifier::rlimit(100)]
proof fn lemma_pass1_pair(s1: Seq<JointV>, s2: Seq<JointV>, par: Seq<usize>, k: nat)
    requires
        tree_par(par, s1.len()),
        engine_inputs_eq(s1, s2, par),
        k <= s1.len(),
    ensures
        pass1_upto(s1, par, k).len() == s1.len(),
        pass1_upto(s2, par, k).len() == s1.len(),
        forall|i: int|
            0 <= i < s1.len() ==> if (#[trigger] par[i]) as int == i {
                root_similar(pass1_upto(s1, par, k)[i], pass1_upto(s2, par, k)[i])
            } else if i < k {
                eq_but_proj(pass1_upto(s1, par, k)[i], pass1_upto(s2, par, k)[i])
            } else {
                pass1_upto(s1, par, k)[i] == s1[i] && pass1_upto(s2, par, k)[i] == s2[i]
            },
    decreases k,
{
    if k > 0 {
        lemma_pass1_pair(s1, s2, par, (k - 1) as nat);
        let t1 = pass1_upto(s1, par, (k - 1) as nat);
        let t2 = pass1_upto(s2, par, (k - 1) as nat);
        let i = k - 1;
        if par[i] as int != i {
            let pi = par[i] as int;
            if par[pi] as int == pi {
                assert(root_similar(t1[pi], t2[pi]));
            } else {
                assert(eq_but_proj(t1[pi], t2[pi]));
            }
            assert(t1[pi].x == t2[pi].x && t1[pi].v == t2[pi].v);
            assert(eq_but_proj(
                crate::algorithms::pass1_spec(t1[i], t1[pi]),
                crate::algorithms::pass1_spec(t2[i], t2[pi]),
            )) by {
                reveal(crate::algorithms::pass1_spec);
            }
        }
    }
}

/// The external-force fold preserves the kinematics relation.
#[verifier::rlimit(100)]
proof fn lemma_ext_pair(s1: Seq<JointV>, s2: Seq<JointV>, par: Seq<usize>, k: nat)
    requires
        tree_par(par, s1.len()),
        kinematics_eq(s1, s2, par),
        k <= s1.len(),
    ensures
        ext_upto(s1, par, k).len() == s1.len(),
        ext_upto(s2, par, k).len() == s1.len(),
        forall|i: int|
            0 <= i < s1.len() ==> if (#[trigger] par[i]) as int == i {
                root_similar(ext_upto(s1, par, k)[i], ext_upto(s2, par, k)[i])
            } else {
                eq_but_proj(ext_upto(s1, par, k)[i], ext_upto(s2, par, k)[i])
            },
    decreases k,
{
    if k > 0 {
        lemma_ext_pair(s1, s2, par, (k - 1) as nat);
        let t1 = ext_upto(s1, par, (k - 1) as nat);
        let t2 = ext_upto(s2, par, (k - 1) as nat);
        let i = k - 1;
        if par[i] as int != i {
            assert(eq_but_proj(
                crate::algorithms::apply_external_spec(t1[i]),
                crate::algorithms::apply_external_spec(t2[i]),
            )) by {
                reveal(crate::algorithms::apply_external_spec);
            }
        }
    }
}

/// The inward pass recomputes the projections: kinematics-equal inputs
/// leave non-roots fully equal and roots similar.
#[verifier::rlimit(100)]
proof fn lemma_pass2_pair(s1: Seq<JointV>, s2: Seq<JointV>, par: Seq<usize>, k: nat)
    requires
        tree_par(par, s1.len()),
        kinematics_eq(s1, s2, par),
        k <= s1.len(),
    ensures
        pass2_upto(s1, par, k).len() == s1.len(),
        pass2_upto(s2, par, k).len() == s1.len(),
        forall|i: int|
            0 <= i < s1.len() ==> if (#[trigger] par[i]) as int == i {
                root_similar(pass2_upto(s1, par, k)[i], pass2_upto(s2, par, k)[i])
            } else if i >= s1.len() - k {
                pass2_upto(s1, par, k)[i] == pass2_upto(s2, par, k)[i]
            } else {
                eq_but_proj(pass2_upto(s1, par, k)[i], pass2_upto(s2, par, k)[i])
            },
    decreases k,
{
    if k > 0 {
        lemma_pass2_pair(s1, s2, par, (k - 1) as nat);
        let t1 = pass2_upto(s1, par, (k - 1) as nat);
        let t2 = pass2_upto(s2, par, (k - 1) as nat);
        let i = s1.len() - k;
        if par[i] as int != i {
            let pi = par[i] as int;
            assert(eq_but_proj(t1[i], t2[i]));
            if par[pi] as int == pi {
                assert(root_similar(t1[pi], t2[pi]));
            } else {
                assert(eq_but_proj(t1[pi], t2[pi]));
            }
            let j1 = crate::algorithms::pass2_local_spec(t1[i]);
            let j2 = crate::algorithms::pass2_local_spec(t2[i]);
            assert(j1 == j2) by {
                reveal(crate::algorithms::pass2_local_spec);
            }
            if par[pi] as int == pi {
                assert(root_similar(
                    crate::algorithms::pass2_parent_spec(j1, t1[pi]),
                    crate::algorithms::pass2_parent_spec(j2, t2[pi]),
                )) by {
                    reveal(crate::algorithms::pass2_parent_spec);
                }
            } else {
                assert(eq_but_proj(
                    crate::algorithms::pass2_parent_spec(j1, t1[pi]),
                    crate::algorithms::pass2_parent_spec(j2, t2[pi]),
                )) by {
                    reveal(crate::algorithms::pass2_parent_spec);
                }
            }
        }
    }
}

/// The acceleration solve is a function of its input views.
#[verifier::rlimit(100)]
proof fn lemma_pass3_pair(s1: Seq<JointV>, s2: Seq<JointV>, par: Seq<usize>, k: nat)
    requires
        tree_par(par, s1.len()),
        s1.len() == s2.len(),
        forall|i: int|
            0 <= i < s1.len() ==> if (#[trigger] par[i]) as int == i {
                root_similar(s1[i], s2[i])
            } else {
                s1[i] == s2[i]
            },
        k <= s1.len(),
    ensures
        pass3_upto(s1, par, k).len() == s1.len(),
        pass3_upto(s2, par, k).len() == s1.len(),
        forall|i: int|
            0 <= i < s1.len() ==> if (#[trigger] par[i]) as int == i {
                root_similar(pass3_upto(s1, par, k)[i], pass3_upto(s2, par, k)[i])
            } else {
                pass3_upto(s1, par, k)[i] == pass3_upto(s2, par, k)[i]
            },
    decreases k,
{
    if k > 0 {
        lemma_pass3_pair(s1, s2, par, (k - 1) as nat);
        let t1 = pass3_upto(s1, par, (k - 1) as nat);
        let t2 = pass3_upto(s2, par, (k - 1) as nat);
        let i = k - 1;
        if par[i] as int != i {
            let pi = par[i] as int;
            if par[pi] as int == pi {
                assert(root_similar(t1[pi], t2[pi]));
            } else {
                assert(t1[pi] == t2[pi]);
            }
            assert(t1[pi].a == t2[pi].a && t1[i] == t2[i]);
            assert(crate::algorithms::pass3_spec(t1[i], t1[pi]) == crate::algorithms::pass3_spec(
                t2[i],
                t2[pi],
            )) by {
                reveal(crate::algorithms::pass3_spec);
            }
        }
    }
}

/// Each pass leaves every joint's structure and state alone, and touches
/// roots only in the accumulated inertia and bias force.
proof fn lemma_passes_preserve(s: Seq<JointV>, par: Seq<usize>)
    requires
        tree_par(par, s.len()),
    ensures
        engine_spec(s, par).len() == s.len(),
        engine_inputs_eq(s, engine_spec(s, par), par),
{
    let n = s.len();
    lemma_preserve_pass1(s, par, n);
    let t1 = pass1_upto(s, par, n);
    lemma_preserve_ext(t1, par, n);
    let t2 = ext_upto(t1, par, n);
    lemma_preserve_pass2(t2, par, n);
    let t3 = pass2_upto(t2, par, n);
    lemma_preserve_pass3(t3, par, n);
}

/// What one outward kinematics pass preserves of each record.
#[verifier::rlimit(100)]
proof fn lemma_preserve_pass1(s: Seq<JointV>, par: Seq<usize>, k: nat)
    requires
        tree_par(par, s.len()),
        k <= s.len(),
    ensures
        pass1_upto(s, par, k).len() == s.len(),
        forall|i: int|
            0 <= i < s.len() ==> if (#[trigger] par[i]) as int == i {
                pass1_upto(s, par, k)[i] == s[i]
            } else {
                nonroot_in(pass1_upto(s, par, k)[i], s[i])
            },
    decreases k,
{
    if k > 0 {
        lemma_preserve_pass1(s, par, (k - 1) as nat);
        let t = pass1_upto(s, par, (k - 1) as nat);
        let i = k - 1;
        if par[i] as int != i {
            assert(nonroot_in(crate::algorithms::pass1_spec(t[i], t[par[i] as int]), t[i])) by {
                reveal(crate::algorithms::pass1_spec);
            }
        }
    }
}

/// What the external-force fold preserves of each record.
#[verifier::rlimit(100)]
proof fn lemma_preserve_ext(s: Seq<JointV>, par: Seq<usize>, k: nat)
    requires
        tree_par(par, s.len()),
        k <= s.len(),
    ensures
        ext_upto(s, par, k).len() == s.len(),
        forall|i: int|
            0 <= i < s.len() ==> if (#[trigger] par[i]) as int == i {
                ext_upto(s, par, k)[i] == s[i]
            } else {
                nonroot_in(ext_upto(s, par, k)[i], s[i])
            },
    decreases k,
{
    if k > 0 {
        lemma_preserve_ext(s, par, (k - 1) as nat);
        let t = ext_upto(s, par, (k - 1) as nat);
        let i = k - 1;
        if par[i] as int != i {
            assert(nonroot_in(crate::algorithms::apply_external_spec(t[i]), t[i])) by {
                reveal(crate::algorithms::apply_external_spec);
            }
        }
    }
}

/// What the inward pass preserves of each record.
#[verifier::rlimit(100)]
proof fn lemma_preserve_pass2(s: Seq<JointV>, par: Seq<usize>, k: nat)
    requires
        tree_par(par, s.len()),
        k <= s.len(),
    ensures
        pass2_upto(s, par, k).len() == s.len(),
        forall|i: int|
            0 <= i < s.len() ==> if (#[trigger] par[i]) as int == i {
                root_similar(pass2_upto(s, par, k)[i], s[i])
            } else {
                nonroot_in(pass2_upto(s, par, k)[i], s[i])
            },
    decreases k,
{
    if k > 0 {
        lemma_preserve_pass2(s, par, (k - 1) as nat);
        let t = pass2_upto(s, par, (k - 1) as nat);
        let i = s.len() - k;
        if par[i] as int != i {
            let pi = par[i] as int;
            let j1 = crate::algorithms::pass2_local_spec(t[i]);
            assert(nonroot_in(j1, t[i])) by {
                reveal(crate::algorithms::pass2_local_spec);
            }
            assert(root_similar(crate::algorithms::pass2_parent_spec(j1, t[pi]), t[pi])
                && nonroot_in(crate::algorithms::pass2_parent_spec(j1, t[pi]), t[pi])) by {
                reveal(crate::algorithms::pass2_parent_spec);
            }
        }
    }
}

/// What the acceleration solve preserves of each record.
#[verifier::rlimit(100)]
proof fn lemma_preserve_pass3(s: Seq<JointV>, par: Seq<usize>, k: nat)
    requires
        tree_par(par, s.len()),
        k <= s.len(),
    ensures
        pass3_upto(s, par, k).len() == s.len(),
        forall|i: int|
            0 <= i < s.len() ==> if (#[trigger] par[i]) as int == i {
                pass3_upto(s, par, k)[i] == s[i]
            } else {
                nonroot_in(pass3_upto(s, par, k)[i], s[i])
            },
    decreases k,
{
    if k > 0 {
        lemma_preserve_pass3(s, par, (k - 1) as nat);
        let t = pass3_upto(s, par, (k - 1) as nat);
        let i = k - 1;
        if par[i] as int != i {
            assert(nonroot_in(crate::algorithms::pass3_spec(t[i], t[par[i] as int]), t[i])) by {
                reveal(crate::algorithms::pass3_spec);
            }
        }
    }
}

/// Idempotence of the forward-dynamics engine: running the three passes a
/// second time over the unchanged joint state (positions, velocities,
/// structure) reproduces the same accelerations — the scratch fields left
/// by the first run carry no hidden influence.
pub proof fn lemma_engine_idempotent(s: Seq<JointV>, par: Seq<usize>)
    requires
        tree_par(par, s.len()),
    ensures
        forall|i: int|
            0 <= i < s.len() ==> (#[trigger] engine_spec(engine_spec(s, par), par)[i]).qdd
                == engine_spec(s, par)[i].qdd && engine_spec(engine_spec(s, par), par)[i].a
                == engine_spec(s, par)[i].a,
{
    let n = s.len();
    let e1 = engine_spec(s, par);
    lemma_passes_preserve(s, par);
    assert(e1.len() == n);
    lemma_pass1_pair(s, e1, par, n);
    let a1 = pass1_upto(s, par, n);
    let b1 = pass1_upto(e1, par, n);
    assert(kinematics_eq(a1, b1, par));
    lemma_ext_pair(a1, b1, par, n);
    let a2 = ext_upto(a1, par, n);
    let b2 = ext_upto(b1, par, n);
    assert(kinematics_eq(a2, b2, par));
    lemma_pass2_pair(a2, b2, par, n);
    let a3 = pass2_upto(a2, par, n);
    let b3 = pass2_upto(b2, par, n);
    lemma_pass3_pair(a3, b3, par, n);
    let p3a = pass3_upto(a3, par, n);
    let p3b = pass3_upto(b3, par, n);
    assert(engine_spec(s, par) == p3a);
    assert(engine_spec(e1, par) == p3b);
    assert forall|i: int|
        0 <= i < s.len() implies (#[trigger] engine_spec(engine_spec(s, par), par)[i]).qdd
        == engine_spec(s, par)[i].qdd && engine_spec(engine_spec(s, par), par)[i].a == engine_spec(
        s,
        par,
    )[i].a by {
        if par[i] as int == i {
            assert(root_similar(p3a[i], p3b[i]));
        } else {
            assert(p3a[i] == p3b[i]);
        }
    }
}

} // verus!
