use car_dynamics::fx::{Fx, SCALE};
use car_dynamics::linalg::{Mat3, Vec3};
use car_dynamics::sva::{Force, Inertia, Motion, Xform};

fn fx(m: i64) -> Fx {
    Fx::millionths(m)
}

fn whole(n: i64) -> Fx {
    Fx::whole(n)
}

#[test]
fn fixed_point_products_round_toward_zero() {
    assert_eq!(fx(1_500_000).times(fx(1_500_000)).m, 2_250_000);
    assert_eq!(fx(-1_500_000).times(fx(1_500_000)).m, -2_250_000);
    assert_eq!(fx(1).times(fx(1)).m, 0);
    assert_eq!(whole(3).over(whole(2)).m, 1_500_000);
    assert_eq!(whole(-3).over(whole(2)).m, -1_500_000);
}

#[test]
fn fixed_point_saturates_instead_of_wrapping() {
    let big = Fx { m: i64::MAX };
    assert_eq!(big.plus(big).m, i64::MAX);
    assert_eq!(Fx { m: i64::MIN }.neg().m, i64::MAX);
    assert_eq!(big.times(big).m, i64::MAX);
}

#[test]
fn vector_norm_is_exact_on_pythagorean_triples() {
    let v = Vec3::new(whole(3), whole(4), whole(0));
    assert_eq!(v.norm().m, 5_000_000);
    let n = v.normalize();
    assert_eq!(n.x.m, 600_000);
    assert_eq!(n.y.m, 800_000);
    assert_eq!(n.z.m, 0);
}

#[test]
fn cross_product_follows_the_right_hand_rule() {
    let x = Vec3::unit_x();
    let y = Vec3::unit_y();
    let z = x.cross(y);
    assert_eq!(z, Vec3::unit_z());
    assert_eq!(y.cross(x), Vec3::unit_z().neg());
}

#[test]
fn transform_point_subtracts_then_rotates() {
    let t = Xform::pos(whole(1), whole(2), whole(3));
    let p = t.transform_point(Vec3::new(whole(1), whole(2), whole(4)));
    assert_eq!(p, Vec3::new(whole(0), whole(0), whole(1)));
}

#[test]
fn inverse_undoes_a_translation() {
    let t = Xform::pos(whole(5), whole(-2), whole(7));
    let p = Vec3::new(whole(10), whole(20), whole(30));
    let roundtrip = t.inverse().transform_point(t.transform_point(p));
    assert_eq!(roundtrip, p);
}

#[test]
fn inverse_undoes_a_quarter_turn() {
    // a quarter turn about z maps x to y; cos/sin there are exact
    let t = Xform::rotz(Fx { m: 1_570_796 });
    // the rotation is a frame change: it carries coordinates, so the x axis
    // lands on minus y; the circular functions are truncated series, good to
    // about a part in a thousand at the quadrant edge
    let p = t.rotate(Vec3::unit_x());
    assert!(p.x.m.abs() <= 2_000);
    assert!((p.y.m + SCALE).abs() <= 2_000);
    let back = t.inverse().rotate(p);
    assert!((back.x.m - SCALE).abs() <= 5_000);
    assert!(back.y.m.abs() <= 5_000);
}

#[test]
fn composition_is_associative_on_points() {
    // axis-flip rotations and whole translations compose exactly
    let flip = Mat3::from_rows(
        Vec3::new(whole(-1), whole(0), whole(0)),
        Vec3::new(whole(0), whole(1), whole(0)),
        Vec3::new(whole(0), whole(0), whole(-1)),
    );
    let a = Xform::new(Vec3::new(whole(1), whole(2), whole(3)), flip);
    let b = Xform::new(Vec3::new(whole(-4), whole(5), whole(6)), Mat3::identity());
    let c = Xform::new(Vec3::new(whole(7), whole(-8), whole(9)), flip);
    let p = Vec3::new(whole(10), whole(11), whole(12));
    let left = a.compose(b).compose(c).transform_point(p);
    let right = a.compose(b.compose(c)).transform_point(p);
    assert_eq!(left, right);
}

#[test]
fn identity_composed_with_inverse_acts_as_identity() {
    let flip = Mat3::from_rows(
        Vec3::new(whole(0), whole(1), whole(0)),
        Vec3::new(whole(-1), whole(0), whole(0)),
        Vec3::new(whole(0), whole(0), whole(1)),
    );
    let a = Xform::new(Vec3::new(whole(3), whole(-1), whole(2)), flip);
    let p = Vec3::new(whole(4), whole(5), whole(6));
    let composed = a.compose(a.inverse());
    assert_eq!(composed.transform_point(p), p);
    let m = Motion::new(Vec3::new(whole(1), whole(2), whole(3)), Vec3::new(whole(4), whole(5), whole(6)));
    let m2 = composed.xform_motion(m);
    assert_eq!(m2, m);
    let f = Force::new(Vec3::new(whole(1), whole(0), whole(2)), Vec3::new(whole(0), whole(3), whole(0)));
    assert_eq!(composed.xform_force(f), f);
}

#[test]
fn inertia_maps_velocity_to_momentum() {
    let i = Inertia::new(whole(2), Vec3::zero(), Mat3::zero());
    let m = Motion::new(Vec3::new(whole(3), whole(0), whole(0)), Vec3::zero());
    let f = i.mul_motion(m);
    assert_eq!(f.f, Vec3::new(whole(6), whole(0), whole(0)));
    assert_eq!(f.m, Vec3::zero());
}

#[test]
fn articulated_conversion_keeps_the_mass_block() {
    let i = Inertia::new(whole(2), Vec3::zero(), Mat3::zero());
    let ab = i.to_articulated();
    let m = Motion::new(Vec3::new(whole(3), whole(0), whole(0)), Vec3::zero());
    assert_eq!(ab.mul_motion(m).f, Vec3::new(whole(6), whole(0), whole(0)));
}

#[test]
fn power_pairing_sums_both_blocks() {
    let m = Motion::new(Vec3::new(whole(2), whole(0), whole(0)), Vec3::new(whole(0), whole(3), whole(0)));
    let f = Force::new(Vec3::new(whole(5), whole(0), whole(0)), Vec3::new(whole(0), whole(7), whole(0)));
    // w.m + v.f = 3*7 + 2*5
    assert_eq!(m.pair(f), Fx::whole(31));
}
