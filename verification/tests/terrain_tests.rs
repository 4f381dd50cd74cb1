use car_dynamics::examples::{steps, table_top, wave};
use car_dynamics::fx::Fx;
use car_dynamics::linalg::Vec3;
use car_dynamics::terrain::{
    mirror_point, rotate_point, GridTerrain, Mirror, Plane, Rotate, RotationDirection, Slope, Step,
    StepSlope, Tile,
};

fn whole(n: i64) -> Fx {
    Fx::whole(n)
}

fn fx(m: i64) -> Fx {
    Fx::millionths(m)
}

fn v(x: Fx, y: Fx, z: Fx) -> Vec3 {
    Vec3::new(x, y, z)
}

#[test]
fn plane_round_trip_below_and_above() {
    let plane = Plane { size: [whole(10), whole(10)] };
    let hit = plane.interference(v(whole(3), whole(4), whole(-1))).unwrap();
    assert_eq!(hit.magnitude, whole(1));
    assert_eq!(hit.normal, Vec3::unit_z());
    assert_eq!(hit.position, v(whole(3), whole(4), whole(0)));
    assert!(plane.interference(v(whole(3), whole(4), whole(1))).is_none());
}

#[test]
fn grid_lookup_shifts_into_the_tile_and_back() {
    // a 2x2 grid of flat tiles with 10-unit cells
    let row = || vec![
        Tile::Plane(Plane { size: [whole(10), whole(10)] }),
        Tile::Plane(Plane { size: [whole(10), whole(10)] }),
    ];
    let terrain = GridTerrain::new(vec![row(), row()], [whole(10), whole(10)]);
    let hit = terrain.interference(v(whole(15), whole(12), fx(-500_000))).unwrap();
    assert_eq!(hit.magnitude, fx(500_000));
    assert_eq!(hit.position, v(whole(15), whole(12), whole(0)));
    assert_eq!(hit.normal, Vec3::unit_z());
}

#[test]
fn outside_the_grid_the_terrain_is_a_flat_plane() {
    let terrain = GridTerrain::new(Vec::new(), [whole(10), whole(10)]);
    let hit = terrain.interference(v(whole(-5), whole(100), whole(-2))).unwrap();
    assert_eq!(hit.magnitude, whole(2));
    assert_eq!(hit.normal, Vec3::unit_z());
    assert!(terrain.interference(v(whole(-5), whole(100), whole(2))).is_none());
}

#[test]
fn slope_pushes_along_its_tilted_normal() {
    // 3-4-5 geometry: size 4, height 3 gives the exact normal (0, 0.6, 0.8)
    let slope = Slope { size: whole(4), height: whole(3), rotate: Rotate::Zero };
    // the surface passes through (x, 0, 3); query below it
    let hit = slope.interference(v(whole(2), whole(0), whole(2))).unwrap();
    assert_eq!(hit.normal, v(fx(0), fx(600_000), fx(800_000)));
    assert_eq!(hit.magnitude, fx(800_000));
    assert!(slope.interference(v(whole(2), whole(0), fx(3_100_000))).is_none());
}

#[test]
fn step_contacts_deck_riser_and_sides() {
    let step = Step {
        size: whole(4),
        height: whole(1),
        rotate: Rotate::Zero,
        mirror: Mirror::Identity,
    };
    // over the low half: plain ground
    let low = step.interference(v(whole(1), whole(2), fx(-200_000))).unwrap();
    assert_eq!(low.normal, Vec3::unit_z());
    assert_eq!(low.magnitude, fx(200_000));
    // over the deck, just below its surface
    let deck = step.interference(v(whole(3), whole(2), fx(900_000))).unwrap();
    assert_eq!(deck.normal, Vec3::unit_z());
    assert_eq!(deck.magnitude, fx(100_000));
    assert_eq!(deck.position, v(whole(3), whole(2), whole(1)));
    // just past the riser, nearer to it than to the deck
    let riser = step.interference(v(fx(2_050_000), whole(2), fx(500_000))).unwrap();
    assert_eq!(riser.normal, Vec3::unit_x().neg());
    assert_eq!(riser.magnitude, fx(50_000));
}

#[test]
fn mirrored_rotated_step_equals_the_transformed_canonical_query() {
    let size = whole(4);
    let canonical = Step {
        size,
        height: whole(1),
        rotate: Rotate::Zero,
        mirror: Mirror::Identity,
    };
    let transformed = Step {
        size,
        height: whole(1),
        rotate: Rotate::Ninety,
        mirror: Mirror::XZ,
    };
    let samples = [
        v(fx(500_000), whole(1), fx(-100_000)),
        v(whole(3), whole(2), fx(900_000)),
        v(fx(2_050_000), whole(1), fx(500_000)),
        v(whole(3), fx(100_000), fx(500_000)),
        v(whole(5), whole(1), fx(-100_000)),
    ];
    for p in samples.iter() {
        // inverse-transform the query point by hand
        let mut q = *p;
        rotate_point(&mut q, size, &Rotate::Ninety, RotationDirection::Reverse);
        mirror_point(&mut q, size, &Mirror::XZ);
        let direct = transformed.interference(*p);
        let via_canonical = canonical.interference(q).map(|mut i| {
            i.mirror(size, &Mirror::XZ);
            i.rotate(size, &Rotate::Ninety, RotationDirection::Forward);
            i
        });
        assert_eq!(direct, via_canonical);
    }
}

#[test]
fn step_slope_ramps_between_ground_and_deck() {
    let tile = StepSlope {
        size: whole(4),
        height: whole(3),
        rotate: Rotate::Zero,
        mirror: Mirror::Identity,
    };
    // low half is flat ground
    let low = tile.interference(v(whole(1), whole(2), fx(-100_000))).unwrap();
    assert_eq!(low.normal, Vec3::unit_z());
    // high half slopes with the 3-4-5 normal
    let high = tile.interference(v(whole(3), whole(0), whole(2))).unwrap();
    assert_eq!(high.normal, v(fx(0), fx(600_000), fx(800_000)));
}

#[test]
fn wave_tile_height_matches_the_cosine_factors() {
    let tiles = wave(whole(8), whole(1), whole(8));
    // the middle tile is the bare cosine: at x == wave_length/2 the surface
    // sits near -1, so a point just above -1 is outside, just below is inside
    if let Tile::Function(f) = &tiles[1][1] {
        let below = f.interference(v(whole(4), whole(4), fx(-1_100_000)));
        let above = f.interference(v(whole(4), whole(4), fx(-900_000)));
        assert!(below.is_some());
        assert!(above.is_none());
        let hit = below.unwrap();
        // cos(pi) to fixed-point accuracy
        assert!((hit.position.z.m + 1_000_000).abs() < 2_000);
    } else {
        panic!("middle tile is not an analytic surface");
    }
}

#[test]
fn example_grids_have_the_documented_shapes() {
    let table = table_top(whole(20), whole(2));
    assert_eq!(table.len(), 2);
    assert_eq!(table[0].len(), 3);
    let stair = steps(whole(20), vec![fx(200_000), fx(400_000), fx(600_000)]);
    assert_eq!(stair.len(), 3);
    assert_eq!(stair[0].len(), 3);
    let washboard = wave(whole(20), fx(300_000), whole(4));
    assert_eq!(washboard.len(), 3);
    assert_eq!(washboard[2].len(), 3);
}

#[test]
fn table_top_ramp_is_climbable_from_the_outside() {
    // the table-top's first tile is a sloped step rotated a quarter turn;
    // a point deep under its low edge still reports ground contact
    let table = table_top(whole(20), whole(2));
    let tile = &table[0][0];
    let hit = tile.interference(v(whole(10), whole(1), fx(-100_000)));
    assert!(hit.is_some());
}
