//! Ready-made terrain layouts built from the tile shapes.

use vstd::prelude::*;

use crate::fx::Fx;
use crate::terrain::{Function, HeightTerm, Mirror, Plane, Rotate, Step, StepSlope, Tile};

verus! {

/// A table-top obstacle: a ramp up, a flat deck, and a ramp down, two rows
/// deep, built from rotated and mirrored sloped-step tiles.
pub fn table_top(size: Fx, height: Fx) -> (r: Vec<Vec<Tile>>)
    ensures
        r@.len() == 2,
        r@[0]@ == seq![
            Tile::StepSlope(
                StepSlope { size, height, mirror: Mirror::Identity, rotate: Rotate::Ninety },
            ),
            Tile::Step(Step { size, height, mirror: Mirror::Identity, rotate: Rotate::Ninety }),
            Tile::StepSlope(
                StepSlope { size, height, mirror: Mirror::YZ, rotate: Rotate::TwoSeventy },
            ),
        ],
        r@[1]@ == seq![
            Tile::StepSlope(
                StepSlope { size, height, mirror: Mirror::YZ, rotate: Rotate::Ninety },
            ),
            Tile::Step(
                Step { size, height, mirror: Mirror::Identity, rotate: Rotate::TwoSeventy },
            ),
            Tile::StepSlope(
                StepSlope { size, height, mirror: Mirror::Identity, rotate: Rotate::TwoSeventy },
            ),
        ],
{
    let row0: Vec<Tile> = vec![
        Tile::StepSlope(
            StepSlope { size, height, mirror: Mirror::Identity, rotate: Rotate::Ninety },
        ),
        Tile::Step(Step { size, height, mirror: Mirror::Identity, rotate: Rotate::Ninety }),
        Tile::StepSlope(
            StepSlope { size, height, mirror: Mirror::YZ, rotate: Rotate::TwoSeventy },
        ),
    ];
    let row1: Vec<Tile> = vec![
        Tile::StepSlope(StepSlope { size, height, mirror: Mirror::YZ, rotate: Rotate::Ninety }),
        Tile::Step(Step { size, height, mirror: Mirror::Identity, rotate: Rotate::TwoSeventy }),
        Tile::StepSlope(
            StepSlope { size, height, mirror: Mirror::Identity, rotate: Rotate::TwoSeventy },
        ),
    ];
    let r: Vec<Vec<Tile>> = vec![row0, row1];
    proof {
        assert(r@[0]@ =~= seq![
            Tile::StepSlope(
                StepSlope { size, height, mirror: Mirror::Identity, rotate: Rotate::Ninety },
            ),
            Tile::Step(Step { size, height, mirror: Mirror::Identity, rotate: Rotate::Ninety }),
            Tile::StepSlope(
                StepSlope { size, height, mirror: Mirror::YZ, rotate: Rotate::TwoSeventy },
            ),
        ]);
        assert(r@[1]@ =~= seq![
            Tile::StepSlope(
                StepSlope { size, height, mirror: Mirror::YZ, rotate: Rotate::Ninety },
            ),
            Tile::Step(
                Step { size, height, mirror: Mirror::Identity, rotate: Rotate::TwoSeventy },
            ),
            Tile::StepSlope(
                StepSlope { size, height, mirror: Mirror::Identity, rotate: Rotate::TwoSeventy },
            ),
        ]);
    }
    r
}

/// A staircase: one row per height, each a forward step, a reversed step,
/// and a flat tile.
pub fn steps(size: Fx, heights: Vec<Fx>) -> (r: Vec<Vec<Tile>>)
    ensures
        r@.len() == heights@.len(),
        forall|i: int|
            0 <= i < heights@.len() ==> (#[trigger] r@[i])@ == seq![
                Tile::Step(
                    Step {
                        size,
                        height: heights@[i],
                        mirror: Mirror::Identity,
                        rotate: Rotate::Zero,
                    },
                ),
                Tile::Step(
                    Step {
                        size,
                        height: heights@[i],
                        mirror: Mirror::Identity,
                        rotate: Rotate::OneEighty,
                    },
                ),
                Tile::Plane(Plane { size: [size, size] }),
            ],
{
    let n: usize = heights.len();
    let mut r: Vec<Vec<Tile>> = Vec::new();
    let mut i: usize = 0;
    while i < n
        invariant
            n == heights@.len(),
            i <= n,
            r@.len() == i,
            forall|k: int|
                0 <= k < i ==> (#[trigger] r@[k])@ == seq![
                    Tile::Step(
                        Step {
                            size,
                            height: heights@[k],
                            mirror: Mirror::Identity,
                            rotate: Rotate::Zero,
                        },
                    ),
                    Tile::Step(
                        Step {
                            size,
                            height: heights@[k],
                            mirror: Mirror::Identity,
                            rotate: Rotate::OneEighty,
                        },
                    ),
                    Tile::Plane(Plane { size: [size, size] }),
                ],
        decreases n - i,
    {
        let height: Fx = heights[i];
        let row: Vec<Tile> = vec![
            Tile::Step(Step { size, height, mirror: Mirror::Identity, rotate: Rotate::Zero }),
            Tile::Step(Step { size, height, mirror: Mirror::Identity, rotate: Rotate::OneEighty }),
            Tile::Plane(Plane { size: [size, size] }),
        ];
        proof {
            assert(row@ =~= seq![
                Tile::Step(
                    Step { size, height, mirror: Mirror::Identity, rotate: Rotate::Zero },
                ),
                Tile::Step(
                    Step { size, height, mirror: Mirror::Identity, rotate: Rotate::OneEighty },
                ),
                Tile::Plane(Plane { size: [size, size] }),
            ]);
        }
        r.push(row);
        i = i + 1;
    }
    r
}

/// Whether a tile is the analytic wave surface with the given factors.
pub open spec fn is_wave_tile(t: Tile, size: Fx, terms: Seq<HeightTerm>) -> bool {
    &&& t matches Tile::Function(f)
    &&& t matches Tile::Function(f) ==> f.size[0] == size && f.size[1] == size && f.terms@
        == terms
}

/// A washboard patch: a cosine wave along x over a three-by-three grid,
/// faded to zero height at the outer rows and columns by ramp factors.
pub fn wave(size: Fx, height: Fx, wave_length: Fx) -> (r: Vec<Vec<Tile>>)
    ensures
        r@.len() == 3,
        forall|i: int| 0 <= i < 3 ==> (#[trigger] r@[i])@.len() == 3,
        ({
            let c = HeightTerm::CosX { height, wave_length };
            let xs = HeightTerm::RampUpX { size };
            let xe = HeightTerm::RampDownX { size };
            let ys = HeightTerm::RampUpY { size };
            let ye = HeightTerm::RampDownY { size };
            &&& is_wave_tile(r@[0]@[0], size, seq![c, xs, ys])
            &&& is_wave_tile(r@[0]@[1], size, seq![c, ys])
            &&& is_wave_tile(r@[0]@[2], size, seq![c, xe, ys])
            &&& is_wave_tile(r@[1]@[0], size, seq![c, xs])
            &&& is_wave_tile(r@[1]@[1], size, seq![c])
            &&& is_wave_tile(r@[1]@[2], size, seq![c, xe])
            &&& is_wave_tile(r@[2]@[0], size, seq![c, xs, ye])
            &&& is_wave_tile(r@[2]@[1], size, seq![c, ye])
            &&& is_wave_tile(r@[2]@[2], size, seq![c, xe, ye])
        }),
{
    let row0: Vec<Tile> = vec![
        Tile::Function(
            Function {
                size: [size, size],
                terms: vec![
                    HeightTerm::CosX { height, wave_length },
                    HeightTerm::RampUpX { size },
                    HeightTerm::RampUpY { size },
                ],
            },
        ),
        Tile::Function(
            Function {
                size: [size, size],
                terms: vec![
                    HeightTerm::CosX { height, wave_length },
                    HeightTerm::RampUpY { size },
                ],
            },
        ),
        Tile::Function(
            Function {
                size: [size, size],
                terms: vec![
                    HeightTerm::CosX { height, wave_length },
                    HeightTerm::RampDownX { size },
                    HeightTerm::RampUpY { size },
                ],
            },
        ),
    ];
    let row1: Vec<Tile> = vec![
        Tile::Function(
            Function {
                size: [size, size],
                terms: vec![
                    HeightTerm::CosX { height, wave_length },
                    HeightTerm::RampUpX { size },
                ],
            },
        ),
        Tile::Function(
            Function {
                size: [size, size],
                terms: vec![HeightTerm::CosX { height, wave_length }],
            },
        ),
        Tile::Function(
            Function {
                size: [size, size],
                terms: vec![
                    HeightTerm::CosX { height, wave_length },
                    HeightTerm::RampDownX { size },
                ],
            },
        ),
    ];
    let row2: Vec<Tile> = vec![
        Tile::Function(
            Function {
                size: [size, size],
                terms: vec![
                    HeightTerm::CosX { height, wave_length },
                    HeightTerm::RampUpX { size },
                    HeightTerm::RampDownY { size },
                ],
            },
        ),
        Tile::Function(
            Function {
                size: [size, size],
                terms: vec![
                    HeightTerm::CosX { height, wave_length },
                    HeightTerm::RampDownY { size },
                ],
            },
        ),
        Tile::Function(
            Function {
                size: [size, size],
                terms: vec![
                    HeightTerm::CosX { height, wave_length },
                    HeightTerm::RampDownX { size },
                    HeightTerm::RampDownY { size },
                ],
            },
        ),
    ];
    let r: Vec<Vec<Tile>> = vec![row0, row1, row2];
    proof {
        let cg = HeightTerm::CosX { height, wave_length };
        let xs = HeightTerm::RampUpX { size };
        let xe = HeightTerm::RampDownX { size };
        let ys = HeightTerm::RampUpY { size };
        let ye = HeightTerm::RampDownY { size };
        assert(r@[0]@[0] matches Tile::Function(f) && f.terms@ =~= seq![cg, xs, ys]);
        assert(r@[0]@[1] matches Tile::Function(f) && f.terms@ =~= seq![cg, ys]);
        assert(r@[0]@[2] matches Tile::Function(f) && f.terms@ =~= seq![cg, xe, ys]);
        assert(r@[1]@[0] matches Tile::Function(f) && f.terms@ =~= seq![cg, xs]);
        assert(r@[1]@[1] matches Tile::Function(f) && f.terms@ =~= seq![cg]);
        assert(r@[1]@[2] matches Tile::Function(f) && f.terms@ =~= seq![cg, xe]);
        assert(r@[2]@[0] matches Tile::Function(f) && f.terms@ =~= seq![cg, xs, ye]);
        assert(r@[2]@[1] matches Tile::Function(f) && f.terms@ =~= seq![cg, ye]);
        assert(r@[2]@[2] matches Tile::Function(f) && f.terms@ =~= seq![cg, xe, ye]);
    }
    r
}

} // verus!
