//! Tileable analytic terrain height-field.
//!
//! A terrain is a rectangular grid of analytic surface tiles over a uniform
//! cell size; outside the grid it is an infinite flat plane at height zero.
//! Each tile answers a local point-vs-surface interference query; a tile may
//! mirror and/or rotate a canonical definition, applying the inverse
//! transform to the incoming query point and the forward transform to the
//! returned contact.  Every query is specified exactly by a spec function
//! over the fixed-point views.

use vstd::prelude::*;

use crate::fx::{fadd, fdiv, fmul, fneg, fsub, tdiv, Fx, SCALE};
use crate::linalg::{V3, Vec3};

verus! {

/// Optional reflection of a canonical tile across one vertical plane.
#[derive(Clone, Copy, Debug, PartialEq, Eq, Structural)]
pub enum Mirror {
    /// No reflection.
    Identity,
    /// Reflect across the x-z plane (flip y).
    XZ,
    /// Reflect across the y-z plane (flip x).
    YZ,
}

/// Which way a quarter-turn transform is applied.
#[derive(Clone, Copy, Debug, PartialEq, Eq, Structural)]
pub enum RotationDirection {
    Forward,
    Reverse,
}

/// Rotation of a canonical tile by a multiple of a quarter turn.
#[derive(Clone, Copy, Debug, PartialEq, Eq, Structural)]
pub enum Rotate {
    Zero,
    Ninety,
    OneEighty,
    TwoSeventy,
}

/// Mathematical view of an interference result.
pub ghost struct InterferenceV {
    pub magnitude: int,
    pub position: V3,
    pub normal: V3,
}

/// A local contact query result: penetration depth, contact position,
/// outward surface normal.
#[derive(Clone, Copy, Debug, PartialEq, Eq, Structural)]
pub struct Interference {
    pub magnitude: Fx,
    pub position: Vec3,
    pub normal: Vec3,
}

impl View for Interference {
    type V = InterferenceV;

    open spec fn view(&self) -> InterferenceV {
        InterferenceV { magnitude: self.magnitude@, position: self.position@, normal: self.normal@ }
    }
}

/// A query point carried back into a canonical tile's frame: the inverse of
/// the tile's mirror.
pub open spec fn mirror_point_spec(p: V3, size: int, m: Mirror) -> V3 {
    match m {
        Mirror::Identity => p,
        Mirror::XZ => V3 { y: fsub(size, p.y), ..p },
        Mirror::YZ => V3 { x: fsub(size, p.x), ..p },
    }
}

/// A query point carried by a quarter-turn rotation of the tile square.
pub open spec fn rotate_point_spec(p: V3, size: int, r: Rotate, dir: RotationDirection) -> V3 {
    match (r, dir) {
        (Rotate::Zero, _) => p,
        (Rotate::Ninety, RotationDirection::Forward) | (
            Rotate::TwoSeventy,
            RotationDirection::Reverse,
        ) => V3 { x: fsub(size, p.y), y: p.x, ..p },
        (Rotate::OneEighty, _) => V3 { x: fsub(size, p.x), y: fsub(size, p.y), ..p },
        (Rotate::TwoSeventy, RotationDirection::Forward) | (
            Rotate::Ninety,
            RotationDirection::Reverse,
        ) => V3 { x: p.y, y: fsub(size, p.x), ..p },
    }
}

/// A contact result carried forward out of a canonical tile's frame by the
/// tile's mirror: the position reflects, the normal's component flips.
pub open spec fn mirror_interference_spec(i: InterferenceV, size: int, m: Mirror) -> InterferenceV {
    match m {
        Mirror::Identity => i,
        Mirror::XZ => InterferenceV {
            position: V3 { y: fsub(size, i.position.y), ..i.position },
            normal: V3 { y: fneg(i.normal.y), ..i.normal },
            ..i
        },
        Mirror::YZ => InterferenceV {
            position: V3 { x: fsub(size, i.position.x), ..i.position },
            normal: V3 { x: fneg(i.normal.x), ..i.normal },
            ..i
        },
    }
}

/// A contact result carried by a quarter-turn rotation of the tile square.
pub open spec fn rotate_interference_spec(
    i: InterferenceV,
    size: int,
    r: Rotate,
    dir: RotationDirection,
) -> InterferenceV {
    match (r, dir) {
        (Rotate::Zero, _) => i,
        (Rotate::Ninety, RotationDirection::Forward) | (
            Rotate::TwoSeventy,
            RotationDirection::Reverse,
        ) => InterferenceV {
            position: V3 { x: fsub(size, i.position.y), y: i.position.x, ..i.position },
            normal: V3 { x: fneg(i.normal.y), y: i.normal.x, ..i.normal },
            ..i
        },
        (Rotate::OneEighty, _) => InterferenceV {
            position: V3 {
                x: fsub(size, i.position.x),
                y: fsub(size, i.position.y),
                ..i.position
            },
            normal: V3 { x: fneg(i.normal.x), y: fneg(i.normal.y), ..i.normal },
            ..i
        },
        (Rotate::TwoSeventy, RotationDirection::Forward) | (
            Rotate::Ninety,
            RotationDirection::Reverse,
        ) => InterferenceV {
            position: V3 { x: i.position.y, y: fsub(size, i.position.x), ..i.position },
            normal: V3 { x: i.normal.y, y: fneg(i.normal.x), ..i.normal },
            ..i
        },
    }
}

/// Carry a point into a canonical tile frame (the mirror's inverse).
pub fn mirror_point(point: &mut Vec3, size: Fx, mirror: &Mirror)
    ensures
        final(point)@ == mirror_point_spec(old(point)@, size@, *mirror),
{
    match mirror {
        Mirror::Identity => {},
        Mirror::XZ => {
            point.y = size.minus(point.y);
        },
        Mirror::YZ => {
            point.x = size.minus(point.x);
        },
    }
}

/// Carry a point by a quarter-turn rotation of the tile square.
pub fn rotate_point(point: &mut Vec3, size: Fx, rotate: &Rotate, direction: RotationDirection)
    ensures
        final(point)@ == rotate_point_spec(old(point)@, size@, *rotate, direction),
{
    match (rotate, direction) {
        (Rotate::Zero, _) => {},
        (Rotate::Ninety, RotationDirection::Forward) | (
            Rotate::TwoSeventy,
            RotationDirection::Reverse,
        ) => {
            let x: Fx = point.x;
            let y: Fx = point.y;
            point.x = size.minus(y);
            point.y = x;
        },
        (Rotate::OneEighty, _) => {
            point.x = size.minus(point.x);
            point.y = size.minus(point.y);
        },
        (Rotate::TwoSeventy, RotationDirection::Forward) | (
            Rotate::Ninety,
            RotationDirection::Reverse,
        ) => {
            let x: Fx = point.x;
            let y: Fx = point.y;
            point.x = y;
            point.y = size.minus(x);
        },
    }
}

impl Interference {
    /// Carry a contact result out of a canonical tile frame.
    pub fn mirror(&mut self, size: Fx, mirror: &Mirror)
        ensures
            final(self)@ == mirror_interference_spec(old(self)@, size@, *mirror),
    {
        match mirror {
            Mirror::Identity => {},
            Mirror::XZ => {
                self.position.y = size.minus(self.position.y);
                self.normal.y = self.normal.y.neg();
            },
            Mirror::YZ => {
                self.position.x = size.minus(self.position.x);
                self.normal.x = self.normal.x.neg();
            },
        }
    }

    /// Carry a contact result by a quarter-turn rotation.
    pub fn rotate(&mut self, size: Fx, rotate: &Rotate, direction: RotationDirection)
        ensures
            final(self)@ == rotate_interference_spec(old(self)@, size@, *rotate, direction),
    {
        match (rotate, direction) {
            (Rotate::Zero, _) => {},
            (Rotate::Ninety, RotationDirection::Forward) | (
                Rotate::TwoSeventy,
                RotationDirection::Reverse,
            ) => {
                let x: Fx = self.position.x;
                let y: Fx = self.position.y;
                self.position.x = size.minus(y);
                self.position.y = x;
                let nx: Fx = self.normal.x;
                let ny: Fx = self.normal.y;
                self.normal.x = ny.neg();
                self.normal.y = nx;
            },
            (Rotate::OneEighty, _) => {
                self.position.x = size.minus(self.position.x);
                self.position.y = size.minus(self.position.y);
                self.normal.x = self.normal.x.neg();
                self.normal.y = self.normal.y.neg();
            },
            (Rotate::TwoSeventy, RotationDirection::Forward) | (
                Rotate::Ninety,
                RotationDirection::Reverse,
            ) => {
                let x: Fx = self.position.x;
                let y: Fx = self.position.y;
                self.position.x = y;
                self.position.y = size.minus(x);
                let nx: Fx = self.normal.x;
                let ny: Fx = self.normal.y;
                self.normal.x = ny;
                self.normal.y = nx.neg();
            },
        }
    }
}

/// An infinite flat plane at height zero: contact exactly below it.
pub open spec fn plane_interference_spec(p: V3) -> Option<InterferenceV> {
    if p.z < 0 {
        Some(
            InterferenceV {
                magnitude: fneg(p.z),
                position: V3 { x: p.x, y: p.y, z: 0 },
                normal: V3 { x: 0, y: 0, z: SCALE as int },
            },
        )
    } else {
        None
    }
}

/// A flat tile of the given planar extent (the extent only matters to
/// authoring; the surface itself is the plane at height zero).
#[derive(Clone, Copy, Debug)]
pub struct Plane {
    pub size: [Fx; 2],
}

impl Plane {
    /// Local interference query against the plane at height zero.
    pub fn interference(&self, point: Vec3) -> (r: Option<Interference>)
        ensures
            interference_options_match(r, plane_interference_spec(point@)),
    {
        if point.z.lt(Fx::zero()) {
            Some(
                Interference {
                    magnitude: point.z.neg(),
                    position: Vec3 { x: point.x, y: point.y, z: Fx::zero() },
                    normal: Vec3::unit_z(),
                },
            )
        } else {
            None
        }
    }
}

/// Whether an executable query result equals a spec-level one.
pub open spec fn interference_options_match(
    r: Option<Interference>,
    s: Option<InterferenceV>,
) -> bool {
    match r {
        Some(i) => s == Some(i@),
        None => s is None,
    }
}

/// A single-slope ramp tile: flat at `z = height` along `y = 0` falling to
/// `z = 0` at `y = size`, optionally rotated by quarter turns.
#[derive(Clone, Copy, Debug)]
pub struct Slope {
    pub size: Fx,
    pub height: Fx,
    pub rotate: Rotate,
}

/// Canonical slope query, before and after the tile's rotation.
pub open spec fn slope_interference_spec(size: int, height: int, rotate: Rotate, p0: V3) -> Option<
    InterferenceV,
> {
    let p = rotate_point_spec(p0, size, rotate, RotationDirection::Reverse);
    if p.z > height {
        None
    } else if p.x < 0 || p.x > size || p.y < 0 || p.y > size {
        None
    } else {
        let tn = V3 { x: 0, y: height, z: size };
        if tn.norm() == 0 {
            None
        } else {
            let top_normal = tn.scale_div(tn.norm());
            let top_point = V3 { x: 0, y: 0, z: height };
            let ni = fneg(top_normal.dot(p.minus(top_point)));
            if ni < 0 {
                None
            } else {
                Some(
                    rotate_interference_spec(
                        InterferenceV {
                            magnitude: ni,
                            position: p.minus(top_normal.scale(ni)),
                            normal: top_normal,
                        },
                        size,
                        rotate,
                        RotationDirection::Forward,
                    ),
                )
            }
        }
    }
}

impl Slope {
    /// Local interference query against the ramp surface.
    pub fn interference(&self, point: Vec3) -> (r: Option<Interference>)
        ensures
            interference_options_match(
                r,
                slope_interference_spec(self.size@, self.height@, self.rotate, point@),
            ),
    {
        let mut p: Vec3 = point;
        rotate_point(&mut p, self.size, &self.rotate, RotationDirection::Reverse);
        if self.height.lt(p.z) {
            return None;
        }
        if p.x.lt(Fx::zero()) || self.size.lt(p.x) || p.y.lt(Fx::zero()) || self.size.lt(p.y) {
            return None;
        }
        let tn: Vec3 = Vec3 { x: Fx::zero(), y: self.height, z: self.size };
        if tn.norm().is_zero() {
            return None;
        }
        let top_normal: Vec3 = tn.normalize();
        let top_point: Vec3 = Vec3 { x: Fx::zero(), y: Fx::zero(), z: self.height };
        let ni: Fx = top_normal.dot(p.minus(top_point)).neg();
        if ni.lt(Fx::zero()) {
            return None;
        }
        let mut interference = Interference {
            magnitude: ni,
            position: p.minus(top_normal.scale(ni)),
            normal: top_normal,
        };
        interference.rotate(self.size, &self.rotate, RotationDirection::Forward);
        Some(interference)
    }
}

/// A stepped ledge tile: ground at `z = 0` for `x < size/2`, a deck at
/// `z = height` beyond it, with a vertical riser; optionally mirrored and
/// rotated.
#[derive(Clone, Copy, Debug)]
pub struct Step {
    pub size: Fx,
    pub height: Fx,
    pub rotate: Rotate,
    pub mirror: Mirror,
}

/// Wrap a canonical contact result by a tile's mirror, then its rotation.
pub open spec fn wrap_interference_spec(
    i: InterferenceV,
    size: int,
    rotate: Rotate,
    mirror: Mirror,
) -> Option<InterferenceV> {
    Some(
        rotate_interference_spec(
            mirror_interference_spec(i, size, mirror),
            size,
            rotate,
            RotationDirection::Forward,
        ),
    )
}

/// Canonical step query, inside the mirror/rotation wrappers.
pub open spec fn step_interference_spec(
    size: int,
    height: int,
    rotate: Rotate,
    mirror: Mirror,
    p0: V3,
) -> Option<InterferenceV> {
    let p = mirror_point_spec(rotate_point_spec(p0, size, rotate, RotationDirection::Reverse), size, mirror);
    let half = fmul(size, 500_000);
    if p.z > height {
        None
    } else if p.x < 0 || p.x > size || p.y < 0 || p.y > size {
        None
    } else if p.x < half {
        if p.z > 0 {
            None
        } else {
            wrap_interference_spec(
                InterferenceV {
                    magnitude: fneg(p.z),
                    position: V3 { x: p.x, y: p.y, z: 0 },
                    normal: V3 { x: 0, y: 0, z: SCALE as int },
                },
                size,
                rotate,
                mirror,
            )
        }
    } else {
        let zi = fsub(height, p.z);
        let xi = fsub(p.x, half);
        let ypi = fsub(size, p.y);
        let yni = p.y;
        if xi > zi && ypi > zi && yni > zi {
            wrap_interference_spec(
                InterferenceV {
                    magnitude: zi,
                    position: V3 { x: p.x, y: p.y, z: height },
                    normal: V3 { x: 0, y: 0, z: SCALE as int },
                },
                size,
                rotate,
                mirror,
            )
        } else if ypi > xi && yni > xi {
            wrap_interference_spec(
                InterferenceV {
                    magnitude: xi,
                    position: V3 { x: half, y: p.y, z: p.z },
                    normal: V3 { x: fneg(SCALE as int), y: 0, z: 0 },
                },
                size,
                rotate,
                mirror,
            )
        } else if ypi > yni {
            wrap_interference_spec(
                InterferenceV {
                    magnitude: yni,
                    position: V3 { x: p.x, y: 0, z: p.z },
                    normal: V3 { x: 0, y: fneg(SCALE as int), z: 0 },
                },
                size,
                rotate,
                mirror,
            )
        } else {
            wrap_interference_spec(
                InterferenceV {
                    magnitude: ypi,
                    position: V3 { x: p.x, y: size, z: p.z },
                    normal: V3 { x: 0, y: SCALE as int, z: 0 },
                },
                size,
                rotate,
                mirror,
            )
        }
    }
}

impl Step {
    /// Local interference query against the ledge: contacts are pushed out
    /// through whichever face (deck, riser, or side) is nearest.
    pub fn interference(&self, point: Vec3) -> (r: Option<Interference>)
        ensures
            interference_options_match(
                r,
                step_interference_spec(self.size@, self.height@, self.rotate, self.mirror, point@),
            ),
    {
        let mut p: Vec3 = point;
        rotate_point(&mut p, self.size, &self.rotate, RotationDirection::Reverse);
        mirror_point(&mut p, self.size, &self.mirror);
        let half: Fx = self.size.times(Fx { m: 500_000 });
        if self.height.lt(p.z) {
            return None;
        }
        if p.x.lt(Fx::zero()) || self.size.lt(p.x) || p.y.lt(Fx::zero()) || self.size.lt(p.y) {
            return None;
        }
        if p.x.lt(half) {
            if Fx::zero().lt(p.z) {
                return None;
            }
            let mut interference = Interference {
                magnitude: p.z.neg(),
                position: Vec3 { x: p.x, y: p.y, z: Fx::zero() },
                normal: Vec3::unit_z(),
            };
            interference.mirror(self.size, &self.mirror);
            interference.rotate(self.size, &self.rotate, RotationDirection::Forward);
            return Some(interference);
        }
        let zi: Fx = self.height.minus(p.z);
        let xi: Fx = p.x.minus(half);
        let ypi: Fx = self.size.minus(p.y);
        let yni: Fx = p.y;
        let mut interference: Interference = if zi.lt(xi) && zi.lt(ypi) && zi.lt(yni) {
            Interference {
                magnitude: zi,
                position: Vec3 { x: p.x, y: p.y, z: self.height },
                normal: Vec3::unit_z(),
            }
        } else if xi.lt(ypi) && xi.lt(yni) {
            Interference {
                magnitude: xi,
                position: Vec3 { x: half, y: p.y, z: p.z },
                normal: Vec3::unit_x().neg(),
            }
        } else if yni.lt(ypi) {
            Interference {
                magnitude: yni,
                position: Vec3 { x: p.x, y: Fx::zero(), z: p.z },
                normal: Vec3::unit_y().neg(),
            }
        } else {
            Interference {
                magnitude: ypi,
                position: Vec3 { x: p.x, y: self.size, z: p.z },
                normal: Vec3::unit_y(),
            }
        };
        interference.mirror(self.size, &self.mirror);
        interference.rotate(self.size, &self.rotate, RotationDirection::Forward);
        Some(interference)
    }
}

/// A stepped ledge whose riser is the single-slope ramp: ground for
/// `x < size/2`, then a ramp falling from `z = height` at `y = 0`;
/// optionally mirrored and rotated.
#[derive(Clone, Copy, Debug)]
pub struct StepSlope {
    pub size: Fx,
    pub height: Fx,
    pub rotate: Rotate,
    pub mirror: Mirror,
}

/// Canonical sloped-step query, inside the mirror/rotation wrappers.
pub open spec fn step_slope_interference_spec(
    size: int,
    height: int,
    rotate: Rotate,
    mirror: Mirror,
    p0: V3,
) -> Option<InterferenceV> {
    let p = mirror_point_spec(rotate_point_spec(p0, size, rotate, RotationDirection::Reverse), size, mirror);
    let half = fmul(size, 500_000);
    if p.z > height {
        None
    } else if p.x < 0 || p.x > size || p.y < 0 || p.y > size {
        None
    } else if p.x < half {
        if p.z > 0 {
            None
        } else {
            wrap_interference_spec(
                InterferenceV {
                    magnitude: fneg(p.z),
                    position: p.minus((V3 { x: 0, y: 0, z: SCALE as int }).scale(p.z)),
                    normal: V3 { x: 0, y: 0, z: SCALE as int },
                },
                size,
                rotate,
                mirror,
            )
        }
    } else {
        let tn = V3 { x: 0, y: height, z: size };
        if tn.norm() == 0 {
            None
        } else {
            let top_normal = tn.scale_div(tn.norm());
            let top_corner = V3 { x: half, y: 0, z: height };
            let ni = fneg(top_normal.dot(p.minus(top_corner)));
            if ni < 0 {
                None
            } else {
                let xi = fsub(p.x, half);
                if xi > ni {
                    wrap_interference_spec(
                        InterferenceV {
                            magnitude: ni,
                            position: p.plus(top_normal.scale(ni)),
                            normal: top_normal,
                        },
                        size,
                        rotate,
                        mirror,
                    )
                } else {
                    wrap_interference_spec(
                        InterferenceV {
                            magnitude: xi,
                            position: p.minus((V3 { x: SCALE as int, y: 0, z: 0 }).scale(xi)),
                            normal: V3 { x: fneg(SCALE as int), y: 0, z: 0 },
                        },
                        size,
                        rotate,
                        mirror,
                    )
                }
            }
        }
    }
}

impl StepSlope {
    /// Local interference query against the sloped ledge.
    pub fn interference(&self, point: Vec3) -> (r: Option<Interference>)
        ensures
            interference_options_match(
                r,
                step_slope_interference_spec(
                    self.size@,
                    self.height@,
                    self.rotate,
                    self.mirror,
                    point@,
                ),
            ),
    {
        let mut p: Vec3 = point;
        rotate_point(&mut p, self.size, &self.rotate, RotationDirection::Reverse);
        mirror_point(&mut p, self.size, &self.mirror);
        let half: Fx = self.size.times(Fx { m: 500_000 });
        if self.height.lt(p.z) {
            return None;
        }
        if p.x.lt(Fx::zero()) || self.size.lt(p.x) || p.y.lt(Fx::zero()) || self.size.lt(p.y) {
            return None;
        }
        if p.x.lt(half) {
            if Fx::zero().lt(p.z) {
                return None;
            }
            let mut interference = Interference {
                magnitude: p.z.neg(),
                position: p.minus(Vec3::unit_z().scale(p.z)),
                normal: Vec3::unit_z(),
            };
            interference.mirror(self.size, &self.mirror);
            interference.rotate(self.size, &self.rotate, RotationDirection::Forward);
            return Some(interference);
        }
        let tn: Vec3 = Vec3 { x: Fx::zero(), y: self.height, z: self.size };
        if tn.norm().is_zero() {
            return None;
        }
        let top_normal: Vec3 = tn.normalize();
        let top_corner: Vec3 = Vec3 { x: half, y: Fx::zero(), z: self.height };
        let ni: Fx = top_normal.dot(p.minus(top_corner)).neg();
        if ni.lt(Fx::zero()) {
            return None;
        }
        let xi: Fx = p.x.minus(half);
        let mut interference: Interference = if ni.lt(xi) {
            Interference {
                magnitude: ni,
                position: p.plus(top_normal.scale(ni)),
                normal: top_normal,
            }
        } else {
            Interference {
                magnitude: xi,
                position: p.minus(Vec3::unit_x().scale(xi)),
                normal: Vec3::unit_x().neg(),
            }
        };
        interference.mirror(self.size, &self.mirror);
        interference.rotate(self.size, &self.rotate, RotationDirection::Forward);
        Some(interference)
    }
}

/// One analytic factor of a multiplicative height function, with its two
/// partial derivatives.
#[derive(Clone, Copy, Debug)]
pub enum HeightTerm {
    /// `x / size`.
    RampUpX { size: Fx },
    /// `1 - x / size`.
    RampDownX { size: Fx },
    /// `y / size`.
    RampUpY { size: Fx },
    /// `1 - y / size`.
    RampDownY { size: Fx },
    /// `height * cos(2*pi/wave_length * x)`.
    CosX { height: Fx, wave_length: Fx },
}

/// Value of one height factor (zero when its parameter is degenerate).
pub open spec fn term_value(t: HeightTerm, x: int, y: int) -> int {
    match t {
        HeightTerm::RampUpX { size } => if size@ == 0 {
            0
        } else {
            fdiv(x, size@)
        },
        HeightTerm::RampDownX { size } => if size@ == 0 {
            0
        } else {
            fsub(SCALE as int, fdiv(x, size@))
        },
        HeightTerm::RampUpY { size } => if size@ == 0 {
            0
        } else {
            fdiv(y, size@)
        },
        HeightTerm::RampDownY { size } => if size@ == 0 {
            0
        } else {
            fsub(SCALE as int, fdiv(y, size@))
        },
        HeightTerm::CosX { height, wave_length } => if wave_length@ == 0 {
            0
        } else {
            fmul(height@, crate::trig::cos_spec(fmul(fdiv(crate::trig::TWO_PI_FX as int, wave_length@), x)))
        },
    }
}

/// Partial derivative of one height factor along x.
pub open spec fn term_dx(t: HeightTerm, x: int, y: int) -> int {
    match t {
        HeightTerm::RampUpX { size } => if size@ == 0 {
            0
        } else {
            fdiv(SCALE as int, size@)
        },
        HeightTerm::RampDownX { size } => if size@ == 0 {
            0
        } else {
            fneg(fdiv(SCALE as int, size@))
        },
        HeightTerm::RampUpY { size } => 0,
        HeightTerm::RampDownY { size } => 0,
        HeightTerm::CosX { height, wave_length } => if wave_length@ == 0 {
            0
        } else {
            let k = fdiv(crate::trig::TWO_PI_FX as int, wave_length@);
            fneg(fmul(fmul(height@, k), crate::trig::sin_spec(fmul(k, x))))
        },
    }
}

/// Partial derivative of one height factor along y.
pub open spec fn term_dy(t: HeightTerm, x: int, y: int) -> int {
    match t {
        HeightTerm::RampUpX { size } => 0,
        HeightTerm::RampDownX { size } => 0,
        HeightTerm::RampUpY { size } => if size@ == 0 {
            0
        } else {
            fdiv(SCALE as int, size@)
        },
        HeightTerm::RampDownY { size } => if size@ == 0 {
            0
        } else {
            fneg(fdiv(SCALE as int, size@))
        },
        HeightTerm::CosX { height, wave_length } => 0,
    }
}

/// Value and both partial derivatives of one height factor.
fn term_eval(t: &HeightTerm, x: Fx, y: Fx) -> (r: (Fx, Fx, Fx))
    ensures
        r.0@ == term_value(*t, x@, y@),
        r.1@ == term_dx(*t, x@, y@),
        r.2@ == term_dy(*t, x@, y@),
{
    match t {
        HeightTerm::RampUpX { size } => {
            if size.is_zero() {
                (Fx::zero(), Fx::zero(), Fx::zero())
            } else {
                (x.over(*size), Fx::one().over(*size), Fx::zero())
            }
        },
        HeightTerm::RampDownX { size } => {
            if size.is_zero() {
                (Fx::zero(), Fx::zero(), Fx::zero())
            } else {
                (Fx::one().minus(x.over(*size)), Fx::one().over(*size).neg(), Fx::zero())
            }
        },
        HeightTerm::RampUpY { size } => {
            if size.is_zero() {
                (Fx::zero(), Fx::zero(), Fx::zero())
            } else {
                (y.over(*size), Fx::zero(), Fx::one().over(*size))
            }
        },
        HeightTerm::RampDownY { size } => {
            if size.is_zero() {
                (Fx::zero(), Fx::zero(), Fx::zero())
            } else {
                (Fx::one().minus(y.over(*size)), Fx::zero(), Fx::one().over(*size).neg())
            }
        },
        HeightTerm::CosX { height, wave_length } => {
            if wave_length.is_zero() {
                (Fx::zero(), Fx::zero(), Fx::zero())
            } else {
                let k: Fx = Fx { m: crate::trig::TWO_PI_FX }.over(*wave_length);
                let v: Fx = height.times(crate::trig::cos(k.times(x)));
                let dx: Fx = height.times(k).times(crate::trig::sin(k.times(x))).neg();
                (v, dx, Fx::zero())
            }
        },
    }
}

/// Product of the first `k` factor values (left fold from one).
pub open spec fn height_upto(ts: Seq<HeightTerm>, x: int, y: int, k: nat) -> int
    decreases k,
{
    if k == 0 {
        SCALE as int
    } else {
        fmul(height_upto(ts, x, y, (k - 1) as nat), term_value(ts[k - 1], x, y))
    }
}

/// Product-rule part for factor `i`: the first `k` factors, with factor `i`
/// replaced by its derivative.
pub open spec fn part_upto(ts: Seq<HeightTerm>, x: int, y: int, i: int, k: nat, wrt_x: bool) -> int
    decreases k,
{
    if k == 0 {
        SCALE as int
    } else {
        let f = if k - 1 == i {
            if wrt_x {
                term_dx(ts[k - 1], x, y)
            } else {
                term_dy(ts[k - 1], x, y)
            }
        } else {
            term_value(ts[k - 1], x, y)
        };
        fmul(part_upto(ts, x, y, i, (k - 1) as nat, wrt_x), f)
    }
}

/// Sum of the first `k` product-rule parts.
pub open spec fn deriv_sum(ts: Seq<HeightTerm>, x: int, y: int, k: nat, wrt_x: bool) -> int
    decreases k,
{
    if k == 0 {
        0
    } else {
        fadd(deriv_sum(ts, x, y, (k - 1) as nat, wrt_x), part_upto(ts, x, y, (k - 1) as int, ts.len(), wrt_x))
    }
}

/// Value and both partial derivatives of a product of height factors, by the
/// product rule.
pub fn evaluate_terms(terms: &Vec<HeightTerm>, x: Fx, y: Fx) -> (r: (Fx, Fx, Fx))
    ensures
        r.0@ == height_upto(terms@, x@, y@, terms@.len()),
        r.1@ == deriv_sum(terms@, x@, y@, terms@.len(), true),
        r.2@ == deriv_sum(terms@, x@, y@, terms@.len(), false),
{
    let n: usize = terms.len();

    let mut h: Fx = Fx::one();
    let mut i: usize = 0;
    while i < n
        invariant
            n == terms@.len(),
            i <= n,
            h@ == height_upto(terms@, x@, y@, i as nat),
        decreases n - i,
    {
        let (v, _, _) = term_eval(&terms[i], x, y);
        h = h.times(v);
        i = i + 1;
    }

    let mut dx: Fx = Fx::zero();
    let mut i: usize = 0;
    while i < n
        invariant
            n == terms@.len(),
            i <= n,
            dx@ == deriv_sum(terms@, x@, y@, i as nat, true),
        decreases n - i,
    {
        let mut p: Fx = Fx::one();
        let mut j: usize = 0;
        while j < n
            invariant
                n == terms@.len(),
                i < n,
                j <= n,
                p@ == part_upto(terms@, x@, y@, i as int, j as nat, true),
            decreases n - j,
        {
            let (v, d, _) = term_eval(&terms[j], x, y);
            let f: Fx = if j == i {
                d
            } else {
                v
            };
            p = p.times(f);
            j = j + 1;
        }
        dx = dx.plus(p);
        i = i + 1;
    }

    let mut dy: Fx = Fx::zero();
    let mut i: usize = 0;
    while i < n
        invariant
            n == terms@.len(),
            i <= n,
            dy@ == deriv_sum(terms@, x@, y@, i as nat, false),
        decreases n - i,
    {
        let mut p: Fx = Fx::one();
        let mut j: usize = 0;
        while j < n
            invariant
                n == terms@.len(),
                i < n,
                j <= n,
                p@ == part_upto(terms@, x@, y@, i as int, j as nat, false),
            decreases n - j,
        {
            let (v, _, d) = term_eval(&terms[j], x, y);
            let f: Fx = if j == i {
                d
            } else {
                v
            };
            p = p.times(f);
            j = j + 1;
        }
        dy = dy.plus(p);
        i = i + 1;
    }

    (h, dx, dy)
}

/// An analytic tile whose surface is a product of height factors over a
/// rectangular domain, with analytic partial derivatives for the normal.
#[derive(Clone, Debug)]
pub struct Function {
    pub size: [Fx; 2],
    pub terms: Vec<HeightTerm>,
}

/// Canonical multiplicative-surface query.
pub open spec fn function_interference_spec(
    ts: Seq<HeightTerm>,
    sx: int,
    sy: int,
    p: V3,
) -> Option<InterferenceV> {
    if p.x < 0 || p.x > sx || p.y < 0 || p.y > sy {
        None
    } else {
        let h = height_upto(ts, p.x, p.y, ts.len());
        let dx = deriv_sum(ts, p.x, p.y, ts.len(), true);
        let dy = deriv_sum(ts, p.x, p.y, ts.len(), false);
        if p.z > h {
            None
        } else {
            let nr = V3 { x: fneg(dx), y: fneg(dy), z: SCALE as int };
            if nr.norm() == 0 {
                None
            } else {
                Some(
                    InterferenceV {
                        magnitude: fsub(h, p.z),
                        position: V3 { x: p.x, y: p.y, z: h },
                        normal: nr.scale_div(nr.norm()),
                    },
                )
            }
        }
    }
}

impl Function {
    /// Local interference query against the analytic surface.
    pub fn interference(&self, point: Vec3) -> (r: Option<Interference>)
        ensures
            interference_options_match(
                r,
                function_interference_spec(self.terms@, self.size[0]@, self.size[1]@, point@),
            ),
    {
        let sx: Fx = self.size[0];
        let sy: Fx = self.size[1];
        if point.x.lt(Fx::zero()) || sx.lt(point.x) || point.y.lt(Fx::zero()) || sy.lt(point.y) {
            return None;
        }
        let (h, dx, dy) = evaluate_terms(&self.terms, point.x, point.y);
        if h.lt(point.z) {
            return None;
        }
        let nr: Vec3 = Vec3 { x: dx.neg(), y: dy.neg(), z: Fx::one() };
        if nr.norm().is_zero() {
            return None;
        }
        Some(
            Interference {
                magnitude: h.minus(point.z),
                position: Vec3 { x: point.x, y: point.y, z: h },
                normal: nr.normalize(),
            },
        )
    }
}

/// The closed set of tile shapes a terrain grid can hold.
#[derive(Clone, Debug)]
pub enum Tile {
    Plane(Plane),
    Slope(Slope),
    Step(Step),
    StepSlope(StepSlope),
    Function(Function),
}

/// Local interference query of any tile shape.
pub open spec fn tile_interference_spec(t: Tile, p: V3) -> Option<InterferenceV> {
    match t {
        Tile::Plane(e) => plane_interference_spec(p),
        Tile::Slope(e) => slope_interference_spec(e.size@, e.height@, e.rotate, p),
        Tile::Step(e) => step_interference_spec(e.size@, e.height@, e.rotate, e.mirror, p),
        Tile::StepSlope(e) => step_slope_interference_spec(e.size@, e.height@, e.rotate, e.mirror, p),
        Tile::Function(e) => function_interference_spec(e.terms@, e.size[0]@, e.size[1]@, p),
    }
}

impl Tile {
    /// Local interference query, dispatched on the tile shape.
    pub fn interference(&self, point: Vec3) -> (r: Option<Interference>)
        ensures
            interference_options_match(r, tile_interference_spec(*self, point@)),
    {
        match self {
            Tile::Plane(e) => e.interference(point),
            Tile::Slope(e) => e.interference(point),
            Tile::Step(e) => e.interference(point),
            Tile::StepSlope(e) => e.interference(point),
            Tile::Function(e) => e.interference(point),
        }
    }
}

/// A rectangular grid of tiles over a uniform cell size.
pub struct GridTerrain {
    pub elements: Vec<Vec<Tile>>,
    pub step: [Fx; 2],
}

impl GridTerrain {
    /// Both cell sizes are strictly positive.
    pub open spec fn wf(self) -> bool {
        self.step[0]@ > 0 && self.step[1]@ > 0
    }

    /// Global interference query: grid lookup, local tile query, result
    /// carried back to grid coordinates; an infinite flat plane at height
    /// zero outside the grid.
    pub open spec fn interference_spec(self, p: V3) -> Option<InterferenceV> {
        if p.x < 0 || p.y < 0 {
            plane_interference_spec(p)
        } else {
            let xi = tdiv(p.x, self.step[0]@);
            let yi = tdiv(p.y, self.step[1]@);
            if yi < self.elements@.len() && xi < self.elements@[yi]@.len() {
                let off = V3 { x: xi * self.step[0]@, y: yi * self.step[1]@, z: 0 };
                match tile_interference_spec(self.elements@[yi]@[xi], p.minus(off)) {
                    Some(i) => Some(InterferenceV { position: i.position.plus(off), ..i }),
                    None => None,
                }
            } else {
                plane_interference_spec(p)
            }
        }
    }

    /// A terrain from a grid of tiles and a (strictly positive) cell size.
    pub fn new(elements: Vec<Vec<Tile>>, step: [Fx; 2]) -> (r: GridTerrain)
        requires
            step[0]@ > 0,
            step[1]@ > 0,
        ensures
            r.wf(),
            r.elements@ == elements@,
            r.step == step,
    {
        GridTerrain { elements, step }
    }

    /// Global interference query against the terrain.
    pub fn interference(&self, point: Vec3) -> (r: Option<Interference>)
        requires
            self.wf(),
        ensures
            interference_options_match(r, self.interference_spec(point@)),
    {
        let sx: Fx = self.step[0];
        let sy: Fx = self.step[1];
        if point.x.lt(Fx::zero()) || point.y.lt(Fx::zero()) {
            return flat_plane_query(point);
        }
        let xi64: u64 = (point.x.m as u64) / (sx.m as u64);
        let yi64: u64 = (point.y.m as u64) / (sy.m as u64);
        proof {
            assert(xi64 as int == tdiv(point@.x, self.step[0]@));
            assert(yi64 as int == tdiv(point@.y, self.step[1]@));
            vstd::arithmetic::div_mod::lemma_fundamental_div_mod(point.x.m as int, sx.m as int);
            vstd::arithmetic::div_mod::lemma_fundamental_div_mod(point.y.m as int, sy.m as int);
            assert((sx.m as int) * (xi64 as int) == (xi64 as int) * (sx.m as int))
                by (nonlinear_arith);
            assert((sy.m as int) * (yi64 as int) == (yi64 as int) * (sy.m as int))
                by (nonlinear_arith);
            assert((sx.m as int) * (xi64 as int) >= 0 && (sy.m as int) * (yi64 as int) >= 0)
                by (nonlinear_arith)
                requires
                    sx.m > 0,
                    sy.m > 0,
                    xi64 >= 0,
                    yi64 >= 0,
            ;
        }
        if yi64 < self.elements.len() as u64 {
            let yi: usize = yi64 as usize;
            let row: &Vec<Tile> = &self.elements[yi];
            if xi64 < row.len() as u64 {
                let xi: usize = xi64 as usize;
                let off: Vec3 = Vec3 {
                    x: Fx { m: xi64 as i64 * sx.m },
                    y: Fx { m: yi64 as i64 * sy.m },
                    z: Fx::zero(),
                };
                let local: Vec3 = point.minus(off);
                if let Some(interference) = self.elements[yi][xi].interference(local) {
                    let shifted = Interference {
                        position: interference.position.plus(off),
                        ..interference
                    };
                    return Some(shifted);
                }
                return None;
            }
        }
        flat_plane_query(point)
    }
}

/// Contact query against the implicit infinite flat plane at height zero.
fn flat_plane_query(point: Vec3) -> (r: Option<Interference>)
    ensures
        interference_options_match(r, plane_interference_spec(point@)),
{
    if point.z.lt(Fx::zero()) {
        Some(
            Interference {
                magnitude: point.z.neg(),
                position: Vec3 { x: point.x, y: point.y, z: Fx::zero() },
                normal: Vec3::unit_z(),
            },
        )
    } else {
        None
    }
}

} // verus!
