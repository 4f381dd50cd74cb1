//! Verified dynamics of tree-structured articulated rigid bodies.
//!
//! The crate combines a spatial-vector-algebra formulation of 3D rigid-body
//! kinematics and dynamics, a three-pass articulated-body forward-dynamics
//! solver over a joint tree, a family of explicit fixed-step integrators, a
//! tileable analytic terrain height-field with local collision queries, and a
//! multi-point tire contact model.
//!
//! All physical quantities are fixed-point numbers ([`fx::Fx`]): an `i64`
//! count of millionths.  Every operation has an exact mathematical
//! specification over unbounded integers, so each algorithm's contract pins
//! its result down to the bit.

pub mod algorithms;
pub mod examples;
pub mod fx;
pub mod integrator;
pub mod interp;
pub mod joint;
pub mod physics;
pub mod laws;
pub mod linalg;
pub mod structure;
pub mod sva;
pub mod terrain;
pub mod tire;
pub mod trig;
