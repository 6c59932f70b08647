//! The discrete core of a Monte-Carlo path tracer.
//!
//! Every decision a renderer takes between two pieces of arithmetic lives
//! here: which root of a sphere's quadratic counts as the hit, which sphere
//! of a scene is nearest, what a material does with a ray, when a path ends,
//! and how finished pixels are laid out in memory and in a TGA file.
//! Real numbers cross the boundary as IEEE-754 single-precision bit
//! patterns (`Scalar`), so the embedding program keeps the arithmetic and
//! this crate keeps the rules.

pub mod camera;
pub mod hit;
pub mod material;
pub mod scalar;
pub mod trace;
