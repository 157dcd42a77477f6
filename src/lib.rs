//! Verified tessellation of a quadsphere: the six faces of a cube are cut
//! into quadrants, each sampled on a regular grid and triangulated.
//!
//! Every sample is an exact point of an integer lattice (the cube face
//! scaled by `resolution - 1`); projecting it onto the sphere is left to
//! the floating-point caller.

pub mod cube;
pub mod grid;
pub mod quadsphere;
