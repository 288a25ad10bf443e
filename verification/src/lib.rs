//! Verified core of a minimal software 3D rendering pipeline.
//!
//! The library owns the decision logic of the pipeline: which triangles a
//! frame draws, with which shading intensity and at which pixel coordinates,
//! and how textual vertex data is broken into its three axis tokens.  Scalar
//! quantities computed by the surrounding application (dot products, shading
//! products, screen-space coordinates) enter the library as raw IEEE-754
//! binary32 bit patterns, and every decision taken on them here is verified
//! down to the bit level.

pub mod actor;
pub mod geometry;
pub mod ieee;
pub mod parse;
pub mod render;
