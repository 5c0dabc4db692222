//! A verified growth/rendering engine for a self-similar branching pattern.
//!
//! A population of directional growth tips expands outward from a seed point
//! in an unbounded virtual plane.  Whenever the current segment length is
//! used up, every tip is replaced by its descendants according to a table of
//! cumulative turning rules, and the segment length halves.  Each tick, every
//! tip advances one step along its direction and is rasterized into an RGBA
//! framebuffer through an exact affine projection.
//!
//! All geometry is exact: a virtual coordinate is kept as its numerator over
//! the configured `scale_num`, a pixel coordinate as its numerator over
//! `scale_den`, so the projection, its inverse, and the half-to-even
//! rounding used for rasterization and for the tick schedule are all integer
//! arithmetic with proved bounds.

pub mod config;
pub mod engine;
pub mod geometry;
pub mod population;
pub mod raster;
pub mod rounding;
