//! Exact and approximate planar geometric predicates: the orientation of an
//! ordered triple of points and the position of a point relative to the circle
//! through three others, each reported as a sign code (+1, 0, -1).
//!
//! Coordinates are carried as the IEEE-754 binary64 bit patterns of the
//! `f64` values they denote (`f64::to_bits`), so that every decision the
//! module takes is stated and checked over plain integers; the floating-point
//! operations themselves stand behind small trusted wrappers.

pub mod fbits;
pub mod geom;
