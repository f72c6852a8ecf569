//! Axis-aligned rectangles over integer coordinates: construction with
//! sign normalisation, edge and corner accessors, containment, intersection,
//! union, adjustment and transposition.

pub mod coord;
pub mod model;
pub mod point;
pub mod rectangle;
pub mod laws;
