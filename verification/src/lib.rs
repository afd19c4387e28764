//! Colour spaces of CSS Color 4 and the decision logic of its two gamut-mapping
//! algorithms (binary search with local MINDE, and raytracing).
//!
//! Colour coordinates are floating-point numbers; the arithmetic on them lives
//! outside this crate. What is verified here is the control of each algorithm:
//! a state machine that is told the outcome of each numeric test and answers
//! with the next thing to compute, and the decisions of the ray/box
//! intersection.

pub mod spaces;
pub mod entry;
pub mod minde;
pub mod raytrace;
pub mod raycast;
