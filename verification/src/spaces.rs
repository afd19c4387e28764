//! Marker types, one per supported colour space.
//!
//! A colour is tagged with one of these at the type level, so that a
//! conversion between two spaces is chosen by the compiler.

use vstd::prelude::*;

verus! {

/// Gamma-encoded sRGB.
pub struct SRGB;

/// Linear-light sRGB.
pub struct SRGBLinear;

/// CIE XYZ with a D65 white point.
pub struct XYZD65;

/// OKLAB.
pub struct OKLAB;

/// OKLCH, the polar form of OKLAB.
pub struct OKLCH;

/// OKLrAB: OKLAB with the "toe" lightness estimate.
pub struct OKLrAB;

/// OKLrCH: OKLCH with the "toe" lightness estimate.
pub struct OKLrCH;

} // verus!
