//! Decisions of the ray/box intersection that the raytracing gamut mapping
//! uses (CSS Color 4, `cast_ray`, by the slab method).
//!
//! The ray runs from `start` to `end`, with `direction = end - start`, and
//! its points are `start + direction * t`. For each axis the caller measures
//! the direction and, where it is not negligible, narrows the interval
//! `[tnear, tfar]` of `t` for which the ray lies between that axis' bounds.
//! The numbers stay with the caller; the decisions are made here.

use vstd::prelude::*;

verus! {

/// What one axis contributes to the intersection.
#[derive(Clone, Copy, Debug, PartialEq, Eq, Structural)]
pub enum AxisCase {
    /// The ray moves along this axis: narrow `[tnear, tfar]` by the
    /// parameters at which it meets the two bounds of the axis.
    Slab,
    /// The ray is parallel to this axis' bounds and between them: the axis
    /// puts no limit on `t`.
    Parallel,
    /// The ray is parallel to this axis' bounds and outside them: there is
    /// no intersection.
    Miss,
}

/// The case of one axis, from whether the ray moves along it
/// (`|d| > 1e-12` for the axis' component `d` of the direction) and whether
/// `start` lies within the axis' bounds.
pub open spec fn axis_case_of(moves: bool, start_within: bool) -> AxisCase {
    if moves {
        AxisCase::Slab
    } else if start_within {
        AxisCase::Parallel
    } else {
        AxisCase::Miss
    }
}

/// Decides what one axis contributes. A ray that moves along the axis is
/// always cut by its slab, wherever it starts.
pub fn axis_case(moves: bool, start_within: bool) -> (c: AxisCase)
    ensures
        c == axis_case_of(moves, start_within),
{
    if moves {
        AxisCase::Slab
    } else if start_within {
        AxisCase::Parallel
    } else {
        AxisCase::Miss
    }
}

/// Where the ray leaves or meets the box, once every axis has been seen.
#[derive(Clone, Copy, Debug, PartialEq, Eq, Structural)]
pub enum RayVerdict {
    /// No intersection.
    Miss,
    /// The intersection is at `t = tnear`.
    AtNear,
    /// The intersection is at `t = tfar`.
    AtFar,
}

/// The verdict from the tests on the final interval: `tnear > tfar`,
/// `tfar < 0`, `tnear < 0`, and whether `tnear` and `tfar` are infinite.
/// An empty interval, or one wholly behind `start`, misses. A `tnear`
/// behind `start` gives way to `tfar`. An infinite parameter misses.
pub open spec fn ray_verdict_of(
    near_after_far: bool,
    far_behind: bool,
    near_behind: bool,
    near_infinite: bool,
    far_infinite: bool,
) -> RayVerdict {
    if near_after_far || far_behind {
        RayVerdict::Miss
    } else if near_behind {
        if far_infinite {
            RayVerdict::Miss
        } else {
            RayVerdict::AtFar
        }
    } else if near_infinite {
        RayVerdict::Miss
    } else {
        RayVerdict::AtNear
    }
}

/// Decides where the ray meets the box. The parameter chosen is never
/// behind the start of the ray and never infinite.
pub fn ray_verdict(
    near_after_far: bool,
    far_behind: bool,
    near_behind: bool,
    near_infinite: bool,
    far_infinite: bool,
) -> (v: RayVerdict)
    ensures
        v == ray_verdict_of(near_after_far, far_behind, near_behind, near_infinite, far_infinite),
        v == RayVerdict::AtNear ==> !near_behind && !near_infinite && !near_after_far,
        v == RayVerdict::AtFar ==> !far_behind && !far_infinite && !near_after_far,
{
    if near_after_far || far_behind {
        return RayVerdict::Miss;
    }
    let use_far = near_behind;
    let chosen_infinite = if use_far {
        far_infinite
    } else {
        near_infinite
    };
    if chosen_infinite {
        RayVerdict::Miss
    } else if use_far {
        RayVerdict::AtFar
    } else {
        RayVerdict::AtNear
    }
}

/// A ray that moves along an axis is always cut by that axis' slab, whether
/// or not it starts between the bounds; a ray that does not move along it
/// misses exactly when it starts outside them.
pub proof fn lemma_axis_case_moving_ray_is_cut(moves: bool, start_within: bool)
    ensures
        moves ==> axis_case_of(moves, start_within) == AxisCase::Slab,
        !moves && start_within ==> axis_case_of(moves, start_within) == AxisCase::Parallel,
        axis_case_of(moves, start_within) == AxisCase::Miss <==> (!moves && !start_within),
{
}

/// The ray meets the box exactly when the interval is not empty, not wholly
/// behind the start, and the parameter used (`tfar` when `tnear` is behind
/// the start, `tnear` otherwise) is finite.
pub proof fn lemma_ray_verdict_hits(
    near_after_far: bool,
    far_behind: bool,
    near_behind: bool,
    near_infinite: bool,
    far_infinite: bool,
)
    ensures
        ({
            let v = ray_verdict_of(near_after_far, far_behind, near_behind, near_infinite, far_infinite);
            &&& (v == RayVerdict::Miss) <==> (near_after_far || far_behind || (near_behind
                && far_infinite) || (!near_behind && near_infinite))
            &&& v == RayVerdict::AtFar ==> near_behind
            &&& v == RayVerdict::AtNear ==> !near_behind
        }),
{
}

} // verus!
