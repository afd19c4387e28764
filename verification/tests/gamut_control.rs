use color_wasm::entry::{entry, Entry};
use color_wasm::minde::{MindeEffect, MindeObservation, MindePhase, MindeResult, MindeSearch};
use color_wasm::raycast::{axis_case, ray_verdict, AxisCase, RayVerdict};
use color_wasm::raytrace::{
    Raytrace, RaytraceEffect, RaytraceObservation, RaytracePhase, RaytraceResult,
    RAYTRACE_ROUNDS,
};

fn lightness(at_least_max: bool, at_most_min: bool) -> MindeObservation {
    MindeObservation::Lightness { at_least_max, at_most_min }
}

fn delta(below_jnd: bool, near_jnd: bool) -> MindeObservation {
    MindeObservation::Delta { below_jnd, near_jnd }
}

fn ray(hit: bool, inside: bool) -> RaytraceObservation {
    RaytraceObservation::Ray { hit, inside }
}

fn mapped_raytrace() -> Raytrace {
    let mut run = Raytrace::new();
    assert_eq!(
        run.step(RaytraceObservation::Lightness { at_least_max: false, at_most_min: false }),
        RaytraceEffect::Prepare
    );
    assert_eq!(run.step(RaytraceObservation::InGamut(false)), RaytraceEffect::Remember);
    assert_eq!(run.phase(), RaytracePhase::Cast { round: 0 });
    run
}

#[test]
fn entry_prefers_white_to_black() {
    assert_eq!(entry(true, true), Entry::White);
    assert_eq!(entry(true, false), Entry::White);
    assert_eq!(entry(false, true), Entry::Black);
    assert_eq!(entry(false, false), Entry::Proceed);
}

#[test]
fn minde_white_and_black() {
    let mut white = MindeSearch::new();
    assert_eq!(white.step(lightness(true, false)), MindeEffect::Nothing);
    assert_eq!(white.phase(), MindePhase::Done(MindeResult::White));

    let mut black = MindeSearch::new();
    assert_eq!(black.step(lightness(false, true)), MindeEffect::Nothing);
    assert_eq!(black.phase(), MindePhase::Done(MindeResult::Black));
}

#[test]
fn minde_origin_in_gamut_is_converted() {
    let mut search = MindeSearch::new();
    search.step(lightness(false, false));
    assert_eq!(search.phase(), MindePhase::OriginGamut);
    assert_eq!(search.step(MindeObservation::InGamut(true)), MindeEffect::Nothing);
    assert_eq!(search.phase(), MindePhase::Done(MindeResult::Convert));
}

#[test]
fn minde_first_clip_close_enough() {
    let mut search = MindeSearch::new();
    search.step(lightness(false, false));
    search.step(MindeObservation::InGamut(false));
    assert_eq!(search.phase(), MindePhase::FirstClip);
    assert_eq!(search.step(delta(true, false)), MindeEffect::Nothing);
    assert_eq!(search.phase(), MindePhase::Done(MindeResult::Clipped));
}

#[test]
fn minde_full_search() {
    let mut search = MindeSearch::new();
    search.step(lightness(false, false));
    search.step(MindeObservation::InGamut(false));
    assert_eq!(search.step(delta(false, false)), MindeEffect::StartInterval);
    assert_eq!(search.phase(), MindePhase::Width { min_in_gamut: true });

    assert_eq!(search.step(MindeObservation::Wide(true)), MindeEffect::Bisect);
    assert_eq!(search.phase(), MindePhase::Probe);
    assert_eq!(search.step(MindeObservation::InGamut(true)), MindeEffect::RaiseMin);
    assert_eq!(search.phase(), MindePhase::Width { min_in_gamut: true });

    assert_eq!(search.step(MindeObservation::Wide(true)), MindeEffect::Bisect);
    assert_eq!(search.step(MindeObservation::InGamut(false)), MindeEffect::Nothing);
    assert_eq!(search.phase(), MindePhase::Judge { min_in_gamut: true });
    assert_eq!(search.step(delta(true, false)), MindeEffect::RaiseMin);
    assert_eq!(search.phase(), MindePhase::Width { min_in_gamut: false });

    // with `min` out of gamut, the search clips without testing the gamut
    assert_eq!(search.step(MindeObservation::Wide(true)), MindeEffect::Bisect);
    assert_eq!(search.phase(), MindePhase::Judge { min_in_gamut: false });
    assert_eq!(search.step(delta(false, false)), MindeEffect::LowerMax);
    assert_eq!(search.phase(), MindePhase::Width { min_in_gamut: false });

    assert_eq!(search.step(MindeObservation::Wide(false)), MindeEffect::Nothing);
    assert_eq!(search.phase(), MindePhase::Done(MindeResult::Clipped));
}

#[test]
fn minde_finishes_just_below_jnd() {
    let mut search = MindeSearch::new();
    search.step(lightness(false, false));
    search.step(MindeObservation::InGamut(false));
    search.step(delta(false, false));
    search.step(MindeObservation::Wide(true));
    search.step(MindeObservation::InGamut(false));
    assert_eq!(search.step(delta(true, true)), MindeEffect::Nothing);
    assert_eq!(search.phase(), MindePhase::Done(MindeResult::Clipped));
}

#[test]
fn minde_ignores_outcomes_of_another_kind() {
    let mut search = MindeSearch::new();
    assert_eq!(search.step(MindeObservation::Wide(true)), MindeEffect::Nothing);
    assert_eq!(search.phase(), MindePhase::Lightness);
    search.step(lightness(false, false));
    assert_eq!(search.step(delta(true, true)), MindeEffect::Nothing);
    assert_eq!(search.phase(), MindePhase::OriginGamut);
}

#[test]
fn minde_done_is_final() {
    let mut search = MindeSearch::new();
    search.step(lightness(true, false));
    for obs in [
        lightness(false, false),
        MindeObservation::InGamut(false),
        delta(false, false),
        MindeObservation::Wide(true),
    ] {
        assert_eq!(search.step(obs), MindeEffect::Nothing);
        assert_eq!(search.phase(), MindePhase::Done(MindeResult::White));
    }
}

#[test]
fn minde_min_in_gamut_never_returns() {
    let mut search = MindeSearch::new();
    search.step(lightness(false, false));
    search.step(MindeObservation::InGamut(false));
    search.step(delta(false, false));
    search.step(MindeObservation::Wide(true));
    search.step(MindeObservation::InGamut(false));
    search.step(delta(true, false));
    for _ in 0..5 {
        assert_eq!(search.step(MindeObservation::Wide(true)), MindeEffect::Bisect);
        assert_eq!(search.phase(), MindePhase::Judge { min_in_gamut: false });
        // an in-gamut outcome is not what this phase asks for
        assert_eq!(search.step(MindeObservation::InGamut(true)), MindeEffect::Nothing);
        assert_eq!(search.step(delta(true, false)), MindeEffect::RaiseMin);
        assert_eq!(search.phase(), MindePhase::Width { min_in_gamut: false });
    }
}

#[test]
fn raytrace_white_and_black() {
    let mut white = Raytrace::new();
    assert_eq!(
        white.step(RaytraceObservation::Lightness { at_least_max: true, at_most_min: true }),
        RaytraceEffect::Nothing
    );
    assert_eq!(white.phase(), RaytracePhase::Done(RaytraceResult::White));

    let mut black = Raytrace::new();
    black.step(RaytraceObservation::Lightness { at_least_max: false, at_most_min: true });
    assert_eq!(black.phase(), RaytracePhase::Done(RaytraceResult::Black));
}

#[test]
fn raytrace_origin_in_gamut_is_clipped() {
    let mut run = Raytrace::new();
    run.step(RaytraceObservation::Lightness { at_least_max: false, at_most_min: false });
    assert_eq!(run.phase(), RaytracePhase::OriginGamut);
    assert_eq!(run.step(RaytraceObservation::InGamut(true)), RaytraceEffect::Nothing);
    assert_eq!(run.phase(), RaytracePhase::Done(RaytraceResult::ClipOrigin));
}

#[test]
fn raytrace_four_rounds() {
    let mut run = mapped_raytrace();
    // the anchor does not move in the first round, even from inside the box
    assert_eq!(
        run.step(ray(true, true)),
        RaytraceEffect::Advance { move_anchor: false, correct: true }
    );
    assert_eq!(run.phase(), RaytracePhase::Cast { round: 1 });
    assert_eq!(
        run.step(ray(true, false)),
        RaytraceEffect::Advance { move_anchor: false, correct: true }
    );
    assert_eq!(
        run.step(ray(true, true)),
        RaytraceEffect::Advance { move_anchor: true, correct: true }
    );
    assert_eq!(run.phase(), RaytracePhase::Cast { round: 3 });
    assert_eq!(
        run.step(ray(true, true)),
        RaytraceEffect::Advance { move_anchor: true, correct: false }
    );
    assert_eq!(run.phase(), RaytracePhase::Done(RaytraceResult::ClipOrigin));
}

#[test]
fn raytrace_miss_restores_last() {
    let mut run = mapped_raytrace();
    run.step(ray(true, false));
    assert_eq!(run.step(ray(false, true)), RaytraceEffect::Restore);
    assert_eq!(run.phase(), RaytracePhase::Done(RaytraceResult::ClipOrigin));
}

#[test]
fn raytrace_at_most_four_rays() {
    let mut run = mapped_raytrace();
    let mut casts = 0;
    for _ in 0..10 {
        if let RaytracePhase::Cast { .. } = run.phase() {
            casts += 1;
        }
        run.step(ray(true, true));
    }
    assert_eq!(casts, RAYTRACE_ROUNDS);
    assert_eq!(run.phase(), RaytracePhase::Done(RaytraceResult::ClipOrigin));
}

#[test]
fn raytrace_ignores_outcomes_of_another_kind() {
    let mut run = mapped_raytrace();
    assert_eq!(run.step(RaytraceObservation::InGamut(true)), RaytraceEffect::Nothing);
    assert_eq!(run.phase(), RaytracePhase::Cast { round: 0 });
}

#[test]
fn axis_cases() {
    assert_eq!(axis_case(true, true), AxisCase::Slab);
    assert_eq!(axis_case(true, false), AxisCase::Slab);
    assert_eq!(axis_case(false, true), AxisCase::Parallel);
    assert_eq!(axis_case(false, false), AxisCase::Miss);
}

#[test]
fn ray_verdicts() {
    // an ordinary crossing in front of the start
    assert_eq!(ray_verdict(false, false, false, false, false), RayVerdict::AtNear);
    // the start lies inside the box: the exit point is taken
    assert_eq!(ray_verdict(false, false, true, false, false), RayVerdict::AtFar);
    // empty interval
    assert_eq!(ray_verdict(true, false, false, false, false), RayVerdict::Miss);
    // the box lies behind the start
    assert_eq!(ray_verdict(false, true, true, false, false), RayVerdict::Miss);
    // infinite parameters
    assert_eq!(ray_verdict(false, false, false, true, false), RayVerdict::Miss);
    assert_eq!(ray_verdict(false, false, true, false, true), RayVerdict::Miss);
    // an infinite far parameter does not matter when the near one is used
    assert_eq!(ray_verdict(false, false, false, false, true), RayVerdict::AtNear);
}
