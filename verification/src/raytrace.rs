//! Control of gamut mapping by raytracing (CSS Color 4, "raytrace gamut
//! mapping").
//!
//! The caller keeps the numeric state: `l_origin` and `h_origin`, the OkLCh
//! lightness and hue of the origin; `anchor`, `origin_rgb` and `last`,
//! colours in the linear-light form of the destination; and the intersection
//! found by the last ray. The machine holds where the algorithm stands and
//! how many rays have been cast. The caller reads the phase, makes the test
//! that it names, reports the outcome with `step`, and carries out the effect
//! that `step` returns.

use vstd::prelude::*;

use crate::entry::{entry, entry_of, Entry};

verus! {

/// How many rays the algorithm casts at most.
pub const RAYTRACE_ROUNDS: u8 = 4;

/// The answer of a finished run.
#[derive(Clone, Copy, Debug, PartialEq, Eq, Structural)]
pub enum RaytraceResult {
    /// White, `oklab(1 0 0)`, converted to the destination.
    White,
    /// Black, `oklab(0 0 0)`, converted to the destination.
    Black,
    /// `origin_rgb` taken back to the destination's gamma-encoded form and
    /// clipped to its gamut.
    ClipOrigin,
}

/// Where a run stands, and so which test the caller makes next.
#[derive(Clone, Copy, Debug, PartialEq, Eq, Structural)]
pub enum RaytracePhase {
    /// Report `Lightness`: the origin's OkLCh lightness against 1 and 0.
    Lightness,
    /// Report `InGamut`: whether `origin_rgb` lies in the linear-light gamut.
    OriginGamut,
    /// Cast a ray from `anchor` to `origin_rgb` against the gamut's box and
    /// report `Ray`. `round` counts the rays cast before this one.
    Cast { round: u8 },
    /// The run is over.
    Done(RaytraceResult),
}

/// The outcome of the test that the phase asked for.
#[derive(Clone, Copy, Debug, PartialEq, Eq, Structural)]
pub enum RaytraceObservation {
    /// `l >= 1` and `l <= 0` for the origin's OkLCh lightness `l`.
    Lightness { at_least_max: bool, at_most_min: bool },
    /// Whether `origin_rgb` lies in the linear-light gamut.
    InGamut(bool),
    /// Whether the ray met the gamut's boundary, and whether each component
    /// of `origin_rgb` lies between the run's low and high limits
    /// (`1e-6` and `1 - 1e-6`).
    Ray { hit: bool, inside: bool },
}

/// What the caller does to its numeric state after a step.
#[derive(Clone, Copy, Debug, PartialEq, Eq, Structural)]
pub enum RaytraceEffect {
    /// Nothing.
    Nothing,
    /// Let `anchor` be the achromatic colour `(l_origin, 0, h_origin)` and
    /// `origin_rgb` the origin, both in the destination's linear-light form.
    Prepare,
    /// Let `last` be `origin_rgb`.
    Remember,
    /// Let `origin_rgb` be `last`.
    Restore,
    /// If `move_anchor`, let `anchor` be `origin_rgb`. Then let `origin_rgb`
    /// and `last` be the intersection. Then, if `correct`, give `origin_rgb`
    /// the lightness `l_origin` and the hue `h_origin` again, going through
    /// OkLCh.
    Advance { move_anchor: bool, correct: bool },
}

/// The transition table of a run: the next phase and the effect, for a phase
/// and the outcome reported in it. An outcome of another kind than the phase
/// asked for, or any outcome once the run is done, changes nothing.
pub open spec fn raytrace_next(phase: RaytracePhase, obs: RaytraceObservation) -> (
    RaytracePhase,
    RaytraceEffect,
) {
    match phase {
        RaytracePhase::Lightness => match obs {
            RaytraceObservation::Lightness { at_least_max, at_most_min } => match entry_of(
                at_least_max,
                at_most_min,
            ) {
                Entry::White => (RaytracePhase::Done(RaytraceResult::White), RaytraceEffect::Nothing),
                Entry::Black => (RaytracePhase::Done(RaytraceResult::Black), RaytraceEffect::Nothing),
                Entry::Proceed => (RaytracePhase::OriginGamut, RaytraceEffect::Prepare),
            },
            _ => (phase, RaytraceEffect::Nothing),
        },
        RaytracePhase::OriginGamut => match obs {
            RaytraceObservation::InGamut(inside) => if inside {
                (RaytracePhase::Done(RaytraceResult::ClipOrigin), RaytraceEffect::Nothing)
            } else {
                (RaytracePhase::Cast { round: 0 }, RaytraceEffect::Remember)
            },
            _ => (phase, RaytraceEffect::Nothing),
        },
        RaytracePhase::Cast { round } => match obs {
            RaytraceObservation::Ray { hit, inside } => if !hit {
                (RaytracePhase::Done(RaytraceResult::ClipOrigin), RaytraceEffect::Restore)
            } else {
                let move_anchor = round > 0 && inside;
                if round + 1 < RAYTRACE_ROUNDS {
                    (
                        RaytracePhase::Cast { round: (round + 1) as u8 },
                        RaytraceEffect::Advance { move_anchor, correct: true },
                    )
                } else {
                    (
                        RaytracePhase::Done(RaytraceResult::ClipOrigin),
                        RaytraceEffect::Advance { move_anchor, correct: false },
                    )
                }
            },
            _ => (phase, RaytraceEffect::Nothing),
        },
        RaytracePhase::Done(_) => (phase, RaytraceEffect::Nothing),
    }
}


/// The phase that a run reaches from `phase` when the outcomes `obs` are
/// reported in order.
pub open spec fn raytrace_run(phase: RaytracePhase, obs: Seq<RaytraceObservation>) -> RaytracePhase
    decreases obs.len(),
{
    if obs.len() == 0 {
        phase
    } else {
        raytrace_run(raytrace_next(phase, obs[0]).0, obs.drop_first())
    }
}

/// How many of the outcomes `obs`, reported in order from `phase`, are
/// outcomes of a ray cast that the run asked for: the number of rays cast.
pub open spec fn rays_cast(phase: RaytracePhase, obs: Seq<RaytraceObservation>) -> nat
    decreases obs.len(),
{
    if obs.len() == 0 {
        0
    } else {
        let this: nat = if phase is Cast && obs[0] is Ray {
            1
        } else {
            0
        };
        this + rays_cast(raytrace_next(phase, obs[0]).0, obs.drop_first())
    }
}

/// How many more rays a run may cast from a phase whose round is below the
/// limit.
pub open spec fn rays_left(phase: RaytracePhase) -> nat {
    match phase {
        RaytracePhase::Lightness => RAYTRACE_ROUNDS as nat,
        RaytracePhase::OriginGamut => RAYTRACE_ROUNDS as nat,
        RaytracePhase::Cast { round } => (RAYTRACE_ROUNDS - round) as nat,
        RaytracePhase::Done(_) => 0,
    }
}

/// Whether a phase can occur in a run: a casting phase is below the limit.
pub open spec fn raytrace_phase_ok(phase: RaytracePhase) -> bool {
    phase is Cast ==> phase->round < RAYTRACE_ROUNDS
}

/// Every step keeps the round of a casting phase below the limit, and a ray
/// cast moves to the next round or ends the run.
pub proof fn lemma_raytrace_rounds_advance(phase: RaytracePhase, obs: RaytraceObservation)
    requires
        raytrace_phase_ok(phase),
    ensures
        raytrace_phase_ok(raytrace_next(phase, obs).0),
        (phase is Cast && obs is Ray) ==> {
            let next = raytrace_next(phase, obs).0;
            next is Done || (next is Cast && next->round == phase->round + 1)
        },
{
}

/// A run casts at most four rays, whatever the outcomes reported to it.
pub proof fn lemma_raytrace_at_most_four_rays(obs: Seq<RaytraceObservation>)
    ensures
        rays_cast(RaytracePhase::Lightness, obs) <= RAYTRACE_ROUNDS,
        raytrace_phase_ok(raytrace_run(RaytracePhase::Lightness, obs)),
{
    lemma_raytrace_rays_within_budget(RaytracePhase::Lightness, obs);
}

/// From any phase that can occur, a run casts no more rays than it has left.
pub proof fn lemma_raytrace_rays_within_budget(phase: RaytracePhase, obs: Seq<RaytraceObservation>)
    requires
        raytrace_phase_ok(phase),
    ensures
        rays_cast(phase, obs) <= rays_left(phase),
        raytrace_phase_ok(raytrace_run(phase, obs)),
    decreases obs.len(),
{
    if obs.len() > 0 {
        let next = raytrace_next(phase, obs[0]).0;
        lemma_raytrace_rounds_advance(phase, obs[0]);
        lemma_raytrace_rays_within_budget(next, obs.drop_first());
    }
}

/// A finished run stays finished with the same answer, whatever is
/// reported to it afterwards.
pub proof fn lemma_raytrace_done_is_final(result: RaytraceResult, obs: Seq<RaytraceObservation>)
    ensures
        raytrace_run(RaytracePhase::Done(result), obs) == RaytracePhase::Done(result),
        rays_cast(RaytracePhase::Done(result), obs) == 0,
    decreases obs.len(),
{
    if obs.len() > 0 {
        lemma_raytrace_done_is_final(result, obs.drop_first());
    }
}

/// The anchor stays the achromatic colour of the origin during the first
/// round, and later moves only to a colour strictly inside the gamut's box.
pub proof fn lemma_raytrace_anchor_moves_only_inside(phase: RaytracePhase, obs: RaytraceObservation)
    ensures
        raytrace_next(phase, obs).1 matches RaytraceEffect::Advance { move_anchor, .. } ==> (
            move_anchor <==> (phase->round > 0 && obs->inside)),
        phase == (RaytracePhase::Cast { round: 0 }) ==> !(raytrace_next(phase, obs).1 matches RaytraceEffect::Advance { move_anchor: true, .. }),
{
}

/// The lightness test opens the run: a lightness of at least 100% gives
/// white whatever the other test says, one of at most 0% (and below 100%)
/// gives black, and any other prepares the anchor and `origin_rgb`.
pub proof fn lemma_raytrace_lightness(at_least_max: bool, at_most_min: bool)
    ensures
        ({
            let (next, effect) = raytrace_next(
                RaytracePhase::Lightness,
                RaytraceObservation::Lightness { at_least_max, at_most_min },
            );
            &&& at_least_max ==> next == RaytracePhase::Done(RaytraceResult::White) && effect
                == RaytraceEffect::Nothing
            &&& !at_least_max && at_most_min ==> next == RaytracePhase::Done(RaytraceResult::Black)
                && effect == RaytraceEffect::Nothing
            &&& !at_least_max && !at_most_min ==> next == RaytracePhase::OriginGamut && effect
                == RaytraceEffect::Prepare
        }),
{
}

/// An `origin_rgb` inside the linear-light gamut is clipped as it is; one
/// outside is remembered as `last` and the first ray is cast.
pub proof fn lemma_raytrace_origin_gamut(inside: bool)
    ensures
        raytrace_next(RaytracePhase::OriginGamut, RaytraceObservation::InGamut(inside)) == if inside {
            (RaytracePhase::Done(RaytraceResult::ClipOrigin), RaytraceEffect::Nothing)
        } else {
            (RaytracePhase::Cast { round: 0 }, RaytraceEffect::Remember)
        },
{
}

/// A ray that meets the gamut's boundary moves `origin_rgb` to the
/// intersection: in a round below the last, the run goes on to the next
/// round and corrects the lightness and hue; in the last round it ends and
/// clips. The anchor moves only after the first round and only from inside
/// the box. A ray that misses puts back `last` and ends the run. The run
/// ends early, and `last` is put back, only on a miss.
pub proof fn lemma_raytrace_cast(round: u8, hit: bool, inside: bool)
    requires
        round < RAYTRACE_ROUNDS,
    ensures
        ({
            let (next, effect) = raytrace_next(
                RaytracePhase::Cast { round },
                RaytraceObservation::Ray { hit, inside },
            );
            &&& hit && round + 1 < RAYTRACE_ROUNDS ==> next == RaytracePhase::Cast {
                round: (round + 1) as u8,
            } && effect == RaytraceEffect::Advance {
                move_anchor: round > 0 && inside,
                correct: true,
            }
            &&& hit && round + 1 == RAYTRACE_ROUNDS ==> next == RaytracePhase::Done(
                RaytraceResult::ClipOrigin,
            ) && effect == RaytraceEffect::Advance { move_anchor: round > 0 && inside, correct: false }
            &&& !hit ==> next == RaytracePhase::Done(RaytraceResult::ClipOrigin) && effect
                == RaytraceEffect::Restore
            &&& effect == RaytraceEffect::Restore <==> !hit
            &&& next is Done ==> (!hit || round + 1 == RAYTRACE_ROUNDS)
        }),
{
}

/// An outcome of another kind than the phase asks for, or any outcome after
/// the end, leaves the run where it is and asks for nothing.
pub proof fn lemma_raytrace_ignores_other_outcomes(phase: RaytracePhase, obs: RaytraceObservation)
    requires
        phase is Done
            || (phase is Lightness && !(obs is Lightness))
            || (phase is OriginGamut && !(obs is InGamut))
            || (phase is Cast && !(obs is Ray)),
    ensures
        raytrace_next(phase, obs) == (phase, RaytraceEffect::Nothing),
{
}

/// The state of one raytracing run.
pub struct Raytrace {
    phase: RaytracePhase,
}

impl View for Raytrace {
    type V = RaytracePhase;

    closed spec fn view(&self) -> RaytracePhase {
        self.phase
    }
}

impl Raytrace {
    /// A run that has not looked at the origin yet.
    pub fn new() -> (r: Self)
        ensures
            r@ == RaytracePhase::Lightness,
    {
        Raytrace { phase: RaytracePhase::Lightness }
    }

    /// Where the run stands.
    pub fn phase(&self) -> (p: RaytracePhase)
        ensures
            p == self@,
    {
        self.phase
    }

    /// Takes the outcome of the test that the phase asked for, moves to the
    /// next phase and returns what the caller does to its colours.
    pub fn step(&mut self, obs: RaytraceObservation) -> (e: RaytraceEffect)
        ensures
            (final(self)@, e) == raytrace_next(old(self)@, obs),
    {
        let (next, effect) = match self.phase {
            RaytracePhase::Lightness => match obs {
                RaytraceObservation::Lightness { at_least_max, at_most_min } => match entry(
                    at_least_max,
                    at_most_min,
                ) {
                    Entry::White => (
                        RaytracePhase::Done(RaytraceResult::White),
                        RaytraceEffect::Nothing,
                    ),
                    Entry::Black => (
                        RaytracePhase::Done(RaytraceResult::Black),
                        RaytraceEffect::Nothing,
                    ),
                    Entry::Proceed => (RaytracePhase::OriginGamut, RaytraceEffect::Prepare),
                },
                _ => (self.phase, RaytraceEffect::Nothing),
            },
            RaytracePhase::OriginGamut => match obs {
                RaytraceObservation::InGamut(inside) => if inside {
                    (RaytracePhase::Done(RaytraceResult::ClipOrigin), RaytraceEffect::Nothing)
                } else {
                    (RaytracePhase::Cast { round: 0 }, RaytraceEffect::Remember)
                },
                _ => (self.phase, RaytraceEffect::Nothing),
            },
            RaytracePhase::Cast { round } => match obs {
                RaytraceObservation::Ray { hit, inside } => if !hit {
                    (RaytracePhase::Done(RaytraceResult::ClipOrigin), RaytraceEffect::Restore)
                } else {
                    let move_anchor = round > 0 && inside;
                    if round < RAYTRACE_ROUNDS - 1 {
                        (
                            RaytracePhase::Cast { round: round + 1 },
                            RaytraceEffect::Advance { move_anchor, correct: true },
                        )
                    } else {
                        (
                            RaytracePhase::Done(RaytraceResult::ClipOrigin),
                            RaytraceEffect::Advance { move_anchor, correct: false },
                        )
                    }
                },
                _ => (self.phase, RaytraceEffect::Nothing),
            },
            RaytracePhase::Done(_) => (self.phase, RaytraceEffect::Nothing),
        };
        self.phase = next;
        effect
    }
}

} // verus!
