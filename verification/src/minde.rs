//! Control of gamut mapping by binary search with local MINDE
//! (CSS Color 4, "binary search gamut mapping with local MINDE").
//!
//! The search works on a colour `current` in OkLCh whose chroma it moves
//! between `min` and `max`, and on `clipped`, the last clip of `current`
//! into the destination gamut. All of these hold floating-point numbers and
//! are kept by the caller. The machine here holds the rest: where the
//! algorithm stands and whether `min` is still known to be in gamut. The
//! caller reads the phase, makes the numeric test that it names, reports the
//! outcome with `step`, and carries out the effect that `step` returns.

use vstd::prelude::*;

use crate::entry::{entry, entry_of, Entry};

verus! {

/// The answer of a finished search.
#[derive(Clone, Copy, Debug, PartialEq, Eq, Structural)]
pub enum MindeResult {
    /// White, `oklab(1 0 0)`, converted to the destination.
    White,
    /// Black, `oklab(0 0 0)`, converted to the destination.
    Black,
    /// The origin, converted to the destination as it is.
    Convert,
    /// The colour `clipped` as it stands.
    Clipped,
}

/// Where the search stands, and so which test the caller makes next.
#[derive(Clone, Copy, Debug, PartialEq, Eq, Structural)]
pub enum MindePhase {
    /// Report `Lightness`: the origin's OkLCh lightness against 1 and 0.
    Lightness,
    /// Report `InGamut`: whether the origin (in OkLCh) is inside the
    /// destination gamut.
    OriginGamut,
    /// Set `current` to the origin, set `clipped` to the clip of `current`,
    /// and report `Delta` for the two.
    FirstClip,
    /// Report `Wide`: whether `max - min` exceeds the search's epsilon.
    Width { min_in_gamut: bool },
    /// Report `InGamut`: whether `current` is inside the destination gamut.
    Probe,
    /// Set `clipped` to the clip of `current` and report `Delta` for the two.
    Judge { min_in_gamut: bool },
    /// The search is over.
    Done(MindeResult),
}

/// The outcome of the numeric test that the phase asked for.
#[derive(Clone, Copy, Debug, PartialEq, Eq, Structural)]
pub enum MindeObservation {
    /// `l >= 1` and `l <= 0` for the origin's OkLCh lightness `l`.
    Lightness { at_least_max: bool, at_most_min: bool },
    /// Whether the colour tested lies in the destination gamut.
    InGamut(bool),
    /// For `E`, the deltaEOK of `clipped` against `current`:
    /// `E < JND`, and `JND - E < epsilon`.
    Delta { below_jnd: bool, near_jnd: bool },
    /// `max - min > epsilon`.
    Wide(bool),
}

/// What the caller does to its numeric state after a step.
#[derive(Clone, Copy, Debug, PartialEq, Eq, Structural)]
pub enum MindeEffect {
    /// Nothing.
    Nothing,
    /// Set `min` to zero and `max` to the chroma of the origin.
    StartInterval,
    /// Set `chroma` to `(min + max) / 2` and the chroma of `current` to it.
    Bisect,
    /// Set `min` to `chroma`.
    RaiseMin,
    /// Set `max` to `chroma`.
    LowerMax,
}

/// The transition table of the search: the next phase and the effect, for a
/// phase and the outcome reported in it. An outcome of another kind than the
/// phase asked for, or any outcome once the search is done, changes nothing.
pub open spec fn minde_next(phase: MindePhase, obs: MindeObservation) -> (MindePhase, MindeEffect) {
    match phase {
        MindePhase::Lightness => match obs {
            MindeObservation::Lightness { at_least_max, at_most_min } => match entry_of(
                at_least_max,
                at_most_min,
            ) {
                Entry::White => (MindePhase::Done(MindeResult::White), MindeEffect::Nothing),
                Entry::Black => (MindePhase::Done(MindeResult::Black), MindeEffect::Nothing),
                Entry::Proceed => (MindePhase::OriginGamut, MindeEffect::Nothing),
            },
            _ => (phase, MindeEffect::Nothing),
        },
        MindePhase::OriginGamut => match obs {
            MindeObservation::InGamut(inside) => if inside {
                (MindePhase::Done(MindeResult::Convert), MindeEffect::Nothing)
            } else {
                (MindePhase::FirstClip, MindeEffect::Nothing)
            },
            _ => (phase, MindeEffect::Nothing),
        },
        MindePhase::FirstClip => match obs {
            MindeObservation::Delta { below_jnd, .. } => if below_jnd {
                (MindePhase::Done(MindeResult::Clipped), MindeEffect::Nothing)
            } else {
                (MindePhase::Width { min_in_gamut: true }, MindeEffect::StartInterval)
            },
            _ => (phase, MindeEffect::Nothing),
        },
        MindePhase::Width { min_in_gamut } => match obs {
            MindeObservation::Wide(wide) => if !wide {
                (MindePhase::Done(MindeResult::Clipped), MindeEffect::Nothing)
            } else if min_in_gamut {
                (MindePhase::Probe, MindeEffect::Bisect)
            } else {
                (MindePhase::Judge { min_in_gamut: false }, MindeEffect::Bisect)
            },
            _ => (phase, MindeEffect::Nothing),
        },
        MindePhase::Probe => match obs {
            MindeObservation::InGamut(inside) => if inside {
                (MindePhase::Width { min_in_gamut: true }, MindeEffect::RaiseMin)
            } else {
                (MindePhase::Judge { min_in_gamut: true }, MindeEffect::Nothing)
            },
            _ => (phase, MindeEffect::Nothing),
        },
        MindePhase::Judge { min_in_gamut } => match obs {
            MindeObservation::Delta { below_jnd, near_jnd } => if below_jnd && near_jnd {
                (MindePhase::Done(MindeResult::Clipped), MindeEffect::Nothing)
            } else if below_jnd {
                (MindePhase::Width { min_in_gamut: false }, MindeEffect::RaiseMin)
            } else {
                (MindePhase::Width { min_in_gamut }, MindeEffect::LowerMax)
            },
            _ => (phase, MindeEffect::Nothing),
        },
        MindePhase::Done(_) => (phase, MindeEffect::Nothing),
    }
}

/// Whether `min` is still known to lie in gamut at this phase. It starts
/// true and is set false when a clip close enough to its colour is found
/// below the chroma of `min`.
pub open spec fn min_in_gamut_at(phase: MindePhase) -> bool {
    match phase {
        MindePhase::Width { min_in_gamut } => min_in_gamut,
        MindePhase::Judge { min_in_gamut } => min_in_gamut,
        _ => true,
    }
}


/// The phase that a search reaches from `phase` when the outcomes `obs` are
/// reported in order.
pub open spec fn minde_run(phase: MindePhase, obs: Seq<MindeObservation>) -> MindePhase
    decreases obs.len(),
{
    if obs.len() == 0 {
        phase
    } else {
        minde_run(minde_next(phase, obs[0]).0, obs.drop_first())
    }
}

/// A finished search stays finished with the same answer, whatever is
/// reported to it afterwards.
pub proof fn lemma_minde_done_is_final(result: MindeResult, obs: Seq<MindeObservation>)
    ensures
        forall|o: MindeObservation|
            #[trigger] minde_next(MindePhase::Done(result), o) == (
                MindePhase::Done(result),
                MindeEffect::Nothing,
            ),
        minde_run(MindePhase::Done(result), obs) == MindePhase::Done(result),
    decreases obs.len(),
{
    if obs.len() > 0 {
        lemma_minde_done_is_final(result, obs.drop_first());
    }
}

/// Once `min` has been found out of gamut, it is never taken to be in gamut
/// again for the rest of the search.
pub proof fn lemma_minde_min_in_gamut_never_returns(
    phase: MindePhase,
    obs: Seq<MindeObservation>,
)
    requires
        !min_in_gamut_at(phase),
    ensures
        minde_run(phase, obs) is Done || !min_in_gamut_at(minde_run(phase, obs)),
    decreases obs.len(),
{
    if obs.len() > 0 {
        let next = minde_next(phase, obs[0]).0;
        if next is Done {
            lemma_minde_done_is_final(next->0, obs.drop_first());
        } else {
            lemma_minde_min_in_gamut_never_returns(next, obs.drop_first());
        }
    }
}

/// The colour `current` is tested against the gamut only while `min` is
/// known to be in gamut.
pub proof fn lemma_minde_probes_only_while_min_in_gamut(
    phase: MindePhase,
    obs: MindeObservation,
)
    requires
        minde_next(phase, obs).0 == MindePhase::Probe,
    ensures
        min_in_gamut_at(phase),
{
}

/// Each bisection of the chroma interval is followed, before the next one,
/// by exactly one move of one of its bounds, or by the end of the search:
/// from the width test the search either bisects or ends, and after a
/// bisection it never bisects or restarts the interval before it moves a
/// bound and goes back to the width test.
pub proof fn lemma_minde_one_bound_per_bisection(phase: MindePhase, obs: MindeObservation)
    ensures
        phase is Width ==> {
            let (next, effect) = minde_next(phase, obs);
            &&& effect == MindeEffect::Bisect || effect == MindeEffect::Nothing
            &&& effect == MindeEffect::Bisect <==> (next is Probe || next is Judge)
        },
        (phase is Probe || phase is Judge) ==> {
            let (next, effect) = minde_next(phase, obs);
            &&& effect != MindeEffect::Bisect && effect != MindeEffect::StartInterval
            &&& (effect == MindeEffect::RaiseMin || effect == MindeEffect::LowerMax) <==> next is Width
        },
{
}

/// A single step finishes with `clipped` only from a phase that follows the
/// first clip: the first-clip judgement itself, the width test or a later
/// judgement.
pub proof fn lemma_minde_clipped_after_a_clip(phase: MindePhase, obs: MindeObservation)
    requires
        !(phase is Done),
        minde_next(phase, obs).0 == MindePhase::Done(MindeResult::Clipped),
    ensures
        phase is FirstClip || phase is Width || phase is Judge,
{
}

/// Whether a phase comes before the first clip of a search.
pub open spec fn before_first_clip(phase: MindePhase) -> bool {
    phase is Lightness || phase is OriginGamut
}

/// Every run that starts before the first clip and ends with `clipped`
/// passes through the first-clip phase on the way: some proper prefix of
/// the outcomes leads to `FirstClip`.
pub proof fn lemma_minde_run_clips_before_clipped(phase: MindePhase, obs: Seq<MindeObservation>)
    requires
        before_first_clip(phase),
        minde_run(phase, obs) == MindePhase::Done(MindeResult::Clipped),
    ensures
        exists|k: int|
            0 <= k < obs.len() && #[trigger] minde_run(phase, obs.take(k)) == MindePhase::FirstClip,
    decreases obs.len(),
{
    assert(obs.len() > 0);
    let next = minde_next(phase, obs[0]).0;
    let rest = obs.drop_first();
    assert(minde_run(phase, obs) == minde_run(next, rest));
    assert(obs.take(1).drop_first() =~= Seq::<MindeObservation>::empty());
    assert(minde_run(phase, obs.take(1)) == minde_run(next, obs.take(1).drop_first()));
    if next == MindePhase::FirstClip {
        assert(rest.len() > 0);
        assert(minde_run(phase, obs.take(1)) == MindePhase::FirstClip);
    } else if next is Done {
        lemma_minde_done_is_final(next->0, rest);
    } else {
        assert(before_first_clip(next));
        lemma_minde_run_clips_before_clipped(next, rest);
        let k = choose|k: int|
            0 <= k < rest.len() && #[trigger] minde_run(next, rest.take(k)) == MindePhase::FirstClip;
        assert(obs.take(k + 1).drop_first() =~= rest.take(k));
        assert(obs.take(k + 1)[0] == obs[0]);
        assert(minde_run(phase, obs.take(k + 1)) == minde_run(next, rest.take(k)));
    }
}

/// A search answers with `clipped` only after it has clipped a colour: every
/// run from the start that ends with `clipped` has a proper prefix that
/// leads to the first clip.
pub proof fn lemma_minde_clipped_only_after_first_clip(obs: Seq<MindeObservation>)
    requires
        minde_run(MindePhase::Lightness, obs) == MindePhase::Done(MindeResult::Clipped),
    ensures
        exists|k: int|
            0 <= k < obs.len() && #[trigger] minde_run(MindePhase::Lightness, obs.take(k))
                == MindePhase::FirstClip,
{
    lemma_minde_run_clips_before_clipped(MindePhase::Lightness, obs);
}

/// The lightness test opens the search: a lightness of at least 100% gives
/// white whatever the other test says, one of at most 0% (and below 100%)
/// gives black, and any other goes on to the in-gamut test of the origin.
pub proof fn lemma_minde_lightness(at_least_max: bool, at_most_min: bool)
    ensures
        ({
            let (next, effect) = minde_next(
                MindePhase::Lightness,
                MindeObservation::Lightness { at_least_max, at_most_min },
            );
            &&& effect == MindeEffect::Nothing
            &&& at_least_max ==> next == MindePhase::Done(MindeResult::White)
            &&& !at_least_max && at_most_min ==> next == MindePhase::Done(MindeResult::Black)
            &&& !at_least_max && !at_most_min ==> next == MindePhase::OriginGamut
        }),
{
}

/// An origin inside the gamut is converted as it is; one outside goes on to
/// its first clip.
pub proof fn lemma_minde_origin_gamut(inside: bool)
    ensures
        minde_next(MindePhase::OriginGamut, MindeObservation::InGamut(inside)) == if inside {
            (MindePhase::Done(MindeResult::Convert), MindeEffect::Nothing)
        } else {
            (MindePhase::FirstClip, MindeEffect::Nothing)
        },
{
}

/// The first clip is returned only when it lies within one JND of the
/// origin; otherwise the search starts with `min` in gamut on the interval
/// from zero to the origin's chroma. The closeness of the clip to the JND
/// plays no part here.
pub proof fn lemma_minde_first_clip(below_jnd: bool, near_jnd: bool)
    ensures
        below_jnd ==> minde_next(
            MindePhase::FirstClip,
            MindeObservation::Delta { below_jnd, near_jnd },
        ) == (MindePhase::Done(MindeResult::Clipped), MindeEffect::Nothing),
        !below_jnd ==> minde_next(
            MindePhase::FirstClip,
            MindeObservation::Delta { below_jnd, near_jnd },
        ) == (MindePhase::Width { min_in_gamut: true }, MindeEffect::StartInterval),
{
}

/// The search goes on while the interval is wider than epsilon, bisecting
/// it and then testing the gamut while `min` is in gamut and clipping
/// otherwise; once the interval is narrow it returns the last clip.
pub proof fn lemma_minde_width(min_in_gamut: bool, wide: bool)
    ensures
        !wide ==> minde_next(MindePhase::Width { min_in_gamut }, MindeObservation::Wide(wide))
            == (MindePhase::Done(MindeResult::Clipped), MindeEffect::Nothing),
        wide && min_in_gamut ==> minde_next(
            MindePhase::Width { min_in_gamut },
            MindeObservation::Wide(wide),
        ) == (MindePhase::Probe, MindeEffect::Bisect),
        wide && !min_in_gamut ==> minde_next(
            MindePhase::Width { min_in_gamut },
            MindeObservation::Wide(wide),
        ) == (MindePhase::Judge { min_in_gamut: false }, MindeEffect::Bisect),
{
}

/// A bisected colour inside the gamut raises `min` and keeps it in gamut;
/// one outside is clipped and judged.
pub proof fn lemma_minde_probe(inside: bool)
    ensures
        inside ==> minde_next(MindePhase::Probe, MindeObservation::InGamut(inside)) == (
            MindePhase::Width { min_in_gamut: true },
            MindeEffect::RaiseMin,
        ),
        !inside ==> minde_next(MindePhase::Probe, MindeObservation::InGamut(inside)) == (
            MindePhase::Judge { min_in_gamut: true },
            MindeEffect::Nothing,
        ),
{
}

/// The judgement of a clip. A clip at least one JND away lowers `max` and
/// leaves `min_in_gamut` as it was, however close it is to the JND. A clip
/// below the JND ends the search when it is also within epsilon of the JND,
/// and otherwise raises `min` and marks `min` as out of gamut.
pub proof fn lemma_minde_judge(min_in_gamut: bool, below_jnd: bool, near_jnd: bool)
    ensures
        ({
            let (next, effect) = minde_next(
                MindePhase::Judge { min_in_gamut },
                MindeObservation::Delta { below_jnd, near_jnd },
            );
            &&& !below_jnd ==> next == MindePhase::Width { min_in_gamut } && effect
                == MindeEffect::LowerMax
            &&& below_jnd && near_jnd ==> next == MindePhase::Done(MindeResult::Clipped)
                && effect == MindeEffect::Nothing
            &&& below_jnd && !near_jnd ==> next == MindePhase::Width { min_in_gamut: false }
                && effect == MindeEffect::RaiseMin
            &&& next is Done ==> below_jnd && near_jnd
            &&& effect == MindeEffect::RaiseMin ==> below_jnd
            &&& effect == MindeEffect::LowerMax <==> !below_jnd
        }),
{
}

/// An outcome of another kind than the phase asks for, or any outcome after
/// the end, leaves the search where it is and asks for nothing.
pub proof fn lemma_minde_ignores_other_outcomes(phase: MindePhase, obs: MindeObservation)
    requires
        phase is Done
            || (phase is Lightness && !(obs is Lightness))
            || ((phase is OriginGamut || phase is Probe) && !(obs is InGamut))
            || ((phase is FirstClip || phase is Judge) && !(obs is Delta))
            || (phase is Width && !(obs is Wide)),
    ensures
        minde_next(phase, obs) == (phase, MindeEffect::Nothing),
{
}

/// The state of one binary search.
pub struct MindeSearch {
    phase: MindePhase,
}

impl View for MindeSearch {
    type V = MindePhase;

    closed spec fn view(&self) -> MindePhase {
        self.phase
    }
}

impl MindeSearch {
    /// A search that has not looked at the origin yet.
    pub fn new() -> (s: Self)
        ensures
            s@ == MindePhase::Lightness,
    {
        MindeSearch { phase: MindePhase::Lightness }
    }

    /// Where the search stands.
    pub fn phase(&self) -> (p: MindePhase)
        ensures
            p == self@,
    {
        self.phase
    }

    /// Takes the outcome of the test that the phase asked for, moves to the
    /// next phase and returns what the caller does to its numbers.
    pub fn step(&mut self, obs: MindeObservation) -> (e: MindeEffect)
        ensures
            (final(self)@, e) == minde_next(old(self)@, obs),
    {
        let (next, effect) = match self.phase {
            MindePhase::Lightness => match obs {
                MindeObservation::Lightness { at_least_max, at_most_min } => match entry(
                    at_least_max,
                    at_most_min,
                ) {
                    Entry::White => (MindePhase::Done(MindeResult::White), MindeEffect::Nothing),
                    Entry::Black => (MindePhase::Done(MindeResult::Black), MindeEffect::Nothing),
                    Entry::Proceed => (MindePhase::OriginGamut, MindeEffect::Nothing),
                },
                _ => (self.phase, MindeEffect::Nothing),
            },
            MindePhase::OriginGamut => match obs {
                MindeObservation::InGamut(inside) => if inside {
                    (MindePhase::Done(MindeResult::Convert), MindeEffect::Nothing)
                } else {
                    (MindePhase::FirstClip, MindeEffect::Nothing)
                },
                _ => (self.phase, MindeEffect::Nothing),
            },
            MindePhase::FirstClip => match obs {
                MindeObservation::Delta { below_jnd, .. } => if below_jnd {
                    (MindePhase::Done(MindeResult::Clipped), MindeEffect::Nothing)
                } else {
                    (MindePhase::Width { min_in_gamut: true }, MindeEffect::StartInterval)
                },
                _ => (self.phase, MindeEffect::Nothing),
            },
            MindePhase::Width { min_in_gamut } => match obs {
                MindeObservation::Wide(wide) => if !wide {
                    (MindePhase::Done(MindeResult::Clipped), MindeEffect::Nothing)
                } else if min_in_gamut {
                    (MindePhase::Probe, MindeEffect::Bisect)
                } else {
                    (MindePhase::Judge { min_in_gamut: false }, MindeEffect::Bisect)
                },
                _ => (self.phase, MindeEffect::Nothing),
            },
            MindePhase::Probe => match obs {
                MindeObservation::InGamut(inside) => if inside {
                    (MindePhase::Width { min_in_gamut: true }, MindeEffect::RaiseMin)
                } else {
                    (MindePhase::Judge { min_in_gamut: true }, MindeEffect::Nothing)
                },
                _ => (self.phase, MindeEffect::Nothing),
            },
            MindePhase::Judge { min_in_gamut } => match obs {
                MindeObservation::Delta { below_jnd, near_jnd } => if below_jnd && near_jnd {
                    (MindePhase::Done(MindeResult::Clipped), MindeEffect::Nothing)
                } else if below_jnd {
                    (MindePhase::Width { min_in_gamut: false }, MindeEffect::RaiseMin)
                } else {
                    (MindePhase::Width { min_in_gamut }, MindeEffect::LowerMax)
                },
                _ => (self.phase, MindeEffect::Nothing),
            },
            MindePhase::Done(_) => (self.phase, MindeEffect::Nothing),
        };
        self.phase = next;
        effect
    }
}

} // verus!
