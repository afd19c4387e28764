//! The lightness test shared by both gamut-mapping algorithms.

use vstd::prelude::*;

verus! {

/// How a gamut-mapping run begins, decided by the OkLCh lightness of the
/// origin colour (steps 3 and 4 of both CSS Color 4 algorithms).
#[derive(Clone, Copy, Debug, PartialEq, Eq, Structural)]
pub enum Entry {
    /// The lightness is at least 100%: the answer is `oklab(1 0 0)`, white.
    White,
    /// The lightness is at most 0%: the answer is `oklab(0 0 0)`, black.
    Black,
    /// The lightness lies strictly between: the colour goes on to be mapped.
    Proceed,
}

/// How a run begins, as a function of the two lightness tests. The test for white comes first, so it wins when both
/// tests hold.
pub open spec fn entry_of(lightness_at_least_max: bool, lightness_at_most_min: bool) -> Entry {
    if lightness_at_least_max {
        Entry::White
    } else if lightness_at_most_min {
        Entry::Black
    } else {
        Entry::Proceed
    }
}

/// Decides how a run begins from the two lightness tests on the origin:
/// `l >= 1` and `l <= 0`. A NaN lightness fails both tests and is mapped.
pub fn entry(lightness_at_least_max: bool, lightness_at_most_min: bool) -> (e: Entry)
    ensures
        e == entry_of(lightness_at_least_max, lightness_at_most_min),
{
    if lightness_at_least_max {
        Entry::White
    } else if lightness_at_most_min {
        Entry::Black
    } else {
        Entry::Proceed
    }
}

/// White comes first: a lightness of at least 100% gives white whatever the
/// other test says; black needs the first test to fail and the second to
/// hold; the colour is mapped only when both fail.
pub proof fn lemma_entry_white_first(at_least_max: bool, at_most_min: bool)
    ensures
        at_least_max ==> entry_of(at_least_max, at_most_min) == Entry::White,
        entry_of(at_least_max, at_most_min) == Entry::Black <==> (!at_least_max && at_most_min),
        entry_of(at_least_max, at_most_min) == Entry::Proceed <==> (!at_least_max && !at_most_min),
{
}

} // verus!
