//! Which physical level means that the signal is asserted.

use crate::sealed::Sealed;
use crate::state::DebounceState;
use vstd::prelude::*;

verus! {

/// Tag of a signal that is asserted while the line is low.
pub struct ActiveLow;

/// Tag of a signal that is asserted while the line is high.
pub struct ActiveHigh;

/// The polarity that a tag type stands for. A tag holds no data: the
/// polarity of a filter is fixed by its type.
pub trait Polarity: Sealed {
    /// Whether the signal is asserted at the high level.
    spec fn asserted_high() -> bool;

    /// The polarity as a run-time value.
    fn is_asserted_high() -> (b: bool)
        ensures
            b == Self::asserted_high(),
    ;
}

impl Sealed for ActiveHigh {

}

impl Sealed for ActiveLow {

}

impl Polarity for ActiveHigh {
    open spec fn asserted_high() -> bool {
        true
    }

    fn is_asserted_high() -> (b: bool) {
        true
    }
}

impl Polarity for ActiveLow {
    open spec fn asserted_high() -> bool {
        false
    }

    fn is_asserted_high() -> (b: bool) {
        false
    }
}

/// Whether a raw level counts as asserted under a polarity.
pub open spec fn asserted(asserted_high: bool, level_high: bool) -> bool {
    level_high == asserted_high
}

/// A run of raw levels, `true` for high, as the samples that a filter of the
/// given polarity takes them for.
pub open spec fn asserted_samples(asserted_high: bool, levels: Seq<bool>) -> Seq<bool> {
    Seq::new(levels.len(), |i: int| asserted(asserted_high, levels[i]))
}

/// A run of raw levels with every level turned into its opposite.
pub open spec fn inverted(levels: Seq<bool>) -> Seq<bool> {
    Seq::new(levels.len(), |i: int| !levels[i])
}

/// What the filtered signal answers when asked whether it is high: an
/// active signal sits at the asserted level, any other at the opposite one.
pub open spec fn reads_high(asserted_high: bool, state: DebounceState) -> bool {
    (state == DebounceState::Active) == asserted_high
}

/// What the filtered signal answers when asked whether it is low.
pub open spec fn reads_low(asserted_high: bool, state: DebounceState) -> bool {
    (state == DebounceState::Active) != asserted_high
}

} // verus!
