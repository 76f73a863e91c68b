//! The debounce state machine: one raw sample in, one filtered state out.

use vstd::prelude::*;

verus! {

/// Number of asserted samples that the counter has to collect before an
/// asserted sample is reported as `Active`.
pub const THRESHOLD: i8 = 10;

/// The debounce state that one update reports.
#[derive(PartialEq, Eq, Structural, Clone, Copy, Debug)]
pub enum DebounceState {
    /// The sample read asserted and was counted: the signal is being
    /// pressed, but is not trusted yet.
    Debouncing,
    /// The sample read not asserted while the filter was active. Reported
    /// once, on the way from `Active` to `NotActive`, so that a release can
    /// be told from a signal that was idle all along.
    Reset,
    /// The sample read not asserted, and the filter was not active.
    NotActive,
    /// The sample read asserted on a full counter: the signal is active and
    /// debounced.
    Active,
}

/// Everything the filter remembers between two updates.
pub struct Filter {
    /// The state that the latest update reported.
    pub state: DebounceState,
    /// The asserted samples counted so far.
    pub counter: int,
}

/// The transition rule: the filter after one more sample.
///
/// A sample that is not asserted releases the filter at once, through
/// `Reset` when it was active and straight to `NotActive` otherwise. Only
/// the way through `Reset` empties the counter: a release before the signal
/// was confirmed keeps what has been counted. An asserted sample is counted
/// while the counter is below the threshold, and confirms the signal as
/// active once the counter is full.
pub open spec fn step(f: Filter, asserted: bool) -> Filter {
    if !asserted {
        if f.state == DebounceState::Active {
            Filter { state: DebounceState::Reset, counter: 0 }
        } else {
            Filter { state: DebounceState::NotActive, counter: f.counter }
        }
    } else if f.counter < THRESHOLD {
        Filter { state: DebounceState::Debouncing, counter: f.counter + 1 }
    } else {
        Filter { state: DebounceState::Active, counter: f.counter }
    }
}

/// The filter after a run of samples, the oldest first.
pub open spec fn run(f: Filter, samples: Seq<bool>) -> Filter
    decreases samples.len(),
{
    if samples.len() == 0 {
        f
    } else {
        step(run(f, samples.drop_last()), samples.last())
    }
}

/// The states that the updates of a run report, one for each sample.
pub open spec fn trace(f: Filter, samples: Seq<bool>) -> Seq<DebounceState> {
    Seq::new(samples.len(), |i: int| run(f, samples.take(i + 1)).state)
}

/// A run of `n` samples that all read the same.
pub open spec fn steady(n: nat, asserted: bool) -> Seq<bool> {
    Seq::new(n, |i: int| asserted)
}

/// The pairs of state and counter that a fresh filter can come to.
///
/// `Active` is reported with a full counter only and `Reset` with an empty
/// one, `Debouncing` has counted at least one sample, and the counter never
/// leaves the range from zero to the threshold.
pub open spec fn reachable(f: Filter) -> bool {
    match f.state {
        DebounceState::NotActive => 0 <= f.counter <= THRESHOLD,
        DebounceState::Debouncing => 1 <= f.counter <= THRESHOLD,
        DebounceState::Active => f.counter == THRESHOLD,
        DebounceState::Reset => f.counter == 0,
    }
}

/// Applies the transition rule to a state and a counter held as plain values.
pub fn advance(state: DebounceState, counter: i8, asserted: bool) -> (next: (DebounceState, i8))
    ensures
        (Filter { state: next.0, counter: next.1 as int }) == step(
            (Filter { state, counter: counter as int }),
            asserted,
        ),
{
    if !asserted {
        if state == DebounceState::Active {
            (DebounceState::Reset, 0)
        } else {
            (DebounceState::NotActive, counter)
        }
    } else if counter < THRESHOLD {
        (DebounceState::Debouncing, counter + 1)
    } else {
        (DebounceState::Active, counter)
    }
}

} // verus!
