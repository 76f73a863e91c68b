//! What holds of the filter on every input, proved from the transition rule.

use crate::polarity::{asserted_samples, inverted, reads_high, reads_low};
use crate::state::{reachable, run, steady, step, trace, DebounceState, Filter, THRESHOLD};
use vstd::prelude::*;

verus! {

/// A run that is extended by one sample takes one more step.
pub proof fn lemma_run_push(f: Filter, samples: Seq<bool>, asserted: bool)
    ensures
        run(f, samples.push(asserted)) == step(run(f, samples), asserted),
{
    assert(samples.push(asserted).drop_last() =~= samples);
}

/// The state and the counter of a filter always fit together: a step keeps
/// them so, and hence a whole run does.
pub proof fn lemma_run_reachable(f: Filter, samples: Seq<bool>)
    requires
        reachable(f),
    ensures
        reachable(run(f, samples)),
    decreases samples.len(),
{
    if samples.len() > 0 {
        lemma_run_reachable(f, samples.drop_last());
    }
}

/// An update reports `Active` exactly when the sample is asserted and the
/// counter had already reached the threshold.
pub proof fn lemma_active_iff_full(f: Filter, asserted: bool)
    ensures
        step(f, asserted).state == DebounceState::Active <==> asserted && f.counter >= THRESHOLD,
{
}

/// A release is reported once: an update reports `Reset` exactly when the
/// sample is not asserted and the filter was active, so that the update
/// after a `Reset` never reports `Reset` again.
pub proof fn lemma_reset_once(f: Filter, asserted: bool, next: bool)
    ensures
        step(f, asserted).state == DebounceState::Reset <==> !asserted && f.state
            == DebounceState::Active,
        step(f, asserted).state == DebounceState::Reset ==> step(step(f, asserted), next).state
            != DebounceState::Reset,
{
}

/// The filter after `n` samples that all read asserted: the counter has
/// climbed by one per sample until it reached the threshold, and the last
/// update reported `Debouncing` if it still counted and `Active` if not.
pub proof fn lemma_rise_run(f: Filter, n: nat)
    ensures
        run(f, steady(n, true)).counter == if f.counter >= THRESHOLD {
            f.counter
        } else if f.counter + n <= THRESHOLD {
            f.counter + n
        } else {
            THRESHOLD as int
        },
        n > 0 ==> run(f, steady(n, true)).state == if f.counter + n <= THRESHOLD {
            DebounceState::Debouncing
        } else {
            DebounceState::Active
        },
    decreases n,
{
    if n > 0 {
        let shorter = steady((n - 1) as nat, true);
        lemma_rise_run(f, (n - 1) as nat);
        assert(steady(n, true).drop_last() =~= shorter);
    }
}

/// Monotonic rise: while the input stays asserted, the updates report
/// `Debouncing` until the counter is full and `Active` from then on, for as
/// long as the input stays asserted. Counted from a filter whose counter
/// stands at `c`, update number `i + 1` reports `Debouncing` if `c + i` is
/// below the threshold and `Active` otherwise: a fresh filter counts ten
/// samples and confirms on the eleventh.
pub proof fn lemma_monotonic_rise(f: Filter, n: nat)
    ensures
        trace(f, steady(n, true)).len() == n,
        forall|i: int|
            0 <= i < n ==> #[trigger] trace(f, steady(n, true))[i] == if f.counter + i
                < THRESHOLD {
                DebounceState::Debouncing
            } else {
                DebounceState::Active
            },
{
    assert forall|i: int| 0 <= i < n implies #[trigger] trace(f, steady(n, true))[i] == if f.counter
        + i < THRESHOLD {
        DebounceState::Debouncing
    } else {
        DebounceState::Active
    } by {
        assert(steady(n, true).take(i + 1) =~= steady((i + 1) as nat, true));
        lemma_rise_run(f, (i + 1) as nat);
    }
}

/// A press is confirmed after a bounded number of updates: whatever a
/// filter has counted, one more asserted sample than the threshold makes it
/// active.
pub proof fn lemma_bounded_latency(f: Filter, n: nat)
    requires
        f.counter >= 0,
        n > THRESHOLD,
    ensures
        run(f, steady(n, true)).state == DebounceState::Active,
{
    lemma_rise_run(f, n);
}

/// Instant fall from `Active`: the first sample that is not asserted is
/// answered with `Reset` and empties the counter, and if the next one is
/// not asserted either it is answered with `NotActive`.
pub proof fn lemma_fall_from_active(f: Filter)
    requires
        f.state == DebounceState::Active,
    ensures
        step(f, false) == (Filter { state: DebounceState::Reset, counter: 0 }),
        step(step(f, false), false) == (Filter { state: DebounceState::NotActive, counter: 0 }),
        trace(f, steady(2, false)) == seq![DebounceState::Reset, DebounceState::NotActive],
{
    let two = steady(2, false);
    let one = two.take(1);
    assert(two.take(2) =~= one.push(false));
    assert(one =~= Seq::<bool>::empty().push(false));
    lemma_run_push(f, Seq::empty(), false);
    lemma_run_push(f, one, false);
    assert(trace(f, two) =~= seq![DebounceState::Reset, DebounceState::NotActive]);
}

/// Instant fall before the threshold: a filter that is not active answers
/// a sample that is not asserted with `NotActive`, never with `Reset`, and
/// keeps what it has counted.
pub proof fn lemma_fall_before_active(f: Filter)
    requires
        f.state != DebounceState::Active,
    ensures
        step(f, false) == (Filter { state: DebounceState::NotActive, counter: f.counter }),
{
}

/// Idempotent steady state: an active filter stays as it is under asserted
/// samples, `Active` with the counter at the threshold, however many come.
pub proof fn lemma_steady_active(f: Filter, n: nat)
    requires
        reachable(f),
        f.state == DebounceState::Active,
    ensures
        run(f, steady(n, true)) == f,
        f.counter == THRESHOLD,
        forall|i: int| 0 <= i < n ==> #[trigger] trace(f, steady(n, true))[i] == DebounceState::Active,
{
    lemma_rise_run(f, n);
    lemma_monotonic_rise(f, n);
}

/// Polarity symmetry: a filter that is asserted high reports on a run of
/// raw levels what a filter that is asserted low reports on the inverted
/// run, and the two end up with the same memory.
pub proof fn lemma_polarity_symmetry(f: Filter, levels: Seq<bool>)
    ensures
        trace(f, asserted_samples(true, levels)) == trace(
            f,
            asserted_samples(false, inverted(levels)),
        ),
        run(f, asserted_samples(true, levels)) == run(f, asserted_samples(false, inverted(levels))),
{
    assert(asserted_samples(true, levels) =~= asserted_samples(false, inverted(levels)));
}

/// Query consistency: whatever the polarity and the state, exactly one of
/// the two level queries answers yes, and the one for the asserted level
/// does so exactly when the state is `Active`.
pub proof fn lemma_queries_consistent(asserted_high: bool, state: DebounceState)
    ensures
        reads_high(asserted_high, state) != reads_low(asserted_high, state),
        (if asserted_high {
            reads_high(asserted_high, state)
        } else {
            reads_low(asserted_high, state)
        }) == (state == DebounceState::Active),
{
}

} // verus!
