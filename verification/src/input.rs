//! The read interface of a raw input.

use vstd::prelude::*;

verus! {

/// A binary input that can be asked for its physical level: the unfiltered
/// source that a debounced pin wraps.
///
/// Both queries may fail, with the error of the input's choosing. Nothing is
/// assumed of an implementation: a raw input answers from hardware, so two
/// reads of it may differ, and `is_low` is a query of its own that need not
/// be the negation of `is_high`.
///
/// A pin of a hardware abstraction layer is put behind this trait by
/// forwarding the two queries.
pub trait RawInput {
    /// What a failed read reports.
    type Error;

    /// Whether the input is at the high level.
    fn is_high(&self) -> Result<bool, Self::Error>;

    /// Whether the input is at the low level.
    fn is_low(&self) -> Result<bool, Self::Error>;
}

} // verus!
