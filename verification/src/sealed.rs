//! Keeps the set of polarity tags closed.

use vstd::prelude::*;

verus! {

/// Implemented by the two polarity tags of this crate and, as it cannot be
/// named from outside, by nothing else.
pub trait Sealed {

}

} // verus!
