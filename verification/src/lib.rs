//! A debouncing filter for one binary input signal.
//!
//! A mechanical switch bounces: one press or release produces a burst of
//! spurious transitions before the contact settles. The filter in this crate
//! is polled at a fixed cadence, nominally once per millisecond, and turns
//! the noisy level into a stable [`DebounceState`]. It counts the samples
//! that read asserted, reports the signal as active once the counter is
//! full, and releases it on the first sample that reads not asserted.
//!
//! The unit of the threshold is one call of `update`, not wall-clock time:
//! the caller picks the cadence, and with it the time that a press takes to
//! be confirmed.
//!
//! ```rust,ignore
//! use debounced_pin::prelude::*;
//! use debounced_pin::ActiveHigh;
//!
//! let mut pin = DebouncedInputPin::new(raw_pin, ActiveHigh);
//!
//! loop {
//!     match pin.update()? {
//!         // Pin is not active, or was released just now.
//!         DebounceState::NotActive | DebounceState::Reset => {}
//!         // Pin is asserted but still debouncing.
//!         DebounceState::Debouncing => {}
//!         // Pin is active and debounced.
//!         DebounceState::Active => break,
//!     }
//!     wait_one_millisecond();
//! }
//! ```
//!
//! # Modules
//!
//! - [`state`]: the transition rule, as a mathematical function on the
//!   filter's memory and as executable code on plain values.
//! - [`polarity`]: the two polarity tags, asserted high and asserted low.
//! - [`input`]: the read interface of a raw input.
//! - [`pin`]: the debounced pin itself, an `embedded-hal` input pin for the
//!   filtered signal.
//! - [`laws`]: what holds of every run of samples, proved from the rule.

pub mod input;
pub mod laws;
pub mod pin;
pub mod polarity;
pub mod prelude;
mod sealed;
pub mod state;

pub use input::RawInput;
pub use pin::{Debounce, DebouncedInputPin};
pub use polarity::{ActiveHigh, ActiveLow, Polarity};
pub use state::{advance, DebounceState, THRESHOLD};
