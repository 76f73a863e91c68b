//! What a user of a debounced pin needs in scope: the pin itself, the state
//! that its updates report, and the traits that carry its methods.

pub use crate::input::RawInput;
pub use crate::pin::{Debounce, DebouncedInputPin};
pub use crate::state::DebounceState;
pub use embedded_hal::digital::v2::InputPin;
