//! The debounced input: a raw input, a polarity and the filter's memory.

use crate::input::RawInput;
use crate::polarity::{asserted, reads_high, reads_low, Polarity};
use crate::state::{advance, reachable, step, DebounceState, Filter};
use core::marker::PhantomData;
use embedded_hal::digital::v2::InputPin;
use vstd::prelude::*;

verus! {

/// Something that is debounced by periodic calls of `update`.
pub trait Debounce {
    /// What a failed update reports.
    type Error;

    /// What a successful update reports.
    type State;

    /// Takes one sample and moves the debounce logic one step forward.
    /// Meant to be called at a constant cadence, about once per millisecond.
    fn update(&mut self) -> Result<Self::State, Self::Error>;
}

/// A debounced input pin.
///
/// It owns the raw input and reads it once per `update`. It is an input pin
/// itself: its own level queries answer from the filtered state alone and
/// never touch the raw input.
pub struct DebouncedInputPin<T: RawInput, A> {
    /// The wrapped raw input.
    pub pin: T,
    /// Whether the signal is asserted high or low.
    activeness: PhantomData<A>,
    /// The state that the latest update reported.
    debounce_state: DebounceState,
    /// The asserted samples counted so far.
    counter: i8,
}

impl<T: RawInput, A> View for DebouncedInputPin<T, A> {
    type V = Filter;

    /// The filter's memory, without the raw input.
    closed spec fn view(&self) -> Filter {
        Filter { state: self.debounce_state, counter: self.counter as int }
    }
}

impl<T: RawInput, A> DebouncedInputPin<T, A> {
    /// The raw input that the filter owns.
    pub closed spec fn source(&self) -> T {
        self.pin
    }

    /// Whether the state and the counter fit together, as they do in every
    /// filter that came from `new` and was changed by updates only.
    pub open spec fn wf(&self) -> bool {
        reachable(self@)
    }

    /// Initializes a new debounced input pin: not active, nothing counted.
    pub fn new(pin: T, _activeness: A) -> (r: Self)
        ensures
            r@ == (Filter { state: DebounceState::NotActive, counter: 0 }),
            r.source() == pin,
            r.wf(),
    {
        Self { pin, activeness: PhantomData, debounce_state: DebounceState::NotActive, counter: 0 }
    }

    /// Puts a debounced pin together from a state and a counter, to carry
    /// on where another filter stood. The two are taken as they are: the
    /// result is well formed exactly if they fit together.
    pub fn from_parts(pin: T, _activeness: A, debounce_state: DebounceState, counter: i8) -> (r:
        Self)
        ensures
            r@ == (Filter { state: debounce_state, counter: counter as int }),
            r.source() == pin,
            r.wf() == reachable((Filter { state: debounce_state, counter: counter as int })),
    {
        Self { pin, activeness: PhantomData, debounce_state, counter }
    }

    /// The state that the latest update reported.
    pub fn debounce_state(&self) -> (s: DebounceState)
        ensures
            s == self@.state,
    {
        self.debounce_state
    }

    /// The asserted samples counted so far.
    pub fn counter(&self) -> (c: i8)
        ensures
            c == self@.counter,
    {
        self.counter
    }

    /// Checks if the pin debounce state is active.
    pub fn is_active(&self) -> (b: bool)
        ensures
            b == (self@.state == DebounceState::Active),
    {
        self.debounce_state == DebounceState::Active
    }
}

impl<T: RawInput, A: Polarity> DebouncedInputPin<T, A> {
    /// Whether the raw input may give this answer to the query that an
    /// update puts to it: whether it is low where the signal is asserted
    /// high, whether it is high where the signal is asserted low. The
    /// answers that may come are those that the contract of the raw
    /// input's query allows. Of a raw input without a contract nothing is
    /// known but that each answer it gives is one of them.
    pub open spec fn may_answer(&self, answer: Result<bool, T::Error>) -> bool {
        if A::asserted_high() {
            call_ensures(T::is_low, (&self.source(),), answer)
        } else {
            call_ensures(T::is_high, (&self.source(),), answer)
        }
    }

    /// Moves the filter one step forward on a reading of the raw level,
    /// `Ok(true)` for high.
    ///
    /// A failed reading is handed back as it came and leaves the filter as
    /// it was, so the next update carries on from the same state.
    pub fn apply_reading(&mut self, level: Result<bool, T::Error>) -> (r: Result<
        DebounceState,
        T::Error,
    >)
        ensures
            final(self).source() == old(self).source(),
            old(self).wf() ==> final(self).wf(),
            match level {
                Ok(high) => {
                    &&& final(self)@ == step(old(self)@, asserted(A::asserted_high(), high))
                    &&& r == Ok::<DebounceState, T::Error>(final(self)@.state)
                },
                Err(e) => {
                    &&& final(self)@ == old(self)@
                    &&& r == Err::<DebounceState, T::Error>(e)
                },
            },
    {
        match level {
            Ok(high) => {
                let next = advance(
                    self.debounce_state,
                    self.counter,
                    high == A::is_asserted_high(),
                );
                self.debounce_state = next.0;
                self.counter = next.1;
                Ok(next.0)
            },
            Err(e) => Err(e),
        }
    }
}

/// One implementation serves both polarities: the polarity picks the query
/// that is put to the raw input, and the transition rule does the rest.
impl<T: RawInput, A: Polarity> Debounce for DebouncedInputPin<T, A> {
    type Error = T::Error;

    type State = DebounceState;

    /// Reads the raw input once and moves the filter one step forward.
    ///
    /// An input that is asserted high is asked whether it is low, one that
    /// is asserted low whether it is high: the signal is asserted when the
    /// answer is no. What the raw input answers is its own affair, so the
    /// outcome is stated over the answer that it gave, whatever that was.
    /// A failure is the raw input's own, handed on as it came, and leaves
    /// the filter as it was. After "yes" the filter has taken the step of
    /// the transition rule for a sample that is not asserted, after "no"
    /// the step for an asserted one, and the state that the step led to is
    /// reported.
    fn update(&mut self) -> (r: Result<DebounceState, T::Error>)
        ensures
            final(self).source() == old(self).source(),
            old(self).wf() ==> final(self).wf(),
            match r {
                Ok(s) => {
                    &&& s == final(self)@.state
                    &&& ({
                        ||| old(self).may_answer(Ok(true)) && final(self)@ == step(
                            old(self)@,
                            false,
                        )
                        ||| old(self).may_answer(Ok(false)) && final(self)@ == step(
                            old(self)@,
                            true,
                        )
                    })
                },
                Err(e) => old(self).may_answer(Err(e)) && final(self)@ == old(self)@,
            },
    {
        let level = if A::is_asserted_high() {
            match self.pin.is_low() {
                Ok(low) => Ok(!low),
                Err(e) => Err(e),
            }
        } else {
            self.pin.is_high()
        };
        self.apply_reading(level)
    }
}

/// The filtered signal as an input pin. The queries answer from the
/// debounce state under the polarity: an active signal sits at its asserted
/// level, any other at the opposite one. They share the error type of the
/// raw input, though neither of them fails.
impl<T: RawInput, A: Polarity> InputPin for DebouncedInputPin<T, A> {
    type Error = T::Error;

    /// Whether the filtered signal is high. Never fails.
    fn is_high(&self) -> (r: Result<bool, T::Error>)
        ensures
            r == Ok::<bool, T::Error>(reads_high(A::asserted_high(), self@.state)),
    {
        Ok((self.debounce_state == DebounceState::Active) == A::is_asserted_high())
    }

    /// Whether the filtered signal is low. Never fails.
    fn is_low(&self) -> (r: Result<bool, T::Error>)
        ensures
            r == Ok::<bool, T::Error>(reads_low(A::asserted_high(), self@.state)),
    {
        Ok((self.debounce_state == DebounceState::Active) != A::is_asserted_high())
    }
}

} // verus!
