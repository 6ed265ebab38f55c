//! Events delivered to the polling consumer, and the keys the agent presses.

use vstd::prelude::*;

verus! {

/// A key of the local keyboard, by its symbolic name.
#[derive(Clone, Copy, Debug, PartialEq, Eq, Structural)]
pub enum Key {
    /// A decimal digit, `0` to `9`.
    Digit(u8),
    Return,
    RightArrow,
    LeftArrow,
}

impl Key {
    /// A digit key names a decimal digit.
    pub open spec fn wf(self) -> bool {
        self matches Key::Digit(d) ==> d < 10
    }
}

/// A state transition that the consumer gets to see.
#[derive(Clone, Copy, Debug, PartialEq, Eq, Structural)]
pub enum Event {
    ConnectionEstablished,
    ConnectionClosed,
    SlideChanged { new_page_index: usize },
    StepChanged { new_page_index: usize, new_step_index: usize },
    KeyPressed { key: Key },
}

} // verus!
