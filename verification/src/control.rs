//! The event loop's control flag.

use vstd::prelude::*;

verus! {

/// The tri-state signal consumed by the event loop after each dispatch:
/// keep blocking for the next event, busy-poll, or terminate.
#[derive(Clone, Copy, Debug, PartialEq, Eq, Structural)]
pub enum ControlFlag {
    Wait,
    Poll,
    Exit,
}

impl ControlFlag {
    /// The loop terminates exactly when the flag is `Exit`.
    pub fn requests_exit(&self) -> (r: bool)
        ensures
            r == (*self is Exit),
    {
        match self {
            ControlFlag::Exit => true,
            _ => false,
        }
    }
}

} // verus!
