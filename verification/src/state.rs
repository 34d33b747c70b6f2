//! The pause flag shared by every stage of a frame.

use vstd::prelude::*;

verus! {

/// While `paused` is set, motion, collisions, paddles, scoring and the clock
/// stand still.
#[derive(Clone, Copy, Debug, PartialEq, Eq, Structural)]
pub struct Pause {
    pub paused: bool,
}

impl Default for Pause {
    /// The simulation starts paused.
    fn default() -> (r: Pause)
        ensures
            r.paused,
    {
        Pause { paused: true }
    }
}

} // verus!
