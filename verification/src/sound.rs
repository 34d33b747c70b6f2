//! Sound effects that the simulation asks for.
//!
//! A stage that wants a sound appends it to a queue; whoever owns the audio
//! device plays the queue after the frame.

use vstd::prelude::*;

verus! {

/// A sound effect.
#[derive(Clone, Copy, Debug, PartialEq, Eq, Structural)]
pub enum SoundEffect {
    /// The ball bounced off a paddle.
    Bounce,
    /// The ball passed the left paddle.
    Score,
}

/// The same effect `n` times.
pub open spec fn repeated(effect: SoundEffect, n: nat) -> Seq<SoundEffect> {
    Seq::new(n, |i: int| effect)
}

} // verus!
