//! The ball and the point type that positions and velocities share.

use vstd::prelude::*;
use crate::fixed::Fixed;

verus! {

/// A pair of coordinates: a position in the arena, or a velocity in units
/// per second. The origin is the arena's bottom left corner.
#[derive(Clone, Copy, Debug, PartialEq, Eq, Structural)]
pub struct Vec2 {
    pub x: Fixed,
    pub y: Fixed,
}

/// A ball in flight.
///
/// `predicted_impact_y` caches the height at which the ball will reach the
/// right-hand wall. It is computed once per flight leg and cleared by every
/// paddle bounce, score and rescale.
#[derive(Clone, Copy, Debug, PartialEq, Eq)]
pub struct Ball {
    pub position: Vec2,
    pub velocity: Vec2,
    pub radius: Fixed,
    pub predicted_impact_y: Option<Fixed>,
}

} // verus!
