//! The taunting face above the arena: it looks at the ball.

use vstd::prelude::*;
use crate::ball::{Ball, Vec2};
use crate::window::WindowSettings;

verus! {

/// Sprite of the face that looks to the left.
pub const FACE_LEFT: usize = 2;

/// Sprite of the face that looks straight ahead.
pub const FACE_AHEAD: usize = 4;

/// Sprite of the face that looks to the right.
pub const FACE_RIGHT: usize = 3;

/// Where the face hangs.
#[derive(Clone, Copy, Debug, PartialEq, Eq, Structural)]
pub struct TauntComponent {
    pub position: Vec2,
}

/// The face's current sprite, if there is a face.
#[derive(Clone, Copy, Debug, PartialEq, Eq)]
pub struct Taunt {
    pub face: Option<usize>,
}

impl Default for Taunt {
    /// No face.
    fn default() -> (r: Taunt)
        ensures
            r.face is None,
    {
        Taunt { face: None }
    }
}

/// The place of the face in an arena: centred, and hanging from the
/// ceiling by its upper edge.
pub open spec fn spec_taunt_position(ws: &WindowSettings) -> Vec2 {
    Vec2 {
        x: ws.arena_width().scaled(1, 2),
        y: ws.arena_height().minus(ws.taunt_height().scaled(1, 2)),
    }
}

#[verifier::when_used_as_spec(spec_taunt_position)]
pub fn taunt_position(ws: &WindowSettings) -> (r: Vec2)
    ensures
        r == spec_taunt_position(ws),
{
    Vec2 {
        x: ws.arena_width().scaled(1, 2),
        y: ws.arena_height().minus(ws.taunt_height().scaled(1, 2)),
    }
}

/// The sprite for a ball at `x`: the face looks left while the ball is in
/// the left third of the arena, ahead while it is in the middle third, and
/// right from there on.
pub open spec fn face_for(x: crate::fixed::Fixed, ws: WindowSettings) -> usize {
    let third = ws.arena_width().scaled(1, 3);
    if x.raw < third.raw {
        FACE_LEFT
    } else if x.raw < third.scaled(2, 1).raw {
        FACE_AHEAD
    } else {
        FACE_RIGHT
    }
}

/// The face after it has looked at every ball in turn.
pub open spec fn taunted(taunt: Taunt, balls: Seq<Ball>, ws: WindowSettings) -> Taunt {
    if balls.len() == 0 || taunt.face is None {
        taunt
    } else {
        Taunt { face: Some(face_for(balls.last().position.x, ws)) }
    }
}

/// The stage of a frame that turns the face.
pub struct TauntSystem;

impl TauntSystem {
    /// Turns the face to the ball; with several balls, to the last one.
    pub fn run(&mut self, balls: &Vec<Ball>, taunt: &mut Taunt, ws: &WindowSettings)
        ensures
            *final(taunt) == taunted(*old(taunt), balls@, *ws),
    {
        let n = balls.len();
        if n == 0 || taunt.face.is_none() {
            return ;
        }
        let x = balls[n - 1].position.x;
        let third = ws.arena_width().scaled(1, 3);
        let sprite = if x.raw < third.raw {
            FACE_LEFT
        } else if x.raw < third.scaled(2, 1).raw {
            FACE_AHEAD
        } else {
            FACE_RIGHT
        };
        taunt.face = Some(sprite);
    }
}

} // verus!
