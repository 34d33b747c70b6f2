//! Motion: every ball advances by its velocity times the elapsed time.

use vstd::prelude::*;
use crate::ball::{Ball, Vec2};
use crate::fixed::{representable, Fixed};
use crate::state::Pause;

verus! {

/// The ball after `dt` seconds of free flight.
pub open spec fn moved(ball: Ball, dt: Fixed) -> Ball {
    Ball {
        position: Vec2 {
            x: ball.position.x.plus(ball.velocity.x.times(dt)),
            y: ball.position.y.plus(ball.velocity.y.times(dt)),
        },
        ..ball
    }
}

/// Every ball of `balls` after `dt` seconds of free flight.
pub open spec fn moved_all(balls: Seq<Ball>, dt: Fixed) -> Seq<Ball> {
    balls.map_values(|b: Ball| moved(b, dt))
}

/// Advances one ball by `dt` seconds.
pub fn move_ball(ball: &mut Ball, dt: Fixed)
    ensures
        *final(ball) == moved(*old(ball), dt),
{
    let x = ball.position.x.plus(ball.velocity.x.times(dt));
    let y = ball.position.y.plus(ball.velocity.y.times(dt));
    ball.position = Vec2 { x, y };
}

/// The stage of a frame that moves the balls.
pub struct MoveBallsSystem;

impl MoveBallsSystem {
    /// Advances every ball by `dt` seconds, unless the game is paused.
    pub fn run(&mut self, balls: &mut Vec<Ball>, dt: Fixed, pause: &Pause)
        ensures
            final(balls)@ == if pause.paused {
                old(balls)@
            } else {
                moved_all(old(balls)@, dt)
            },
    {
        if pause.paused {
            return ;
        }
        let n = balls.len();
        let mut i: usize = 0;
        while i < n
            invariant
                i <= n,
                balls@.len() == n,
                old(balls)@.len() == n,
                forall|j: int| 0 <= j < i ==> balls@[j] == moved(old(balls)@[j], dt),
                forall|j: int| i <= j < n ==> balls@[j] == old(balls)@[j],
            decreases n - i,
        {
            let mut ball = balls[i];
            move_ball(&mut ball, dt);
            balls.set(i, ball);
            i += 1;
        }
    }
}

/// Free flight is exact: while the new coordinates are representable, a ball
/// that flies for `dt >= 0` seconds ends at its old position plus the
/// product of its velocity and `dt`.
pub proof fn lemma_motion_exact(ball: Ball, dt: Fixed)
    requires
        dt@ >= 0,
        representable(ball.position.x@ + ball.velocity.x.times(dt)@),
        representable(ball.position.y@ + ball.velocity.y.times(dt)@),
    ensures
        moved(ball, dt).position.x@ == ball.position.x@ + ball.velocity.x.times(dt)@,
        moved(ball, dt).position.y@ == ball.position.y@ + ball.velocity.y.times(dt)@,
        moved(ball, dt).velocity == ball.velocity,
        moved(ball, dt).radius == ball.radius,
        moved(ball, dt).predicted_impact_y == ball.predicted_impact_y,
{
}

} // verus!
