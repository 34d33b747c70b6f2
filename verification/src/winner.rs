//! Scoring: a ball that reaches the left wall scores against the player
//! and is served again from the centre; a ball that reaches the right wall
//! has passed a paddle that is meant to be unbeatable.

use vstd::prelude::*;
use crate::ball::{Ball, Vec2};
use crate::sound::{repeated, SoundEffect};
use crate::state::Pause;
use crate::timer::{restarted, TimerText};
use crate::window::WindowSettings;

verus! {

/// A defect that ends the game.
#[derive(Clone, Copy, Debug, PartialEq, Eq, Structural)]
pub enum GameError {
    /// A ball reached the right-hand wall.
    BallEscaped,
}

/// The ball has reached the left wall.
pub open spec fn conceded(ball: Ball) -> bool {
    ball.position.x.raw <= ball.radius.raw
}

/// The ball has reached the right wall, and not the left one.
pub open spec fn escaped(ball: Ball, ws: WindowSettings) -> bool {
    !conceded(ball) && ball.position.x.raw >= ws.arena_width().minus(ball.radius).raw
}

/// One of the balls has escaped.
pub open spec fn any_escaped(balls: Seq<Ball>, ws: WindowSettings) -> bool {
    exists|i: int| 0 <= i < balls.len() && escaped(#[trigger] balls[i], ws)
}

/// A ball served after a point: in the centre of the arena, at the starting
/// speed, upwards and horizontally against the direction in which it flew,
/// without a prediction.
pub open spec fn served(ball: Ball, ws: WindowSettings) -> Ball {
    Ball {
        position: Vec2 { x: ws.arena_width().scaled(1, 2), y: ws.arena_height().scaled(1, 2) },
        velocity: Vec2 {
            x: if ball.velocity.x.raw >= 0 {
                ws.ball_velocity_x().negated()
            } else {
                ws.ball_velocity_x()
            },
            y: ws.ball_velocity_y(),
        },
        radius: ball.radius,
        predicted_impact_y: None,
    }
}

/// The ball after the scoring stage.
pub open spec fn scored(ball: Ball, ws: WindowSettings) -> Ball {
    if conceded(ball) {
        served(ball, ws)
    } else {
        ball
    }
}

/// Every ball after the scoring stage.
pub open spec fn scored_all(balls: Seq<Ball>, ws: WindowSettings) -> Seq<Ball> {
    balls.map_values(|b: Ball| scored(b, ws))
}

/// Number of balls that have reached the left wall.
pub open spec fn concessions(balls: Seq<Ball>) -> nat
    decreases balls.len(),
{
    if balls.len() == 0 {
        0
    } else {
        concessions(balls.drop_last()) + if conceded(balls.last()) {
            1nat
        } else {
            0nat
        }
    }
}

/// The clock after the scoring stage: restarted if a point was scored.
pub open spec fn clock_after(timer: TimerText, balls: Seq<Ball>) -> TimerText {
    if concessions(balls) > 0 {
        restarted(timer)
    } else {
        timer
    }
}

/// Tells whether the ball has reached the left wall.
pub fn has_conceded(ball: &Ball) -> (r: bool)
    ensures
        r == conceded(*ball),
{
    ball.position.x.raw <= ball.radius.raw
}

/// Tells whether the ball has reached the right wall and not the left one.
pub fn has_escaped(ball: &Ball, ws: &WindowSettings) -> (r: bool)
    ensures
        r == escaped(*ball, *ws),
{
    !has_conceded(ball) && ball.position.x.raw >= ws.arena_width().minus(ball.radius).raw
}

/// Serves the ball again after a point.
pub fn serve(ball: &mut Ball, ws: &WindowSettings)
    ensures
        *final(ball) == served(*old(ball), *ws),
{
    let vx = if ball.velocity.x.raw >= 0 {
        ws.ball_velocity_x().negated()
    } else {
        ws.ball_velocity_x()
    };
    ball.velocity = Vec2 { x: vx, y: ws.ball_velocity_y() };
    ball.position = Vec2 { x: ws.arena_width().scaled(1, 2), y: ws.arena_height().scaled(1, 2) };
    ball.predicted_impact_y = None;
}

/// The stage of a frame that scores.
pub struct WinnerSystem;

impl WinnerSystem {
    /// Scores the frame, unless the game is paused.
    ///
    /// A ball at the right wall is a defect: the stage reports it and
    /// touches nothing. Otherwise every ball at the left wall is served
    /// again and queues a score sound, and the clock restarts if there was
    /// one.
    pub fn run(
        &mut self,
        balls: &mut Vec<Ball>,
        timer_text: &mut TimerText,
        pause: &Pause,
        ws: &WindowSettings,
        sounds: &mut Vec<SoundEffect>,
    ) -> (r: Result<(), GameError>)
        ensures
            r is Err <==> !pause.paused && any_escaped(old(balls)@, *ws),
            r is Err ==> r == Err::<(), GameError>(GameError::BallEscaped),
            pause.paused || r is Err ==> final(balls)@ == old(balls)@ && *final(timer_text) == *old(
                timer_text,
            ) && final(sounds)@ == old(sounds)@,
            !pause.paused && r is Ok ==> final(balls)@ == scored_all(old(balls)@, *ws)
                && *final(timer_text) == clock_after(*old(timer_text), old(balls)@)
                && final(sounds)@ == old(sounds)@ + repeated(
                SoundEffect::Score,
                concessions(old(balls)@),
            ),
    {
        if pause.paused {
            return Ok(());
        }
        let n = balls.len();
        let mut k: usize = 0;
        while k < n
            invariant
                k <= n,
                !pause.paused,
                n == balls@.len(),
                balls@ == old(balls)@,
                forall|j: int| 0 <= j < k ==> !escaped(#[trigger] balls@[j], *ws),
            decreases n - k,
        {
            if has_escaped(&balls[k], ws) {
                assert(escaped(old(balls)@[k as int], *ws));
                return Err(GameError::BallEscaped);
            }
            k += 1;
        }
        let mut i: usize = 0;
        let mut any: bool = false;
        assert(sounds@ =~= old(sounds)@ + repeated(SoundEffect::Score, 0));
        while i < n
            invariant
                i <= n,
                balls@.len() == n,
                old(balls)@.len() == n,
                forall|j: int| 0 <= j < i ==> balls@[j] == scored(old(balls)@[j], *ws),
                forall|j: int| i <= j < n ==> balls@[j] == old(balls)@[j],
                any == (concessions(old(balls)@.take(i as int)) > 0),
                sounds@ == old(sounds)@ + repeated(
                    SoundEffect::Score,
                    concessions(old(balls)@.take(i as int)),
                ),
            decreases n - i,
        {
            let ghost done = concessions(old(balls)@.take(i as int));
            proof {
                assert(old(balls)@.take(i + 1).drop_last() =~= old(balls)@.take(i as int));
            }
            let mut ball = balls[i];
            if has_conceded(&ball) {
                serve(&mut ball, ws);
                balls.set(i, ball);
                sounds.push(SoundEffect::Score);
                any = true;
                assert(sounds@ =~= old(sounds)@ + repeated(SoundEffect::Score, done + 1));
            }
            i += 1;
        }
        assert(old(balls)@.take(n as int) =~= old(balls)@);
        assert(balls@ =~= scored_all(old(balls)@, *ws));
        if any {
            timer_text.restart();
        }
        Ok(())
    }
}

} // verus!
