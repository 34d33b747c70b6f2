//! The paddles.

use vstd::prelude::*;
use crate::ball::{Ball, Vec2};
use crate::fixed::{Fixed, SCALE};
use crate::state::Pause;
use crate::window::WindowSettings;

verus! {

/// The wall that a paddle defends.
#[derive(Clone, Copy, Debug, PartialEq, Eq, Structural)]
pub enum Side {
    Left,
    Right,
}

/// A paddle: a rectangle of `width` by `height` centred on `position`.
///
/// The left paddle follows the player's axis, the right one follows the
/// predicted impact of the ball.
#[derive(Clone, Copy, Debug, PartialEq, Eq, Structural)]
pub struct Paddle {
    pub side: Side,
    pub width: Fixed,
    pub height: Fixed,
    pub position: Vec2,
}

impl Paddle {
    /// A paddle of the given side and size, centred on `position`.
    pub fn new(side: Side, height: Fixed, width: Fixed, position: Vec2) -> (r: Paddle)
        ensures
            r == (Paddle { side, width, height, position }),
    {
        Paddle { side, width, height, position }
    }
}

/// Distance from the arena's midline, in raw steps, under which a returning
/// paddle snaps to the midline: two units.
pub const SNAP_DISTANCE: i64 = 2 * SCALE;

pub open spec fn spec_clamp_to_arena(val: Fixed, ws: &WindowSettings) -> Fixed {
    val.min(ws.arena_height().minus(ws.paddle_height().scaled(1, 2))).max(
        ws.paddle_height().scaled(1, 2),
    )
}

/// Keeps the centre of a paddle at least half a paddle from floor and
/// ceiling.
#[verifier::when_used_as_spec(spec_clamp_to_arena)]
pub fn clamp_to_arena(val: Fixed, ws: &WindowSettings) -> (r: Fixed)
    ensures
        r == spec_clamp_to_arena(val, ws),
{
    val.min(ws.arena_height().minus(ws.paddle_height().scaled(1, 2))).max(
        ws.paddle_height().scaled(1, 2),
    )
}

pub open spec fn spec_calc_to_move(distance: Fixed, dt: Fixed, ws: &WindowSettings) -> Fixed {
    distance.min(ws.paddle_speed().times(dt))
}

/// The step of a paddle that has `distance` to go: what the paddle's speed
/// allows in `dt` seconds, and never more than the distance.
#[verifier::when_used_as_spec(spec_calc_to_move)]
pub fn calc_to_move(distance: Fixed, dt: Fixed, ws: &WindowSettings) -> (r: Fixed)
    ensures
        r == spec_calc_to_move(distance, dt, ws),
{
    distance.min(ws.paddle_speed().times(dt))
}

/// Height of the player's paddle after a frame with the axis at `axis`.
/// Without an axis value the paddle stays.
pub open spec fn steered(y: Fixed, axis: Option<Fixed>, dt: Fixed, ws: WindowSettings) -> Fixed {
    match axis {
        Some(amount) => clamp_to_arena(y.plus(ws.paddle_speed().times(amount).times(dt)), &ws),
        None => y,
    }
}

/// Height of the computer's paddle after it has looked at one ball.
///
/// `start` is the paddle's height at the start of the frame, from which
/// every step is measured; `y` is its height after the balls before this
/// one. Towards a predicted impact the paddle steps until its upper edge
/// is level with it; without a prediction, and with the ball flying away,
/// it steps back to the midline and snaps to it from close by.
pub open spec fn followed(y: Fixed, start: Fixed, ball: Ball, dt: Fixed, ws: WindowSettings) -> Fixed {
    let half = ws.paddle_height().scaled(1, 2);
    let middle = ws.arena_height().scaled(1, 2);
    match ball.predicted_impact_y {
        Some(impact) => {
            let distance = impact.minus(start).minus(half).abs();
            if impact.raw > start.plus(half).raw {
                start.plus(calc_to_move(distance, dt, &ws))
            } else if impact.raw < start.minus(half).raw {
                start.minus(calc_to_move(distance, dt, &ws))
            } else {
                y
            }
        },
        None => {
            let distance = middle.minus(start).abs();
            if ball.velocity.x.raw >= 0 || start == middle {
                y
            } else if distance.raw < SNAP_DISTANCE {
                middle
            } else if start.raw < middle.raw {
                start.plus(calc_to_move(distance, dt, &ws))
            } else {
                start.minus(calc_to_move(distance, dt, &ws))
            }
        },
    }
}

/// Height of the computer's paddle after it has looked at every ball in
/// turn.
pub open spec fn followed_all(start: Fixed, balls: Seq<Ball>, dt: Fixed, ws: WindowSettings) -> Fixed
    decreases balls.len(),
{
    if balls.len() == 0 {
        start
    } else {
        followed(followed_all(start, balls.drop_last(), dt, ws), start, balls.last(), dt, ws)
    }
}

/// The paddle after the paddle stage.
pub open spec fn driven(
    paddle: Paddle,
    balls: Seq<Ball>,
    axis: Option<Fixed>,
    dt: Fixed,
    ws: WindowSettings,
) -> Paddle {
    let y = match paddle.side {
        Side::Left => steered(paddle.position.y, axis, dt, ws),
        Side::Right => followed_all(paddle.position.y, balls, dt, ws),
    };
    Paddle { position: Vec2 { x: paddle.position.x, y }, ..paddle }
}

/// Every paddle after the paddle stage.
pub open spec fn driven_all(
    paddles: Seq<Paddle>,
    balls: Seq<Ball>,
    axis: Option<Fixed>,
    dt: Fixed,
    ws: WindowSettings,
) -> Seq<Paddle> {
    paddles.map_values(|p: Paddle| driven(p, balls, axis, dt, ws))
}

/// Moves the computer's paddle for one ball.
fn follow_ball(y: Fixed, start: Fixed, ball: &Ball, dt: Fixed, ws: &WindowSettings) -> (r: Fixed)
    ensures
        r == followed(y, start, *ball, dt, *ws),
{
    let half = ws.paddle_height().scaled(1, 2);
    let middle = ws.arena_height().scaled(1, 2);
    match ball.predicted_impact_y {
        Some(impact) => {
            let distance = impact.minus(start).minus(half).abs();
            if impact.raw > start.plus(half).raw {
                start.plus(calc_to_move(distance, dt, ws))
            } else if impact.raw < start.minus(half).raw {
                start.minus(calc_to_move(distance, dt, ws))
            } else {
                y
            }
        },
        None => {
            if ball.velocity.x.raw >= 0 || start.raw == middle.raw {
                return y;
            }
            let distance = middle.minus(start).abs();
            if distance.raw < SNAP_DISTANCE {
                middle
            } else if start.raw < middle.raw {
                start.plus(calc_to_move(distance, dt, ws))
            } else {
                start.minus(calc_to_move(distance, dt, ws))
            }
        },
    }
}

/// Moves one paddle for one frame: the left one by the axis, the right one
/// by the balls.
pub fn drive_paddle(
    paddle: &mut Paddle,
    balls: &Vec<Ball>,
    axis: Option<Fixed>,
    dt: Fixed,
    ws: &WindowSettings,
)
    ensures
        *final(paddle) == driven(*old(paddle), balls@, axis, dt, *ws),
{
    let start = paddle.position.y;
    let mut y = start;
    match paddle.side {
        Side::Left => {
            if let Some(amount) = axis {
                let scaled_amount = ws.paddle_speed().times(amount).times(dt);
                y = clamp_to_arena(start.plus(scaled_amount), ws);
            }
        },
        Side::Right => {
            let n = balls.len();
            let mut i: usize = 0;
            while i < n
                invariant
                    i <= n,
                    n == balls@.len(),
                    y == followed_all(start, balls@.take(i as int), dt, *ws),
                decreases n - i,
            {
                proof {
                    assert(balls@.take(i + 1).drop_last() =~= balls@.take(i as int));
                }
                y = follow_ball(y, start, &balls[i], dt, ws);
                i += 1;
            }
            assert(balls@.take(n as int) =~= balls@);
        },
    }
    paddle.position = Vec2 { x: paddle.position.x, y };
}

/// The stage of a frame that moves the paddles.
pub struct PaddleSystem;

impl PaddleSystem {
    /// Moves every paddle for one frame, unless the game is paused.
    pub fn run(
        &mut self,
        paddles: &mut Vec<Paddle>,
        balls: &Vec<Ball>,
        axis: Option<Fixed>,
        dt: Fixed,
        pause: &Pause,
        ws: &WindowSettings,
    )
        ensures
            final(paddles)@ == if pause.paused {
                old(paddles)@
            } else {
                driven_all(old(paddles)@, balls@, axis, dt, *ws)
            },
    {
        if pause.paused {
            return ;
        }
        let n = paddles.len();
        let mut i: usize = 0;
        while i < n
            invariant
                i <= n,
                paddles@.len() == n,
                old(paddles)@.len() == n,
                forall|j: int|
                    0 <= j < i ==> paddles@[j] == driven(old(paddles)@[j], balls@, axis, dt, *ws),
                forall|j: int| i <= j < n ==> paddles@[j] == old(paddles)@[j],
            decreases n - i,
        {
            let mut paddle = paddles[i];
            drive_paddle(&mut paddle, balls, axis, dt, ws);
            paddles.set(i, paddle);
            i += 1;
        }
    }
}

/// The player's paddle stays in the arena: after a frame with an axis
/// value its centre is at least half a paddle above the floor and half a
/// paddle below the ceiling.
pub proof fn lemma_steered_stays_in_arena(y: Fixed, amount: Fixed, dt: Fixed, ws: WindowSettings)
    requires
        ws.wf(),
    ensures
        ws.paddle_height().scaled(1, 2)@ <= steered(y, Some(amount), dt, ws)@,
        steered(y, Some(amount), dt, ws)@ <= ws.height@ - ws.paddle_height().scaled(1, 2)@,
{
}

/// The computer's paddle never overshoots. Towards an impact above its
/// upper edge it rises and stops with that edge at the impact at the
/// latest; towards one more than half a paddle below its centre it sinks
/// and stops there at the latest; otherwise it holds.
pub proof fn lemma_followed_never_overshoots(
    y: Fixed,
    start: Fixed,
    ball: Ball,
    dt: Fixed,
    ws: WindowSettings,
)
    requires
        ws.wf(),
        dt@ >= 0,
        ball.predicted_impact_y is Some,
    ensures
        ({
            let impact = ball.predicted_impact_y->0;
            let half = ws.paddle_height().scaled(1, 2);
            let next = followed(y, start, ball, dt, ws);
            &&& impact@ > start@ + half@ ==> start@ <= next@ && next@ + half@ <= impact@
            &&& impact@ < start@ - half@ ==> next@ <= start@ && next@ + half@ >= impact@
            &&& start@ - half@ <= impact@ <= start@ + half@ ==> next == y
        }),
{
}

/// On its way back the computer's paddle never passes the midline: with no
/// prediction and the ball flying away it ends between where it was and
/// the middle of the arena.
pub proof fn lemma_followed_returns_to_middle(
    y: Fixed,
    start: Fixed,
    ball: Ball,
    dt: Fixed,
    ws: WindowSettings,
)
    requires
        ws.wf(),
        dt@ >= 0,
        ball.predicted_impact_y is None,
        ball.velocity.x@ < 0,
    ensures
        ({
            let middle = ws.arena_height().scaled(1, 2);
            let next = followed(y, start, ball, dt, ws);
            &&& start@ < middle@ ==> start@ <= next@ <= middle@
            &&& start@ > middle@ ==> middle@ <= next@ <= start@
            &&& start@ == middle@ ==> next == y
        }),
{
}

} // verus!
