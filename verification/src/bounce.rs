//! Collisions: the ball bounces off the top and bottom walls and off the
//! paddles, and gains speed with every paddle bounce until it nears the cap.

use vstd::prelude::*;
use crate::ball::{Ball, Vec2};
use crate::fixed::{magnitude, Fixed};
use crate::paddle::{Paddle, Side};
use crate::sound::{repeated, SoundEffect};
use crate::state::Pause;
use crate::window::WindowSettings;

verus! {

/// Thousandths of the starting speed that a paddle bounce adds.
pub const ESCALATION_PER_MILLE: i64 = 35;

pub open spec fn spec_point_in_rect(
    x: Fixed,
    y: Fixed,
    left: Fixed,
    bottom: Fixed,
    right: Fixed,
    top: Fixed,
) -> bool {
    x.raw >= left.raw && x.raw <= right.raw && y.raw >= bottom.raw && y.raw <= top.raw
}

/// A point is in a box when it lies between the box's lower left and upper
/// right corners, borders included.
#[verifier::when_used_as_spec(spec_point_in_rect)]
pub fn point_in_rect(x: Fixed, y: Fixed, left: Fixed, bottom: Fixed, right: Fixed, top: Fixed) -> (r:
    bool)
    ensures
        r == spec_point_in_rect(x, y, left, bottom, right, top),
{
    x.raw >= left.raw && x.raw <= right.raw && y.raw >= bottom.raw && y.raw <= top.raw
}

/// The ball touches the bottom wall.
pub open spec fn at_bottom(ball: Ball) -> bool {
    ball.position.y.raw <= ball.radius.raw
}

/// The ball touches the top wall.
pub open spec fn at_top(ball: Ball, ws: WindowSettings) -> bool {
    ball.position.y.raw >= ws.arena_height().minus(ball.radius).raw
}

/// The ball touches a wall and flies towards it.
pub open spec fn hits_wall(ball: Ball, ws: WindowSettings) -> bool {
    (at_bottom(ball) && ball.velocity.y.raw < 0) || (at_top(ball, ws) && ball.velocity.y.raw > 0)
}

/// The ball after the wall stage: a ball that hits a wall has its vertical
/// velocity reversed.
pub open spec fn wall_bounced(ball: Ball, ws: WindowSettings) -> Ball {
    if hits_wall(ball, ws) {
        Ball { velocity: Vec2 { x: ball.velocity.x, y: ball.velocity.y.negated() }, ..ball }
    } else {
        ball
    }
}

/// The ball is within one paddle width plus one ball radius of the left or
/// the right wall. Only such a ball is tested against the paddles.
pub open spec fn near_side_wall(ball: Ball, ws: WindowSettings) -> bool {
    let reach = ws.paddle_width().plus(ws.ball_radius());
    let far = ws.arena_width().minus(ws.paddle_width()).minus(ws.ball_radius());
    !(ball.position.x.raw > reach.raw && ball.position.x.raw < far.raw)
}

/// The ball's centre lies in the paddle's rectangle grown by the ball's
/// radius on every side.
pub open spec fn touches(ball: Ball, paddle: Paddle) -> bool {
    let left = paddle.position.x.minus(paddle.width.scaled(1, 2));
    let bottom = paddle.position.y.minus(paddle.height.scaled(1, 2));
    point_in_rect(
        ball.position.x,
        ball.position.y,
        left.minus(ball.radius),
        bottom.minus(ball.radius),
        left.plus(paddle.width).plus(ball.radius),
        bottom.plus(paddle.height).plus(ball.radius),
    )
}

/// The ball touches the paddle and flies towards the wall that the paddle
/// defends.
pub open spec fn blocks(paddle: Paddle, ball: Ball) -> bool {
    touches(ball, paddle) && ((paddle.side == Side::Left && ball.velocity.x.raw < 0) || (paddle.side
        == Side::Right && ball.velocity.x.raw > 0))
}

/// A tenth of the starting speed: the margin that the ball keeps from the
/// cap, and from which it stops gaining speed.
pub open spec fn speed_margin(ws: WindowSettings) -> Fixed {
    ws.ball_velocity_x().scaled(1, 10)
}

/// The ball still gains speed: its horizontal speed plus the margin stays
/// under the cap less the margin.
pub open spec fn escalates(ball: Ball, ws: WindowSettings) -> bool {
    ball.velocity.x.abs().plus(speed_margin(ws)).raw < ws.max_velocity().minus(
        speed_margin(ws),
    ).raw
}

/// Thousandths of the starting speed that the next paddle bounce adds.
pub open spec fn escalation(ball: Ball, ws: WindowSettings) -> i64 {
    if escalates(ball, ws) {
        ESCALATION_PER_MILLE
    } else {
        0
    }
}

/// The ball after it has bounced off a paddle: the horizontal velocity is
/// reversed, both components grow by the escalation, each in its own
/// direction, and the prediction is gone.
pub open spec fn paddle_bounced(ball: Ball, ws: WindowSettings) -> Ball {
    let gain_x = ws.ball_velocity_x().scaled(escalation(ball, ws), 1000);
    let gain_y = ws.ball_velocity_y().scaled(escalation(ball, ws), 1000);
    Ball {
        position: ball.position,
        velocity: Vec2 {
            x: if ball.velocity.x.raw >= 0 {
                ball.velocity.x.negated().minus(gain_x)
            } else {
                ball.velocity.x.negated().plus(gain_x)
            },
            y: if ball.velocity.y.raw >= 0 {
                ball.velocity.y.plus(gain_y)
            } else {
                ball.velocity.y.minus(gain_y)
            },
        },
        radius: ball.radius,
        predicted_impact_y: None,
    }
}

/// The ball after it has met one paddle.
pub open spec fn after_paddle(ball: Ball, paddle: Paddle, ws: WindowSettings) -> Ball {
    if blocks(paddle, ball) {
        paddle_bounced(ball, ws)
    } else {
        ball
    }
}

/// The ball after it has met the paddles one after the other.
pub open spec fn after_paddles(ball: Ball, paddles: Seq<Paddle>, ws: WindowSettings) -> Ball
    decreases paddles.len(),
{
    if paddles.len() == 0 {
        ball
    } else {
        after_paddle(after_paddles(ball, paddles.drop_last(), ws), paddles.last(), ws)
    }
}

/// How many of the paddles the ball bounced off on its way through them.
pub open spec fn paddle_hits(ball: Ball, paddles: Seq<Paddle>, ws: WindowSettings) -> nat
    decreases paddles.len(),
{
    if paddles.len() == 0 {
        0
    } else {
        let before = after_paddles(ball, paddles.drop_last(), ws);
        let hit: nat = if blocks(paddles.last(), before) {
            1
        } else {
            0
        };
        paddle_hits(ball, paddles.drop_last(), ws) + hit
    }
}

/// The ball after the whole collision stage: first the walls, then, for a
/// ball near a side wall, every paddle.
pub open spec fn bounced(ball: Ball, paddles: Seq<Paddle>, ws: WindowSettings) -> Ball {
    let b = wall_bounced(ball, ws);
    if near_side_wall(b, ws) {
        after_paddles(b, paddles, ws)
    } else {
        b
    }
}

/// Number of paddle bounces of one ball in the collision stage.
pub open spec fn bounce_count(ball: Ball, paddles: Seq<Paddle>, ws: WindowSettings) -> nat {
    let b = wall_bounced(ball, ws);
    if near_side_wall(b, ws) {
        paddle_hits(b, paddles, ws)
    } else {
        0
    }
}

/// Every ball after the collision stage.
pub open spec fn bounced_all(balls: Seq<Ball>, paddles: Seq<Paddle>, ws: WindowSettings) -> Seq<
    Ball,
> {
    balls.map_values(|b: Ball| bounced(b, paddles, ws))
}

/// Number of paddle bounces of all balls in the collision stage.
pub open spec fn bounce_total(balls: Seq<Ball>, paddles: Seq<Paddle>, ws: WindowSettings) -> nat
    decreases balls.len(),
{
    if balls.len() == 0 {
        0
    } else {
        bounce_total(balls.drop_last(), paddles, ws) + bounce_count(balls.last(), paddles, ws)
    }
}

/// Reverses the vertical velocity of a ball that hits the top or the bottom
/// wall.
pub fn bounce_off_walls(ball: &mut Ball, ws: &WindowSettings)
    ensures
        *final(ball) == wall_bounced(*old(ball), *ws),
{
    let y = ball.position.y.raw;
    let vy = ball.velocity.y.raw;
    if (y <= ball.radius.raw && vy < 0) || (y >= ws.arena_height().minus(ball.radius).raw && vy
        > 0) {
        ball.velocity = Vec2 { x: ball.velocity.x, y: ball.velocity.y.negated() };
    }
}

/// Tells whether the paddle stops the ball.
pub fn paddle_blocks(paddle: &Paddle, ball: &Ball) -> (r: bool)
    ensures
        r == blocks(*paddle, *ball),
{
    let left = paddle.position.x.minus(paddle.width.scaled(1, 2));
    let bottom = paddle.position.y.minus(paddle.height.scaled(1, 2));
    if point_in_rect(
        ball.position.x,
        ball.position.y,
        left.minus(ball.radius),
        bottom.minus(ball.radius),
        left.plus(paddle.width).plus(ball.radius),
        bottom.plus(paddle.height).plus(ball.radius),
    ) {
        match paddle.side {
            Side::Left => ball.velocity.x.raw < 0,
            Side::Right => ball.velocity.x.raw > 0,
        }
    } else {
        false
    }
}

/// Sends the ball back from a paddle, faster than it came while it is not
/// yet near the cap, and forgets the predicted impact.
pub fn bounce_off_paddle(ball: &mut Ball, ws: &WindowSettings)
    requires
        ws.wf(),
    ensures
        *final(ball) == paddle_bounced(*old(ball), *ws),
{
    let margin = ws.ball_velocity_x().scaled(1, 10);
    let mut speed_mod: i64 = 0;
    if ball.velocity.x.abs().plus(margin).raw < ws.max_velocity().minus(margin).raw {
        speed_mod = ESCALATION_PER_MILLE;
    }
    let gain_x = ws.ball_velocity_x().scaled(speed_mod, 1000);
    let gain_y = ws.ball_velocity_y().scaled(speed_mod, 1000);
    let vx = if ball.velocity.x.raw >= 0 {
        ball.velocity.x.negated().minus(gain_x)
    } else {
        ball.velocity.x.negated().plus(gain_x)
    };
    let vy = if ball.velocity.y.raw >= 0 {
        ball.velocity.y.plus(gain_y)
    } else {
        ball.velocity.y.minus(gain_y)
    };
    ball.velocity = Vec2 { x: vx, y: vy };
    ball.predicted_impact_y = None;
}

/// Runs the collision stage on one ball and queues a bounce sound for every
/// paddle that it bounced off.
pub fn bounce_ball(
    ball: &mut Ball,
    paddles: &Vec<Paddle>,
    ws: &WindowSettings,
    sounds: &mut Vec<SoundEffect>,
)
    requires
        ws.wf(),
    ensures
        *final(ball) == bounced(*old(ball), paddles@, *ws),
        final(sounds)@ == old(sounds)@ + repeated(
            SoundEffect::Bounce,
            bounce_count(*old(ball), paddles@, *ws),
        ),
{
    bounce_off_walls(ball, ws);
    let reach = ws.paddle_width().plus(ws.ball_radius());
    let far = ws.arena_width().minus(ws.paddle_width()).minus(ws.ball_radius());
    if ball.position.x.raw > reach.raw && ball.position.x.raw < far.raw {
        assert(sounds@ =~= old(sounds)@ + repeated(SoundEffect::Bounce, 0));
        return ;
    }
    let ghost start = *ball;
    let n = paddles.len();
    let mut i: usize = 0;
    while i < n
        invariant
            i <= n,
            n == paddles@.len(),
            ws.wf(),
            *ball == after_paddles(start, paddles@.take(i as int), *ws),
            sounds@ == old(sounds)@ + repeated(
                SoundEffect::Bounce,
                paddle_hits(start, paddles@.take(i as int), *ws),
            ),
        decreases n - i,
    {
        let ghost before = paddles@.take(i as int);
        let ghost hits = paddle_hits(start, before, *ws);
        proof {
            assert(paddles@.take(i + 1).drop_last() =~= before);
        }
        if paddle_blocks(&paddles[i], ball) {
            bounce_off_paddle(ball, ws);
            sounds.push(SoundEffect::Bounce);
            assert(sounds@ =~= old(sounds)@ + repeated(SoundEffect::Bounce, hits + 1));
        }
        i += 1;
    }
    assert(paddles@.take(n as int) =~= paddles@);
}

/// The stage of a frame that resolves collisions.
pub struct BounceSystem;

impl BounceSystem {
    /// Runs the collision stage on every ball, unless the game is paused, and
    /// queues one bounce sound per paddle bounce.
    pub fn run(
        &mut self,
        balls: &mut Vec<Ball>,
        paddles: &Vec<Paddle>,
        ws: &WindowSettings,
        pause: &Pause,
        sounds: &mut Vec<SoundEffect>,
    )
        requires
            ws.wf(),
        ensures
            final(balls)@ == if pause.paused {
                old(balls)@
            } else {
                bounced_all(old(balls)@, paddles@, *ws)
            },
            final(sounds)@ == if pause.paused {
                old(sounds)@
            } else {
                old(sounds)@ + repeated(
                    SoundEffect::Bounce,
                    bounce_total(old(balls)@, paddles@, *ws),
                )
            },
    {
        if pause.paused {
            return ;
        }
        let n = balls.len();
        let mut i: usize = 0;
        assert(sounds@ =~= old(sounds)@ + repeated(SoundEffect::Bounce, 0));
        while i < n
            invariant
                i <= n,
                ws.wf(),
                balls@.len() == n,
                old(balls)@.len() == n,
                forall|j: int| 0 <= j < i ==> balls@[j] == bounced(old(balls)@[j], paddles@, *ws),
                forall|j: int| i <= j < n ==> balls@[j] == old(balls)@[j],
                sounds@ == old(sounds)@ + repeated(
                    SoundEffect::Bounce,
                    bounce_total(old(balls)@.take(i as int), paddles@, *ws),
                ),
            decreases n - i,
        {
            let ghost done = bounce_total(old(balls)@.take(i as int), paddles@, *ws);
            let ghost more = bounce_count(old(balls)@[i as int], paddles@, *ws);
            proof {
                assert(old(balls)@.take(i + 1).drop_last() =~= old(balls)@.take(i as int));
            }
            let mut ball = balls[i];
            bounce_ball(&mut ball, paddles, ws, sounds);
            balls.set(i, ball);
            assert(sounds@ =~= old(sounds)@ + repeated(SoundEffect::Bounce, done + more));
            i += 1;
        }
        assert(old(balls)@.take(n as int) =~= old(balls)@);
        assert(balls@ =~= bounced_all(old(balls)@, paddles@, *ws));
    }
}

/// The ball after `n` paddle bounces in a row.
pub open spec fn paddle_bounced_times(ball: Ball, ws: WindowSettings, n: nat) -> Ball
    decreases n,
{
    if n == 0 {
        ball
    } else {
        paddle_bounced(paddle_bounced_times(ball, ws, (n - 1) as nat), ws)
    }
}

/// The wall stage is idempotent: run twice on a ball that has not moved, it
/// leaves the ball as one run does. The one exception is a ball with a
/// vertical velocity that touches both walls at once, which an arena lower
/// than two ball radii allows.
pub proof fn lemma_wall_bounce_idempotent(ball: Ball, ws: WindowSettings)
    requires
        !(at_bottom(ball) && at_top(ball, ws) && ball.velocity.y@ != 0),
    ensures
        wall_bounced(wall_bounced(ball, ws), ws) == wall_bounced(ball, ws),
{
}

/// A paddle bounce never carries the horizontal speed over the cap: a ball
/// that gains speed ends strictly under the cap, any other ball keeps its
/// speed.
pub proof fn lemma_paddle_bounce_bounded(ball: Ball, ws: WindowSettings)
    requires
        ws.wf(),
        magnitude(ball.velocity.x@) <= ws.max_velocity()@,
    ensures
        magnitude(paddle_bounced(ball, ws).velocity.x@) <= ws.max_velocity()@,
        escalates(ball, ws) ==> magnitude(paddle_bounced(ball, ws).velocity.x@) < ws.max_velocity()@,
        !escalates(ball, ws) ==> magnitude(paddle_bounced(ball, ws).velocity.x@) == magnitude(
            ball.velocity.x@,
        ),
{
}

/// Speed escalation respects the cap over any number of paddle bounces.
pub proof fn lemma_escalation_bounded(ball: Ball, ws: WindowSettings, n: nat)
    requires
        ws.wf(),
        magnitude(ball.velocity.x@) <= ws.max_velocity()@,
    ensures
        magnitude(paddle_bounced_times(ball, ws, n).velocity.x@) <= ws.max_velocity()@,
    decreases n,
{
    if n > 0 {
        lemma_escalation_bounded(ball, ws, (n - 1) as nat);
        lemma_paddle_bounce_bounded(paddle_bounced_times(ball, ws, (n - 1) as nat), ws);
    }
}

/// The paddles respect the cap, however many of them the ball meets.
pub proof fn lemma_after_paddles_bounded(ball: Ball, paddles: Seq<Paddle>, ws: WindowSettings)
    requires
        ws.wf(),
        magnitude(ball.velocity.x@) <= ws.max_velocity()@,
    ensures
        magnitude(after_paddles(ball, paddles, ws).velocity.x@) <= ws.max_velocity()@,
    decreases paddles.len(),
{
    if paddles.len() > 0 {
        lemma_after_paddles_bounded(ball, paddles.drop_last(), ws);
    }
}

/// The collision stage respects the cap: a ball that enters it with a
/// horizontal speed of at most the cap leaves it with one.
pub proof fn lemma_bounce_bounded(ball: Ball, paddles: Seq<Paddle>, ws: WindowSettings)
    requires
        ws.wf(),
        magnitude(ball.velocity.x@) <= ws.max_velocity()@,
    ensures
        magnitude(bounced(ball, paddles, ws).velocity.x@) <= ws.max_velocity()@,
{
    lemma_after_paddles_bounded(wall_bounced(ball, ws), paddles, ws);
}

/// Two vertical velocities point the same way: both down, both up, or both
/// nowhere.
pub open spec fn same_direction(a: Fixed, b: Fixed) -> bool {
    (a.raw < 0 <==> b.raw < 0) && (a.raw > 0 <==> b.raw > 0)
}

/// The paddles move no ball and change no radius, and a vertical velocity
/// only grows in its own direction on the way through them.
proof fn lemma_after_paddles_keeps_direction(ball: Ball, paddles: Seq<Paddle>, ws: WindowSettings)
    requires
        ws.wf(),
    ensures
        after_paddles(ball, paddles, ws).position == ball.position,
        after_paddles(ball, paddles, ws).radius == ball.radius,
        ball.velocity.y@ >= 0 ==> after_paddles(ball, paddles, ws).velocity.y@ >= ball.velocity.y@,
        ball.velocity.y@ < 0 ==> after_paddles(ball, paddles, ws).velocity.y@ <= ball.velocity.y@,
    decreases paddles.len(),
{
    if paddles.len() > 0 {
        lemma_after_paddles_keeps_direction(ball, paddles.drop_last(), ws);
    }
}

/// A ball that is too fast to gain speed passes the paddles with its
/// vertical velocity and its horizontal speed as they were, and comes out
/// too fast to gain speed.
proof fn lemma_after_paddles_without_escalation(
    ball: Ball,
    paddles: Seq<Paddle>,
    ws: WindowSettings,
)
    requires
        ws.wf(),
        !escalates(ball, ws),
    ensures
        after_paddles(ball, paddles, ws).velocity.y == ball.velocity.y,
        after_paddles(ball, paddles, ws).velocity.x.abs() == ball.velocity.x.abs(),
        !escalates(after_paddles(ball, paddles, ws), ws),
    decreases paddles.len(),
{
    if paddles.len() > 0 {
        lemma_after_paddles_without_escalation(ball, paddles.drop_last(), ws);
    }
}

/// In an arena so small that the escalation of the vertical velocity
/// rounds to nothing, no vertical velocity changes on the way through the
/// paddles.
proof fn lemma_after_paddles_without_gain(ball: Ball, paddles: Seq<Paddle>, ws: WindowSettings)
    requires
        ws.wf(),
        ws.ball_velocity_y().scaled(ESCALATION_PER_MILLE, 1000)@ == 0,
    ensures
        after_paddles(ball, paddles, ws).velocity.y == ball.velocity.y,
    decreases paddles.len(),
{
    if paddles.len() > 0 {
        lemma_after_paddles_without_gain(ball, paddles.drop_last(), ws);
    }
}

/// A ball without vertical velocity that leaves the paddles without one
/// has either met no paddle or was too fast to gain speed, where the
/// escalation of the vertical velocity is more than nothing.
proof fn lemma_after_paddles_level(ball: Ball, paddles: Seq<Paddle>, ws: WindowSettings)
    requires
        ws.wf(),
        ws.ball_velocity_y().scaled(ESCALATION_PER_MILLE, 1000)@ != 0,
        ball.velocity.y@ == 0,
        after_paddles(ball, paddles, ws).velocity.y@ == 0,
    ensures
        after_paddles(ball, paddles, ws) == ball || !escalates(ball, ws),
    decreases paddles.len(),
{
    if paddles.len() > 0 {
        lemma_after_paddles_level(ball, paddles.drop_last(), ws);
    }
}

/// The collision stage does not flip a ball twice: run a second time on a
/// ball that has not moved, it leaves the vertical velocity pointing as the
/// first run left it.
///
/// Two kinds of ball are excepted, because the second run does flip them: a
/// ball with a vertical velocity that touches both walls at once, and a
/// ball without one at the top wall that a paddle bounce sends upwards.
pub proof fn lemma_bounce_flips_once(ball: Ball, paddles: Seq<Paddle>, ws: WindowSettings)
    requires
        ws.wf(),
        !(ball.velocity.y@ != 0 && at_bottom(ball) && at_top(ball, ws)),
        !(ball.velocity.y@ == 0 && at_top(ball, ws) && bounced(ball, paddles, ws).velocity.y@ > 0),
    ensures
        same_direction(
            bounced(bounced(ball, paddles, ws), paddles, ws).velocity.y,
            bounced(ball, paddles, ws).velocity.y,
        ),
{
    let walled = wall_bounced(ball, ws);
    let once = bounced(ball, paddles, ws);
    lemma_after_paddles_keeps_direction(walled, paddles, ws);
    if near_side_wall(walled, ws) {
        lemma_after_paddles_keeps_direction(once, paddles, ws);
        if once.velocity.y@ == 0 {
            if ws.ball_velocity_y().scaled(ESCALATION_PER_MILLE, 1000)@ == 0 {
                lemma_after_paddles_without_gain(once, paddles, ws);
            } else {
                lemma_after_paddles_level(walled, paddles, ws);
                if once != walled {
                    lemma_after_paddles_without_escalation(walled, paddles, ws);
                    lemma_after_paddles_without_escalation(once, paddles, ws);
                }
            }
        }
    }
}

} // verus!
