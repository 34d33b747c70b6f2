//! Trajectory prediction: where a ball that flies to the right will reach
//! the right-hand wall, with its bounces off the top and bottom walls folded
//! into one step.

use vstd::prelude::*;
use crate::ball::Ball;
use crate::fixed::{magnitude, Fixed, RAW_MAX, RAW_MIN};
use crate::window::WindowSettings;

verus! {

/// Horizontal distance that the ball has to cover: for a ball that flies to
/// the right, from the ball to the right-hand wall; for one that flies to
/// the left, twice the arena's width less one paddle width and the ball's
/// own distance from the left wall.
pub open spec fn distance_to_impact(ball: Ball, ws: WindowSettings) -> Fixed {
    if ball.velocity.x.raw < 0 {
        ws.arena_width().scaled(2, 1).minus(ws.paddle_width()).minus(ball.position.x)
    } else {
        ws.arena_width().minus(ball.position.x)
    }
}

/// Seconds until the ball has covered that distance. Meaningful for a ball
/// with a horizontal speed.
pub open spec fn time_to_impact(ball: Ball, ws: WindowSettings) -> Fixed {
    distance_to_impact(ball, ws).over(ball.velocity.x.abs())
}

/// Vertical distance that the ball would cover in that time if there were
/// no walls.
pub open spec fn raw_displacement(ball: Ball, ws: WindowSettings) -> Fixed {
    ball.velocity.y.times(time_to_impact(ball, ws))
}

/// The displacement with whole trips up and down the arena taken out: its
/// magnitude is reduced modulo twice the height, its sign is kept.
pub open spec fn folded_displacement(ball: Ball, ws: WindowSettings) -> Fixed {
    let travel = raw_displacement(ball, ws).abs().rem(ws.arena_height().scaled(2, 1));
    if raw_displacement(ball, ws).raw >= 0 {
        travel
    } else {
        travel.negated()
    }
}

/// The height at which the ball reaches the plane: the start height plus
/// the folded displacement, mirrored at the floor when it is below it and
/// at the ceiling when it is above it. Meaningful for a ball with a
/// horizontal speed.
pub open spec fn impact_point(ball: Ball, ws: WindowSettings) -> Fixed {
    let end = ball.position.y.plus(folded_displacement(ball, ws));
    if end.raw < 0 {
        end.abs()
    } else if end.raw > ws.arena_height().raw {
        ws.arena_height().scaled(2, 1).minus(end)
    } else {
        end
    }
}

/// The ball after the prediction stage: a ball without a prediction that
/// flies to the right gets one, any other ball is left alone.
pub open spec fn predicted(ball: Ball, ws: WindowSettings) -> Ball {
    if ball.predicted_impact_y is None && ball.velocity.x.raw > 0 {
        Ball { predicted_impact_y: Some(impact_point(ball, ws)), ..ball }
    } else {
        ball
    }
}

/// Every ball after the prediction stage.
pub open spec fn predicted_all(balls: Seq<Ball>, ws: WindowSettings) -> Seq<Ball> {
    balls.map_values(|b: Ball| predicted(b, ws))
}

/// Computes the height at which the ball will reach the far wall. A ball
/// without horizontal speed never gets there, and has no impact point.
pub fn calculate_impact_point(ball: &Ball, ws: &WindowSettings) -> (r: Option<Fixed>)
    requires
        ws.wf(),
    ensures
        r == if ball.velocity.x.raw == 0 {
            None
        } else {
            Some(impact_point(*ball, *ws))
        },
{
    if ball.velocity.x.raw == 0 {
        return None;
    }
    let distance_x = if ball.velocity.x.raw < 0 {
        ws.arena_width().scaled(2, 1).minus(ws.paddle_width()).minus(ball.position.x)
    } else {
        ws.arena_width().minus(ball.position.x)
    };
    let time_to_impact = distance_x.over(ball.velocity.x.abs());
    let distance_y = ball.velocity.y.times(time_to_impact);
    let period = ws.arena_height().scaled(2, 1);
    let actual_travel = distance_y.abs().rem(period);
    let distance_y = if distance_y.raw >= 0 {
        actual_travel
    } else {
        actual_travel.negated()
    };
    let end = ball.position.y.plus(distance_y);
    if end.raw < 0 {
        return Some(end.abs());
    }
    if end.raw > ws.arena_height().raw {
        return Some(ws.arena_height().scaled(2, 1).minus(end));
    }
    Some(end)
}

/// The stage of a frame that predicts impacts.
pub struct TrajectorySystem;

impl TrajectorySystem {
    /// Gives every ball that flies to the right and has no prediction yet
    /// its predicted impact. A prediction that exists is never recomputed.
    pub fn run(&mut self, balls: &mut Vec<Ball>, ws: &WindowSettings)
        requires
            ws.wf(),
        ensures
            final(balls)@ == predicted_all(old(balls)@, *ws),
    {
        let n = balls.len();
        let mut i: usize = 0;
        while i < n
            invariant
                i <= n,
                ws.wf(),
                balls@.len() == n,
                old(balls)@.len() == n,
                forall|j: int| 0 <= j < i ==> balls@[j] == predicted(old(balls)@[j], *ws),
                forall|j: int| i <= j < n ==> balls@[j] == old(balls)@[j],
            decreases n - i,
        {
            let mut ball = balls[i];
            if ball.predicted_impact_y.is_none() && ball.velocity.x.raw > 0 {
                let impact = calculate_impact_point(&ball, ws);
                ball.predicted_impact_y = impact;
                balls.set(i, ball);
            }
            i += 1;
        }
    }
}

/// A flight without a wall on its way needs no folding: for a ball that
/// flies to the right, whose straight path is shorter than one trip up and
/// down the arena and ends strictly between floor and ceiling, the predicted
/// impact is the start height plus the product of vertical velocity and
/// time to impact.
pub proof fn lemma_prediction_without_reflection(ball: Ball, ws: WindowSettings)
    requires
        ws.wf(),
        ball.velocity.x@ > 0,
        magnitude(raw_displacement(ball, ws)@) < ws.arena_height().scaled(2, 1)@,
        0 < ball.position.y@ + raw_displacement(ball, ws)@ < ws.height@,
    ensures
        impact_point(ball, ws)@ == ball.position.y@ + ball.velocity.y.times(
            time_to_impact(ball, ws),
        )@,
        predicted(Ball { predicted_impact_y: None, ..ball }, ws).predicted_impact_y == Some(
            impact_point(ball, ws),
        ),
{
    let dy = raw_displacement(ball, ws)@;
    let period = ws.arena_height().scaled(2, 1)@;
    assert(magnitude(dy) % period == magnitude(dy)) by (nonlinear_arith)
        requires
            0 <= magnitude(dy) < period,
    ;
}

/// A ball between floor and ceiling whose straight path ends strictly
/// between them has a path shorter than one trip up and down the arena.
pub proof fn lemma_path_inside_arena_is_short(ball: Ball, ws: WindowSettings)
    requires
        ws.wf(),
        0 <= ball.position.y@ <= ws.height@,
        0 < ball.position.y@ + raw_displacement(ball, ws)@ < ws.height@,
    ensures
        magnitude(raw_displacement(ball, ws)@) < ws.arena_height().scaled(2, 1)@,
{
}

/// Where a point that has travelled to the height `v` through an arena with
/// mirrors at 0 and `height` really is: the triangle wave of period twice
/// the height.
pub open spec fn reflected(v: int, height: int) -> int {
    let phase = v % (2 * height);
    if phase <= height {
        phase
    } else {
        2 * height - phase
    }
}

/// The prediction is the true reflected position, however many times the
/// ball bounces off floor and ceiling on its way, as long as the folded
/// path leaves the arena by no more than one arena height; it then lies
/// between floor and ceiling. (Twice the height must be a representable
/// number, and the straight path must not have saturated downwards.)
pub proof fn lemma_prediction_is_reflection(ball: Ball, ws: WindowSettings)
    requires
        ws.wf(),
        2 * ws.height@ <= RAW_MAX,
        raw_displacement(ball, ws)@ > RAW_MIN,
        -ws.height@ <= ball.position.y@ + folded_displacement(ball, ws)@ <= 2 * ws.height@,
    ensures
        impact_point(ball, ws)@ == reflected(
            ball.position.y@ + raw_displacement(ball, ws)@,
            ws.height@,
        ),
        0 <= impact_point(ball, ws)@ <= ws.height@,
{
    let h = ws.height@;
    let p = 2 * h;
    let y = ball.position.y@;
    let dy = raw_displacement(ball, ws)@;
    let f = folded_displacement(ball, ws)@;
    let e = y + f;
    let a = raw_displacement(ball, ws).abs()@;
    let q = a / p;
    let r = a % p;
    vstd::arithmetic::div_mod::lemma_fundamental_div_mod(a, p);
    // the folded path differs from the straight one by whole periods
    if dy >= 0 {
        vstd::arithmetic::div_mod::lemma_mod_multiples_vanish(q, e, p);
    } else {
        assert(y + dy == p * (-q) + e) by (nonlinear_arith)
            requires
                a == -dy,
                a == p * q + r,
                e == y - r,
        ;
        vstd::arithmetic::div_mod::lemma_mod_multiples_vanish(-q, e, p);
    }
    if e < 0 {
        vstd::arithmetic::div_mod::lemma_mod_multiples_vanish(1, e, p);
        vstd::arithmetic::div_mod::lemma_small_mod((e + p) as nat, p as nat);
    } else if e < p {
        vstd::arithmetic::div_mod::lemma_small_mod(e as nat, p as nat);
    } else {
        vstd::arithmetic::div_mod::lemma_mod_multiples_vanish(-1, e, p);
        vstd::arithmetic::div_mod::lemma_small_mod((e - p) as nat, p as nat);
    }
}

} // verus!
