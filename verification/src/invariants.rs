//! What holds of every ball from frame to frame.
//!
//! Two properties of a ball survive every stage: its cached prediction is
//! never stale, and its horizontal speed stays under the cap.

use vstd::prelude::*;
use crate::ball::Ball;
use crate::bounce::{
    after_paddles, bounced, lemma_bounce_bounded, paddle_bounced, wall_bounced,
};
use crate::fixed::{magnitude, Fixed};
use crate::motion::moved;
use crate::paddle::Paddle;
use crate::game::{
    after_frame, before_scoring, fresh_ball, rescaled, rescaled_ball, updated, PongView,
};
use crate::trajectory::predicted;
use crate::window::WindowSettings;
use crate::winner::scored;

verus! {

/// A ball that does not fly to the right has no predicted impact.
pub open spec fn prediction_consistent(ball: Ball) -> bool {
    ball.velocity.x.raw <= 0 ==> ball.predicted_impact_y is None
}

/// Every ball's prediction is consistent.
pub open spec fn predictions_consistent(balls: Seq<Ball>) -> bool {
    forall|i: int| 0 <= i < balls.len() ==> prediction_consistent(#[trigger] balls[i])
}

/// The ball's horizontal speed is at most the arena's cap.
pub open spec fn within_cap(ball: Ball, ws: WindowSettings) -> bool {
    magnitude(ball.velocity.x@) <= ws.max_velocity()@
}

/// Every ball is within the cap.
pub open spec fn all_within_cap(balls: Seq<Ball>, ws: WindowSettings) -> bool {
    forall|i: int| 0 <= i < balls.len() ==> within_cap(#[trigger] balls[i], ws)
}

/// The paddles leave a consistent prediction consistent.
proof fn lemma_after_paddles_consistent(ball: Ball, paddles: Seq<Paddle>, ws: WindowSettings)
    requires
        prediction_consistent(ball),
    ensures
        prediction_consistent(after_paddles(ball, paddles, ws)),
    decreases paddles.len(),
{
    if paddles.len() > 0 {
        lemma_after_paddles_consistent(ball, paddles.drop_last(), ws);
    }
}

/// Every stage keeps the cache honest: a paddle bounce, a serve, a rescale
/// and a spawn leave no prediction behind, and motion, walls, paddles,
/// prediction and scoring never leave one on a ball that does not fly to
/// the right.
pub proof fn lemma_stages_keep_prediction_consistent(
    ball: Ball,
    paddles: Seq<Paddle>,
    dt: Fixed,
    ws: WindowSettings,
    old: WindowSettings,
    right: bool,
    up: bool,
)
    ensures
        paddle_bounced(ball, ws).predicted_impact_y is None,
        rescaled_ball(ball, ws, old).predicted_impact_y is None,
        fresh_ball(ws, right, up).predicted_impact_y is None,
        ball.predicted_impact_y is Some ==> predicted(ball, ws) == ball,
        prediction_consistent(ball) ==> {
            &&& prediction_consistent(moved(ball, dt))
            &&& prediction_consistent(wall_bounced(ball, ws))
            &&& prediction_consistent(bounced(ball, paddles, ws))
            &&& prediction_consistent(predicted(ball, ws))
            &&& prediction_consistent(scored(ball, ws))
        },
{
    if prediction_consistent(ball) {
        lemma_after_paddles_consistent(wall_bounced(ball, ws), paddles, ws);
    }
}

/// A frame, the wait for the first ball and a rescale keep every cache
/// honest.
pub proof fn lemma_game_keeps_predictions_consistent(
    game: PongView,
    dt: Fixed,
    axis: Option<Fixed>,
    old: WindowSettings,
    right: bool,
    up: bool,
)
    requires
        predictions_consistent(game.balls),
    ensures
        predictions_consistent(before_scoring(game, dt, axis).balls),
        predictions_consistent(after_frame(game, dt, axis).balls),
        predictions_consistent(updated(game, dt, right, up).balls),
        predictions_consistent(rescaled(game, old).balls),
{
    let ws = game.window_settings;
    assert forall|i: int| 0 <= i < game.balls.len() implies {
        &&& prediction_consistent(#[trigger] before_scoring(game, dt, axis).balls[i])
        &&& prediction_consistent(after_frame(game, dt, axis).balls[i])
    } by {
        let b = game.balls[i];
        let flown = bounced(moved(b, dt), game.paddles, ws);
        lemma_stages_keep_prediction_consistent(moved(b, dt), game.paddles, dt, ws, old, right, up);
        lemma_stages_keep_prediction_consistent(
            predicted(flown, ws),
            game.paddles,
            dt,
            ws,
            old,
            right,
            up,
        );
        lemma_stages_keep_prediction_consistent(
            predicted(b, ws),
            game.paddles,
            dt,
            ws,
            old,
            right,
            up,
        );
    }
    assert forall|i: int| 0 <= i < updated(game, dt, right, up).balls.len() implies prediction_consistent(
        #[trigger] updated(game, dt, right, up).balls[i],
    ) by {
    }
}

/// In an arena at least two raw steps high a served ball is within the cap:
/// the starting speed does not exceed it.
pub proof fn lemma_start_within_cap(ws: WindowSettings)
    requires
        ws.wf(),
        ws.height@ >= 2,
    ensures
        0 <= ws.ball_velocity_x()@ <= ws.max_velocity()@,
{
    let w = ws.width@;
    let h = ws.height@;
    let ps = ws.paddle_speed()@;
    let span = ws.width.plus(ws.paddle_width().scaled(2, 1)).scaled(2, 1)@;
    assert((span * ps) / h >= w / 2) by (nonlinear_arith)
        requires
            span >= w,
            w > 0,
            2 * ps >= h,
            h > 0,
    ;
}

/// No stage of a frame carries a ball over the cap, in an arena at least
/// two raw steps high: flight and walls leave the horizontal speed alone, a
/// paddle bounce stops short of the cap, and a serve starts under it.
pub proof fn lemma_frame_keeps_cap(game: PongView, dt: Fixed, axis: Option<Fixed>)
    requires
        game.window_settings.wf(),
        game.window_settings.height@ >= 2,
        all_within_cap(game.balls, game.window_settings),
    ensures
        all_within_cap(before_scoring(game, dt, axis).balls, game.window_settings),
        all_within_cap(after_frame(game, dt, axis).balls, game.window_settings),
{
    let ws = game.window_settings;
    lemma_start_within_cap(ws);
    assert forall|i: int| 0 <= i < game.balls.len() implies {
        &&& within_cap(#[trigger] before_scoring(game, dt, axis).balls[i], ws)
        &&& within_cap(after_frame(game, dt, axis).balls[i], ws)
    } by {
        let b = game.balls[i];
        lemma_bounce_bounded(moved(b, dt), game.paddles, ws);
    }
}

} // verus!
