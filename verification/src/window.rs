//! The play area and every dimension that follows from it.
//!
//! Two numbers, the arena's width and height, fix the size of the ball and of
//! the paddles, the speeds at which they start, and the cap on the ball's
//! horizontal speed. Nothing derived is stored: each value is recomputed from
//! the two sides whenever it is asked for.

use vstd::prelude::*;
use crate::fixed::Fixed;

verus! {

/// Width of the paddle sprite, in pixels of the sprite sheet.
pub const PADDLE_SPRITE_WIDTH: i64 = 16;

/// Height of the paddle sprite, in pixels of the sprite sheet.
pub const PADDLE_SPRITE_HEIGHT: i64 = 64;

/// Width of the ball sprite, in pixels of the sprite sheet.
pub const BALL_SPRITE_WIDTH: i64 = 25;

/// Width of the taunt sprite, in pixels of the sprite sheet.
pub const TAUNT_SPRITE_WIDTH: i64 = 256;

/// The two sides of the play area.
#[derive(Clone, Copy, Debug, PartialEq, Eq, Structural)]
pub struct WindowSettings {
    pub width: Fixed,
    pub height: Fixed,
}

impl WindowSettings {
    /// A play area has two positive sides.
    pub open spec fn wf(self) -> bool {
        self.width.raw > 0 && self.height.raw > 0
    }

    /// The play area with the given sides, if both are positive.
    pub fn new(width: Fixed, height: Fixed) -> (r: Option<WindowSettings>)
        ensures
            r == if width.raw > 0 && height.raw > 0 {
                Some(WindowSettings { width, height })
            } else {
                None
            },
    {
        if width.raw > 0 && height.raw > 0 {
            Some(WindowSettings { width, height })
        } else {
            None
        }
    }

    pub open spec fn spec_arena_height(&self) -> Fixed {
        self.height
    }

    #[verifier::when_used_as_spec(spec_arena_height)]
    pub fn arena_height(&self) -> (r: Fixed)
        ensures
            r == self.spec_arena_height(),
    {
        self.height
    }

    pub open spec fn spec_arena_width(&self) -> Fixed {
        self.width
    }

    #[verifier::when_used_as_spec(spec_arena_width)]
    pub fn arena_width(&self) -> (r: Fixed)
        ensures
            r == self.spec_arena_width(),
    {
        self.width
    }

    pub open spec fn spec_ball_radius(&self) -> Fixed {
        self.width.scaled(2, 100)
    }

    /// Two hundredths of the width.
    #[verifier::when_used_as_spec(spec_ball_radius)]
    pub fn ball_radius(&self) -> (r: Fixed)
        ensures
            r == self.spec_ball_radius(),
    {
        self.width.scaled(2, 100)
    }

    pub open spec fn spec_ball_velocity_x(&self) -> Fixed {
        self.width.scaled(1, 2)
    }

    /// Horizontal speed of a fresh ball: half the width per second.
    #[verifier::when_used_as_spec(spec_ball_velocity_x)]
    pub fn ball_velocity_x(&self) -> (r: Fixed)
        ensures
            r == self.spec_ball_velocity_x(),
    {
        self.width.scaled(1, 2)
    }

    pub open spec fn spec_ball_velocity_y(&self) -> Fixed {
        self.width.scaled(3, 10)
    }

    /// Vertical speed of a fresh ball: three tenths of the width per second.
    #[verifier::when_used_as_spec(spec_ball_velocity_y)]
    pub fn ball_velocity_y(&self) -> (r: Fixed)
        ensures
            r == self.spec_ball_velocity_y(),
    {
        self.width.scaled(3, 10)
    }

    pub open spec fn spec_paddle_width(&self) -> Fixed {
        self.spec_paddle_height().scaled(1, 5)
    }

    /// A fifth of the paddle's height.
    #[verifier::when_used_as_spec(spec_paddle_width)]
    pub fn paddle_width(&self) -> (r: Fixed)
        ensures
            r == self.spec_paddle_width(),
    {
        self.paddle_height().scaled(1, 5)
    }

    pub open spec fn spec_paddle_height(&self) -> Fixed {
        self.height.scaled(15, 100)
    }

    /// Fifteen hundredths of the height.
    #[verifier::when_used_as_spec(spec_paddle_height)]
    pub fn paddle_height(&self) -> (r: Fixed)
        ensures
            r == self.spec_paddle_height(),
    {
        self.height.scaled(15, 100)
    }

    pub open spec fn spec_paddle_speed(&self) -> Fixed {
        self.height.scaled(75, 100)
    }

    /// Three quarters of the height per second.
    #[verifier::when_used_as_spec(spec_paddle_speed)]
    pub fn paddle_speed(&self) -> (r: Fixed)
        ensures
            r == self.spec_paddle_speed(),
    {
        self.height.scaled(75, 100)
    }

    pub open spec fn spec_paddle_width_scale(&self) -> Fixed {
        self.spec_paddle_width().scaled(1, PADDLE_SPRITE_WIDTH)
    }

    /// Factor that stretches the paddle sprite to the paddle's width.
    #[verifier::when_used_as_spec(spec_paddle_width_scale)]
    pub fn paddle_width_scale(&self) -> (r: Fixed)
        ensures
            r == self.spec_paddle_width_scale(),
    {
        self.paddle_width().scaled(1, PADDLE_SPRITE_WIDTH)
    }

    pub open spec fn spec_paddle_height_scale(&self) -> Fixed {
        self.spec_paddle_height().scaled(1, PADDLE_SPRITE_HEIGHT)
    }

    /// Factor that stretches the paddle sprite to the paddle's height.
    #[verifier::when_used_as_spec(spec_paddle_height_scale)]
    pub fn paddle_height_scale(&self) -> (r: Fixed)
        ensures
            r == self.spec_paddle_height_scale(),
    {
        self.paddle_height().scaled(1, PADDLE_SPRITE_HEIGHT)
    }

    pub open spec fn spec_ball_scale(&self) -> Fixed {
        self.spec_ball_radius().scaled(1, BALL_SPRITE_WIDTH)
    }

    /// Factor that stretches the ball sprite to the ball's radius.
    #[verifier::when_used_as_spec(spec_ball_scale)]
    pub fn ball_scale(&self) -> (r: Fixed)
        ensures
            r == self.spec_ball_scale(),
    {
        self.ball_radius().scaled(1, BALL_SPRITE_WIDTH)
    }

    pub open spec fn spec_taunt_scale(&self) -> Fixed {
        self.width.scaled(1, 3200)
    }

    /// Factor that stretches the taunt sprite to two twenty-fifths of the
    /// width.
    #[verifier::when_used_as_spec(spec_taunt_scale)]
    pub fn taunt_scale(&self) -> (r: Fixed)
        ensures
            r == self.spec_taunt_scale(),
    {
        self.width.scaled(1, 3200)
    }

    pub open spec fn spec_taunt_height(&self) -> Fixed {
        self.spec_taunt_scale().scaled(TAUNT_SPRITE_WIDTH, 1)
    }

    /// Side of the stretched taunt sprite.
    #[verifier::when_used_as_spec(spec_taunt_height)]
    pub fn taunt_height(&self) -> (r: Fixed)
        ensures
            r == self.spec_taunt_height(),
    {
        self.taunt_scale().scaled(TAUNT_SPRITE_WIDTH, 1)
    }

    pub open spec fn spec_max_velocity(&self) -> Fixed {
        self.width.plus(self.spec_paddle_width().scaled(2, 1)).scaled(2, 1).scaled(
            self.spec_paddle_speed().raw,
            self.height.raw,
        )
    }

    /// Cap on the ball's horizontal speed: the speed at which the ball
    /// crosses the arena and both paddle widths in the time the paddle needs
    /// for half the height.
    #[verifier::when_used_as_spec(spec_max_velocity)]
    pub fn max_velocity(&self) -> (r: Fixed)
        requires
            self.wf(),
        ensures
            r == self.spec_max_velocity(),
    {
        let span = self.width.plus(self.paddle_width().scaled(2, 1)).scaled(2, 1);
        span.scaled(self.paddle_speed().raw, self.height.raw)
    }

    /// Horizontal midline of the arena.
    pub open spec fn spec_center_x(&self) -> Fixed {
        self.width.scaled(1, 2)
    }

    #[verifier::when_used_as_spec(spec_center_x)]
    pub fn center_x(&self) -> (r: Fixed)
        ensures
            r == self.spec_center_x(),
    {
        self.width.scaled(1, 2)
    }

    /// Vertical midline of the arena.
    pub open spec fn spec_center_y(&self) -> Fixed {
        self.height.scaled(1, 2)
    }

    #[verifier::when_used_as_spec(spec_center_y)]
    pub fn center_y(&self) -> (r: Fixed)
        ensures
            r == self.spec_center_y(),
    {
        self.height.scaled(1, 2)
    }
}

impl Default for WindowSettings {
    /// An arena of 1024 by 726 units.
    fn default() -> (r: WindowSettings)
        ensures
            r == (WindowSettings {
                width: Fixed { raw: 1_024_000_000 },
                height: Fixed { raw: 726_000_000 },
            }),
    {
        WindowSettings { width: Fixed::from_int(1024), height: Fixed::from_int(726) }
    }
}

/// When each derived dimension is at least one raw step: the ball's radius
/// from a width of 50 steps on, its starting speeds from 2 and 4, the
/// paddle's height, width and speed from a height of 7, 34 and 2, and the
/// speed cap once ball and paddle both have a size.
pub proof fn lemma_derived_positive(ws: WindowSettings)
    requires
        ws.wf(),
    ensures
        ws.ball_radius()@ > 0 <==> ws.width@ >= 50,
        ws.ball_velocity_x()@ > 0 <==> ws.width@ >= 2,
        ws.ball_velocity_y()@ > 0 <==> ws.width@ >= 4,
        ws.paddle_height()@ > 0 <==> ws.height@ >= 7,
        ws.paddle_width()@ > 0 <==> ws.height@ >= 34,
        ws.paddle_speed()@ > 0 <==> ws.height@ >= 2,
        ws.width@ >= 50 && ws.height@ >= 34 ==> ws.max_velocity()@ > 0,
        ws.ball_radius()@ >= 0,
        ws.ball_velocity_x()@ >= 0,
        ws.ball_velocity_y()@ >= 0,
        ws.paddle_height()@ >= 0,
        ws.paddle_width()@ >= 0,
        ws.paddle_speed()@ >= 0,
        ws.max_velocity()@ >= 0,
{
    let w = ws.width@;
    let h = ws.height@;
    let ps = ws.paddle_speed()@;
    let span = ws.width.plus(ws.paddle_width().scaled(2, 1)).scaled(2, 1)@;
    assert(span * ps >= 0) by (nonlinear_arith)
        requires
            span >= 0,
            ps >= 0,
    ;
    assert((span * ps) / h >= 0) by (nonlinear_arith)
        requires
            span * ps >= 0,
            h > 0,
    ;
    if w >= 50 && h >= 34 {
        assert(span * ps >= h) by (nonlinear_arith)
            requires
                span >= 100,
                ps >= 0,
                100 * ps >= 75 * h - 99,
                h >= 34,
        ;
        assert((span * ps) / h >= 1) by (nonlinear_arith)
            requires
                span * ps >= h,
                h > 0,
        ;
    }
}

} // verus!
