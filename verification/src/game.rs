//! The game: the arena with its balls and paddles, the clock, the pause
//! flag, and the frame that drives them.
//!
//! A frame runs the stages in a fixed order: clock, motion, collisions,
//! prediction, paddles, scoring, and last the taunting face. Rescaling is
//! no stage of the frame: it runs when the window's dimensions change.

use vstd::prelude::*;
use crate::ball::{Ball, Vec2};
use crate::bounce::{bounce_total, bounced_all, BounceSystem};
use crate::fixed::{lemma_ratio_of_part, lemma_ratio_same, Fixed};
use crate::motion::{moved_all, MoveBallsSystem};
use crate::paddle::{driven_all, Paddle, PaddleSystem, Side};
use crate::settings::Settings;
use crate::sound::{repeated, SoundEffect};
use crate::state::Pause;
use crate::taunt::{
    taunt_position, taunted, Taunt, TauntComponent, TauntSystem, FACE_RIGHT,
};
use crate::timer::{ticked, TimerSystem, TimerText};
use crate::trajectory::{predicted_all, TrajectorySystem};
use crate::window::WindowSettings;
use crate::winner::{any_escaped, clock_after, concessions, scored_all, GameError, WinnerSystem};

verus! {

/// Seconds between the start of a game and the first ball, in raw steps.
pub const SPAWN_DELAY: i64 = 2_000_000;

/// Where the clock starts, in raw steps: as long before zero as the first
/// ball is away.
pub const CLOCK_START: i64 = -2_000_000;

/// The game.
#[derive(Debug)]
pub struct Pong {
    /// Seconds until the first ball appears, while it has not.
    pub ball_spawn_timer: Option<Fixed>,
    pub window_settings: WindowSettings,
    pub balls: Vec<Ball>,
    pub paddles: Vec<Paddle>,
    pub taunts: Vec<TauntComponent>,
    pub taunt: Taunt,
    pub timer: TimerText,
    pub pause: Pause,
}

/// The game as a value: its collections as sequences.
pub struct PongView {
    pub ball_spawn_timer: Option<Fixed>,
    pub window_settings: WindowSettings,
    pub balls: Seq<Ball>,
    pub paddles: Seq<Paddle>,
    pub taunts: Seq<TauntComponent>,
    pub taunt: Taunt,
    pub timer: TimerText,
    pub pause: Pause,
}

impl View for Pong {
    type V = PongView;

    open spec fn view(&self) -> PongView {
        PongView {
            ball_spawn_timer: self.ball_spawn_timer,
            window_settings: self.window_settings,
            balls: self.balls@,
            paddles: self.paddles@,
            taunts: self.taunts@,
            taunt: self.taunt,
            timer: self.timer,
            pause: self.pause,
        }
    }
}

/// What the window reports to the running game.
#[derive(Clone, Copy, Debug, PartialEq, Eq, Structural)]
pub enum PongEvent {
    /// The window is about to close.
    CloseRequested,
    /// The escape key went down.
    EscapePressed,
    /// The window has been resized to these dimensions.
    Resized(WindowSettings),
    /// The application was suspended.
    Suspended,
    /// Anything else.
    Other,
}

/// What the game asks of its host in answer to an event.
#[derive(Clone, Copy, Debug, PartialEq, Eq, Structural)]
pub enum Trans {
    /// Go on.
    Continue,
    /// Leave the application.
    Quit,
    /// Put the pause menu on top of the game.
    Pause,
}

/// The left paddle of a fresh game.
pub open spec fn left_paddle(ws: WindowSettings) -> Paddle {
    Paddle {
        side: Side::Left,
        width: ws.paddle_width(),
        height: ws.paddle_height(),
        position: Vec2 { x: ws.paddle_width().scaled(1, 2), y: ws.arena_height().scaled(1, 2) },
    }
}

/// The right paddle of a fresh game.
pub open spec fn right_paddle(ws: WindowSettings) -> Paddle {
    Paddle {
        side: Side::Right,
        width: ws.paddle_width(),
        height: ws.paddle_height(),
        position: Vec2 {
            x: ws.arena_width().minus(ws.paddle_width().scaled(1, 2)),
            y: ws.arena_height().scaled(1, 2),
        },
    }
}

/// A fresh ball: in the centre, at the starting speed, to the right and
/// upwards where the flag is set and to the left and downwards where it is
/// not.
pub open spec fn fresh_ball(ws: WindowSettings, right: bool, up: bool) -> Ball {
    Ball {
        position: Vec2 { x: ws.arena_width().scaled(1, 2), y: ws.arena_height().scaled(1, 2) },
        velocity: Vec2 {
            x: if right {
                ws.ball_velocity_x()
            } else {
                ws.ball_velocity_x().negated()
            },
            y: if up {
                ws.ball_velocity_y()
            } else {
                ws.ball_velocity_y().negated()
            },
        },
        radius: ws.ball_radius(),
        predicted_impact_y: None,
    }
}

/// The wait for the first ball ends within the next `dt` seconds.
pub open spec fn spawn_due(game: PongView, dt: Fixed) -> bool {
    game.ball_spawn_timer matches Some(timer) && timer.minus(dt).raw <= 0
}

/// The game after `dt` seconds of waiting for the first ball. When the wait
/// is over the ball appears, flying as the two flags say.
pub open spec fn updated(game: PongView, dt: Fixed, right: bool, up: bool) -> PongView {
    match game.ball_spawn_timer {
        Some(timer) => if timer.minus(dt).raw <= 0 {
            PongView {
                ball_spawn_timer: None,
                balls: game.balls.push(fresh_ball(game.window_settings, right, up)),
                ..game
            }
        } else {
            PongView { ball_spawn_timer: Some(timer.minus(dt)), ..game }
        },
        None => game,
    }
}

/// A paddle carried over from the arena `old` to the arena `new`: resized,
/// back at its wall, and as high in the new arena as it was in the old one.
pub open spec fn rescaled_paddle(paddle: Paddle, new: WindowSettings, old: WindowSettings) -> Paddle {
    Paddle {
        side: paddle.side,
        width: new.paddle_width(),
        height: new.paddle_height(),
        position: Vec2 {
            x: match paddle.side {
                Side::Left => new.paddle_width().scaled(1, 2),
                Side::Right => new.arena_width().minus(new.paddle_width().scaled(1, 2)),
            },
            y: paddle.position.y.scaled(new.height.raw, old.height.raw),
        },
    }
}

/// A ball carried over from the arena `old` to the arena `new`: position
/// and velocity keep their proportion to the arena on each axis, the radius
/// is the new arena's, and the prediction is gone.
pub open spec fn rescaled_ball(ball: Ball, new: WindowSettings, old: WindowSettings) -> Ball {
    Ball {
        position: Vec2 {
            x: ball.position.x.scaled(new.width.raw, old.width.raw),
            y: ball.position.y.scaled(new.height.raw, old.height.raw),
        },
        velocity: Vec2 {
            x: ball.velocity.x.scaled(new.width.raw, old.width.raw),
            y: ball.velocity.y.scaled(new.height.raw, old.height.raw),
        },
        radius: new.ball_radius(),
        predicted_impact_y: None,
    }
}

/// The game carried over from the arena `old` to its own arena.
pub open spec fn rescaled(game: PongView, old: WindowSettings) -> PongView {
    PongView {
        paddles: game.paddles.map_values(
            |p: Paddle| rescaled_paddle(p, game.window_settings, old),
        ),
        balls: game.balls.map_values(|b: Ball| rescaled_ball(b, game.window_settings, old)),
        taunts: game.taunts.map_values(
            |t: TauntComponent| TauntComponent { position: taunt_position(&game.window_settings) },
        ),
        ..game
    }
}

/// The game after the window has reported its dimensions: with dimensions
/// that it has already, unchanged; with new ones, rescaled to them.
pub open spec fn resized(game: PongView, known: WindowSettings, dimensions: WindowSettings) -> PongView {
    if dimensions == known {
        game
    } else {
        rescaled(PongView { window_settings: dimensions, ..game }, known)
    }
}

/// The balls of a frame after motion, collisions and prediction.
pub open spec fn balls_in_flight(game: PongView, dt: Fixed) -> Seq<Ball> {
    let ws = game.window_settings;
    if game.pause.paused {
        predicted_all(game.balls, ws)
    } else {
        predicted_all(bounced_all(moved_all(game.balls, dt), game.paddles, ws), ws)
    }
}

/// The game after every stage of a frame but scoring.
pub open spec fn before_scoring(game: PongView, dt: Fixed, axis: Option<Fixed>) -> PongView {
    let ws = game.window_settings;
    if game.pause.paused {
        PongView { balls: balls_in_flight(game, dt), ..game }
    } else {
        PongView {
            timer: ticked(game.timer, dt),
            balls: balls_in_flight(game, dt),
            paddles: driven_all(game.paddles, balls_in_flight(game, dt), axis, dt, ws),
            ..game
        }
    }
}

/// The frame ends in a defect: the game runs, and a ball has reached the
/// right-hand wall.
pub open spec fn frame_fails(game: PongView, dt: Fixed, axis: Option<Fixed>) -> bool {
    !game.pause.paused && any_escaped(balls_in_flight(game, dt), game.window_settings)
}

/// The game after a whole frame that ends without a defect.
pub open spec fn after_frame(game: PongView, dt: Fixed, axis: Option<Fixed>) -> PongView {
    let ws = game.window_settings;
    let before = before_scoring(game, dt, axis);
    if game.pause.paused {
        PongView { taunt: taunted(before.taunt, before.balls, ws), ..before }
    } else {
        PongView {
            balls: scored_all(before.balls, ws),
            timer: clock_after(before.timer, before.balls),
            taunt: taunted(before.taunt, scored_all(before.balls, ws), ws),
            ..before
        }
    }
}

/// The sounds of a frame: one bounce for every paddle bounce, then, in a
/// frame without a defect, one score for every ball at the left wall.
pub open spec fn frame_sounds(game: PongView, dt: Fixed, axis: Option<Fixed>) -> Seq<SoundEffect> {
    let ws = game.window_settings;
    if game.pause.paused {
        Seq::empty()
    } else {
        repeated(SoundEffect::Bounce, bounce_total(moved_all(game.balls, dt), game.paddles, ws))
            + if frame_fails(game, dt, axis) {
            Seq::empty()
        } else {
            repeated(SoundEffect::Score, concessions(balls_in_flight(game, dt)))
        }
    }
}

/// Flips a fair coin with the thread's generator of the `rand` crate
/// (`Rng::gen_ratio` with one in two). Nothing is claimed of the outcome.
#[verifier::external_body]
fn coin_flip() -> (heads: bool) {
    rand::Rng::gen_ratio(&mut rand::thread_rng(), 1, 2)
}

impl Pong {
    /// A game has a play area with two positive sides.
    pub open spec fn wf(&self) -> bool {
        self.window_settings.wf()
    }

    /// An empty, paused game in the given arena.
    pub fn new(window_settings: WindowSettings) -> (game: Pong)
        ensures
            game@ == (PongView {
                ball_spawn_timer: None,
                window_settings,
                balls: Seq::empty(),
                paddles: Seq::empty(),
                taunts: Seq::empty(),
                taunt: Taunt { face: None },
                timer: TimerText { game_time: Fixed { raw: 0 }, timer: None },
                pause: Pause { paused: true },
            }),
    {
        Pong {
            ball_spawn_timer: None,
            window_settings,
            balls: Vec::new(),
            paddles: Vec::new(),
            taunts: Vec::new(),
            taunt: Taunt { face: None },
            timer: TimerText { game_time: Fixed { raw: 0 }, timer: None },
            pause: Pause { paused: true },
        }
    }

    /// Hangs a taunting face over the arena, looking to the right.
    pub fn initialize_taunt(&mut self)
        ensures
            final(self)@ == (PongView {
                taunts: old(self)@.taunts.push(
                    TauntComponent { position: taunt_position(&old(self).window_settings) },
                ),
                taunt: Taunt { face: Some(FACE_RIGHT) },
                ..old(self)@
            }),
    {
        let position = taunt_position(&self.window_settings);
        self.taunts.push(TauntComponent { position });
        self.taunt.face = Some(FACE_RIGHT);
    }

    /// The two paddles of a fresh game, each at its wall and halfway up.
    pub fn initialise_paddles(&self) -> (r: (Paddle, Paddle))
        ensures
            r.0 == left_paddle(self.window_settings),
            r.1 == right_paddle(self.window_settings),
    {
        let ws = &self.window_settings;
        let y = ws.arena_height().scaled(1, 2);
        let left = Paddle::new(
            Side::Left,
            ws.paddle_height(),
            ws.paddle_width(),
            Vec2 { x: ws.paddle_width().scaled(1, 2), y },
        );
        let right = Paddle::new(
            Side::Right,
            ws.paddle_height(),
            ws.paddle_width(),
            Vec2 { x: ws.arena_width().minus(ws.paddle_width().scaled(1, 2)), y },
        );
        (left, right)
    }

    /// A fresh ball in the centre of the arena.
    pub fn initialise_ball(&self, right: bool, up: bool) -> (ball: Ball)
        ensures
            ball == fresh_ball(self.window_settings, right, up),
    {
        let ws = &self.window_settings;
        let vx = if right {
            ws.ball_velocity_x()
        } else {
            ws.ball_velocity_x().negated()
        };
        let vy = if up {
            ws.ball_velocity_y()
        } else {
            ws.ball_velocity_y().negated()
        };
        Ball {
            position: Vec2 { x: ws.arena_width().scaled(1, 2), y: ws.arena_height().scaled(1, 2) },
            velocity: Vec2 { x: vx, y: vy },
            radius: ws.ball_radius(),
            predicted_impact_y: None,
        }
    }

    /// Starts a game: the pause ends, the two paddles take their places,
    /// the first ball is two seconds away, and the clock, which shows zero,
    /// starts two seconds before zero.
    pub fn on_start(&mut self)
        ensures
            final(self)@ == (PongView {
                ball_spawn_timer: Some(Fixed { raw: SPAWN_DELAY }),
                paddles: old(self)@.paddles.push(left_paddle(old(self).window_settings)).push(
                    right_paddle(old(self).window_settings),
                ),
                timer: TimerText {
                    game_time: Fixed { raw: CLOCK_START },
                    timer: Some(Fixed { raw: 0 }),
                },
                pause: Pause { paused: false },
                ..old(self)@
            }),
    {
        self.pause.paused = false;
        self.ball_spawn_timer = Some(Fixed { raw: SPAWN_DELAY });
        let (left, right) = self.initialise_paddles();
        self.timer = TimerText {
            game_time: Fixed { raw: CLOCK_START },
            timer: Some(Fixed { raw: 0 }),
        };
        self.paddles.push(left);
        self.paddles.push(right);
    }

    /// Ends a game: the pause is back, balls and paddles are gone, and so is
    /// the clock's display.
    pub fn on_stop(&mut self)
        ensures
            final(self)@ == (PongView {
                balls: Seq::empty(),
                paddles: Seq::empty(),
                timer: TimerText { game_time: old(self).timer.game_time, timer: None },
                pause: Pause { paused: true },
                ..old(self)@
            }),
    {
        self.pause.paused = true;
        self.balls = Vec::new();
        self.paddles = Vec::new();
        self.timer.timer = None;
    }

    /// Pauses the game.
    pub fn on_pause(&mut self)
        ensures
            final(self)@ == (PongView { pause: Pause { paused: true }, ..old(self)@ }),
    {
        self.pause.paused = true;
    }

    /// Resumes the game after a pause, in the window as it is now. Tells
    /// whether the settings have changed and want saving.
    pub fn on_resume(&mut self, settings: &mut Settings, dimensions: &WindowSettings) -> (changed:
        bool)
        requires
            old(settings).window_settings.wf(),
            dimensions.wf(),
        ensures
            changed == (*dimensions != old(settings).window_settings),
            final(settings).window_settings == *dimensions,
            final(settings).audio_settings == old(settings).audio_settings,
            final(self)@ == (PongView {
                pause: Pause { paused: false },
                ..resized(old(self)@, old(settings).window_settings, *dimensions)
            }),
            old(self).wf() ==> final(self).wf(),
    {
        let changed = self.rescale_if_res_updated(settings, dimensions);
        self.pause.paused = false;
        changed
    }

    /// Answers an event of the window. A resize rescales the game and
    /// pauses it; the flag tells whether the settings have changed and want
    /// saving.
    pub fn handle_event(&mut self, settings: &mut Settings, event: PongEvent) -> (r: (Trans, bool))
        requires
            old(settings).window_settings.wf(),
            event matches PongEvent::Resized(dimensions) ==> dimensions.wf(),
        ensures
            r.0 == match event {
                PongEvent::CloseRequested => Trans::Quit,
                PongEvent::EscapePressed => Trans::Pause,
                PongEvent::Resized(_) => Trans::Pause,
                PongEvent::Suspended => Trans::Pause,
                PongEvent::Other => Trans::Continue,
            },
            match event {
                PongEvent::Resized(dimensions) => {
                    &&& r.1 == (dimensions != old(settings).window_settings)
                    &&& final(settings).window_settings == dimensions
                    &&& final(settings).audio_settings == old(settings).audio_settings
                    &&& final(self)@ == resized(
                        old(self)@,
                        old(settings).window_settings,
                        dimensions,
                    )
                },
                _ => !r.1 && *final(settings) == *old(settings) && final(self)@ == old(self)@,
            },
            old(self).wf() ==> final(self).wf(),
    {
        match event {
            PongEvent::CloseRequested => (Trans::Quit, false),
            PongEvent::EscapePressed => (Trans::Pause, false),
            PongEvent::Resized(dimensions) => {
                let changed = self.rescale_if_res_updated(settings, &dimensions);
                (Trans::Pause, changed)
            },
            PongEvent::Suspended => (Trans::Pause, false),
            PongEvent::Other => (Trans::Continue, false),
        }
    }

    /// Counts down to the first ball and lets it appear, flying as the two
    /// flags say, when the wait is over.
    pub fn update_with(&mut self, dt: Fixed, right: bool, up: bool)
        ensures
            final(self)@ == updated(old(self)@, dt, right, up),
    {
        if let Some(timer) = self.ball_spawn_timer {
            let timer = timer.minus(dt);
            if timer.raw <= 0 {
                let ball = self.initialise_ball(right, up);
                self.balls.push(ball);
                self.ball_spawn_timer = None;
            } else {
                self.ball_spawn_timer = Some(timer);
            }
        }
    }

    /// Counts down to the first ball and lets it appear when the wait is
    /// over, in a direction that two coin flips choose. The coins are only
    /// flipped for a ball.
    pub fn update(&mut self, dt: Fixed)
        ensures
            exists|right: bool, up: bool| final(self)@ == updated(old(self)@, dt, right, up),
            !spawn_due(old(self)@, dt) ==> final(self)@ == updated(old(self)@, dt, false, false),
    {
        let due = match self.ball_spawn_timer {
            Some(timer) => timer.minus(dt).raw <= 0,
            None => false,
        };
        if due {
            let right = coin_flip();
            let up = coin_flip();
            self.update_with(dt, right, up);
            assert(self@ == updated(old(self)@, dt, right, up));
        } else {
            self.update_with(dt, false, false);
            assert(self@ == updated(old(self)@, dt, false, false));
        }
    }

    /// Takes over the window's dimensions. With dimensions that differ from
    /// the known ones the game is rescaled and the answer is `true`; with
    /// equal ones nothing happens at all.
    pub fn rescale_if_res_updated(&mut self, settings: &mut Settings, dimensions: &WindowSettings) -> (changed:
        bool)
        requires
            old(settings).window_settings.wf(),
            dimensions.wf(),
        ensures
            changed == (*dimensions != old(settings).window_settings),
            final(settings).window_settings == *dimensions,
            final(settings).audio_settings == old(settings).audio_settings,
            final(self)@ == resized(old(self)@, old(settings).window_settings, *dimensions),
            !changed ==> final(self)@ == old(self)@ && *final(settings) == *old(settings),
            old(self).wf() ==> final(self).wf(),
    {
        let known = settings.window_settings;
        if settings.update_window(dimensions) {
            self.window_settings = settings.window_settings;
            self.rescale(&known);
            true
        } else {
            false
        }
    }

    /// Carries every paddle, ball and taunt over from the arena `old` to
    /// the game's own arena.
    pub fn rescale(&mut self, old_settings: &WindowSettings)
        requires
            old_settings.wf(),
        ensures
            final(self)@ == rescaled(old(self)@, *old_settings),
    {
        let ws = self.window_settings;
        let ow = old_settings.width.raw;
        let oh = old_settings.height.raw;
        let n = self.paddles.len();
        let mut i: usize = 0;
        while i < n
            invariant
                i <= n,
                ow != 0,
                oh != 0,
                ow == old_settings.width.raw,
                oh == old_settings.height.raw,
                ws == self.window_settings,
                self.paddles@.len() == n,
                old(self).paddles@.len() == n,
                self@ == (PongView { paddles: self.paddles@, ..old(self)@ }),
                forall|j: int|
                    0 <= j < i ==> self.paddles@[j] == rescaled_paddle(
                        old(self).paddles@[j],
                        ws,
                        *old_settings,
                    ),
                forall|j: int| i <= j < n ==> self.paddles@[j] == old(self).paddles@[j],
            decreases n - i,
        {
            let paddle = self.paddles[i];
            let new_y = paddle.position.y.scaled(ws.arena_height().raw, oh);
            let new_x = match paddle.side {
                Side::Left => ws.paddle_width().scaled(1, 2),
                Side::Right => ws.arena_width().minus(ws.paddle_width().scaled(1, 2)),
            };
            self.paddles.set(
                i,
                Paddle {
                    side: paddle.side,
                    width: ws.paddle_width(),
                    height: ws.paddle_height(),
                    position: Vec2 { x: new_x, y: new_y },
                },
            );
            i += 1;
        }
        let ghost paddles_done = self.paddles@;
        assert(paddles_done =~= rescaled(old(self)@, *old_settings).paddles);
        let m = self.balls.len();
        let mut k: usize = 0;
        while k < m
            invariant
                k <= m,
                ow != 0,
                oh != 0,
                ow == old_settings.width.raw,
                oh == old_settings.height.raw,
                ws == self.window_settings,
                self.balls@.len() == m,
                old(self).balls@.len() == m,
                self@ == (PongView { paddles: paddles_done, balls: self.balls@, ..old(self)@ }),
                forall|j: int|
                    0 <= j < k ==> self.balls@[j] == rescaled_ball(
                        old(self).balls@[j],
                        ws,
                        *old_settings,
                    ),
                forall|j: int| k <= j < m ==> self.balls@[j] == old(self).balls@[j],
            decreases m - k,
        {
            let ball = self.balls[k];
            let new_x = ball.position.x.scaled(ws.arena_width().raw, ow);
            let new_y = ball.position.y.scaled(ws.arena_height().raw, oh);
            let new_vx = ball.velocity.x.scaled(ws.arena_width().raw, ow);
            let new_vy = ball.velocity.y.scaled(ws.arena_height().raw, oh);
            self.balls.set(
                k,
                Ball {
                    position: Vec2 { x: new_x, y: new_y },
                    velocity: Vec2 { x: new_vx, y: new_vy },
                    radius: ws.ball_radius(),
                    predicted_impact_y: None,
                },
            );
            k += 1;
        }
        let ghost balls_done = self.balls@;
        assert(balls_done =~= rescaled(old(self)@, *old_settings).balls);
        let t = self.taunts.len();
        let mut j: usize = 0;
        while j < t
            invariant
                j <= t,
                ws == self.window_settings,
                self.taunts@.len() == t,
                old(self).taunts@.len() == t,
                self@ == (PongView {
                    paddles: paddles_done,
                    balls: balls_done,
                    taunts: self.taunts@,
                    ..old(self)@
                }),
                forall|q: int|
                    0 <= q < j ==> self.taunts@[q] == (TauntComponent {
                        position: taunt_position(&ws),
                    }),
            decreases t - j,
        {
            self.taunts.set(j, TauntComponent { position: taunt_position(&ws) });
            j += 1;
        }
        assert(self.taunts@ =~= rescaled(old(self)@, *old_settings).taunts);
    }

    /// Runs one frame of `dt` seconds with the player's axis at `axis`, and
    /// queues the frame's sounds.
    ///
    /// A ball at the right-hand wall after the paddles have moved is a
    /// defect: the frame stops before scoring and reports it.
    pub fn tick(&mut self, dt: Fixed, axis: Option<Fixed>, sounds: &mut Vec<SoundEffect>) -> (r:
        Result<(), GameError>)
        requires
            old(self).wf(),
        ensures
            final(self).wf(),
            r is Err <==> frame_fails(old(self)@, dt, axis),
            r is Err ==> r == Err::<(), GameError>(GameError::BallEscaped),
            final(self)@ == if r is Err {
                before_scoring(old(self)@, dt, axis)
            } else {
                after_frame(old(self)@, dt, axis)
            },
            final(sounds)@ == old(sounds)@ + frame_sounds(old(self)@, dt, axis),
    {
        let ws = self.window_settings;
        let pause = self.pause;
        let mut clock = TimerSystem;
        let mut motion = MoveBallsSystem;
        let mut collisions = BounceSystem;
        let mut prediction = TrajectorySystem;
        let mut steering = PaddleSystem;
        let mut scoring = WinnerSystem;
        let mut face = TauntSystem;
        clock.run(&mut self.timer, dt, &pause);
        motion.run(&mut self.balls, dt, &pause);
        collisions.run(&mut self.balls, &self.paddles, &ws, &pause, sounds);
        prediction.run(&mut self.balls, &ws);
        steering.run(&mut self.paddles, &self.balls, axis, dt, &pause, &ws);
        let ghost mid = sounds@;
        let r = scoring.run(&mut self.balls, &mut self.timer, &pause, &ws, sounds);
        if r.is_ok() {
            face.run(&self.balls, &mut self.taunt, &ws);
        }
        proof {
            if pause.paused {
                assert(sounds@ =~= old(sounds)@ + Seq::<SoundEffect>::empty());
            } else {
                let bounces = repeated(
                    SoundEffect::Bounce,
                    bounce_total(moved_all(old(self)@.balls, dt), old(self)@.paddles, ws),
                );
                assert(mid == old(sounds)@ + bounces);
                if r is Err {
                    assert(sounds@ =~= old(sounds)@ + (bounces + Seq::<SoundEffect>::empty()));
                } else {
                    let scores = repeated(
                        SoundEffect::Score,
                        concessions(balls_in_flight(old(self)@, dt)),
                    );
                    assert(sounds@ =~= old(sounds)@ + (bounces + scores));
                }
            }
        }
        r
    }
}

/// The game after a run of frames, each with its seconds and its axis
/// value, none of which ends in a defect.
pub open spec fn after_frames(game: PongView, frames: Seq<(Fixed, Option<Fixed>)>) -> PongView
    decreases frames.len(),
{
    if frames.len() == 0 {
        game
    } else {
        after_frame(after_frames(game, frames.drop_last()), frames.last().0, frames.last().1)
    }
}

/// Rescaling to the dimensions that the arena has already moves nothing:
/// every coordinate and every velocity stays as it is.
pub proof fn lemma_rescale_same_dimensions(ball: Ball, paddle: Paddle, ws: WindowSettings)
    requires
        ws.wf(),
    ensures
        rescaled_ball(ball, ws, ws).position == ball.position,
        rescaled_ball(ball, ws, ws).velocity == ball.velocity,
        rescaled_paddle(paddle, ws, ws).position.y == paddle.position.y,
{
    lemma_ratio_same(ball.position.x@, ws.width@);
    lemma_ratio_same(ball.position.y@, ws.height@);
    lemma_ratio_same(ball.velocity.x@, ws.width@);
    lemma_ratio_same(ball.velocity.y@, ws.height@);
    lemma_ratio_same(paddle.position.y@, ws.height@);
}

/// Rescaling keeps the middle in the middle: a paddle whose centre is
/// exactly halfway up the old arena is halfway up the new one, to the raw
/// step.
pub proof fn lemma_rescale_keeps_center(paddle: Paddle, new: WindowSettings, old: WindowSettings)
    requires
        new.wf(),
        old.wf(),
        2 * paddle.position.y@ == old.height@,
    ensures
        rescaled_paddle(paddle, new, old).position.y@ == new.height@ / 2,
        rescaled_paddle(paddle, new, old).position.y == new.center_y(),
        new.height@ % 2 == 0 ==> 2 * rescaled_paddle(paddle, new, old).position.y@ == new.height@,
{
    let y = paddle.position.y@;
    let nh = new.height@;
    assert((y * nh) / (2 * y) == nh / 2) by (nonlinear_arith)
        requires
            y > 0,
            nh > 0,
    ;
}

/// Rescaling keeps what is in the arena in the arena: a ball between the
/// walls of the old arena lies between the walls of the new one, and so
/// does a paddle between floor and ceiling.
pub proof fn lemma_rescale_keeps_inside(
    ball: Ball,
    paddle: Paddle,
    new: WindowSettings,
    old: WindowSettings,
)
    requires
        new.wf(),
        old.wf(),
    ensures
        0 <= ball.position.x@ <= old.width@ ==> 0 <= rescaled_ball(ball, new, old).position.x@
            <= new.width@,
        0 <= ball.position.y@ <= old.height@ ==> 0 <= rescaled_ball(ball, new, old).position.y@
            <= new.height@,
        0 <= paddle.position.y@ <= old.height@ ==> 0 <= rescaled_paddle(
            paddle,
            new,
            old,
        ).position.y@ <= new.height@,
{
    if 0 <= ball.position.x@ <= old.width@ {
        lemma_ratio_of_part(ball.position.x@, new.width@, old.width@);
    }
    if 0 <= ball.position.y@ <= old.height@ {
        lemma_ratio_of_part(ball.position.y@, new.height@, old.height@);
    }
    if 0 <= paddle.position.y@ <= old.height@ {
        lemma_ratio_of_part(paddle.position.y@, new.height@, old.height@);
    }
}

/// A paused game stands still: over any run of frames, whatever their
/// lengths and axis values, no ball and no paddle moves, no velocity
/// changes, the clock does not count, and the pause stays.
pub proof fn lemma_paused_game_stands_still(game: PongView, frames: Seq<(Fixed, Option<Fixed>)>)
    requires
        game.pause.paused,
    ensures
        after_frames(game, frames).pause == game.pause,
        after_frames(game, frames).paddles == game.paddles,
        after_frames(game, frames).timer == game.timer,
        after_frames(game, frames).window_settings == game.window_settings,
        after_frames(game, frames).balls.len() == game.balls.len(),
        forall|i: int|
            0 <= i < game.balls.len() ==> {
                &&& (#[trigger] after_frames(game, frames).balls[i]).position
                    == game.balls[i].position
                &&& after_frames(game, frames).balls[i].velocity == game.balls[i].velocity
                &&& after_frames(game, frames).balls[i].radius == game.balls[i].radius
            },
    decreases frames.len(),
{
    if frames.len() > 0 {
        lemma_paused_game_stands_still(game, frames.drop_last());
    }
}

/// A frame of a paused game never ends in a defect and makes no sound.
pub proof fn lemma_paused_frame_is_silent(game: PongView, dt: Fixed, axis: Option<Fixed>)
    requires
        game.pause.paused,
    ensures
        !frame_fails(game, dt, axis),
        frame_sounds(game, dt, axis) == Seq::<SoundEffect>::empty(),
{
}

} // verus!
