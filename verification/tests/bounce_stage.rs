use pong::ball::{Ball, Vec2};
use pong::bounce::{
    bounce_ball, bounce_off_paddle, bounce_off_walls, paddle_blocks, point_in_rect, BounceSystem,
};
use pong::fixed::Fixed;
use pong::paddle::{Paddle, Side};
use pong::sound::SoundEffect;
use pong::state::Pause;
use pong::window::WindowSettings;

fn raw(v: i64) -> Fixed {
    Fixed::from_raw(v)
}

fn fx(units: i32) -> Fixed {
    Fixed::from_int(units)
}

fn ball_at(x: i64, y: i64, vx: i64, vy: i64) -> Ball {
    Ball {
        position: Vec2 { x: raw(x), y: raw(y) },
        velocity: Vec2 { x: raw(vx), y: raw(vy) },
        radius: raw(20_480_000),
        predicted_impact_y: Some(raw(1)),
    }
}

fn paddles(ws: &WindowSettings) -> Vec<Paddle> {
    vec![
        Paddle::new(
            Side::Left,
            ws.paddle_height(),
            ws.paddle_width(),
            Vec2 { x: raw(10_890_000), y: fx(363) },
        ),
        Paddle::new(
            Side::Right,
            ws.paddle_height(),
            ws.paddle_width(),
            Vec2 { x: raw(1_013_110_000), y: fx(363) },
        ),
    ]
}

#[test]
fn box_includes_its_border() {
    assert!(point_in_rect(fx(1), fx(2), fx(1), fx(2), fx(3), fx(4)));
    assert!(point_in_rect(fx(3), fx(4), fx(1), fx(2), fx(3), fx(4)));
    assert!(point_in_rect(fx(2), fx(3), fx(1), fx(2), fx(3), fx(4)));
    assert!(!point_in_rect(raw(999_999), fx(3), fx(1), fx(2), fx(3), fx(4)));
    assert!(!point_in_rect(fx(2), raw(4_000_001), fx(1), fx(2), fx(3), fx(4)));
    assert!(!point_in_rect(raw(3_000_001), fx(3), fx(1), fx(2), fx(3), fx(4)));
    assert!(!point_in_rect(fx(2), raw(1_999_999), fx(1), fx(2), fx(3), fx(4)));
}

#[test]
fn ball_bounces_off_the_floor() {
    let ws = WindowSettings::default();
    let mut b = ball_at(500_000_000, 10_000_000, 512_000_000, -307_200_000);
    bounce_off_walls(&mut b, &ws);
    assert_eq!(b.velocity, Vec2 { x: raw(512_000_000), y: raw(307_200_000) });
    assert_eq!(b.position, Vec2 { x: raw(500_000_000), y: raw(10_000_000) });
    assert_eq!(b.predicted_impact_y, Some(raw(1)));
}

#[test]
fn ball_bounces_off_the_ceiling() {
    let ws = WindowSettings::default();
    let mut b = ball_at(500_000_000, 720_000_000, 512_000_000, 307_200_000);
    bounce_off_walls(&mut b, &ws);
    assert_eq!(b.velocity.y, raw(-307_200_000));
}

#[test]
fn wall_bounce_includes_the_exact_boundary() {
    let ws = WindowSettings::default();
    // at exactly one radius above the floor
    let mut low = ball_at(500_000_000, 20_480_000, 1, -5);
    bounce_off_walls(&mut low, &ws);
    assert_eq!(low.velocity.y, raw(5));
    let mut above = ball_at(500_000_000, 20_480_001, 1, -5);
    bounce_off_walls(&mut above, &ws);
    assert_eq!(above.velocity.y, raw(-5));
    // at exactly one radius below the ceiling: 726 - 20.48
    let mut high = ball_at(500_000_000, 705_520_000, 1, 5);
    bounce_off_walls(&mut high, &ws);
    assert_eq!(high.velocity.y, raw(-5));
    let mut below = ball_at(500_000_000, 705_519_999, 1, 5);
    bounce_off_walls(&mut below, &ws);
    assert_eq!(below.velocity.y, raw(5));
}

#[test]
fn ball_that_leaves_a_wall_is_not_turned_back() {
    let ws = WindowSettings::default();
    let mut rising = ball_at(500_000_000, 10_000_000, 1, 5);
    bounce_off_walls(&mut rising, &ws);
    assert_eq!(rising.velocity.y, raw(5));
    let mut sinking = ball_at(500_000_000, 720_000_000, 1, -5);
    bounce_off_walls(&mut sinking, &ws);
    assert_eq!(sinking.velocity.y, raw(-5));
}

#[test]
fn wall_bounce_does_not_flip_twice() {
    let ws = WindowSettings::default();
    let ps = paddles(&ws);
    let mut sounds = Vec::new();
    let mut b = ball_at(500_000_000, 20_480_000, 512_000_000, -307_200_000);
    bounce_ball(&mut b, &ps, &ws, &mut sounds);
    let once = b;
    bounce_ball(&mut b, &ps, &ws, &mut sounds);
    assert_eq!(once.velocity.y, raw(307_200_000));
    assert_eq!(b, once);
    assert!(sounds.is_empty());
}

#[test]
fn right_paddle_sends_the_ball_back_faster() {
    let ws = WindowSettings::default();
    let ps = paddles(&ws);
    let mut sounds = Vec::new();
    let mut b = ball_at(1_000_000_000, 363_000_000, 512_000_000, 307_200_000);
    bounce_ball(&mut b, &ps, &ws, &mut sounds);
    // 512 * 0.035 = 17.92 and 307.2 * 0.035 = 10.752
    assert_eq!(b.velocity, Vec2 { x: raw(-529_920_000), y: raw(317_952_000) });
    assert_eq!(b.predicted_impact_y, None);
    assert_eq!(b.position, Vec2 { x: raw(1_000_000_000), y: raw(363_000_000) });
    assert_eq!(sounds, vec![SoundEffect::Bounce]);
}

#[test]
fn left_paddle_sends_the_ball_back_faster() {
    let ws = WindowSettings::default();
    let ps = paddles(&ws);
    let mut sounds = Vec::new();
    let mut b = ball_at(30_000_000, 363_000_000, -512_000_000, -307_200_000);
    bounce_ball(&mut b, &ps, &ws, &mut sounds);
    assert_eq!(b.velocity, Vec2 { x: raw(529_920_000), y: raw(-317_952_000) });
    assert_eq!(b.predicted_impact_y, None);
    assert_eq!(sounds, vec![SoundEffect::Bounce]);
}

#[test]
fn paddle_only_blocks_a_ball_that_flies_towards_its_wall() {
    let ws = WindowSettings::default();
    let ps = paddles(&ws);
    let leaving_right = ball_at(1_000_000_000, 363_000_000, -512_000_000, 307_200_000);
    assert!(!paddle_blocks(&ps[1], &leaving_right));
    let coming_right = ball_at(1_000_000_000, 363_000_000, 512_000_000, 307_200_000);
    assert!(paddle_blocks(&ps[1], &coming_right));
    assert!(!paddle_blocks(&ps[0], &coming_right));
    let leaving_left = ball_at(30_000_000, 363_000_000, 512_000_000, 307_200_000);
    assert!(!paddle_blocks(&ps[0], &leaving_left));
    let still = ball_at(1_000_000_000, 363_000_000, 0, 307_200_000);
    assert!(!paddle_blocks(&ps[1], &still));
    let mut sounds = Vec::new();
    let mut b = leaving_right;
    bounce_ball(&mut b, &ps, &ws, &mut sounds);
    assert_eq!(b, leaving_right);
    assert!(sounds.is_empty());
}

#[test]
fn paddle_reaches_one_radius_beyond_its_edges() {
    let ws = WindowSettings::default();
    let ps = paddles(&ws);
    // the right paddle spans 308.55 to 417.45; one radius more is 437.93
    let touching = ball_at(1_000_000_000, 437_930_000, 512_000_000, 0);
    assert!(paddle_blocks(&ps[1], &touching));
    let beyond = ball_at(1_000_000_000, 437_930_001, 512_000_000, 0);
    assert!(!paddle_blocks(&ps[1], &beyond));
    // and 288.07 below
    let under = ball_at(1_000_000_000, 288_070_000, 512_000_000, 0);
    assert!(paddle_blocks(&ps[1], &under));
    let lower = ball_at(1_000_000_000, 288_069_999, 512_000_000, 0);
    assert!(!paddle_blocks(&ps[1], &lower));
    // its face is at 1002.22; one radius in front is 981.74
    let in_front = ball_at(981_740_000, 363_000_000, 512_000_000, 0);
    assert!(paddle_blocks(&ps[1], &in_front));
    let short = ball_at(981_739_999, 363_000_000, 512_000_000, 0);
    assert!(!paddle_blocks(&ps[1], &short));
}

#[test]
fn ball_in_mid_field_meets_no_paddle() {
    let ws = WindowSettings::default();
    // a paddle that stands in mid field is not even looked at
    let stray = vec![Paddle::new(
        Side::Right,
        ws.paddle_height(),
        ws.paddle_width(),
        Vec2 { x: fx(512), y: fx(363) },
    )];
    let mut sounds = Vec::new();
    let mut b = ball_at(512_000_000, 363_000_000, 512_000_000, 307_200_000);
    let before = b;
    assert!(paddle_blocks(&stray[0], &b));
    bounce_ball(&mut b, &stray, &ws, &mut sounds);
    assert_eq!(b, before);
    assert!(sounds.is_empty());
    // within paddle width plus radius of the right wall it is: 1024 - 21.78 - 20.48
    let mut near = ball_at(981_740_000, 363_000_000, 512_000_000, 307_200_000);
    let close = vec![Paddle::new(
        Side::Right,
        ws.paddle_height(),
        ws.paddle_width(),
        Vec2 { x: fx(990), y: fx(363) },
    )];
    bounce_ball(&mut near, &close, &ws, &mut sounds);
    assert_eq!(near.velocity.x, raw(-529_920_000));
    assert_eq!(sounds.len(), 1);
}

#[test]
fn escalation_stops_short_of_the_cap() {
    let ws = WindowSettings::default();
    // 1498.94 + 51.2 < 1601.34 - 51.2 holds by a hair
    let mut b = ball_at(0, 0, 1_498_939_999, 100);
    bounce_off_paddle(&mut b, &ws);
    assert_eq!(b.velocity.x, raw(-1_516_859_999));
    assert_eq!(b.velocity.y, raw(10_752_100));
    // one raw step more and the ball only turns
    let mut c = ball_at(0, 0, 1_498_940_000, 100);
    bounce_off_paddle(&mut c, &ws);
    assert_eq!(c.velocity.x, raw(-1_498_940_000));
    assert_eq!(c.velocity.y, raw(100));
    assert_eq!(c.predicted_impact_y, None);
}

#[test]
fn speed_never_exceeds_the_cap_however_often_the_ball_bounces() {
    let ws = WindowSettings::default();
    let cap = ws.max_velocity().raw;
    let mut b = ball_at(0, 0, 512_000_000, 307_200_000);
    let mut gained = 0;
    for _ in 0..500 {
        let before = b.velocity.x.raw.abs();
        bounce_off_paddle(&mut b, &ws);
        let after = b.velocity.x.raw.abs();
        assert!(after <= cap);
        assert!(after >= before);
        if after > before {
            gained += 1;
        }
    }
    assert_eq!(gained, 56);
    assert_eq!(b.velocity.x.raw.abs(), 1_515_520_000);
}

#[test]
fn downward_ball_gains_downward_speed() {
    let ws = WindowSettings::default();
    let mut b = ball_at(0, 0, -512_000_000, -307_200_000);
    bounce_off_paddle(&mut b, &ws);
    assert_eq!(b.velocity, Vec2 { x: raw(529_920_000), y: raw(-317_952_000) });
}

#[test]
fn collision_stage_handles_every_ball() {
    let ws = WindowSettings::default();
    let ps = paddles(&ws);
    let mut balls = vec![
        ball_at(1_000_000_000, 363_000_000, 512_000_000, 307_200_000),
        ball_at(512_000_000, 363_000_000, 512_000_000, 307_200_000),
        ball_at(30_000_000, 363_000_000, -512_000_000, 307_200_000),
        ball_at(512_000_000, 5_000_000, 512_000_000, -307_200_000),
    ];
    let mut sounds = vec![SoundEffect::Score];
    BounceSystem.run(&mut balls, &ps, &ws, &Pause { paused: false }, &mut sounds);
    assert_eq!(balls[0].velocity.x, raw(-529_920_000));
    assert_eq!(balls[1], ball_at(512_000_000, 363_000_000, 512_000_000, 307_200_000));
    assert_eq!(balls[2].velocity.x, raw(529_920_000));
    assert_eq!(balls[3].velocity, Vec2 { x: raw(512_000_000), y: raw(307_200_000) });
    assert_eq!(sounds, vec![SoundEffect::Score, SoundEffect::Bounce, SoundEffect::Bounce]);
}

#[test]
fn paused_collision_stage_changes_nothing() {
    let ws = WindowSettings::default();
    let ps = paddles(&ws);
    let start = vec![
        ball_at(1_000_000_000, 363_000_000, 512_000_000, 307_200_000),
        ball_at(512_000_000, 5_000_000, 512_000_000, -307_200_000),
    ];
    let mut balls = start.clone();
    let mut sounds = Vec::new();
    BounceSystem.run(&mut balls, &ps, &ws, &Pause { paused: true }, &mut sounds);
    assert_eq!(balls, start);
    assert!(sounds.is_empty());
}

#[test]
fn ball_that_touches_both_walls_is_flipped_by_every_run() {
    // an arena lower than two ball radii: 30 high, with a radius of 20.48
    let ws = WindowSettings { width: fx(1024), height: fx(30) };
    let mut b = ball_at(512_000_000, 15_000_000, 512_000_000, -5);
    bounce_off_walls(&mut b, &ws);
    assert_eq!(b.velocity.y, raw(5));
    bounce_off_walls(&mut b, &ws);
    assert_eq!(b.velocity.y, raw(-5));
    // without a vertical velocity there is nothing to flip
    let mut level = ball_at(512_000_000, 15_000_000, 512_000_000, 0);
    bounce_off_walls(&mut level, &ws);
    bounce_off_walls(&mut level, &ws);
    assert_eq!(level.velocity.y, raw(0));
}

#[test]
fn level_ball_at_the_ceiling_is_flipped_after_a_paddle_has_sent_it_up() {
    let ws = WindowSettings::default();
    let high = vec![Paddle::new(
        Side::Right,
        ws.paddle_height(),
        ws.paddle_width(),
        Vec2 { x: raw(1_013_110_000), y: fx(671) },
    )];
    let mut sounds = Vec::new();
    let mut b = ball_at(1_000_000_000, 720_000_000, 512_000_000, 0);
    bounce_ball(&mut b, &high, &ws, &mut sounds);
    assert_eq!(b.velocity, Vec2 { x: raw(-529_920_000), y: raw(10_752_000) });
    bounce_ball(&mut b, &high, &ws, &mut sounds);
    assert_eq!(b.velocity, Vec2 { x: raw(-529_920_000), y: raw(-10_752_000) });
    assert_eq!(sounds, vec![SoundEffect::Bounce]);
}
