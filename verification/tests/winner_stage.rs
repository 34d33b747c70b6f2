use pong::ball::{Ball, Vec2};
use pong::fixed::Fixed;
use pong::sound::SoundEffect;
use pong::state::Pause;
use pong::timer::TimerText;
use pong::window::WindowSettings;
use pong::winner::{has_conceded, has_escaped, serve, GameError, WinnerSystem};

fn raw(v: i64) -> Fixed {
    Fixed::from_raw(v)
}

fn fx(units: i32) -> Fixed {
    Fixed::from_int(units)
}

fn ball_at(x: i64, vx: i64) -> Ball {
    Ball {
        position: Vec2 { x: raw(x), y: fx(100) },
        velocity: Vec2 { x: raw(vx), y: fx(-7) },
        radius: raw(20_480_000),
        predicted_impact_y: Some(fx(9)),
    }
}

fn clock(seconds: i32) -> TimerText {
    TimerText { game_time: fx(seconds), timer: Some(fx(seconds)) }
}

#[test]
fn ball_at_the_left_wall_is_served_again() {
    let ws = WindowSettings::default();
    let mut balls = vec![ball_at(20_480_000, -1_000_000)];
    let mut timer = clock(12);
    let mut sounds = Vec::new();
    let r = WinnerSystem.run(&mut balls, &mut timer, &Pause { paused: false }, &ws, &mut sounds);
    assert_eq!(r, Ok(()));
    assert_eq!(balls[0].position, Vec2 { x: fx(512), y: fx(363) });
    assert_eq!(balls[0].velocity, Vec2 { x: raw(512_000_000), y: raw(307_200_000) });
    assert_eq!(balls[0].predicted_impact_y, None);
    assert_eq!(balls[0].radius, raw(20_480_000));
    assert_eq!(timer, TimerText { game_time: fx(0), timer: Some(fx(0)) });
    assert_eq!(timer.text(), Some("0.0".to_string()));
    assert_eq!(sounds, vec![SoundEffect::Score]);
}

#[test]
fn served_ball_flies_against_its_old_direction() {
    let ws = WindowSettings::default();
    let mut leftward = ball_at(0, -5);
    serve(&mut leftward, &ws);
    assert_eq!(leftward.velocity, Vec2 { x: raw(512_000_000), y: raw(307_200_000) });
    let mut rightward = ball_at(0, 5);
    serve(&mut rightward, &ws);
    assert_eq!(rightward.velocity, Vec2 { x: raw(-512_000_000), y: raw(307_200_000) });
    let mut still = ball_at(0, 0);
    serve(&mut still, &ws);
    assert_eq!(still.velocity.x, raw(-512_000_000));
}

#[test]
fn left_wall_starts_one_radius_in() {
    assert!(has_conceded(&ball_at(20_480_000, -1)));
    assert!(has_conceded(&ball_at(-5, -1)));
    assert!(!has_conceded(&ball_at(20_480_001, -1)));
}

#[test]
fn right_wall_starts_one_radius_in() {
    let ws = WindowSettings::default();
    // 1024 - 20.48
    assert!(has_escaped(&ball_at(1_003_520_000, 1), &ws));
    assert!(has_escaped(&ball_at(2_000_000_000, 1), &ws));
    assert!(!has_escaped(&ball_at(1_003_519_999, 1), &ws));
    assert!(!has_escaped(&ball_at(20_480_000, 1), &ws));
}

#[test]
fn ball_at_the_right_wall_is_a_defect() {
    let ws = WindowSettings::default();
    let start = vec![ball_at(10_000_000, -1), ball_at(1_003_520_000, 1)];
    let mut balls = start.clone();
    let mut timer = clock(12);
    let mut sounds = Vec::new();
    let r = WinnerSystem.run(&mut balls, &mut timer, &Pause { paused: false }, &ws, &mut sounds);
    assert_eq!(r, Err(GameError::BallEscaped));
    assert_eq!(balls, start);
    assert_eq!(timer, clock(12));
    assert!(sounds.is_empty());
}

#[test]
fn ball_in_the_field_scores_nothing() {
    let ws = WindowSettings::default();
    let mut balls = vec![ball_at(512_000_000, -1), ball_at(20_480_001, -1)];
    let mut timer = clock(12);
    let mut sounds = Vec::new();
    let r = WinnerSystem.run(&mut balls, &mut timer, &Pause { paused: false }, &ws, &mut sounds);
    assert_eq!(r, Ok(()));
    assert_eq!(balls, vec![ball_at(512_000_000, -1), ball_at(20_480_001, -1)]);
    assert_eq!(timer, clock(12));
    assert!(sounds.is_empty());
}

#[test]
fn every_ball_at_the_left_wall_scores() {
    let ws = WindowSettings::default();
    let mut balls = vec![ball_at(0, -1), ball_at(512_000_000, 1), ball_at(1_000_000, 1)];
    let mut timer = TimerText { game_time: fx(3), timer: None };
    let mut sounds = vec![SoundEffect::Bounce];
    let r = WinnerSystem.run(&mut balls, &mut timer, &Pause { paused: false }, &ws, &mut sounds);
    assert_eq!(r, Ok(()));
    assert_eq!(balls[0].velocity.x, raw(512_000_000));
    assert_eq!(balls[1], ball_at(512_000_000, 1));
    assert_eq!(balls[2].velocity.x, raw(-512_000_000));
    assert_eq!(timer, TimerText { game_time: fx(0), timer: None });
    assert_eq!(sounds, vec![SoundEffect::Bounce, SoundEffect::Score, SoundEffect::Score]);
}

#[test]
fn paused_scoring_stage_does_nothing() {
    let ws = WindowSettings::default();
    let start = vec![ball_at(0, -1), ball_at(1_003_520_000, 1)];
    let mut balls = start.clone();
    let mut timer = clock(12);
    let mut sounds = Vec::new();
    let r = WinnerSystem.run(&mut balls, &mut timer, &Pause { paused: true }, &ws, &mut sounds);
    assert_eq!(r, Ok(()));
    assert_eq!(balls, start);
    assert_eq!(timer, clock(12));
    assert!(sounds.is_empty());
}
