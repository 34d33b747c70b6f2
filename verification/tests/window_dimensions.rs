use pong::fixed::Fixed;
use pong::window::WindowSettings;

fn raw(v: i64) -> Fixed {
    Fixed::from_raw(v)
}

#[test]
fn default_window_is_1024_by_726() {
    let ws = WindowSettings::default();
    assert_eq!(ws.arena_width(), Fixed::from_int(1024));
    assert_eq!(ws.arena_height(), Fixed::from_int(726));
}

#[test]
fn derived_dimensions_of_the_default_window() {
    let ws = WindowSettings::default();
    assert_eq!(ws.ball_radius(), raw(20_480_000));
    assert_eq!(ws.ball_velocity_x(), raw(512_000_000));
    assert_eq!(ws.ball_velocity_y(), raw(307_200_000));
    assert_eq!(ws.paddle_height(), raw(108_900_000));
    assert_eq!(ws.paddle_width(), raw(21_780_000));
    assert_eq!(ws.paddle_speed(), raw(544_500_000));
    assert_eq!(ws.max_velocity(), raw(1_601_340_000));
    assert_eq!(ws.center_x(), Fixed::from_int(512));
    assert_eq!(ws.center_y(), Fixed::from_int(363));
}

#[test]
fn sprite_scales_of_the_default_window() {
    let ws = WindowSettings::default();
    // 21.78 / 16, 108.9 / 64, 20.48 / 25, 1024 / 3200, 256 * 0.32
    assert_eq!(ws.paddle_width_scale(), raw(1_361_250));
    assert_eq!(ws.paddle_height_scale(), raw(1_701_562));
    assert_eq!(ws.ball_scale(), raw(819_200));
    assert_eq!(ws.taunt_scale(), raw(320_000));
    assert_eq!(ws.taunt_height(), raw(81_920_000));
}

#[test]
fn derived_dimensions_are_positive_from_their_thresholds_on() {
    let small = WindowSettings { width: raw(50), height: raw(34) };
    assert_eq!(small.ball_radius(), raw(1));
    assert_eq!(small.ball_velocity_x(), raw(25));
    assert_eq!(small.ball_velocity_y(), raw(15));
    assert_eq!(small.paddle_height(), raw(5));
    assert_eq!(small.paddle_width(), raw(1));
    assert_eq!(small.paddle_speed(), raw(25));
    assert!(small.max_velocity().raw > 0);
    let smaller = WindowSettings { width: raw(49), height: raw(33) };
    assert_eq!(smaller.ball_radius(), raw(0));
    assert_eq!(smaller.paddle_width(), raw(0));
}

#[test]
fn a_window_needs_two_positive_sides() {
    assert_eq!(
        WindowSettings::new(Fixed::from_int(800), Fixed::from_int(600)),
        Some(WindowSettings { width: Fixed::from_int(800), height: Fixed::from_int(600) })
    );
    assert_eq!(WindowSettings::new(raw(0), Fixed::from_int(600)), None);
    assert_eq!(WindowSettings::new(Fixed::from_int(800), raw(0)), None);
    assert_eq!(WindowSettings::new(raw(-1), raw(-1)), None);
    assert!(WindowSettings::new(raw(1), raw(1)).is_some());
}

#[test]
fn speed_cap_follows_its_formula() {
    // (100 + 2 * 3) * 2 * 75 / 100 = 159
    let ws = WindowSettings { width: Fixed::from_int(100), height: Fixed::from_int(100) };
    assert_eq!(ws.paddle_height(), Fixed::from_int(15));
    assert_eq!(ws.paddle_width(), Fixed::from_int(3));
    assert_eq!(ws.paddle_speed(), Fixed::from_int(75));
    assert_eq!(ws.max_velocity(), Fixed::from_int(159));
}
