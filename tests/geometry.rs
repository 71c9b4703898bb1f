use ioni_td::geom::{direction, distance_squared, div_toward_zero, isqrt_u128, move_step, Vec2i, COORD_MAX};
use ioni_td::timer::RepeatingTimer;

#[test]
fn isqrt_exact_values() {
    assert_eq!(isqrt_u128(0), 0);
    assert_eq!(isqrt_u128(1), 1);
    assert_eq!(isqrt_u128(2), 1);
    assert_eq!(isqrt_u128(15), 3);
    assert_eq!(isqrt_u128(16), 4);
    assert_eq!(isqrt_u128(1_000_000), 1000);
    assert_eq!(isqrt_u128(2_000_000), 1414);
}

#[test]
fn distance_squared_of_three_four_five() {
    assert_eq!(distance_squared(Vec2i::new(0, 0), Vec2i::new(3000, 4000)), 25_000_000);
    assert_eq!(distance_squared(Vec2i::new(-1000, -1000), Vec2i::new(2000, 3000)), 25_000_000);
}

#[test]
fn direction_has_length_scale() {
    assert_eq!(direction(Vec2i::new(0, 0), Vec2i::new(3, 4)), Vec2i::new(600, 800));
    assert_eq!(direction(Vec2i::new(0, 0), Vec2i::new(-3, -4)), Vec2i::new(-600, -800));
    assert_eq!(direction(Vec2i::new(0, 0), Vec2i::new(1000, 1000)), Vec2i::new(707, 707));
    assert_eq!(direction(Vec2i::new(500, 0), Vec2i::new(100_000, 0)), Vec2i::new(1000, 0));
}

#[test]
fn direction_of_zero_vector_is_zero() {
    assert_eq!(direction(Vec2i::new(7, 7), Vec2i::new(7, 7)), Vec2i::new(0, 0));
}

#[test]
fn division_rounds_toward_zero() {
    assert_eq!(div_toward_zero(7, 2), 3);
    assert_eq!(div_toward_zero(-7, 2), -3);
    assert_eq!(div_toward_zero(-1, 1000), 0);
}

#[test]
fn move_step_exact() {
    let p = move_step(Vec2i::new(0, 0), Vec2i::new(600, 800), 200, 1000);
    assert_eq!(p, Vec2i::new(120_000, 160_000));
    let q = move_step(Vec2i::new(0, 0), Vec2i::new(-600, -800), 200, 15);
    assert_eq!(q, Vec2i::new(-1800, -2400));
    // -0.7 position units round to zero
    let r = move_step(Vec2i::new(5, 5), Vec2i::new(-7, 0), 1, 100);
    assert_eq!(r, Vec2i::new(5, 5));
}

#[test]
fn move_step_stays_in_world() {
    let p = move_step(Vec2i::new(COORD_MAX - 10, 0), Vec2i::new(1000, 0), 1000, 1000);
    assert_eq!(p, Vec2i::new(COORD_MAX, 0));
}

#[test]
fn repeating_timer_carries_over() {
    let mut t = RepeatingTimer::new(1000);
    assert!(!t.tick(400));
    assert_eq!(t.elapsed_ms, 400);
    assert!(t.tick(700));
    assert_eq!(t.elapsed_ms, 100);
    assert!(t.tick(2500));
    assert_eq!(t.elapsed_ms, 600);
    assert!(!t.tick(0));
    assert_eq!(t.elapsed_ms, 600);
}
