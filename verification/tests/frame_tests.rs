use snake_game::{
    border, direction_from_keys, to_pixel, Color, Rectangle, Timer, Vector2, BORDER_THICKNESS,
    OFFSET, SCORE_FONT_SIZE, SCORE_X, SCORE_Y, WINDOW_SIZE,
};

#[test]
fn window_layout_has_its_values() {
    assert_eq!(OFFSET, 75);
    assert_eq!(WINDOW_SIZE, 662);
    assert_eq!(BORDER_THICKNESS, 5);
    assert_eq!(SCORE_X, 70);
    assert_eq!(SCORE_Y, 20);
    assert_eq!(SCORE_FONT_SIZE, 40);
    assert_eq!(border(), Rectangle { x: 70, y: 70, width: 522, height: 522 });
}

#[test]
fn palette_has_its_values() {
    assert_eq!(Color::background(), Color { r: 173, g: 204, b: 96, a: 255 });
    assert_eq!(Color::snake(), Color { r: 43, g: 51, b: 24, a: 255 });
}

#[test]
fn cells_map_to_pixels() {
    assert_eq!(to_pixel(0), 75);
    assert_eq!(to_pixel(1), 91);
    assert_eq!(to_pixel(31), 571);
    assert_eq!(to_pixel(-1), 59);
    assert_eq!(to_pixel(i32::MAX), 34_359_738_427);
    assert_eq!(to_pixel(i32::MIN), -34_359_738_293);
}

#[test]
fn single_keys_give_their_directions() {
    assert_eq!(direction_from_keys(false, false, false, false), None);
    assert_eq!(direction_from_keys(true, false, false, false), Some(Vector2::new(0, -1)));
    assert_eq!(direction_from_keys(false, true, false, false), Some(Vector2::new(0, 1)));
    assert_eq!(direction_from_keys(false, false, true, false), Some(Vector2::new(1, 0)));
    assert_eq!(direction_from_keys(false, false, false, true), Some(Vector2::new(-1, 0)));
}

#[test]
fn several_keys_are_settled_in_a_fixed_order() {
    assert_eq!(direction_from_keys(true, true, false, false), Some(Vector2::new(0, 1)));
    assert_eq!(direction_from_keys(true, true, true, false), Some(Vector2::new(1, 0)));
    assert_eq!(direction_from_keys(true, false, true, false), Some(Vector2::new(1, 0)));
    assert_eq!(direction_from_keys(true, true, true, true), Some(Vector2::new(-1, 0)));
    assert_eq!(direction_from_keys(true, false, false, true), Some(Vector2::new(-1, 0)));
    assert_eq!(direction_from_keys(false, false, true, true), Some(Vector2::new(-1, 0)));
}

#[test]
fn every_key_direction_is_a_unit_step() {
    for bits in 1..16u8 {
        let step = direction_from_keys(bits & 1 != 0, bits & 2 != 0, bits & 4 != 0, bits & 8 != 0);
        assert!(step.unwrap().check_unit());
    }
}

#[test]
fn unit_steps_and_field_cells_are_recognised() {
    assert!(Vector2::new(1, 0).check_unit());
    assert!(Vector2::new(0, -1).check_unit());
    assert!(!Vector2::new(0, 0).check_unit());
    assert!(!Vector2::new(1, 1).check_unit());
    assert!(!Vector2::new(2, 0).check_unit());
    assert!(Vector2::new(0, 0).check_in_grid());
    assert!(Vector2::new(31, 31).check_in_grid());
    assert!(!Vector2::new(32, 0).check_in_grid());
    assert!(!Vector2::new(0, 32).check_in_grid());
    assert!(!Vector2::new(-1, 0).check_in_grid());
    assert!(!Vector2::new(0, -1).check_in_grid());
    assert_eq!(Vector2::new(3, 6).offset_by(Vector2::new(-1, 0)), Vector2::new(2, 6));
}

#[test]
fn timer_starts_at_zero() {
    assert_eq!(Timer::new().last_update_time, 0);
}

#[test]
fn tick_is_due_once_the_interval_has_passed() {
    let mut timer = Timer::new();
    assert!(!timer.interval(199_999_999, 200_000_000));
    assert_eq!(timer.last_update_time, 0);
    assert!(timer.interval(200_000_000, 200_000_000));
    assert_eq!(timer.last_update_time, 200_000_000);
    assert!(!timer.interval(300_000_000, 200_000_000));
    assert_eq!(timer.last_update_time, 200_000_000);
    assert!(timer.interval(450_000_000, 200_000_000));
    assert_eq!(timer.last_update_time, 450_000_000);
}

#[test]
fn clock_that_runs_backwards_is_never_due() {
    let mut timer = Timer { last_update_time: 500 };
    assert!(!timer.interval(400, 0));
    assert!(!timer.interval(0, 10));
    assert_eq!(timer.last_update_time, 500);
}

#[test]
fn zero_interval_is_due_at_once() {
    let mut timer = Timer { last_update_time: 500 };
    assert!(timer.interval(500, 0));
    assert_eq!(timer.last_update_time, 500);
    assert!(timer.interval(u64::MAX, u64::MAX - 500));
    assert_eq!(timer.last_update_time, u64::MAX);
}
