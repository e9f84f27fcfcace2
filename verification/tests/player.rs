//! The player's per-frame motion model.

use iron_jump::player::{Input, Player};
use iron_jump::units::{
    ACCELERATION, BOOSTED_MAX_SPEED, DECELERATION, MAX_FALL_SPEED, MAX_SPEED, UP_SPEED,
};

fn idle() -> Input {
    Input { x: 0, y: 0 }
}

#[test]
fn one_frame_of_left_input_from_rest() {
    let mut p = Player::new(0, 0);
    p.update_from_input(Input { x: -1, y: 0 });
    assert_eq!(p.move_x, -ACCELERATION);
}

#[test]
fn one_frame_of_right_input_from_rest() {
    let mut p = Player::new(0, 0);
    p.update_from_input(Input { x: 1, y: 0 });
    assert_eq!(p.move_x, ACCELERATION);
}

#[test]
fn jump_from_the_ground_and_no_double_jump() {
    let mut p = Player::new(0, 0);
    assert!(!p.jumping);
    p.update_from_input(Input { x: 0, y: 1 });
    // The jump sets the vertical speed to UP_SPEED; gravity then takes one
    // step off it within the same frame.
    assert_eq!(p.move_y, UP_SPEED - DECELERATION);
    assert!(p.jumping);
    p.update_from_input(Input { x: 0, y: 1 });
    // Still airborne: the second jump input does nothing, gravity goes on.
    assert_eq!(p.move_y, UP_SPEED - 2 * DECELERATION);
}

#[test]
fn gravity_never_passes_the_fall_clamp() {
    let mut p = Player::new(0, 0);
    for _ in 0..200 {
        p.update_from_input(idle());
        assert!(p.move_y >= MAX_FALL_SPEED);
    }
    assert_eq!(p.move_y, MAX_FALL_SPEED);
    p.move_y = MAX_FALL_SPEED + 10;
    p.update_from_input(idle());
    assert_eq!(p.move_y, MAX_FALL_SPEED);
}

#[test]
fn coasting_reaches_exactly_zero_without_overshoot() {
    let mut p = Player::new(0, 0);
    p.move_x = BOOSTED_MAX_SPEED;
    let mut previous = p.move_x;
    for _ in 0..40 {
        p.update_from_input(idle());
        assert!(p.move_x >= 0);
        assert!(p.move_x <= previous);
        previous = p.move_x;
    }
    assert_eq!(p.move_x, 0);
    p.update_from_input(idle());
    assert_eq!(p.move_x, 0);
}

#[test]
fn coasting_snaps_small_speeds_to_zero() {
    let mut p = Player::new(0, 0);
    p.move_x = DECELERATION - 1;
    p.update_from_input(idle());
    assert_eq!(p.move_x, 0);
    p.move_x = -(DECELERATION - 1);
    p.update_from_input(idle());
    assert_eq!(p.move_x, 0);
    p.move_x = DECELERATION + 8;
    p.update_from_input(idle());
    assert_eq!(p.move_x, 8);
}

#[test]
fn held_input_never_passes_the_base_cap() {
    let mut p = Player::new(0, 0);
    for _ in 0..100 {
        p.update_from_input(Input { x: 1, y: 0 });
        assert!(p.move_x <= MAX_SPEED);
        assert!(p.move_x >= -MAX_SPEED);
    }
    assert_eq!(p.move_x, MAX_SPEED);
}

#[test]
fn direction_change_gets_an_extra_kick() {
    let mut p = Player::new(0, 0);
    p.move_x = 400;
    p.update_from_input(Input { x: -1, y: 0 });
    // One kick of ACCELERATION times CHANGE_DIRECTION_SPEED plus the plain
    // acceleration: 400 - 330 - 110.
    assert_eq!(p.move_x, -40);
}

#[test]
fn boost_window_runs_exactly_its_length() {
    let mut p = Player::new(0, 0);
    // The window starts on the frame that sets the counter to one.
    p.speed_up_counter = 1;
    for _ in 0..358 {
        p.update_from_input(idle());
        assert!(p.speed_up_counter > 0);
    }
    assert_eq!(p.speed_up_counter, 359);

    // Frame 360 of the window: the counter still runs, the boosted cap
    // holds a full boosted speed.
    p.move_x = BOOSTED_MAX_SPEED;
    p.update_from_input(Input { x: 1, y: 0 });
    assert_eq!(p.speed_up_counter, 360);
    assert_eq!(p.move_x, BOOSTED_MAX_SPEED);

    // Frame 361 of the window: the counter returns to exactly zero and the
    // base cap is already back in force.
    p.update_from_input(Input { x: 1, y: 0 });
    assert_eq!(p.speed_up_counter, 0);
    assert_eq!(p.move_x, MAX_SPEED);
}

#[test]
fn boosted_cap_allows_the_boosted_speed() {
    let mut p = Player::new(0, 0);
    p.speed_up_counter = 1;
    for _ in 0..20 {
        p.update_from_input(Input { x: 1, y: 0 });
        assert!(p.move_x <= BOOSTED_MAX_SPEED);
    }
    assert_eq!(p.move_x, BOOSTED_MAX_SPEED);
}

#[test]
fn animation_phase_wraps_at_half_a_turn() {
    let mut p = Player::new(0, 0);
    assert_eq!(p.alpha, 100);
    p.update_from_input(idle());
    assert_eq!(p.alpha, 107);
    for _ in 0..30 {
        p.update_from_input(idle());
    }
    // 100 + 31 * 7 = 317, one wrap of 314 past the half turn.
    assert_eq!(p.alpha, 3);
}

#[test]
fn rolling_tilt_follows_the_horizontal_speed() {
    let mut p = Player::new(0, 0);
    p.move_x = BOOSTED_MAX_SPEED;
    p.update_after_collision();
    // 870 * 55 / 1600, rounded toward zero.
    assert_eq!(p.rotation, -29);
    p.move_x = -BOOSTED_MAX_SPEED;
    p.update_after_collision();
    assert_eq!(p.rotation, 0);
    p.move_x = 0;
    p.update_after_collision();
    assert_eq!(p.rotation, 0);
}
