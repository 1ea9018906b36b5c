use invaders_core::arena::ArenaBounds;
use invaders_core::motion::{apply_velocity, key_direction, player_bounds, step_player};

#[test]
fn direction_from_keys() {
    assert_eq!(key_direction(false, false), 0);
    assert_eq!(key_direction(true, false), -1);
    assert_eq!(key_direction(false, true), 1);
    assert_eq!(key_direction(true, true), 0);
}

#[test]
fn single_key_moves_by_speed_times_dt() {
    assert_eq!(step_player(0, false, true, 10, 3, -100, 100), 30);
    assert_eq!(step_player(0, true, false, 10, 3, -100, 100), -30);
    assert_eq!(step_player(-20, false, true, 7, 4, -100, 100), 8);
}

#[test]
fn opposing_keys_cancel() {
    assert_eq!(step_player(5, true, true, 10, 3, -100, 100), 5);
    assert_eq!(step_player(5, false, false, 10, 3, -100, 100), 5);
    assert_eq!(step_player(-42, true, true, 1000, 1000, -100, 100), -42);
}

#[test]
fn position_is_clamped_to_the_bounds() {
    assert_eq!(step_player(90, false, true, 10, 3, -100, 100), 100);
    assert_eq!(step_player(-90, true, false, 10, 3, -100, 100), -100);
    // A position that starts outside the bounds is pulled back in even
    // without input.
    assert_eq!(step_player(500, false, false, 10, 3, -100, 100), 100);
}

#[test]
fn player_bounds_leave_wall_and_sprite_clearance() {
    let b = ArenaBounds { left: -128, right: 128, bottom: -95, top: 95, wall_thickness: 5 };
    // Doubled coordinates: half a wall, half a 16-wide sprite, and a
    // margin of 10 on the left and 4 on the right.
    assert_eq!(player_bounds(&b, 16, 10, 4), (-215, 227));
}

#[test]
fn velocity_advances_both_axes() {
    assert_eq!(apply_velocity((3, 4), (2, -1), 5), (13, -1));
    assert_eq!(apply_velocity((0, 0), (0, 0), 1000), (0, 0));
    assert_eq!(apply_velocity((-7, 9), (-3, 2), 0), (-7, 9));
}
