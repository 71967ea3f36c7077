use tiled_bevy_isometric::facing::FacingDirection;

#[test]
fn rows_follow_the_sheet_layout() {
    assert_eq!(FacingDirection::Down.row(), 0);
    assert_eq!(FacingDirection::DownRight.row(), 1);
    assert_eq!(FacingDirection::DownLeft.row(), 2);
    assert_eq!(FacingDirection::Left.row(), 3);
    assert_eq!(FacingDirection::UpLeft.row(), 4);
    assert_eq!(FacingDirection::Up.row(), 5);
    assert_eq!(FacingDirection::UpRight.row(), 6);
    assert_eq!(FacingDirection::Right.row(), 7);
}

#[test]
fn sectors_start_at_screen_right_and_turn_counter_clockwise() {
    let expected = [
        FacingDirection::Right,
        FacingDirection::UpRight,
        FacingDirection::Up,
        FacingDirection::UpLeft,
        FacingDirection::Left,
        FacingDirection::DownLeft,
        FacingDirection::Down,
        FacingDirection::DownRight,
    ];
    for (s, d) in expected.iter().enumerate() {
        assert_eq!(FacingDirection::from_sector(s as i32), *d);
    }
}

#[test]
fn sectors_wrap_every_turn_in_both_directions() {
    assert_eq!(FacingDirection::from_sector(8), FacingDirection::Right);
    assert_eq!(FacingDirection::from_sector(9), FacingDirection::UpRight);
    assert_eq!(FacingDirection::from_sector(-1), FacingDirection::DownRight);
    assert_eq!(FacingDirection::from_sector(-3), FacingDirection::DownLeft);
    assert_eq!(FacingDirection::from_sector(-4), FacingDirection::Left);
    assert_eq!(FacingDirection::from_sector(i32::MIN), FacingDirection::Right);
    assert_eq!(FacingDirection::from_sector(i32::MAX), FacingDirection::DownRight);
}

#[test]
fn screen_input_picks_all_eight_directions() {
    assert_eq!(FacingDirection::from_screen_input(1, 0), FacingDirection::Right);
    assert_eq!(FacingDirection::from_screen_input(1, 1), FacingDirection::UpRight);
    assert_eq!(FacingDirection::from_screen_input(0, 1), FacingDirection::Up);
    assert_eq!(FacingDirection::from_screen_input(-1, 1), FacingDirection::UpLeft);
    assert_eq!(FacingDirection::from_screen_input(-1, 0), FacingDirection::Left);
    assert_eq!(FacingDirection::from_screen_input(-1, -1), FacingDirection::DownLeft);
    assert_eq!(FacingDirection::from_screen_input(0, -1), FacingDirection::Down);
    assert_eq!(FacingDirection::from_screen_input(1, -1), FacingDirection::DownRight);
}

#[test]
fn zero_screen_input_has_angle_zero() {
    assert_eq!(FacingDirection::from_screen_input(0, 0), FacingDirection::Right);
}
