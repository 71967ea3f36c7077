use tiled_bevy_isometric::character::{
    advance_frame, atlas_index, screen_axis, try_move, AnimationState, FrameTimer,
    PlayerAnimation, IDLE_COLUMNS, RUN_COLUMNS,
};
use tiled_bevy_isometric::facing::FacingDirection;
use tiled_bevy_isometric::subtile::SubtileGrid;

fn new_animation() -> PlayerAnimation {
    PlayerAnimation::new(FrameTimer::new(500_000_000), FrameTimer::new(120_000_000))
}

fn ms(n: u64) -> u64 {
    n * 1_000_000
}

fn open_map() -> SubtileGrid {
    SubtileGrid::from_samples(&vec![vec![false; 40]; 40])
}

#[test]
fn opposite_keys_cancel() {
    assert_eq!(screen_axis(true, false), 1);
    assert_eq!(screen_axis(false, true), -1);
    assert_eq!(screen_axis(true, true), 0);
    assert_eq!(screen_axis(false, false), 0);
}

#[test]
fn frames_wrap_at_the_end_of_the_cycle() {
    assert_eq!(advance_frame(5, RUN_COLUMNS, true), 0);
    assert_eq!(advance_frame(4, RUN_COLUMNS, true), 5);
    assert_eq!(advance_frame(4, RUN_COLUMNS, false), 4);
    assert_eq!(advance_frame(7, IDLE_COLUMNS, true), 0);
}

#[test]
fn atlas_index_is_row_times_columns_plus_frame() {
    assert_eq!(atlas_index(FacingDirection::Down, IDLE_COLUMNS, 0), 0);
    assert_eq!(atlas_index(FacingDirection::Right, RUN_COLUMNS, 5), 47);
    assert_eq!(atlas_index(FacingDirection::Up, IDLE_COLUMNS, 3), 43);
}

#[test]
fn a_move_into_a_blocked_subtile_is_refused() {
    let grid = open_map();
    let mut pos = (7.25_f32, 12.25_f32);
    // (7.75, 12.25) lies in subtile (15, 24), which the corner-cut tile blocks.
    assert!(!try_move(&mut pos, (7.75, 12.25), (15, 24), &grid));
    assert_eq!(pos, (7.25, 12.25));
}

#[test]
fn a_diagonal_move_cuts_between_two_blocked_corners() {
    let grid = open_map();
    let mut pos = (7.25_f32, 12.25_f32);
    assert!(grid.is_coord_blocked((15, 24)) && grid.is_coord_blocked((14, 25)));
    assert!(try_move(&mut pos, (7.75, 12.75), (15, 25), &grid));
    assert_eq!(pos, (7.75, 12.75));
}

#[test]
fn a_new_animation_stands_facing_down() {
    let anim = new_animation();
    assert_eq!(
        anim.state(),
        AnimationState { facing: FacingDirection::Down, moving: false, was_moving: false, frame: 0 }
    );
}

#[test]
fn idle_frames_advance_when_the_idle_timer_finishes() {
    let mut anim = new_animation();
    let shown = anim.animate(ms(100));
    assert!(!shown.moving);
    assert_eq!(shown.atlas_index, 0);
    let shown = anim.animate(ms(450));
    assert_eq!(shown.atlas_index, 1);
    assert_eq!(anim.state().frame, 1);
}

#[test]
fn starting_to_run_restarts_the_cycle_and_faces_the_move() {
    let mut anim = new_animation();
    anim.animate(ms(600));
    assert_eq!(anim.state().frame, 1);

    assert!(anim.begin_move(1, 0));
    anim.finish_move(1, 0, true, false);
    assert_eq!(anim.state().facing, FacingDirection::Right);

    let shown = anim.animate(ms(50));
    assert!(shown.moving);
    assert_eq!(anim.state().frame, 0);
    assert_eq!(shown.atlas_index, 7 * 6);

    let shown = anim.animate(ms(80));
    assert_eq!(shown.atlas_index, 7 * 6 + 1);
}

#[test]
fn stopping_resets_the_timers() {
    let mut anim = new_animation();
    anim.animate(ms(400));
    anim.begin_move(0, 1);
    anim.animate(ms(100));
    // Stop: the idle timer restarts, so 450ms is not enough for a new frame.
    assert!(!anim.begin_move(0, 0));
    let shown = anim.animate(ms(450));
    assert!(!shown.moving);
    assert_eq!(shown.atlas_index, 0);
}

#[test]
fn facing_follows_only_the_axes_that_moved() {
    let mut anim = new_animation();
    anim.begin_move(1, 1);
    anim.finish_move(1, 1, true, true);
    assert_eq!(anim.state().facing, FacingDirection::UpRight);
    anim.finish_move(1, 1, false, true);
    assert_eq!(anim.state().facing, FacingDirection::Up);
    anim.finish_move(-1, -1, true, false);
    assert_eq!(anim.state().facing, FacingDirection::Left);
    anim.finish_move(-1, -1, false, false);
    assert_eq!(anim.state().facing, FacingDirection::Left);
}

#[test]
fn frame_timers_wrap_their_elapsed_time() {
    let mut t = FrameTimer::new(100);
    assert!(!t.tick(60));
    assert_eq!(t.elapsed, 60);
    assert!(t.tick(60));
    assert_eq!(t.elapsed, 20);
    assert!(t.tick(250));
    assert_eq!(t.elapsed, 70);
    t.reset();
    assert_eq!(t, FrameTimer { duration: 100, elapsed: 0 });
}

#[test]
fn a_zero_length_frame_timer_finishes_every_tick() {
    let mut t = FrameTimer::new(0);
    assert!(t.tick(0));
    assert!(t.tick(5));
    assert_eq!(t.elapsed, 0);
}

#[test]
fn a_period_count_that_wraps_a_u32_does_not_finish() {
    // 2^32 whole periods of 1ns: bevy counts them in a u32, which wraps to 0.
    let mut t = FrameTimer::new(1);
    assert!(!t.tick(1u64 << 32));
    assert_eq!(t.elapsed, 0);
}

#[test]
fn only_the_sheet_in_use_ticks() {
    let mut anim = new_animation();
    anim.animate(ms(300));
    anim.begin_move(1, 0);
    anim.animate(ms(100));
    // Both timers were reset on the switch; only the run timer then ran.
    anim.animate(ms(10));
    assert_eq!(anim.state().frame, 0);
    let shown = anim.animate(ms(10));
    assert_eq!(shown.atlas_index, 1);
}
