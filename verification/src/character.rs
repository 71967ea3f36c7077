//! The controllable character's movement and animation decisions.
//!
//! Movement input is the screen-space direction of the held keys (each axis
//! -1, 0 or 1). Each screen axis is resolved as its own step, and a step is
//! refused only when the subtile it lands in is blocked: the two subtiles
//! flanking a diagonal step are deliberately not consulted, which is what
//! lets the character cut diagonally between two blocked corners.
//!
//! The animation cycles the columns of one of two sheets (idle or run) on a
//! repeating timer per sheet, picks the row from the facing, and restarts
//! from the first column whenever the character starts or stops moving.
use bevy::time::{Timer, TimerMode};
use core::time::Duration;
use vstd::prelude::*;

use crate::facing::{direction_of_sector, screen_input_sector, spec_row, FacingDirection};
use crate::subtile::SubtileGrid;

verus! {

/// Columns of the idle sheet.
pub const IDLE_COLUMNS: u32 = 8;

/// Rows of the idle sheet (one per facing).
pub const IDLE_ROWS: u32 = 8;

/// Columns of the run sheet.
pub const RUN_COLUMNS: u32 = 6;

/// Rows of the run sheet (one per facing).
pub const RUN_ROWS: u32 = 8;

/// Elapsed time of a repeating timer after a tick that brought its total
/// elapsed time to `total` nanoseconds: the remainder of whole periods, and
/// 0 for a zero-length period.
pub open spec fn ticked_elapsed(duration: u64, total: int) -> int {
    if duration == 0 {
        0
    } else {
        total % (duration as int)
    }
}

/// Whether a repeating timer reports "just finished" after a tick that
/// brought its total elapsed time to `total` nanoseconds: the count of whole
/// periods, as a `u32`, is not 0 (always so for a zero-length period).
pub open spec fn ticked_finished(duration: u64, total: int) -> bool {
    if duration == 0 {
        true
    } else {
        (total / (duration as int)) % 0x1_0000_0000 != 0
    }
}

/// Ticks a repeating `bevy::time::Timer` of period `duration` that has run
/// `elapsed` nanoseconds by `delta` nanoseconds, and returns the timer's new
/// elapsed time (`Timer::elapsed`) and whether it just finished
/// (`Timer::just_finished`). As `Timer::tick` computes it for an unpaused
/// repeating timer: the total `elapsed + delta` (which cannot saturate here)
/// is reduced modulo the period, and the tick counts as finished when the
/// number of whole periods, cast to `u32`, is not 0; a zero period always
/// finishes and leaves the elapsed time at 0.
#[verifier::external_body]
fn tick_repeating_timer(duration: u64, elapsed: u64, delta: u64) -> (ticked: (u64, bool))
    ensures
        ticked.0 == ticked_elapsed(duration, elapsed + delta),
        ticked.1 == ticked_finished(duration, elapsed + delta),
{
    let mut timer = Timer::new(Duration::from_nanos(duration), TimerMode::Repeating);
    timer.set_elapsed(Duration::from_nanos(elapsed));
    timer.tick(Duration::from_nanos(delta));
    (timer.elapsed().as_nanos() as u64, timer.just_finished())
}

/// A repeating frame timer, in nanoseconds: the period after which the
/// column advances, and the time run since the last period ended.
#[derive(Clone, Copy, Debug, PartialEq, Eq, Structural)]
pub struct FrameTimer {
    /// Length of one period.
    pub duration: u64,
    /// Time run in the current period.
    pub elapsed: u64,
}

impl FrameTimer {
    /// A timer with period `duration` that has not run yet.
    pub fn new(duration: u64) -> (timer: FrameTimer)
        ensures
            timer == (FrameTimer { duration, elapsed: 0 }),
    {
        FrameTimer { duration, elapsed: 0 }
    }

    /// Restarts the current period, as `bevy::time::Timer::reset` does for
    /// the elapsed time.
    pub fn reset(&mut self)
        ensures
            *final(self) == (FrameTimer { elapsed: 0, ..*old(self) }),
    {
        self.elapsed = 0;
    }

    /// Runs the timer for `delta` nanoseconds and says whether a period just
    /// ended.
    pub fn tick(&mut self, delta: u64) -> (finished: bool)
        ensures
            final(self).duration == old(self).duration,
            final(self).elapsed == ticked_elapsed(
                old(self).duration,
                old(self).elapsed + delta,
            ),
            finished == ticked_finished(old(self).duration, old(self).elapsed + delta),
    {
        let (elapsed, finished) = tick_repeating_timer(self.duration, self.elapsed, delta);
        self.elapsed = elapsed;
        finished
    }
}

/// Number of animation columns of the sheet in use.
pub open spec fn frame_count(moving: bool) -> u32 {
    if moving {
        RUN_COLUMNS
    } else {
        IDLE_COLUMNS
    }
}

/// The column after `frame` in a cycle of `count` columns.
pub open spec fn next_frame(frame: u32, count: u32) -> u32 {
    ((frame + 1) % (count as int)) as u32
}

/// The atlas cell of column `frame` in the row of `facing`, on a sheet with
/// `count` columns.
pub open spec fn atlas_cell(facing: FacingDirection, count: u32, frame: u32) -> int {
    spec_row(facing) * count + frame
}

/// The facing chosen for screen-space input `(x, y)`.
pub open spec fn facing_for_input(x: int, y: int) -> FacingDirection {
    direction_of_sector(screen_input_sector(x, y) % 8)
}

/// The plain part of the character's animation state.
#[derive(Clone, Copy, Debug, PartialEq, Eq, Structural)]
pub struct AnimationState {
    /// Direction the character faces.
    pub facing: FacingDirection,
    /// Whether movement keys are held this frame.
    pub moving: bool,
    /// `moving` as of the last animation step.
    pub was_moving: bool,
    /// Current column of the sheet in use.
    pub frame: u32,
}

/// What the sprite should show after an animation step.
#[derive(Clone, Copy, Debug, PartialEq, Eq, Structural)]
pub struct AnimationFrame {
    /// Whether to show the run sheet (otherwise the idle sheet).
    pub moving: bool,
    /// Index of the cell to show in that sheet's atlas.
    pub atlas_index: usize,
}

/// The character's animation: its state and one repeating frame timer per
/// sheet.
pub struct PlayerAnimation {
    state: AnimationState,
    idle_timer: FrameTimer,
    run_timer: FrameTimer,
}

impl View for PlayerAnimation {
    type V = AnimationState;

    closed spec fn view(&self) -> AnimationState {
        self.state
    }
}

/// Which way a key pair pushes one screen axis: `+1`, `-1`, or `0` when
/// neither or both are held.
pub fn screen_axis(positive: bool, negative: bool) -> (a: i32)
    ensures
        a == (if positive {
            1int
        } else {
            0int
        }) - (if negative {
            1int
        } else {
            0int
        }),
{
    let mut a: i32 = 0;
    if positive {
        a = a + 1;
    }
    if negative {
        a = a - 1;
    }
    a
}

/// The column after `frame` when the frame timer just finished, else
/// `frame`, in a cycle of `count` columns.
pub fn advance_frame(frame: u32, count: u32, finished: bool) -> (next: u32)
    requires
        0 < count,
        frame < count,
    ensures
        next == (if finished {
            next_frame(frame, count)
        } else {
            frame
        }),
        next == (if finished {
            (frame + 1) % (count as int)
        } else {
            frame as int
        }),
        next < count,
{
    if finished {
        (frame + 1) % count
    } else {
        frame
    }
}

/// Atlas index of column `frame` in the row of `facing`, on a sheet with
/// `count` columns.
pub fn atlas_index(facing: FacingDirection, count: u32, frame: u32) -> (index: usize)
    requires
        atlas_cell(facing, count, frame) <= u32::MAX,
    ensures
        index == atlas_cell(facing, count, frame),
        index == (match facing {
            FacingDirection::Down => 0int,
            FacingDirection::DownRight => 1int,
            FacingDirection::DownLeft => 2int,
            FacingDirection::Left => 3int,
            FacingDirection::UpLeft => 4int,
            FacingDirection::Up => 5int,
            FacingDirection::UpRight => 6int,
            FacingDirection::Right => 7int,
        }) * count + frame,
{
    let row: u32 = facing.row();
    (row * count + frame) as usize
}

/// A cell of an animation sheet lies inside that sheet: row `0..8`, column
/// `0..count`.
pub proof fn lemma_atlas_cell_in_sheet(facing: FacingDirection, count: u32, frame: u32)
    requires
        frame < count,
    ensures
        0 <= atlas_cell(facing, count, frame) < 8 * count,
{
    assert(spec_row(facing) * count + frame < 8 * count) by (nonlinear_arith)
        requires
            spec_row(facing) < 8,
            frame < count,
    ;
}

/// Moves to `candidate` unless the subtile it lands in is blocked; returns
/// whether it moved. Only `candidate_subtile`, the subtile containing
/// `candidate`, is consulted.
pub fn try_move<P>(
    tile_pos: &mut P,
    candidate: P,
    candidate_subtile: (i32, i32),
    subtiles: &SubtileGrid,
) -> (moved: bool)
    ensures
        moved == !subtiles@.contains(candidate_subtile),
        *final(tile_pos) == (if moved {
            candidate
        } else {
            *old(tile_pos)
        }),
{
    if subtiles.is_coord_blocked(candidate_subtile) {
        false
    } else {
        *tile_pos = candidate;
        true
    }
}

/// The atlas cell of a column lies in the row of the facing it shows, at
/// that column: dividing by the sheet's column count gives the facing's row
/// of the sheet layout (0 Down, 1 Down-Right, 2 Down-Left, 3 Left, 4 Up-Left,
/// 5 Up, 6 Up-Right, 7 Right), and the remainder is the column.
pub proof fn lemma_atlas_cell_row_and_column(facing: FacingDirection, count: u32, frame: u32)
    requires
        frame < count,
    ensures
        atlas_cell(facing, count, frame) / (count as int) == (match facing {
            FacingDirection::Down => 0int,
            FacingDirection::DownRight => 1int,
            FacingDirection::DownLeft => 2int,
            FacingDirection::Left => 3int,
            FacingDirection::UpLeft => 4int,
            FacingDirection::Up => 5int,
            FacingDirection::UpRight => 6int,
            FacingDirection::Right => 7int,
        }),
        atlas_cell(facing, count, frame) % (count as int) == frame,
{
    vstd::arithmetic::div_mod::lemma_fundamental_div_mod_converse(
        atlas_cell(facing, count, frame),
        count as int,
        spec_row(facing) as int,
        frame as int,
    );
}

/// The idle sheet cycles through 8 columns and the run sheet through 6,
/// wrapping back to the first column after the last.
pub proof fn lemma_sheet_columns(frame: u32)
    ensures
        frame_count(false) == 8,
        frame_count(true) == 6,
        frame < 7 ==> next_frame(frame, frame_count(false)) == frame + 1,
        next_frame(7, frame_count(false)) == 0,
        frame < 5 ==> next_frame(frame, frame_count(true)) == frame + 1,
        next_frame(5, frame_count(true)) == 0,
{
}

/// A position in a walkable subtile stays in a walkable subtile through
/// any `try_move`, whatever the step and whether it is refused, provided the
/// subtile handed to `try_move` is the one `locate` assigns the candidate.
pub proof fn lemma_try_move_stays_walkable<P>(
    blocked: Set<(i32, i32)>,
    locate: spec_fn(P) -> (i32, i32),
    before: P,
    candidate: P,
    moved: bool,
    after: P,
)
    requires
        !blocked.contains(locate(before)),
        moved == !blocked.contains(locate(candidate)),
        after == (if moved {
            candidate
        } else {
            before
        }),
    ensures
        !blocked.contains(locate(after)),
{
}

impl PlayerAnimation {
    /// The column is within the sheet it belongs to.
    #[verifier::type_invariant]
    spec fn frame_in_sheet(self) -> bool {
        self.state.frame < frame_count(self.state.was_moving)
    }

    /// Whether the column is within the sheet it belongs to (every
    /// animation is).
    pub open spec fn wf(&self) -> bool {
        self@.frame < frame_count(self@.was_moving)
    }

    /// The timer that paces the idle sheet's columns.
    pub closed spec fn idle_timer(&self) -> FrameTimer {
        self.idle_timer
    }

    /// The timer that paces the run sheet's columns.
    pub closed spec fn run_timer(&self) -> FrameTimer {
        self.run_timer
    }

    /// A standing character facing down, on the first idle column, paced by
    /// the given idle and run timers.
    pub fn new(idle_timer: FrameTimer, run_timer: FrameTimer) -> (anim: PlayerAnimation)
        ensures
            anim@ == (AnimationState {
                facing: FacingDirection::Down,
                moving: false,
                was_moving: false,
                frame: 0,
            }),
            anim.idle_timer() == idle_timer,
            anim.run_timer() == run_timer,
            anim.wf(),
    {
        PlayerAnimation {
            state: AnimationState {
                facing: FacingDirection::Down,
                moving: false,
                was_moving: false,
                frame: 0,
            },
            idle_timer,
            run_timer,
        }
    }

    /// The state without the timers.
    pub fn state(&self) -> (s: AnimationState)
        ensures
            s == self@,
            self.wf(),
    {
        proof {
            use_type_invariant(self);
        }
        self.state
    }

    /// First half of a movement frame: records whether any movement key is
    /// held (screen input `(x, y)` not zero) and returns it; the caller only
    /// moves when it is true. The timers are untouched.
    pub fn begin_move(&mut self, x: i32, y: i32) -> (moving: bool)
        ensures
            moving == !(x == 0 && y == 0),
            final(self)@ == (AnimationState { moving, ..old(self)@ }),
            final(self).idle_timer() == old(self).idle_timer(),
            final(self).run_timer() == old(self).run_timer(),
            final(self).wf(),
    {
        proof {
            use_type_invariant(&*self);
        }
        let moving = !(x == 0 && y == 0);
        self.state = AnimationState { moving, ..self.state };
        moving
    }

    /// Second half of a movement frame: faces the screen direction that
    /// actually moved. Of input `(x, y)`, an axis whose step was refused
    /// counts as 0; if nothing moved the facing is kept. The timers are
    /// untouched.
    pub fn finish_move(&mut self, x: i32, y: i32, moved_x: bool, moved_y: bool)
        requires
            -1 <= x <= 1,
            -1 <= y <= 1,
        ensures
            ({
                let ex: int = if moved_x {
                    x as int
                } else {
                    0
                };
                let ey: int = if moved_y {
                    y as int
                } else {
                    0
                };
                &&& final(self)@ == (if ex == 0 && ey == 0 {
                    old(self)@
                } else {
                    AnimationState { facing: facing_for_input(ex, ey), ..old(self)@ }
                })
                &&& final(self)@.moving == old(self)@.moving
                &&& final(self)@.was_moving == old(self)@.was_moving
                &&& final(self)@.frame == old(self)@.frame
                &&& (ex == 0 && ey == 0 ==> final(self)@.facing == old(self)@.facing)
                &&& (ex == 1 && ey == 0 ==> final(self)@.facing == FacingDirection::Right)
                &&& (ex == 1 && ey == 1 ==> final(self)@.facing == FacingDirection::UpRight)
                &&& (ex == 0 && ey == 1 ==> final(self)@.facing == FacingDirection::Up)
                &&& (ex == -1 && ey == 1 ==> final(self)@.facing == FacingDirection::UpLeft)
                &&& (ex == -1 && ey == 0 ==> final(self)@.facing == FacingDirection::Left)
                &&& (ex == -1 && ey == -1 ==> final(self)@.facing == FacingDirection::DownLeft)
                &&& (ex == 0 && ey == -1 ==> final(self)@.facing == FacingDirection::Down)
                &&& (ex == 1 && ey == -1 ==> final(self)@.facing == FacingDirection::DownRight)
            }),
            final(self).idle_timer() == old(self).idle_timer(),
            final(self).run_timer() == old(self).run_timer(),
            final(self).wf(),
    {
        proof {
            use_type_invariant(&*self);
        }
        let ex: i32 = if moved_x {
            x
        } else {
            0
        };
        let ey: i32 = if moved_y {
            y
        } else {
            0
        };
        if !(ex == 0 && ey == 0) {
            let facing: FacingDirection = FacingDirection::from_screen_input(ex, ey);
            self.state = AnimationState { facing, ..self.state };
        }
    }

    /// One animation step of `delta` nanoseconds. A switch between idle and
    /// running restarts at column 0 with both timers reset; then only the
    /// timer of the sheet in use is ticked, and the column advances
    /// (wrapping) exactly when that tick finished a period. Returns the sheet
    /// and atlas cell to show.
    pub fn animate(&mut self, delta: u64) -> (shown: AnimationFrame)
        ensures
            ({
                let s = old(self)@;
                let switched = s.moving != s.was_moving;
                let start: u32 = if switched {
                    0
                } else {
                    s.frame
                };
                let idle0 = if switched {
                    FrameTimer { elapsed: 0, ..old(self).idle_timer() }
                } else {
                    old(self).idle_timer()
                };
                let run0 = if switched {
                    FrameTimer { elapsed: 0, ..old(self).run_timer() }
                } else {
                    old(self).run_timer()
                };
                let active = if s.moving {
                    run0
                } else {
                    idle0
                };
                let total = active.elapsed + delta;
                let finished = ticked_finished(active.duration, total);
                let ticked = FrameTimer {
                    elapsed: ticked_elapsed(active.duration, total) as u64,
                    ..active
                };
                let count = frame_count(s.moving);
                let frame: u32 = if finished {
                    next_frame(start, count)
                } else {
                    start
                };
                &&& final(self)@ == (AnimationState {
                    facing: s.facing,
                    moving: s.moving,
                    was_moving: s.moving,
                    frame,
                })
                &&& final(self).idle_timer() == (if s.moving {
                    idle0
                } else {
                    ticked
                })
                &&& final(self).run_timer() == (if s.moving {
                    ticked
                } else {
                    run0
                })
                &&& shown.moving == s.moving
                &&& shown.atlas_index == atlas_cell(s.facing, count, frame)
            }),
            ({
                let s = old(self)@;
                let columns: int = if s.moving {
                    RUN_COLUMNS as int
                } else {
                    IDLE_COLUMNS as int
                };
                let start: int = if s.moving != s.was_moving {
                    0
                } else {
                    s.frame as int
                };
                let active = if s.moving {
                    old(self).run_timer()
                } else {
                    old(self).idle_timer()
                };
                let elapsed: int = if s.moving != s.was_moving {
                    0
                } else {
                    active.elapsed as int
                };
                let finished = ticked_finished(active.duration, elapsed + delta);
                &&& 0 <= final(self)@.frame < columns
                &&& final(self)@.frame == (if finished {
                    (start + 1) % columns
                } else {
                    start
                })
                &&& shown.atlas_index == spec_row(s.facing) * columns + final(self)@.frame
            }),
            final(self).wf(),
    {
        proof {
            use_type_invariant(&*self);
        }
        let mut state: AnimationState = self.state;
        let mut idle: FrameTimer = self.idle_timer;
        let mut run: FrameTimer = self.run_timer;
        if state.moving != state.was_moving {
            state.frame = 0;
            idle.reset();
            run.reset();
            state.was_moving = state.moving;
        }
        let count: u32 = if state.moving {
            RUN_COLUMNS
        } else {
            IDLE_COLUMNS
        };
        let finished: bool = if state.moving {
            run.tick(delta)
        } else {
            idle.tick(delta)
        };
        state.frame = advance_frame(state.frame, count, finished);
        proof {
            lemma_atlas_cell_in_sheet(state.facing, count, state.frame);
        }
        let index: usize = atlas_index(state.facing, count, state.frame);
        self.state = state;
        self.idle_timer = idle;
        self.run_timer = run;
        AnimationFrame { moving: state.moving, atlas_index: index }
    }
}

} // verus!
