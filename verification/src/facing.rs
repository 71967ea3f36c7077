//! The character's eight compass facings, the sprite-sheet row of each, and
//! how screen-space movement input picks one.
use vstd::prelude::*;

verus! {

/// The eight compass directions the character sprite sheets provide a row
/// for. Rows of both sheets: 0 Down, 1 Down-Right, 2 Down-Left, 3 Left,
/// 4 Up-Left, 5 Up, 6 Up-Right, 7 Right.
#[derive(Clone, Copy, Debug, PartialEq, Eq, Structural)]
pub enum FacingDirection {
    Down,
    DownRight,
    DownLeft,
    Left,
    UpLeft,
    Up,
    UpRight,
    Right,
}

/// Sprite-sheet row of each direction.
pub open spec fn spec_row(d: FacingDirection) -> u32 {
    match d {
        FacingDirection::Down => 0,
        FacingDirection::DownRight => 1,
        FacingDirection::DownLeft => 2,
        FacingDirection::Left => 3,
        FacingDirection::UpLeft => 4,
        FacingDirection::Up => 5,
        FacingDirection::UpRight => 6,
        FacingDirection::Right => 7,
    }
}

impl FacingDirection {
    /// Which row of the idle/run sheets shows this direction.
    pub fn row(self) -> (r: u32)
        ensures
            r == spec_row(self),
            self == FacingDirection::Down ==> r == 0,
            self == FacingDirection::DownRight ==> r == 1,
            self == FacingDirection::DownLeft ==> r == 2,
            self == FacingDirection::Left ==> r == 3,
            self == FacingDirection::UpLeft ==> r == 4,
            self == FacingDirection::Up ==> r == 5,
            self == FacingDirection::UpRight ==> r == 6,
            self == FacingDirection::Right ==> r == 7,
    {
        match self {
            FacingDirection::Down => 0,
            FacingDirection::DownRight => 1,
            FacingDirection::DownLeft => 2,
            FacingDirection::Left => 3,
            FacingDirection::UpLeft => 4,
            FacingDirection::Up => 5,
            FacingDirection::UpRight => 6,
            FacingDirection::Right => 7,
        }
    }
}

/// The facing of each 45-degree sector of screen-space input angle: sector 0
/// is centered on screen-right and sectors advance counter-clockwise.
pub open spec fn direction_of_sector(s: int) -> FacingDirection {
    if s == 0 {
        FacingDirection::Right
    } else if s == 1 {
        FacingDirection::UpRight
    } else if s == 2 {
        FacingDirection::Up
    } else if s == 3 {
        FacingDirection::UpLeft
    } else if s == 4 {
        FacingDirection::Left
    } else if s == 5 {
        FacingDirection::DownLeft
    } else if s == 6 {
        FacingDirection::Down
    } else {
        FacingDirection::DownRight
    }
}

/// The angle sector (`atan2(y, x)` in units of 45 degrees, rounded) of a
/// screen-space input whose axes are each -1, 0 or 1; `(0, 0)` has angle 0.
pub open spec fn screen_input_sector(x: int, y: int) -> int {
    if y == 0 {
        if x < 0 {
            4
        } else {
            0
        }
    } else if y > 0 {
        if x > 0 {
            1
        } else if x == 0 {
            2
        } else {
            3
        }
    } else {
        if x < 0 {
            -3
        } else if x == 0 {
            -2
        } else {
            -1
        }
    }
}

impl FacingDirection {
    /// Buckets an angle sector (possibly negative or beyond one turn) into
    /// one of the eight directions, wrapping every eight sectors.
    pub fn from_sector(sector: i32) -> (d: FacingDirection)
        ensures
            d == direction_of_sector(sector as int % 8),
            sector as int % 8 == 0 ==> d == FacingDirection::Right,
            sector as int % 8 == 1 ==> d == FacingDirection::UpRight,
            sector as int % 8 == 2 ==> d == FacingDirection::Up,
            sector as int % 8 == 3 ==> d == FacingDirection::UpLeft,
            sector as int % 8 == 4 ==> d == FacingDirection::Left,
            sector as int % 8 == 5 ==> d == FacingDirection::DownLeft,
            sector as int % 8 == 6 ==> d == FacingDirection::Down,
            sector as int % 8 == 7 ==> d == FacingDirection::DownRight,
    {
        let s: i32 = match sector.checked_rem_euclid(8) {
            Some(s) => s,
            None => 0,
        };
        if s == 0 {
            FacingDirection::Right
        } else if s == 1 {
            FacingDirection::UpRight
        } else if s == 2 {
            FacingDirection::Up
        } else if s == 3 {
            FacingDirection::UpLeft
        } else if s == 4 {
            FacingDirection::Left
        } else if s == 5 {
            FacingDirection::DownLeft
        } else if s == 6 {
            FacingDirection::Down
        } else {
            FacingDirection::DownRight
        }
    }

    /// The facing for screen-space movement input, each axis -1, 0 or 1
    /// (`y` positive is screen-up): the sector of the input's angle.
    pub fn from_screen_input(x: i32, y: i32) -> (d: FacingDirection)
        requires
            -1 <= x <= 1,
            -1 <= y <= 1,
        ensures
            d == direction_of_sector(screen_input_sector(x as int, y as int) % 8),
            x == 1 && y == 0 ==> d == FacingDirection::Right,
            x == 1 && y == 1 ==> d == FacingDirection::UpRight,
            x == 0 && y == 1 ==> d == FacingDirection::Up,
            x == -1 && y == 1 ==> d == FacingDirection::UpLeft,
            x == -1 && y == 0 ==> d == FacingDirection::Left,
            x == -1 && y == -1 ==> d == FacingDirection::DownLeft,
            x == 0 && y == -1 ==> d == FacingDirection::Down,
            x == 1 && y == -1 ==> d == FacingDirection::DownRight,
            x == 0 && y == 0 ==> d == FacingDirection::Right,
    {
        let sector: i32 = if y == 0 {
            if x < 0 {
                4
            } else {
                0
            }
        } else if y > 0 {
            if x > 0 {
                1
            } else if x == 0 {
                2
            } else {
                3
            }
        } else {
            if x < 0 {
                -3
            } else if x == 0 {
                -2
            } else {
                -1
            }
        };
        FacingDirection::from_sector(sector)
    }
}

/// Each direction has its own row, and every row is one of the eight rows
/// `0..8` that the sheets have.
pub proof fn lemma_rows_are_distinct()
    ensures
        forall|a: FacingDirection, b: FacingDirection| #[trigger]
            spec_row(a) == #[trigger] spec_row(b) ==> a == b,
        forall|d: FacingDirection| #[trigger] spec_row(d) < 8,
{
}

/// Sectors one full turn apart give the same direction, and the eight
/// sectors of a turn give eight different directions.
pub proof fn lemma_sectors_wrap_each_turn(s: int)
    ensures
        direction_of_sector((s + 8) % 8) == direction_of_sector(s % 8),
        forall|a: int, b: int|
            0 <= a < 8 && 0 <= b < 8 && #[trigger] direction_of_sector(a) == #[trigger]
                direction_of_sector(b) ==> a == b,
{
}

/// The sheet rows follow the layout of both sheets: 0 Down, 1 Down-Right,
/// 2 Down-Left, 3 Left, 4 Up-Left, 5 Up, 6 Up-Right, 7 Right.
pub proof fn lemma_row_layout()
    ensures
        spec_row(FacingDirection::Down) == 0,
        spec_row(FacingDirection::DownRight) == 1,
        spec_row(FacingDirection::DownLeft) == 2,
        spec_row(FacingDirection::Left) == 3,
        spec_row(FacingDirection::UpLeft) == 4,
        spec_row(FacingDirection::Up) == 5,
        spec_row(FacingDirection::UpRight) == 6,
        spec_row(FacingDirection::Right) == 7,
{
}

/// Each key input faces the compass direction of its screen angle
/// `atan2(y, x)` (screen-up is positive `y`); no input faces its mirror
/// image.
pub proof fn lemma_screen_input_faces_its_angle()
    ensures
        direction_of_sector(screen_input_sector(1, 0) % 8) == FacingDirection::Right,
        direction_of_sector(screen_input_sector(1, 1) % 8) == FacingDirection::UpRight,
        direction_of_sector(screen_input_sector(0, 1) % 8) == FacingDirection::Up,
        direction_of_sector(screen_input_sector(-1, 1) % 8) == FacingDirection::UpLeft,
        direction_of_sector(screen_input_sector(-1, 0) % 8) == FacingDirection::Left,
        direction_of_sector(screen_input_sector(-1, -1) % 8) == FacingDirection::DownLeft,
        direction_of_sector(screen_input_sector(0, -1) % 8) == FacingDirection::Down,
        direction_of_sector(screen_input_sector(1, -1) % 8) == FacingDirection::DownRight,
{
}

} // verus!
