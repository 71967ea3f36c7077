//! Decisions of the debug tooling: which probe runs, the frame schedules of
//! the headless probes and the screenshot capture, when the debug overlay's
//! marker appears, and how a tilemap's sort inputs are judged.
use vstd::prelude::*;

verus! {

/// Frame on which the screenshot run captures the window.
pub const SCREENSHOT_FRAME: u32 = 30;

/// Frame on which the screenshot run exits.
pub const SCREENSHOT_EXIT_FRAME: u32 = 35;

/// Frame on which the world-point probe reports.
pub const WORLD_POINT_REPORT_FRAME: u32 = 10;

/// Frame on which the world-point probe exits.
pub const WORLD_POINT_EXIT_FRAME: u32 = 15;

/// Frames the step probe runs before reporting when no count is given.
pub const DEFAULT_PROBE_FRAMES: u32 = 60;

/// Frames between the step probe's report and its exit.
pub const PROBE_EXIT_DELAY: u32 = 5;

/// What a frame-counting debug run does on the current frame.
#[derive(Clone, Copy, Debug, PartialEq, Eq, Structural)]
pub enum FrameAction {
    /// Nothing yet.
    Wait,
    /// Report (or capture) now.
    Act,
    /// Ask the app to exit.
    Exit,
}

/// The action of a run that acts on frame `act_at` and exits on `exit_at`.
pub open spec fn scheduled_action(frame: int, act_at: int, exit_at: int) -> FrameAction {
    if frame == act_at {
        FrameAction::Act
    } else if frame == exit_at {
        FrameAction::Exit
    } else {
        FrameAction::Wait
    }
}

fn action_at(frame: u32, act_at: u32, exit_at: u32) -> (a: FrameAction)
    ensures
        a == scheduled_action(frame as int, act_at as int, exit_at as int),
{
    if frame == act_at {
        FrameAction::Act
    } else if frame == exit_at {
        FrameAction::Exit
    } else {
        FrameAction::Wait
    }
}

/// Counts one frame of the screenshot run and says what to do on it:
/// capture on frame 30, exit on frame 35.
pub fn screenshot_step(frame: &mut u32) -> (a: FrameAction)
    requires
        *old(frame) < u32::MAX,
    ensures
        *final(frame) == *old(frame) + 1,
        a == scheduled_action(
            *final(frame) as int,
            SCREENSHOT_FRAME as int,
            SCREENSHOT_EXIT_FRAME as int,
        ),
        (a == FrameAction::Act) == (*final(frame) == 30),
        (a == FrameAction::Exit) == (*final(frame) == 35),
{
    *frame = *frame + 1;
    action_at(*frame, SCREENSHOT_FRAME, SCREENSHOT_EXIT_FRAME)
}

/// Counts one frame of the world-point probe and says what to do on it:
/// report on frame 10, exit on frame 15.
pub fn world_point_probe_step(frame: &mut u32) -> (a: FrameAction)
    requires
        *old(frame) < u32::MAX,
    ensures
        *final(frame) == *old(frame) + 1,
        a == scheduled_action(
            *final(frame) as int,
            WORLD_POINT_REPORT_FRAME as int,
            WORLD_POINT_EXIT_FRAME as int,
        ),
        (a == FrameAction::Act) == (*final(frame) == 10),
        (a == FrameAction::Exit) == (*final(frame) == 15),
{
    *frame = *frame + 1;
    action_at(*frame, WORLD_POINT_REPORT_FRAME, WORLD_POINT_EXIT_FRAME)
}

/// Counts one frame of the step probe and says what to do on it: report
/// once `total_frames` frames have run, exit five frames later.
pub fn step_probe_step(frame: &mut u32, total_frames: u32) -> (a: FrameAction)
    requires
        *old(frame) < u32::MAX,
        total_frames <= u32::MAX - PROBE_EXIT_DELAY,
    ensures
        *final(frame) == *old(frame) + 1,
        a == scheduled_action(
            *final(frame) as int,
            total_frames as int,
            total_frames + PROBE_EXIT_DELAY,
        ),
        (a == FrameAction::Act) == (*final(frame) == total_frames),
        (a == FrameAction::Exit) == (*final(frame) != total_frames && *final(frame)
            == total_frames + 5),
{
    *frame = *frame + 1;
    action_at(*frame, total_frames, total_frames + PROBE_EXIT_DELAY)
}

/// A counted run started at frame 0 reports exactly once, on frame
/// `act_at`, and asks to exit exactly once, on frame `exit_at`, when the
/// two differ and `act_at` is not 0.
pub proof fn lemma_schedule_acts_once(act_at: int, exit_at: int, f: int)
    requires
        0 < act_at,
        act_at != exit_at,
        1 <= f,
    ensures
        (scheduled_action(f, act_at, exit_at) == FrameAction::Act) <==> f == act_at,
        (scheduled_action(f, act_at, exit_at) == FrameAction::Exit) <==> f == exit_at,
{
}

/// Which headless probe runs.
#[derive(Clone, Copy, Debug, PartialEq, Eq, Structural)]
pub enum ProbeMode {
    /// Test one world-space point against the collision shapes.
    WorldPoint,
    /// Drive the player with a fixed tile-space step every frame.
    Step,
    /// No probe.
    Off,
}

/// The probe to run: the world-point probe when it is requested (it wins
/// over a step request), else the step probe when a step is given.
pub fn probe_mode(world_point_requested: bool, step_requested: bool) -> (m: ProbeMode)
    ensures
        m == (if world_point_requested {
            ProbeMode::WorldPoint
        } else if step_requested {
            ProbeMode::Step
        } else {
            ProbeMode::Off
        }),
{
    if world_point_requested {
        ProbeMode::WorldPoint
    } else if step_requested {
        ProbeMode::Step
    } else {
        ProbeMode::Off
    }
}

/// Which parts of the draw-order instrumentation run.
#[derive(Clone, Copy, Debug, PartialEq, Eq, Structural)]
pub struct ZsortDebugPlan {
    /// Sampling, reporting and the on-screen numbers.
    pub overlay: bool,
    /// The sort-anchor gizmos.
    pub gizmos: bool,
}

/// The instrumentation runs only when requested, and its gizmos only on a
/// second, separate request.
pub fn zsort_debug_plan(debug_requested: bool, gizmos_requested: bool) -> (plan: ZsortDebugPlan)
    ensures
        plan.overlay == debug_requested,
        plan.gizmos == (debug_requested && gizmos_requested),
{
    ZsortDebugPlan { overlay: debug_requested, gizmos: debug_requested && gizmos_requested }
}

/// A one-shot action (the overlay's marker spawn, the sort-input report):
/// acts when `ready` and it has not fired yet, and remembers that it did.
pub fn fire_once(fired: &mut bool, ready: bool) -> (act: bool)
    ensures
        act == (!*old(fired) && ready),
        *final(fired) == (*old(fired) || act),
{
    let act: bool = !*fired && ready;
    if act {
        *fired = true;
    }
    act
}

/// How many times `fire_once` acts over a run of calls that start with flag
/// `fired` and see readiness `readiness[0]`, `readiness[1]`, ...
pub open spec fn fire_count(fired: bool, readiness: Seq<bool>) -> nat
    decreases readiness.len(),
{
    if readiness.len() == 0 {
        0
    } else {
        let act = !fired && readiness[0];
        (if act {
            1nat
        } else {
            0nat
        }) + fire_count(fired || act, readiness.drop_first())
    }
}

/// A one-shot action acts at most once over any run of calls, and never once
/// it has fired.
pub proof fn lemma_fires_at_most_once(fired: bool, readiness: Seq<bool>)
    ensures
        fire_count(fired, readiness) <= (if fired {
            0nat
        } else {
            1nat
        }),
    decreases readiness.len(),
{
    if readiness.len() > 0 {
        let act = !fired && readiness[0];
        lemma_fires_at_most_once(fired || act, readiness.drop_first());
    }
}

/// How one tilemap's real sort inputs compare with what the character's
/// depth assumes.
#[derive(Clone, Copy, Debug, PartialEq, Eq, Structural)]
pub enum SortVerdict {
    /// Same extent, on the topmost layer: directly comparable.
    Topmost,
    /// Same extent, on a lower layer: always behind the character.
    BelowTopmost,
    /// Different extent: the character's depth is on another scale.
    ExtentMismatch,
}

/// A tilemap whose extent differs is a mismatch whatever its layer; with a
/// matching extent, its layer decides.
pub fn sort_verdict(extent_matches: bool, baseline_is_zero: bool) -> (v: SortVerdict)
    ensures
        v == (if !extent_matches {
            SortVerdict::ExtentMismatch
        } else if baseline_is_zero {
            SortVerdict::Topmost
        } else {
            SortVerdict::BelowTopmost
        }),
{
    if !extent_matches {
        SortVerdict::ExtentMismatch
    } else if baseline_is_zero {
        SortVerdict::Topmost
    } else {
        SortVerdict::BelowTopmost
    }
}

impl SortVerdict {
    /// The line the report prints for this verdict.
    pub fn message(&self) -> (m: &'static str)
        ensures
            *self == SortVerdict::Topmost ==> m@
                == "OK (topmost layer: character Z is directly comparable)"@,
            *self == SortVerdict::BelowTopmost ==> m@
                == "OK (below topmost layer: always behind the character, by design)"@,
            *self == SortVerdict::ExtentMismatch ==> m@
                == "EXTENT MISMATCH: character Z is on a different scale from these tiles"@,
    {
        match self {
            SortVerdict::Topmost => "OK (topmost layer: character Z is directly comparable)",
            SortVerdict::BelowTopmost => "OK (below topmost layer: always behind the character, by design)",
            SortVerdict::ExtentMismatch => "EXTENT MISMATCH: character Z is on a different scale from these tiles",
        }
    }
}

} // verus!
