use tiled_bevy_isometric::debug::{
    fire_once, probe_mode, screenshot_step, sort_verdict, step_probe_step,
    world_point_probe_step, zsort_debug_plan, FrameAction, ProbeMode, SortVerdict,
};

#[test]
fn screenshot_captures_on_frame_thirty_and_exits_on_thirty_five() {
    let mut frame: u32 = 0;
    let mut captures = Vec::new();
    let mut exits = Vec::new();
    for _ in 0..40 {
        match screenshot_step(&mut frame) {
            FrameAction::Act => captures.push(frame),
            FrameAction::Exit => exits.push(frame),
            FrameAction::Wait => {}
        }
    }
    assert_eq!(frame, 40);
    assert_eq!(captures, vec![30]);
    assert_eq!(exits, vec![35]);
}

#[test]
fn world_point_probe_reports_on_ten_and_exits_on_fifteen() {
    let mut frame: u32 = 0;
    let actions: Vec<FrameAction> = (0..16).map(|_| world_point_probe_step(&mut frame)).collect();
    assert_eq!(actions[9], FrameAction::Act);
    assert_eq!(actions[14], FrameAction::Exit);
    assert_eq!(actions.iter().filter(|a| **a == FrameAction::Act).count(), 1);
    assert_eq!(actions.iter().filter(|a| **a == FrameAction::Exit).count(), 1);
}

#[test]
fn step_probe_reports_after_total_frames_and_exits_five_later() {
    let mut frame: u32 = 0;
    let actions: Vec<FrameAction> = (0..70).map(|_| step_probe_step(&mut frame, 60)).collect();
    assert_eq!(actions[59], FrameAction::Act);
    assert_eq!(actions[64], FrameAction::Exit);
    assert_eq!(actions[60], FrameAction::Wait);
    assert_eq!(actions[58], FrameAction::Wait);
}

#[test]
fn step_probe_with_zero_frames_never_reports() {
    let mut frame: u32 = 0;
    let actions: Vec<FrameAction> = (0..10).map(|_| step_probe_step(&mut frame, 0)).collect();
    assert!(!actions.contains(&FrameAction::Act));
    assert_eq!(actions[4], FrameAction::Exit);
}

#[test]
fn world_point_probe_wins_over_step_probe() {
    assert_eq!(probe_mode(true, true), ProbeMode::WorldPoint);
    assert_eq!(probe_mode(true, false), ProbeMode::WorldPoint);
    assert_eq!(probe_mode(false, true), ProbeMode::Step);
    assert_eq!(probe_mode(false, false), ProbeMode::Off);
}

#[test]
fn zsort_gizmos_need_both_flags() {
    let plan = zsort_debug_plan(true, true);
    assert!(plan.overlay && plan.gizmos);
    let plan = zsort_debug_plan(true, false);
    assert!(plan.overlay && !plan.gizmos);
    let plan = zsort_debug_plan(false, true);
    assert!(!plan.overlay && !plan.gizmos);
}

#[test]
fn one_shot_actions_fire_once_when_ready() {
    let mut fired = false;
    assert!(!fire_once(&mut fired, false));
    assert!(!fired);
    assert!(fire_once(&mut fired, true));
    assert!(fired);
    assert!(!fire_once(&mut fired, true));
    assert!(fired);
}

#[test]
fn sort_verdicts_and_their_messages() {
    assert_eq!(sort_verdict(true, true), SortVerdict::Topmost);
    assert_eq!(sort_verdict(true, false), SortVerdict::BelowTopmost);
    assert_eq!(sort_verdict(false, true), SortVerdict::ExtentMismatch);
    assert_eq!(sort_verdict(false, false), SortVerdict::ExtentMismatch);
    assert_eq!(
        SortVerdict::Topmost.message(),
        "OK (topmost layer: character Z is directly comparable)"
    );
    assert_eq!(
        SortVerdict::BelowTopmost.message(),
        "OK (below topmost layer: always behind the character, by design)"
    );
    assert_eq!(
        SortVerdict::ExtentMismatch.message(),
        "EXTENT MISMATCH: character Z is on a different scale from these tiles"
    );
}
