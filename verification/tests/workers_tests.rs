use controller::workers::{
    click_position, count_matching, nudge_actions, pixel_matches, scan_center_x, scan_points,
    should_click, wait_ticks, AntiAfk, AutoAccept, NudgeAction, WorkerCommand,
};

#[test]
fn anti_afk_restarts_on_change_only() {
    let mut a = AntiAfk::new();
    assert_eq!((a.interval, a.move_pixels, a.use_keyboard, a.running), (25, 8, true, false));
    assert_eq!(a.update(true, 25, 8, true), WorkerCommand::Restart);
    assert!(a.running);
    assert_eq!(a.update(true, 25, 8, true), WorkerCommand::Keep);
    assert_eq!(a.update(true, 30, 8, true), WorkerCommand::Restart);
    assert_eq!(a.interval, 30);
    assert_eq!(a.update(false, 30, 8, true), WorkerCommand::Stop);
    assert!(!a.running);
    assert_eq!(a.update(false, 30, 8, true), WorkerCommand::Stop);
}

#[test]
fn anti_afk_clamps_parameters() {
    let mut a = AntiAfk::new();
    a.update(true, 1, 0, false);
    assert_eq!((a.interval, a.move_pixels), (5, 1));
    a.update(true, 1000, 900, false);
    assert_eq!((a.interval, a.move_pixels), (120, 50));
    // clamped values equal to the current ones keep the worker
    assert_eq!(a.update(true, 500, 51, false), WorkerCommand::Keep);
}

#[test]
fn anti_afk_nudges() {
    assert_eq!(wait_ticks(25), 50);
    assert_eq!(wait_ticks(2), 10);
    assert_eq!(
        nudge_actions(true, 8),
        vec![
            NudgeAction::Press('a'),
            NudgeAction::WaitMillis(350),
            NudgeAction::Release('a'),
            NudgeAction::WaitMillis(100),
            NudgeAction::Press('d'),
            NudgeAction::WaitMillis(350),
            NudgeAction::Release('d'),
        ]
    );
    assert_eq!(nudge_actions(false, 8), vec![NudgeAction::MoveBy(8), NudgeAction::MoveBy(-8)]);
    assert_eq!(nudge_actions(false, 0), vec![NudgeAction::MoveBy(1), NudgeAction::MoveBy(-1)]);
    assert_eq!(nudge_actions(false, 99), vec![NudgeAction::MoveBy(50), NudgeAction::MoveBy(-50)]);
}

#[test]
fn auto_accept_worker() {
    let mut a = AutoAccept::new();
    assert_eq!(a.update(false), WorkerCommand::Stop);
    assert_eq!(a.update(true), WorkerCommand::Restart);
    assert_eq!(a.update(true), WorkerCommand::Keep);
    assert_eq!(a.update(false), WorkerCommand::Stop);
    assert!(!a.running);
}

#[test]
fn accept_button_color() {
    assert!(pixel_matches([60, 170, 80]));
    assert!(pixel_matches([5, 225, 135]));
    assert!(pixel_matches([115, 115, 25]));
    assert!(!pixel_matches([4, 170, 80]));
    assert!(!pixel_matches([60, 226, 80]));
    assert!(!pixel_matches([60, 170, 136]));
    assert!(!pixel_matches([255, 255, 255]));
}

#[test]
fn accept_button_detection() {
    let mut pixels = vec![[0u8, 0, 0]; 81];
    assert_eq!(count_matching(&pixels), 0);
    for p in pixels.iter_mut().take(12) {
        *p = [60, 170, 80];
    }
    let count = count_matching(&pixels);
    assert_eq!(count, 12);
    assert!(should_click(count));
    assert!(!should_click(11));
}

#[test]
fn scan_window() {
    assert_eq!(scan_center_x(1920), 960);
    let points = scan_points(960, 451);
    assert_eq!(points.len(), 81);
    assert_eq!(points[0], (956, 447));
    assert_eq!(points[8], (964, 447));
    assert_eq!(points[9], (956, 448));
    assert_eq!(points[80], (964, 455));
    let edge = scan_points(2, 0);
    assert_eq!(edge[0], (0, 0));
    assert_eq!(edge[80], (8, 8));
    assert_eq!(click_position(-1920, 0, 960, 451), (-960, 451));
}
