use controller::settings::TriggerBotWeaponSettings;
use controller::trigger::{
    is_player_pawn_class, passes_team_check, rcs_active, should_shoot, weapon_has_ammo, RcsStep,
    TriggerBot, TriggerOutcome, TriggerState,
};

fn weapon(delay_min: u32, delay_max: u32, shot_duration: u32) -> TriggerBotWeaponSettings {
    TriggerBotWeaponSettings { enabled: true, delay_min, delay_max, shot_duration }
}

fn no_action() -> TriggerOutcome {
    TriggerOutcome { mouse_button: None, settings_missing: false }
}

#[test]
fn idle_without_target_stays_idle() {
    let mut bot = TriggerBot::new();
    let r = bot.step(false, false, 100, Some(weapon(10, 20, 400)), 15);
    assert_eq!(r, no_action());
    assert_eq!(bot.state, TriggerState::Idle);
    assert!(!bot.trigger_active);
}

#[test]
fn full_shot_cycle() {
    let w = weapon(10, 20, 400);
    let mut bot = TriggerBot::new();
    // a target appears: wait for the sampled delay
    assert_eq!(bot.step(true, false, 1000, Some(w), 15), no_action());
    assert_eq!(bot.state, TriggerState::Pending { delay: 15, timestamp: 1000 });
    // still waiting
    assert_eq!(bot.step(true, false, 1014, Some(w), 15), no_action());
    // delay over: press, then sleep for the shot duration
    let r = bot.step(true, false, 1015, Some(w), 15);
    assert_eq!(r, TriggerOutcome { mouse_button: Some(true), settings_missing: false });
    assert!(bot.trigger_active);
    assert_eq!(bot.state, TriggerState::Sleep { delay: 400, timestamp: 1015 });
    // the next update releases the button
    let r = bot.step(true, false, 1016, Some(w), 15);
    assert_eq!(r, TriggerOutcome { mouse_button: Some(false), settings_missing: false });
    assert!(!bot.trigger_active);
    assert_eq!(bot.state, TriggerState::Sleep { delay: 400, timestamp: 1016 });
    // sleeping
    assert_eq!(bot.step(true, false, 1415, Some(w), 15), no_action());
    // the sleep is over: back to idle, no new shot in the same update
    assert_eq!(bot.step(true, false, 1416, Some(w), 15), no_action());
    assert_eq!(bot.state, TriggerState::Idle);
}

#[test]
fn zero_delay_presses_at_once() {
    let w = weapon(0, 0, 50);
    let mut bot = TriggerBot::new();
    let r = bot.step(true, false, 7, Some(w), 99);
    assert_eq!(r.mouse_button, Some(true));
    assert_eq!(bot.state, TriggerState::Sleep { delay: 50, timestamp: 7 });
}

#[test]
fn equal_bounds_ignore_the_sample() {
    let w = weapon(30, 30, 50);
    let mut bot = TriggerBot::new();
    bot.step(true, false, 0, Some(w), 99);
    assert_eq!(bot.state, TriggerState::Pending { delay: 30, timestamp: 0 });
}

#[test]
fn check_after_delay_cancels_lost_target() {
    let w = weapon(10, 10, 50);
    let mut bot = TriggerBot::new();
    bot.step(true, true, 0, Some(w), 10);
    let r = bot.step(false, true, 10, Some(w), 10);
    assert_eq!(r, no_action());
    assert_eq!(bot.state, TriggerState::Idle);
}

#[test]
fn without_check_the_shot_fires_after_target_loss() {
    let w = weapon(10, 10, 50);
    let mut bot = TriggerBot::new();
    bot.step(true, false, 0, Some(w), 10);
    let r = bot.step(false, false, 10, Some(w), 10);
    assert_eq!(r.mouse_button, Some(true));
}

#[test]
fn missing_settings_are_reported() {
    let mut bot = TriggerBot::new();
    let r = bot.step(true, false, 0, None, 10);
    assert_eq!(r, TriggerOutcome { mouse_button: None, settings_missing: true });
    assert_eq!(bot.state, TriggerState::Idle);
}

#[test]
fn missing_settings_on_press_still_press() {
    let mut bot = TriggerBot {
        state: TriggerState::Pending { delay: 5, timestamp: 0 },
        trigger_active: false,
        rcs_started_at: None,
    };
    let r = bot.step(true, false, 5, None, 0);
    assert_eq!(r, TriggerOutcome { mouse_button: Some(true), settings_missing: true });
    assert!(bot.trigger_active);
    assert_eq!(bot.state, TriggerState::Active);
}

#[test]
fn clock_going_back_counts_as_no_time() {
    let mut bot = TriggerBot {
        state: TriggerState::Sleep { delay: 5, timestamp: 100 },
        trigger_active: false,
        rcs_started_at: None,
    };
    assert_eq!(bot.step(false, false, 50, None, 0), no_action());
    assert_eq!(bot.state, TriggerState::Sleep { delay: 5, timestamp: 100 });
}

#[test]
fn sampled_delays_stay_in_range_and_vary() {
    let w = weapon(2000, 10, 50);
    let mut delays = Vec::new();
    for _ in 0..64 {
        let mut bot = TriggerBot::new();
        bot.update(true, false, 0, Some(w));
        match bot.state {
            TriggerState::Pending { delay, timestamp } => {
                assert!((10..=2000).contains(&delay));
                assert_eq!(timestamp, 0);
                delays.push(delay);
            }
            other => panic!("unexpected state {:?}", other),
        }
    }
    assert!(delays.iter().any(|&d| d != 10));
}

#[test]
fn rcs_gate() {
    let mut bot = TriggerBot::new();
    assert_eq!(bot.rcs_step(true, true, 80, 0), RcsStep::Reset);
    assert_eq!(bot.rcs_started_at, None);
    assert_eq!(bot.rcs_step(false, true, 80, 100), RcsStep::Wait);
    assert_eq!(bot.rcs_started_at, Some(100));
    assert_eq!(bot.rcs_step(false, true, 80, 179), RcsStep::Wait);
    assert_eq!(bot.rcs_step(false, true, 80, 180), RcsStep::Apply);
    assert_eq!(bot.rcs_started_at, Some(100));
    assert_eq!(bot.rcs_step(false, false, 80, 200), RcsStep::Reset);
    assert_eq!(bot.rcs_started_at, None);
    assert_eq!(bot.rcs_step(false, true, 0, 300), RcsStep::Apply);
}

#[test]
fn shooting_conditions() {
    assert!(should_shoot(true, false, false, true, true, true));
    assert!(!should_shoot(false, false, false, true, true, true));
    assert!(!should_shoot(true, true, false, true, true, true));
    assert!(!should_shoot(true, false, true, true, true, true));
    assert!(!should_shoot(true, false, false, false, true, true));
    assert!(!should_shoot(true, false, false, true, false, true));
    assert!(!should_shoot(true, false, false, true, true, false));
    assert!(rcs_active(true, false, false));
    assert!(!rcs_active(true, true, false));
    assert!(weapon_has_ammo(Some(3)));
    assert!(!weapon_has_ammo(Some(0)));
    assert!(!weapon_has_ammo(Some(-1)));
    assert!(!weapon_has_ammo(None));
}

#[test]
fn target_checks() {
    assert!(is_player_pawn_class(Some("C_CSPlayerPawn")));
    assert!(!is_player_pawn_class(Some("C_CSPlayerPawnBase")));
    assert!(!is_player_pawn_class(Some("C_C4")));
    assert!(!is_player_pawn_class(None));
    assert!(passes_team_check(false, 2, None));
    assert!(passes_team_check(true, 2, Some(3)));
    assert!(!passes_team_check(true, 2, Some(2)));
    assert!(!passes_team_check(true, 2, None));
}

#[test]
fn commands_alternate_over_a_run() {
    let w = weapon(10, 20, 100);
    let mut bot = TriggerBot::new();
    let mut commands: Vec<(u64, bool)> = Vec::new();
    let mut now = 0u64;
    while now < 2000 {
        let r = bot.update(true, false, now, Some(w));
        if let Some(pressed) = r.mouse_button {
            commands.push((now, pressed));
        }
        now += 1;
    }
    assert!(commands.len() >= 4);
    assert_eq!(commands[0].1, true);
    // a press waits at least the smallest delay after the start
    assert!(commands[0].0 >= 10);
    for pair in commands.windows(2) {
        assert_eq!(pair[1].1, !pair[0].1);
        if !pair[0].1 {
            // after a release the bot sleeps for the shot duration
            assert!(pair[1].0 >= pair[0].0 + 100);
        }
    }
}

#[test]
fn failed_send_keeps_the_button_state() {
    let w = weapon(0, 0, 300);
    let mut bot = TriggerBot::new();
    assert!(bot.weapon_needed(true, false, 5));
    assert!(!bot.weapon_needed(false, false, 5));
    let r = bot.decide_update(true, false, 5, Some(w));
    assert_eq!(r.mouse_button, Some(true));
    // the command was not sent: the bot stays active with the button held
    assert_eq!(bot.state, TriggerState::Active);
    assert!(bot.trigger_active);
    assert!(!bot.weapon_needed(true, false, 6));
    assert_eq!(bot.decide_update(true, false, 6, None), no_action());
    // the target is gone: release
    assert!(bot.weapon_needed(false, false, 7));
    let r = bot.decide_update(false, false, 7, Some(w));
    assert_eq!(r.mouse_button, Some(false));
    bot.command_sent(Some(w), 7);
    assert_eq!(bot.state, TriggerState::Sleep { delay: 300, timestamp: 7 });
}
