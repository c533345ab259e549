use controller::esp::{
    esp_player_drawable, flags_line, is_enemy, parent_enabled, player_config_action,
    resolve_player_config, utility_line, EspInfoPosition, InfoLineCounter, PlayerConfigAction,
    SelectorStatus,
};

fn status(enabled: bool, has_player_config: bool) -> SelectorStatus {
    SelectorStatus { enabled, has_player_config }
}

#[test]
fn most_specific_enabled_config_wins() {
    let path = vec![status(false, true), status(true, false), status(true, true), status(true, true)];
    assert_eq!(resolve_player_config(&path), Some(2));
    let path = vec![status(true, true), status(true, true)];
    assert_eq!(resolve_player_config(&path), Some(0));
    let path = vec![status(false, true), status(true, false)];
    assert_eq!(resolve_player_config(&path), None);
    assert_eq!(resolve_player_config(&vec![]), None);
}

#[test]
fn enabled_through_parent() {
    assert!(parent_enabled(true, &vec![]));
    assert!(!parent_enabled(false, &vec![]));
    assert!(parent_enabled(false, &vec![false, true]));
    assert!(!parent_enabled(false, &vec![false, false]));
}

#[test]
fn info_lines_stack_per_side() {
    let mut counter = InfoLineCounter::new();
    assert_eq!(counter.next_line(EspInfoPosition::Left), 0);
    assert_eq!(counter.next_line(EspInfoPosition::Left), 1);
    assert_eq!(counter.next_line(EspInfoPosition::Bottom), 0);
    assert_eq!(counter.next_line(EspInfoPosition::Left), 2);
    assert_eq!(counter.next_line(EspInfoPosition::Top), 0);
    assert_eq!(counter.line_counts, [3, 0, 1, 1]);
}

#[test]
fn drawn_players() {
    assert!(esp_player_drawable(100, true));
    assert!(!esp_player_drawable(0, true));
    assert!(!esp_player_drawable(-5, true));
    assert!(!esp_player_drawable(50, false));
    assert!(is_enemy(2, 3));
    assert!(!is_enemy(3, 3));
}

#[test]
fn utility_text() {
    assert_eq!(utility_line(0, false, false, false, false, false), None);
    assert_eq!(
        utility_line(2, true, false, false, false, true),
        Some("Flashbang x2, Smoke, Decoy".to_string())
    );
    assert_eq!(
        utility_line(0, false, true, true, true, false),
        Some("HE Grenade, Molotov, Incendiary".to_string())
    );
    assert_eq!(utility_line(-1, false, false, false, false, false), None);
}

#[test]
fn flag_text() {
    assert_eq!(flags_line(false, false, false, false), None);
    assert_eq!(flags_line(true, true, true, true), Some("Kit, Bomb Carrier, scoped, flashed".to_string()));
    assert_eq!(flags_line(false, false, true, false), Some("scoped".to_string()));
}

#[test]
fn stored_player_config_actions() {
    assert_eq!(player_config_action(None), PlayerConfigAction::Insert);
    assert_eq!(player_config_action(Some(true)), PlayerConfigAction::Keep);
    assert_eq!(player_config_action(Some(false)), PlayerConfigAction::Replace);
}
