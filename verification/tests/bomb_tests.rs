use controller::bomb::{
    bomb_panel_visible, bomb_site_heading, bomb_site_name, bomb_status_message,
    BombLabelIndicator, PlantedC4Phase,
};

#[test]
fn site_names() {
    assert_eq!(bomb_site_name(0), "A");
    assert_eq!(bomb_site_name(1), "B");
    assert_eq!(bomb_site_heading(0), "C4  /  SITE A");
    assert_eq!(bomb_site_heading(1), "C4  /  SITE B");
}

#[test]
fn panel_and_status() {
    assert!(!bomb_panel_visible(true, PlantedC4Phase::NotPlanted));
    assert!(!bomb_panel_visible(false, PlantedC4Phase::Active));
    assert!(bomb_panel_visible(true, PlantedC4Phase::Defused));
    assert_eq!(bomb_status_message(PlantedC4Phase::Active, false), Some("Not defusing"));
    assert_eq!(bomb_status_message(PlantedC4Phase::Active, true), None);
    assert_eq!(bomb_status_message(PlantedC4Phase::Defused, false), Some("Bomb has been defused"));
    assert_eq!(bomb_status_message(PlantedC4Phase::Detonated, true), Some("Bomb has been detonated"));
    assert_eq!(bomb_status_message(PlantedC4Phase::NotPlanted, false), None);
}

#[test]
fn bomb_labels() {
    let labels = BombLabelIndicator::new();
    assert!(labels.labels_planted(true, PlantedC4Phase::Active));
    assert!(!labels.labels_planted(true, PlantedC4Phase::NotPlanted));
    assert!(!labels.labels_planted(false, PlantedC4Phase::Active));
    assert!(labels.searches_dropped(true, false));
    assert!(!labels.searches_dropped(true, true));
    assert!(labels.is_dropped_bomb(Some("C_C4"), false));
    assert!(!labels.is_dropped_bomb(Some("C_C4"), true));
    assert!(!labels.is_dropped_bomb(Some("C_Chicken"), false));
    assert!(!labels.is_dropped_bomb(None, false));
}
