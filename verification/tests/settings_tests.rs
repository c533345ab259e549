use controller::settings::{
    bool_false, bool_true, default_color, default_esp_configs_enabled, default_esp_mode,
    default_i32, default_key_none, default_rcs_mode, default_trigger_bot_mode,
    default_trigger_bot_weapon_settings, default_u32, default_usize, toggle_grenade_type, CategoryTable,
    GrenadeSortOrder, GrenadeType, KeyToggleMode, SpecialWeapon, TriggerBotWeaponCategory,
    TriggerBotWeaponSettings, WeaponTraits,
};

fn flags() -> WeaponTraits {
    WeaponTraits {
        special: SpecialWeapon::Regular,
        pistol: false,
        shotgun: false,
        smg: false,
        rifle: false,
        machine_gun: false,
        sniper_rifle: false,
    }
}

#[test]
fn toggle_mode_names() {
    assert_eq!(KeyToggleMode::AlwaysOn.display_name(), "On");
    assert_eq!(KeyToggleMode::Toggle.display_name(), "Toggle");
    assert_eq!(KeyToggleMode::Trigger.display_name(), "Hold");
    assert_eq!(KeyToggleMode::TriggerInverted.display_name(), "Hold Inverted");
    assert_eq!(KeyToggleMode::Off.display_name(), "Off");
    assert_eq!(KeyToggleMode::AlwaysOn.short_name(), "ON");
    assert_eq!(KeyToggleMode::Toggle.short_name(), "T");
    assert_eq!(KeyToggleMode::Trigger.short_name(), "H");
    assert_eq!(KeyToggleMode::TriggerInverted.short_name(), "HI");
    assert_eq!(KeyToggleMode::Off.short_name(), "OFF");
}

#[test]
fn categories_in_order() {
    let all = TriggerBotWeaponCategory::all();
    let names: Vec<&str> = all.iter().map(|c| c.display_name()).collect();
    assert_eq!(
        names,
        vec!["Pistols", "Deagle", "Shotguns", "Rifles", "SMGs", "SSG 08", "AWP", "Other"]
    );
    for (i, c) in all.iter().enumerate() {
        assert_eq!(c.slot(), i);
    }
}

#[test]
fn special_weapons_have_their_own_category() {
    let mut w = flags();
    w.pistol = true;
    w.special = SpecialWeapon::Deagle;
    assert_eq!(TriggerBotWeaponCategory::from_weapon(w), TriggerBotWeaponCategory::Deagle);
    w.special = SpecialWeapon::Ssg08;
    w.pistol = false;
    w.sniper_rifle = true;
    assert_eq!(TriggerBotWeaponCategory::from_weapon(w), TriggerBotWeaponCategory::SSG08);
    w.special = SpecialWeapon::Awp;
    assert_eq!(TriggerBotWeaponCategory::from_weapon(w), TriggerBotWeaponCategory::AWP);
}

#[test]
fn flags_decide_the_category_in_order() {
    let mut w = flags();
    assert_eq!(TriggerBotWeaponCategory::from_weapon(w), TriggerBotWeaponCategory::Other);
    w.machine_gun = true;
    assert_eq!(TriggerBotWeaponCategory::from_weapon(w), TriggerBotWeaponCategory::Rifle);
    w.smg = true;
    assert_eq!(TriggerBotWeaponCategory::from_weapon(w), TriggerBotWeaponCategory::SMG);
    w.shotgun = true;
    assert_eq!(TriggerBotWeaponCategory::from_weapon(w), TriggerBotWeaponCategory::Shotgun);
    w.pistol = true;
    assert_eq!(TriggerBotWeaponCategory::from_weapon(w), TriggerBotWeaponCategory::Pistol);
    let mut sniper = flags();
    sniper.sniper_rifle = true;
    assert_eq!(TriggerBotWeaponCategory::from_weapon(sniper), TriggerBotWeaponCategory::Other);
}

#[test]
fn weapon_settings_default() {
    let s = TriggerBotWeaponSettings::default();
    assert!(s.enabled);
    assert_eq!(s.delay_min, 10);
    assert_eq!(s.delay_max, 20);
    assert_eq!(s.shot_duration, 400);
}

#[test]
fn grenade_type_names() {
    assert_eq!(GrenadeType::Smoke.display_name(), "Smoke");
    assert_eq!(GrenadeType::Molotov.display_name(), "Molotov");
    assert_eq!(GrenadeType::Flashbang.display_name(), "Flashbang");
    assert_eq!(GrenadeType::Explosive.display_name(), "Explosive");
}

#[test]
fn defaults() {
    assert!(bool_true());
    assert!(!bool_false());
    assert_eq!(default_u32::<400>(), 400);
    assert_eq!(default_i32::<16364>(), 16364);
    assert_eq!(default_usize::<32>(), 32);
    assert_eq!(default_color::<0, 255, 0, 255>(), [0, 255, 0, 255]);
    assert!(default_key_none::<u8>().is_none());
    assert_eq!(default_esp_mode(), KeyToggleMode::AlwaysOn);
    assert_eq!(default_trigger_bot_mode(), KeyToggleMode::Trigger);
    assert_eq!(default_rcs_mode(), KeyToggleMode::Off);
    assert_eq!(GrenadeSortOrder::default(), GrenadeSortOrder::Alphabetical);
    let enabled = default_esp_configs_enabled();
    assert_eq!(enabled, vec![("player.enemy".to_string(), true)]);
}

#[test]
fn default_weapon_table_covers_every_category() {
    let table = default_trigger_bot_weapon_settings();
    for c in TriggerBotWeaponCategory::all() {
        let s = table.get(c).expect("every category has settings");
        assert_eq!(s.shot_duration, 400);
        assert_eq!(table.get_or_other(c).delay_max, 20);
    }
}

#[test]
fn table_falls_back_to_other() {
    let table: CategoryTable<u32> = CategoryTable::new();
    assert!(table.get(TriggerBotWeaponCategory::Rifle).is_none());
    let table = table.with_entry(TriggerBotWeaponCategory::Other, 7);
    assert_eq!(*table.get_or_other(TriggerBotWeaponCategory::Rifle), 7);
    let table = table.with_entry(TriggerBotWeaponCategory::Rifle, 3);
    assert_eq!(*table.get_or_other(TriggerBotWeaponCategory::Rifle), 3);
    assert_eq!(*table.get_or_other(TriggerBotWeaponCategory::Pistol), 7);
    assert_eq!(table.get(TriggerBotWeaponCategory::Rifle), Some(&3));
    let filled = CategoryTable::filled(5u8);
    assert_eq!(filled.get(TriggerBotWeaponCategory::AWP), Some(&5));
}

fn names(list: &[&str]) -> Vec<String> {
    list.iter().map(|s| s.to_string()).collect()
}

#[test]
fn sort_alphabetical() {
    let n = names(&["Window", "Arch", "B site", "Arch", "apps"]);
    let mut order: Vec<usize> = (0..n.len()).collect();
    GrenadeSortOrder::Alphabetical.sort(&n, &mut order);
    let sorted: Vec<&str> = order.iter().map(|&i| n[i].as_str()).collect();
    assert_eq!(sorted, vec!["Arch", "Arch", "B site", "Window", "apps"]);
    let mut seen = order.clone();
    seen.sort();
    assert_eq!(seen, vec![0, 1, 2, 3, 4]);
}

#[test]
fn sort_reverse() {
    let n = names(&["mid", "ct", "xbox", "a", "ctx"]);
    let mut order: Vec<usize> = vec![0, 1, 2, 3, 4];
    GrenadeSortOrder::AlphabeticalReverse.sort(&n, &mut order);
    let sorted: Vec<&str> = order.iter().map(|&i| n[i].as_str()).collect();
    assert_eq!(sorted, vec!["xbox", "mid", "ctx", "ct", "a"]);
}

#[test]
fn sort_matches_string_order() {
    let n = names(&["é", "z", "Ω", "zz", "", "ä", "a\u{10000}"]);
    let mut order: Vec<usize> = (0..n.len()).collect();
    GrenadeSortOrder::Alphabetical.sort(&n, &mut order);
    let sorted: Vec<String> = order.iter().map(|&i| n[i].clone()).collect();
    let mut expected = n.clone();
    expected.sort();
    assert_eq!(sorted, expected);
}

#[test]
fn sort_subset_of_references() {
    let n = names(&["c", "a", "b"]);
    let mut order: Vec<usize> = vec![2, 0];
    GrenadeSortOrder::Alphabetical.sort(&n, &mut order);
    assert_eq!(order, vec![2, 0]);
    let mut empty: Vec<usize> = Vec::new();
    GrenadeSortOrder::Alphabetical.sort(&n, &mut empty);
    assert!(empty.is_empty());
}

#[test]
fn delays_are_put_in_order() {
    let w = TriggerBotWeaponSettings { enabled: false, delay_min: 90, delay_max: 30, shot_duration: 250 };
    let o = w.with_ordered_delays();
    assert_eq!((o.delay_min, o.delay_max, o.enabled, o.shot_duration), (30, 90, false, 250));
    let w = TriggerBotWeaponSettings { enabled: true, delay_min: 5, delay_max: 8, shot_duration: 1 };
    let o = w.with_ordered_delays();
    assert_eq!((o.delay_min, o.delay_max), (5, 8));
}

#[test]
fn grenade_types_toggle() {
    let mut types = vec![GrenadeType::Smoke, GrenadeType::Molotov];
    toggle_grenade_type(&mut types, GrenadeType::Flashbang);
    assert_eq!(types, vec![GrenadeType::Smoke, GrenadeType::Molotov, GrenadeType::Flashbang]);
    toggle_grenade_type(&mut types, GrenadeType::Smoke);
    assert_eq!(types, vec![GrenadeType::Molotov, GrenadeType::Flashbang]);
    toggle_grenade_type(&mut types, GrenadeType::Smoke);
    assert_eq!(types, vec![GrenadeType::Molotov, GrenadeType::Flashbang, GrenadeType::Smoke]);
}
