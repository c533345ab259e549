use controller::grenade::{
    apply_pending_navigation, take_new_spot, delete_spot, merge_spot_lists, position_of_id, spot_total, GrenadeHelperTransferDirection, GrenadeHelperTransferState,
    GrenadeSettingsTarget, SpotIdCounter, TransferResult,
};

#[test]
fn target_tokens() {
    assert_eq!(GrenadeSettingsTarget::General.ui_token(), "_settings");
    assert_eq!(GrenadeSettingsTarget::MapType("Defusal".to_string()).ui_token(), "map_type_Defusal");
    let map = GrenadeSettingsTarget::GameMap {
        map_name: "de_mirage".to_string(),
        display_name: "Mirage".to_string(),
    };
    assert_eq!(map.ui_token(), "map_de_mirage");
    assert_eq!(GrenadeSettingsTarget::General.ident_level(), 0);
    assert_eq!(GrenadeSettingsTarget::MapType("x".to_string()).ident_level(), 0);
    assert_eq!(map.ident_level(), 1);
    assert!(map.same_as(&map.clone()));
    assert!(!map.same_as(&GrenadeSettingsTarget::General));
    assert!(GrenadeSettingsTarget::General.same_as(&GrenadeSettingsTarget::General));
    assert!(!GrenadeSettingsTarget::MapType("a".to_string())
        .same_as(&GrenadeSettingsTarget::MapType("b".to_string())));
    assert!(map.selectable());
    assert!(!GrenadeSettingsTarget::MapType("a".to_string()).selectable());
}

#[test]
fn spot_ids_count_up() {
    let mut c = SpotIdCounter::new();
    assert_eq!(c.new_id(), 1);
    assert_eq!(c.new_id(), 2);
    let mut last = SpotIdCounter { next: usize::MAX };
    assert_eq!(last.new_id(), usize::MAX);
    assert_eq!(last.new_id(), 0);
}

#[test]
fn import_counts_and_lookup() {
    let empty: Vec<(String, Vec<u32>)> = vec![];
    assert_eq!(spot_total(&empty), Some(0));
    let list = vec![
        ("de_dust2".to_string(), vec![1u32, 2, 3]),
        ("de_nuke".to_string(), vec![]),
        ("de_inferno".to_string(), vec![4, 5, 6, 7]),
    ];
    assert_eq!(spot_total(&list), Some(7));
    assert_eq!(position_of_id(&vec![5, 7, 7], 7), Some(1));
    assert_eq!(position_of_id(&vec![5, 7], 9), None);
}

#[test]
fn transfer_workflow() {
    type State = GrenadeHelperTransferState<u32, String>;
    let mut s: State = GrenadeHelperTransferState::new();
    assert!(s.buttons_enabled());
    assert!(s.request(GrenadeHelperTransferDirection::Import));
    assert!(!s.buttons_enabled());
    assert!(!s.request(GrenadeHelperTransferDirection::Export));
    assert_eq!(s.launch(), Some(GrenadeHelperTransferDirection::Import));
    assert_eq!(s.launch(), None);
    let loaded = vec![("de_mirage".to_string(), vec![1, 2]), ("de_nuke".to_string(), vec![3])];
    s.finish(GrenadeHelperTransferDirection::Import, Ok(TransferResult::Loaded { elements: loaded.clone() }));
    assert_eq!(s.confirm_replace(), Some(loaded));
    assert!(matches!(s, GrenadeHelperTransferState::ImportSuccess { count: 3, replacing: true }));
    assert_eq!(s.confirm_replace(), None);
    s.dismiss();
    assert!(matches!(s, GrenadeHelperTransferState::Idle));

    assert!(s.request(GrenadeHelperTransferDirection::Export));
    s.dismiss();
    assert!(matches!(s, GrenadeHelperTransferState::Pending { .. }));
    s.launch();
    s.finish(GrenadeHelperTransferDirection::Export, Err("disk full".to_string()));
    match &s {
        GrenadeHelperTransferState::Failed { direction, message } => {
            assert_eq!(*direction, GrenadeHelperTransferDirection::Export);
            assert_eq!(message, "disk full");
        }
        _ => panic!("expected a failure"),
    }
    s.dismiss();
    s.request(GrenadeHelperTransferDirection::Export);
    s.launch();
    s.finish(GrenadeHelperTransferDirection::Export, Ok(TransferResult::Exported { target_path: "spots.vgs".to_string() }));
    assert!(matches!(s, GrenadeHelperTransferState::ExportSuccess { .. }));
    s.dismiss();
    s.request(GrenadeHelperTransferDirection::Import);
    s.launch();
    s.finish(GrenadeHelperTransferDirection::Import, Ok(TransferResult::Cancelled));
    assert!(s.buttons_enabled());
}

#[test]
fn import_adds_to_current_spots() {
    type State = GrenadeHelperTransferState<u32, String>;
    let mut s: State = GrenadeHelperTransferState::new();
    s.request(GrenadeHelperTransferDirection::Import);
    s.launch();
    let loaded = vec![
        ("de_mirage".to_string(), vec![10, 11]),
        ("de_ancient".to_string(), vec![12]),
    ];
    s.finish(GrenadeHelperTransferDirection::Import, Ok(TransferResult::Loaded { elements: loaded }));
    let current = vec![("de_mirage".to_string(), vec![1, 2]), ("de_nuke".to_string(), vec![3])];
    let merged = s.confirm_add(current.clone());
    assert_eq!(
        merged,
        vec![
            ("de_mirage".to_string(), vec![1, 2, 10, 11]),
            ("de_nuke".to_string(), vec![3]),
            ("de_ancient".to_string(), vec![12]),
        ]
    );
    assert!(matches!(s, GrenadeHelperTransferState::ImportSuccess { count: 3, replacing: false }));
    // Without a pending import the current spots come back unchanged.
    assert_eq!(s.confirm_add(current.clone()), current);
    assert!(matches!(s, GrenadeHelperTransferState::ImportSuccess { count: 3, replacing: false }));
}

#[test]
fn merge_keeps_order_within_a_map() {
    let current: Vec<(String, Vec<u32>)> = vec![];
    let imported = vec![
        ("de_vertigo".to_string(), vec![1]),
        ("de_vertigo".to_string(), vec![2, 3]),
    ];
    assert_eq!(merge_spot_lists(current, imported), vec![("de_vertigo".to_string(), vec![1, 2, 3])]);
}

#[test]
fn spot_ids_are_unique_and_nonzero() {
    let mut c = SpotIdCounter::new();
    let ids: Vec<usize> = (0..200).map(|_| c.new_id()).collect();
    assert!(ids.iter().all(|&id| id >= 1));
    for (i, a) in ids.iter().enumerate() {
        for b in &ids[i + 1..] {
            assert!(a < b);
        }
    }
}

#[test]
fn deleting_a_spot_by_id() {
    let mut spots = vec!["a", "b", "c"];
    let ids = vec![4, 9, 9];
    assert!(delete_spot(&mut spots, &ids, 9));
    assert_eq!(spots, vec!["a", "c"]);
    let ids = vec![4, 9];
    assert!(!delete_spot(&mut spots, &ids, 7));
    assert_eq!(spots, vec!["a", "c"]);
}

#[test]
fn pending_navigation_is_applied() {
    let mut target = GrenadeSettingsTarget::General;
    let mut selected = 7usize;
    let mut new_item = Some("draft");
    apply_pending_navigation(&mut target, &mut selected, &mut new_item, None, None);
    assert!(target.same_as(&GrenadeSettingsTarget::General));
    assert_eq!((selected, new_item), (7, Some("draft")));
    let map = GrenadeSettingsTarget::GameMap { map_name: "de_nuke".to_string(), display_name: "Nuke".to_string() };
    apply_pending_navigation(&mut target, &mut selected, &mut new_item, Some(map.clone()), None);
    assert!(target.same_as(&map));
    assert_eq!((selected, new_item), (0, None));
    new_item = Some("other");
    apply_pending_navigation(&mut target, &mut selected, &mut new_item, None, Some(12));
    assert_eq!((selected, new_item), (12, None));
}

#[test]
fn created_spot_gets_a_fresh_id() {
    let mut ids = SpotIdCounter::new();
    let mut new_item = Some("spot");
    assert_eq!(take_new_spot(&mut new_item, &mut ids), Some((1, "spot")));
    assert_eq!(new_item, None);
    assert_eq!(take_new_spot(&mut new_item, &mut ids), None);
    assert_eq!(ids.next, 2);
}
