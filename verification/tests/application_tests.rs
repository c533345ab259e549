use controller::application::{
    check_launch_expiry, check_launch_token, check_launch_token_fields, check_launch_verification,
    check_launch_verification_field, watermark_items, LaunchTokenError, LaunchTokenFields,
    WatermarkItem,
    launch_nonce_valid, launch_token_accepted, launch_token_expired, map_label, toggle_label,
    ReadCallCounter, SettingsPanel, UpdateGuard,
};
use controller::settings::KeyToggleMode;

#[test]
fn closing_the_panel_saves_once() {
    let mut panel = SettingsPanel::new();
    assert!(panel.toggle());
    assert!(!panel.take_dirty());
    assert!(!panel.toggle());
    assert!(panel.take_dirty());
    assert!(!panel.take_dirty());
    panel.note_change(false);
    assert!(!panel.take_dirty());
    panel.note_change(true);
    assert!(panel.take_dirty());
}

#[test]
fn update_guard_pauses_after_repeated_failures() {
    let mut g = UpdateGuard::new();
    for i in 0..10 {
        assert!(g.before_update(i));
        assert!(g.after_update(true, i));
    }
    assert_eq!(g.fail_count(), 10);
    assert!(g.before_update(10));
    assert!(!g.after_update(true, 10));
    assert_eq!(g.fail_count(), 0);
    assert_eq!(g.pause_started(), Some(10));
    assert!(!g.before_update(500));
    assert!(!g.before_update(1010));
    assert!(g.before_update(1011));
    assert_eq!(g.pause_started(), None);
    assert!(g.after_update(false, 1011));
    assert_eq!(g.fail_count(), 0);
}

#[test]
fn read_calls_per_frame() {
    let mut c = ReadCallCounter::new();
    c.record(100);
    assert_eq!(c.frame_read_calls, 100);
    c.record(130);
    assert_eq!(c.frame_read_calls, 30);
    assert_eq!(c.last_total_read_calls, 130);
}

#[test]
fn launch_token_checks() {
    let nonce = "0123456789abcdefABCDEF0123456789abcdef0123456789abcdef0123456789";
    assert_eq!(nonce.len(), 64);
    assert!(launch_nonce_valid(nonce));
    assert!(!launch_nonce_valid(&nonce[1..]));
    assert!(!launch_nonce_valid(&format!("{}0", nonce)));
    let bad = nonce.replacen('a', "g", 1);
    assert!(!launch_nonce_valid(&bad));
    assert!(launch_token_expired(100, 100));
    assert!(!launch_token_expired(101, 100));
    assert!(launch_token_accepted(Some(true)));
    assert!(!launch_token_accepted(Some(false)));
    assert!(!launch_token_accepted(None));
}

#[test]
fn watermark_labels() {
    assert_eq!(toggle_label("TRG", true, KeyToggleMode::Trigger), "TRG ON / H");
    assert_eq!(toggle_label("RCS", false, KeyToggleMode::Off), "RCS OFF / OFF");
    assert_eq!(toggle_label("ESP", true, KeyToggleMode::TriggerInverted), "ESP ON / HI");
    assert_eq!(map_label(Some("de_dust2".to_string())), "de_dust2");
    assert_eq!(map_label(None), "Unknown");
}

const NONCE: &str = "0123456789abcdefABCDEF0123456789abcdef0123456789abcdef0123456789";

fn token_text(skip: &str) -> String {
    let fields = [
        ("token", "\"cred\"".to_string()),
        ("endpoint", "\"https://auth.example\"".to_string()),
        ("hwid", "\"HW-1\"".to_string()),
        ("anonKey", "\"key\"".to_string()),
        ("expiresAt", "1700000000000".to_string()),
        ("nonce", format!("\"{}\"", NONCE)),
    ];
    let parts: Vec<String> = fields
        .iter()
        .filter(|(name, _)| *name != skip)
        .map(|(name, value)| format!("\"{}\": {}", name, value))
        .collect();
    format!("{{{}}}", parts.join(", "))
}

#[test]
fn launch_token_is_read_from_json() {
    let t = check_launch_token(&token_text("")).ok().unwrap();
    assert_eq!(t.token, "cred");
    assert_eq!(t.endpoint, "https://auth.example");
    assert_eq!(t.hwid, "HW-1");
    assert_eq!(t.anon_key, "key");
    assert_eq!(t.expires_at, 1700000000000);
}

#[test]
fn launch_token_errors_come_in_order() {
    assert_eq!(check_launch_token("not json").err(), Some(LaunchTokenError::Invalid));
    assert_eq!(check_launch_token("{}").err(), Some(LaunchTokenError::NoCredential));
    assert_eq!(check_launch_token("[1, 2]").err(), Some(LaunchTokenError::NoCredential));
    assert_eq!(check_launch_token(&token_text("token")).err(), Some(LaunchTokenError::NoCredential));
    assert_eq!(check_launch_token(&token_text("endpoint")).err(), Some(LaunchTokenError::NoEndpoint));
    assert_eq!(check_launch_token(&token_text("hwid")).err(), Some(LaunchTokenError::NoHwid));
    assert_eq!(check_launch_token(&token_text("anonKey")).err(), Some(LaunchTokenError::NoApiKey));
    assert_eq!(check_launch_token(&token_text("expiresAt")).err(), Some(LaunchTokenError::NoExpiry));
    assert_eq!(check_launch_token(&token_text("nonce")).err(), Some(LaunchTokenError::NoNonce));
    let text = token_text("").replace(NONCE, "abc");
    assert_eq!(check_launch_token(&text).err(), Some(LaunchTokenError::NonceInvalid));
    // a field of the wrong type counts as missing
    let text = token_text("").replace("1700000000000", "\"soon\"");
    assert_eq!(check_launch_token(&text).err(), Some(LaunchTokenError::NoExpiry));
    assert_eq!(LaunchTokenError::NoHwid.message(), "The launcher token has no HWID");
    assert_eq!(LaunchTokenError::Rejected.message(), "The launcher token was rejected");
}

#[test]
fn launch_token_fields_are_checked() {
    assert_eq!(check_launch_token_fields(None).err(), Some(LaunchTokenError::Invalid));
    let fields = LaunchTokenFields {
        token: Some("c".to_string()),
        endpoint: Some("e".to_string()),
        hwid: Some("h".to_string()),
        anon_key: None,
        expires_at: None,
        nonce: None,
    };
    assert_eq!(check_launch_token_fields(Some(fields)).err(), Some(LaunchTokenError::NoApiKey));
}

#[test]
fn launch_expiry_and_verification() {
    assert_eq!(check_launch_expiry(100, 100), Err(LaunchTokenError::Expired));
    assert_eq!(check_launch_expiry(101, 100), Ok(()));
    assert_eq!(check_launch_verification(b"{\"verified\": true}"), Ok(()));
    assert_eq!(check_launch_verification(b"{\"verified\": false}"), Err(LaunchTokenError::Rejected));
    assert_eq!(check_launch_verification(b"{}"), Err(LaunchTokenError::Rejected));
    assert_eq!(check_launch_verification(b"<html>"), Err(LaunchTokenError::ResponseInvalid));
    assert_eq!(check_launch_verification_field(Some(Some(true))), Ok(()));
    assert_eq!(check_launch_verification_field(None), Err(LaunchTokenError::ResponseInvalid));
}

#[test]
fn watermark_item_order() {
    assert_eq!(watermark_items(false, false, false, false, false), vec![WatermarkItem::Title]);
    assert_eq!(
        watermark_items(true, false, true, true, true),
        vec![
            WatermarkItem::Title,
            WatermarkItem::Fps,
            WatermarkItem::Rcs,
            WatermarkItem::MapName,
            WatermarkItem::Esp
        ]
    );
}
