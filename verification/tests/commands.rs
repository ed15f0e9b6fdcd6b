use walli::commands::{
    api_key_setting, bool_text, collection_id_text, is_writable, per_display_mode, plan_settings_patch,
    toggled_paused, AppState, PatchValue, SettingsDto,
};
use walli::errors::AppError;
use walli::settings::SettingsMap;
use walli::sources::SourceKind;

fn map(pairs: &[(&str, &str)]) -> SettingsMap {
    SettingsMap::from_pairs(pairs.iter().map(|(k, v)| (k.to_string(), v.to_string())).collect())
}

#[test]
fn settings_dto() {
    let m = map(&[
        ("interval_seconds", "7200"),
        ("paused", "false"),
        ("active_collection_id", "3"),
        ("source_unsplash_enabled", "true"),
        ("source_bing_enabled", "true"),
        ("unsplash_api_key", "k"),
    ]);
    assert_eq!(
        SettingsDto::from_settings(&m, true),
        SettingsDto {
            interval_seconds: 7200,
            paused: false,
            active_collection_id: Some(3),
            source_unsplash_enabled: true,
            source_bing_enabled: true,
            unsplash_key_set: true,
            login_at_startup: true,
        }
    );
    let d = SettingsDto::from_settings(&map(&[("unsplash_api_key", "")]), false);
    assert_eq!(d.interval_seconds, 3600);
    assert!(!d.unsplash_key_set);
    assert_eq!(d.active_collection_id, None);
    assert_eq!(SettingsDto::default().interval_seconds, 0);
}

#[test]
fn app_state() {
    let s = AppState::from_parts(&map(&[("paused", "true"), ("active_collection_id", "x")]), None);
    assert!(s.paused);
    assert_eq!(s.interval_seconds, 3600);
    assert_eq!(s.active_collection_id, None);
    assert!(s.current.is_none());
    assert!(s.error_banner.is_none());
}

#[test]
fn small_settings_texts() {
    assert_eq!(bool_text(true), "true");
    assert_eq!(bool_text(false), "false");
    assert_eq!(toggled_paused(&map(&[("paused", "true")])), "false");
    assert_eq!(toggled_paused(&map(&[])), "true");
    assert_eq!(collection_id_text(-12), "-12");
    assert_eq!(api_key_setting(SourceKind::Unsplash), "unsplash_api_key");
    assert_eq!(api_key_setting(SourceKind::Bing), "bing_api_key");
    assert!(per_display_mode(&map(&[("per_display_mode", "true")])));
    assert!(!per_display_mode(&map(&[])));
}

#[test]
fn writable_keys() {
    for k in ["interval_seconds", "paused", "active_collection_id", "source_unsplash_enabled", "source_bing_enabled"] {
        assert!(is_writable(k));
    }
    assert!(!is_writable("unsplash_api_key"));
    assert!(!is_writable("last_rotation_at"));
}

#[test]
fn patch_plans() {
    let entries = vec![
        ("interval_seconds".to_string(), PatchValue::Number("60".to_string())),
        ("paused".to_string(), PatchValue::Bool(true)),
        ("active_collection_id".to_string(), PatchValue::Null),
        ("source_bing_enabled".to_string(), PatchValue::Other),
        ("source_unsplash_enabled".to_string(), PatchValue::Text("false".to_string())),
    ];
    let p = plan_settings_patch(&entries);
    assert!(p.rejected.is_none());
    let w: Vec<(&str, &str)> = p.writes.iter().map(|(k, v)| (k.as_str(), v.as_str())).collect();
    assert_eq!(
        w,
        vec![
            ("interval_seconds", "60"),
            ("paused", "true"),
            ("active_collection_id", ""),
            ("source_unsplash_enabled", "false")
        ]
    );

    let entries = vec![
        ("paused".to_string(), PatchValue::Bool(false)),
        ("unsplash_api_key".to_string(), PatchValue::Text("x".to_string())),
        ("interval_seconds".to_string(), PatchValue::Number("5".to_string())),
    ];
    let p = plan_settings_patch(&entries);
    assert_eq!(p.writes, vec![("paused".to_string(), "false".to_string())]);
    assert_eq!(p.rejected, Some(AppError::Invalid("setting 'unsplash_api_key' is not writable".to_string())));
}

#[test]
fn settings_written_by_the_window_read_back() {
    let mut m = map(&[("interval_seconds", "3600"), ("paused", "true")]);
    let entries = vec![
        ("interval_seconds".to_string(), PatchValue::Number("7200".to_string())),
        ("paused".to_string(), PatchValue::Bool(false)),
        ("active_collection_id".to_string(), PatchValue::Text(collection_id_text(42))),
    ];
    for (k, v) in plan_settings_patch(&entries).writes {
        m.insert(k, v);
    }
    let d = SettingsDto::from_settings(&m, false);
    assert_eq!(d.interval_seconds, 7200);
    assert!(!d.paused);
    assert_eq!(d.active_collection_id, Some(42));
}

#[test]
fn pause_item_flips_pause() {
    let mut m = map(&[("paused", "false")]);
    for expected in [true, false, true] {
        let v = toggled_paused(&m);
        m.insert("paused".to_string(), v);
        assert_eq!(SettingsDto::from_settings(&m, false).paused, expected);
    }
}
