use walli::tray::{hide_on_blur, is_wake_gap, menu_action, MenuAction};

#[test]
fn menu_items() {
    assert_eq!(menu_action("next"), MenuAction::Next);
    assert_eq!(menu_action("pause"), MenuAction::TogglePause);
    assert_eq!(menu_action("settings"), MenuAction::ShowSettings);
    assert_eq!(menu_action("quit"), MenuAction::Quit);
    assert_eq!(menu_action("other"), MenuAction::Ignore);
}

#[test]
fn focus_grace_and_wake() {
    assert!(!hide_on_blur(1_400, 1_000));
    assert!(hide_on_blur(1_401, 1_000));
    assert!(!is_wake_gap(120_000_000_000));
    assert!(is_wake_gap(120_000_000_001));
    assert!(!is_wake_gap(30_000_000_000));
}
