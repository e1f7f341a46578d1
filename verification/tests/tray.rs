use whatrust::tray::{
    badge_presentation, badge_state, click_toggles, menu_action, reload_target, tray_setup, tray_toggle,
    BadgeState, ButtonState, MouseButton, TrayMenuAction,
};
use whatrust::window::{ShowTarget, ToggleOutcome};

#[test]
fn zero_is_clear() {
    assert_eq!(badge_state(0), BadgeState::Clear);
}

#[test]
fn positive_is_count() {
    assert_eq!(badge_state(1), BadgeState::Count(1));
    assert_eq!(badge_state(42), BadgeState::Count(42));
}

#[test]
fn max_count_is_count() {
    assert_eq!(badge_state(u32::MAX), BadgeState::Count(u32::MAX));
}

#[test]
fn clear_presentation() {
    let p = badge_presentation(0);
    assert_eq!(p.title, None);
    assert_eq!(p.tooltip, "WhatsApp");
    assert!(!p.unread_icon);
}

#[test]
fn count_presentation() {
    let p = badge_presentation(7);
    assert_eq!(p.title, Some("7".to_string()));
    assert_eq!(p.tooltip, "7 unread — WhatsApp");
    assert!(p.unread_icon);

    let p = badge_presentation(1040);
    assert_eq!(p.title, Some("1040".to_string()));
    assert_eq!(p.tooltip, "1040 unread — WhatsApp");

    let p = badge_presentation(u32::MAX);
    assert_eq!(p.title, Some("4294967295".to_string()));
}

#[test]
fn menu_ids() {
    assert_eq!(menu_action("show"), TrayMenuAction::ToggleActive);
    assert_eq!(menu_action("settings"), TrayMenuAction::OpenSettings);
    assert_eq!(menu_action("reload"), TrayMenuAction::ReloadMain);
    assert_eq!(menu_action("quit"), TrayMenuAction::Quit);
    assert_eq!(menu_action("Quit"), TrayMenuAction::Ignore);
    assert_eq!(menu_action(""), TrayMenuAction::Ignore);
}

#[test]
fn tray_is_set_up_with_its_menu() {
    let t = tray_setup();
    assert_eq!(t.id, "main-tray");
    assert_eq!(t.tooltip, "WhatsApp");
    assert!(!t.show_menu_on_left_click);
    let entries: Vec<(String, String)> = t.menu.into_iter().map(|e| (e.id, e.label)).collect();
    assert_eq!(
        entries,
        vec![
            ("show".to_string(), "Show / Hide".to_string()),
            ("settings".to_string(), "Settings".to_string()),
            ("reload".to_string(), "Reload".to_string()),
            ("quit".to_string(), "Quit".to_string()),
        ]
    );
}

#[test]
fn left_release_toggles() {
    assert!(click_toggles(MouseButton::Left, ButtonState::Up));
    assert!(!click_toggles(MouseButton::Left, ButtonState::Down));
    assert!(!click_toggles(MouseButton::Right, ButtonState::Up));
    assert!(!click_toggles(MouseButton::Middle, ButtonState::Up));
}

fn labels(ls: &[&str]) -> Vec<String> {
    ls.iter().map(|s| s.to_string()).collect()
}

#[test]
fn tray_toggle_brings_hidden_account_window_back() {
    let ls = labels(&["wa-default", "settings"]);
    // No window is called "main": the active account window is what toggles.
    assert_eq!(
        tray_toggle(true, Some("wa-default"), Some(false), &ls),
        ToggleOutcome::Show(ShowTarget::Account("wa-default".to_string()))
    );
    assert_eq!(tray_toggle(true, Some("wa-default"), Some(true), &ls), ToggleOutcome::HideActive);
    assert_eq!(
        tray_toggle(false, Some("wa-default"), Some(false), &ls),
        ToggleOutcome::Show(ShowTarget::LockScreen)
    );
    assert_eq!(
        tray_toggle(true, None, None, &ls),
        ToggleOutcome::Show(ShowTarget::Account("wa-default".to_string()))
    );
}

#[test]
fn reload_targets_the_main_window_only() {
    assert_eq!(reload_target(&labels(&["settings", "main", "wa-home"])), Some("main".to_string()));
    // Account windows are not reloaded.
    assert_eq!(reload_target(&labels(&["settings", "wa-home", "wa-work"])), None);
    assert_eq!(reload_target(&labels(&[])), None);
}
