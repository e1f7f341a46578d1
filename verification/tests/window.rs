use whatrust::window::{
    account_window_spec, account_window_title, apply_isolation, ensure_isolation_supported,
    is_account_window_label, permission_decision, account_window_opening, settings_window_opening,
    settings_window_spec, linux_media_settings, WindowOpening, show_active, toggle_active, toggle_decision, window_label,
    Isolation, PermissionDecision, PermissionKind, Platform, ShowTarget, ToggleAct, ToggleOutcome, CHROME_UA,
};

#[test]
fn visible_active_window_is_hidden() {
    assert_eq!(toggle_decision(Some(true)), ToggleAct::Hide);
}

#[test]
fn hidden_active_window_is_shown() {
    assert_eq!(toggle_decision(Some(false)), ToggleAct::Show);
}

#[test]
fn no_active_window_is_shown() {
    assert_eq!(toggle_decision(None), ToggleAct::Show);
}

fn labels(ls: &[&str]) -> Vec<String> {
    ls.iter().map(|s| s.to_string()).collect()
}

#[test]
fn locked_app_reveals_lock_screen() {
    let ls = labels(&["wa-default", "settings"]);
    assert_eq!(show_active(false, Some("wa-default"), &ls), ShowTarget::LockScreen);
    assert_eq!(show_active(false, None, &labels(&[])), ShowTarget::LockScreen);
}

#[test]
fn active_account_window_is_shown() {
    let ls = labels(&["settings", "wa-default", "wa-work"]);
    assert_eq!(show_active(true, Some("wa-work"), &ls), ShowTarget::Account("wa-work".to_string()));
}

#[test]
fn falls_back_to_first_account_window() {
    let ls = labels(&["settings", "wa-home", "wa-work"]);
    // Active window no longer open.
    assert_eq!(show_active(true, Some("wa-gone"), &ls), ShowTarget::Account("wa-home".to_string()));
    assert_eq!(show_active(true, None, &ls), ShowTarget::Account("wa-home".to_string()));
}

#[test]
fn falls_back_to_settings_then_nothing() {
    assert_eq!(show_active(true, None, &labels(&["lock", "settings"])), ShowTarget::Settings);
    assert_eq!(show_active(true, Some("wa-x"), &labels(&["lock"])), ShowTarget::Nothing);
    assert_eq!(show_active(true, None, &labels(&[])), ShowTarget::Nothing);
}

#[test]
fn toggle_active_hides_visible_and_never_reveals_while_locked() {
    let ls = labels(&["wa-default"]);
    assert_eq!(toggle_active(true, Some("wa-default"), Some(true), &ls), ToggleOutcome::HideActive);
    assert_eq!(
        toggle_active(true, Some("wa-default"), Some(false), &ls),
        ToggleOutcome::Show(ShowTarget::Account("wa-default".to_string()))
    );
    assert_eq!(
        toggle_active(false, Some("wa-default"), Some(false), &ls),
        ToggleOutcome::Show(ShowTarget::LockScreen)
    );
    assert_eq!(toggle_active(false, None, None, &ls), ToggleOutcome::Show(ShowTarget::LockScreen));
}

#[test]
fn account_labels() {
    assert!(is_account_window_label("wa-default"));
    assert!(is_account_window_label("wa-"));
    assert!(!is_account_window_label("wa"));
    assert!(!is_account_window_label("settings"));
    assert!(!is_account_window_label("xwa-default"));
}

#[test]
fn default_account_shares_the_store() {
    for p in [Platform::Linux, Platform::Windows, Platform::MacOs] {
        assert_eq!(apply_isolation("default", p, Some("/p".to_string()), Some(7), 9), Isolation::SharedDefault);
    }
}

#[test]
fn other_accounts_are_isolated() {
    assert_eq!(
        apply_isolation("work", Platform::Linux, Some("/cfg/profiles/work".to_string()), None, 9),
        Isolation::DataDirectory("/cfg/profiles/work".to_string())
    );
    assert_eq!(
        apply_isolation("work", Platform::Windows, Some("C:\\p".to_string()), None, 9),
        Isolation::DataDirectory("C:\\p".to_string())
    );
    // No resolvable profile directory: the shared store.
    assert_eq!(apply_isolation("work", Platform::Linux, None, None, 9), Isolation::SharedDefault);
    assert_eq!(apply_isolation("work", Platform::MacOs, None, Some(7), 9), Isolation::StoreIdentifier(7));
    assert_eq!(apply_isolation("work", Platform::MacOs, None, None, 9), Isolation::StoreIdentifier(9));
    assert_eq!(apply_isolation("Default", Platform::MacOs, None, None, 9), Isolation::StoreIdentifier(9));
}

#[test]
fn isolation_support() {
    assert_eq!(ensure_isolation_supported(None), Ok(()));
    assert_eq!(ensure_isolation_supported(Some(true)), Ok(()));
    assert_eq!(
        ensure_isolation_supported(Some(false)),
        Err("Multiple accounts require macOS 14 or newer.".to_string())
    );
}

#[test]
fn window_title() {
    assert_eq!(account_window_title("Work"), "whatRust — Work");
    assert_eq!(account_window_title(""), "whatRust — ");
}

#[test]
fn media_permissions() {
    assert_eq!(permission_decision(Platform::Linux, PermissionKind::Other), PermissionDecision::Allow);
    assert_eq!(permission_decision(Platform::Linux, PermissionKind::Camera), PermissionDecision::Allow);
    assert_eq!(permission_decision(Platform::Windows, PermissionKind::Microphone), PermissionDecision::Allow);
    assert_eq!(permission_decision(Platform::Windows, PermissionKind::Camera), PermissionDecision::Allow);
    assert_eq!(permission_decision(Platform::Windows, PermissionKind::Other), PermissionDecision::WebviewDefault);
    assert_eq!(permission_decision(Platform::MacOs, PermissionKind::Microphone), PermissionDecision::WebviewDefault);
}

#[test]
fn account_window_labels_and_spec() {
    assert_eq!(window_label("default"), "wa-default");
    assert_eq!(window_label(""), "wa-");
    let w = account_window_spec("work", "Work", false);
    assert_eq!(w.label, "wa-work");
    assert_eq!(w.url, "https://web.whatsapp.com/");
    assert_eq!(w.title, "whatRust — Work");
    assert_eq!((w.width, w.height, w.min_width, w.min_height), (1100, 800, 560, 480));
    assert_eq!(w.user_agent, CHROME_UA);
    assert!(w.user_agent.contains("Chrome/131"));
    assert!(w.visible);
    assert!(!account_window_spec("work", "Work", true).visible);
}

#[test]
fn account_window_is_reused_when_open() {
    let ls = labels(&["settings", "wa-work"]);
    assert_eq!(account_window_opening("work", &ls), WindowOpening::ReuseExisting);
    assert_eq!(account_window_opening("home", &ls), WindowOpening::Build);
    assert_eq!(account_window_opening("settings", &ls), WindowOpening::Build);
}

#[test]
fn settings_window_is_reused_or_built() {
    assert_eq!(settings_window_opening(&labels(&["wa-x", "settings"])), WindowOpening::ReuseExisting);
    assert_eq!(settings_window_opening(&labels(&["wa-x"])), WindowOpening::Build);
    let s = settings_window_spec();
    assert_eq!(s.label, "settings");
    assert_eq!(s.page, "index.html");
    assert_eq!(s.title, "whatRust — Settings");
    assert_eq!((s.width, s.height), (440, 680));
    assert!(!s.resizable);
}

#[test]
fn linux_media_settings_list() {
    assert_eq!(
        linux_media_settings(),
        vec![
            "enable-media-stream".to_string(),
            "enable-mediasource".to_string(),
            "enable-webrtc".to_string(),
            "enable-encrypted-media".to_string(),
        ]
    );
}
