use whatrust::call_popup::{
    call_in_progress, is_our_process, popup_candidate, popup_hwnds, popups_to_unown, PopupOwner,
    TopWindow,
};

#[test]
fn a_visible_toplevel_our_process_webview2_window_is_a_candidate() {
    assert!(popup_candidate(true, true, true, "Chrome_WidgetWin_1"));
}

#[test]
fn child_windows_our_tao_window_and_other_classes_are_not() {
    // wry's webview host is a CHILD window of the Tauri window.
    assert!(!popup_candidate(true, false, true, "Chrome_WidgetWin_1"));
    // The Tauri/tao main window has its own class.
    assert!(!popup_candidate(true, true, true, "Window Class"));
    // Hidden windows are ignored.
    assert!(!popup_candidate(false, true, true, "Chrome_WidgetWin_1"));
    // Another process's Chromium window (e.g. real Chrome/Edge) is not ours.
    assert!(!popup_candidate(true, true, false, "Chrome_WidgetWin_1"));
    // No class / decode failure yields "".
    assert!(!popup_candidate(true, true, true, ""));
}

#[test]
fn class_must_match_exactly() {
    assert!(!popup_candidate(true, true, true, "Chrome_WidgetWin_0"));
    assert!(!popup_candidate(true, true, true, "Chrome_WidgetWin_1 "));
    assert!(!popup_candidate(true, true, true, "Chrome_WidgetWin_"));
}

fn win(hwnd: isize, visible: bool, top_level: bool, ours: bool, class: &str) -> TopWindow {
    TopWindow { hwnd, visible, top_level, our_process: ours, class_name: class.to_string() }
}

#[test]
fn popup_hwnds_keeps_candidates_in_order() {
    let ws = vec![
        win(10, true, true, true, "Chrome_WidgetWin_1"),
        win(11, true, false, true, "Chrome_WidgetWin_1"),
        win(12, true, true, true, "Window Class"),
        win(13, true, true, true, "Chrome_WidgetWin_1"),
        win(14, false, true, true, "Chrome_WidgetWin_1"),
    ];
    assert_eq!(popup_hwnds(&ws), vec![10, 13]);
    assert!(call_in_progress(&ws));
}

#[test]
fn no_popup_means_no_call() {
    let ws = vec![
        win(11, true, false, true, "Chrome_WidgetWin_1"),
        win(12, true, true, true, "Window Class"),
        win(15, true, true, false, "Chrome_WidgetWin_1"),
    ];
    assert!(popup_hwnds(&ws).is_empty());
    assert!(!call_in_progress(&ws));
    assert!(!call_in_progress(&Vec::new()));
}

#[test]
fn only_owned_popups_of_ours_are_unowned() {
    let ps = vec![
        PopupOwner { hwnd: 1, owner: 0, owner_is_ours: false },
        PopupOwner { hwnd: 2, owner: 77, owner_is_ours: true },
        PopupOwner { hwnd: 3, owner: 88, owner_is_ours: false },
        PopupOwner { hwnd: 4, owner: 99, owner_is_ours: true },
    ];
    assert_eq!(popups_to_unown(&ps), vec![2, 4]);
    assert!(popups_to_unown(&Vec::new()).is_empty());
}

#[test]
fn our_process_needs_a_known_matching_pid() {
    assert!(is_our_process(42, 42));
    assert!(!is_our_process(41, 42));
    assert!(!is_our_process(0, 0));
}
