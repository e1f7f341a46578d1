//! What the tray shows for the unread count, and what its menu entries do.
use vstd::prelude::*;
use vstd::string::*;
use crate::text::{decimal, decimal_string, decimal_value, lemma_decimal_roundtrip, str_eq};
use crate::window::{
    find_label, string_views, opt_view, show_target_ok, toggle_active, ShowTarget, ToggleOutcome,
};

verus! {

/// What the tray shows for a given unread count.
#[derive(Debug, Clone, Copy, PartialEq, Eq, Structural)]
pub enum BadgeState {
    Clear,
    Count(u32),
}

/// Decide what the tray should show for a given unread count.
pub fn badge_state(count: u32) -> (r: BadgeState)
    ensures
        count == 0 ==> r == BadgeState::Clear,
        count > 0 ==> r == BadgeState::Count(count),
{
    if count == 0 {
        BadgeState::Clear
    } else {
        BadgeState::Count(count)
    }
}

/// The tray's plain tooltip.
pub open spec fn app_tooltip() -> Seq<char> {
    "WhatsApp"@
}

/// What follows the count in the tooltip of a tray with unread messages.
pub open spec fn unread_suffix() -> Seq<char> {
    " unread — WhatsApp"@
}

/// Everything the tray icon shows: the title next to it (macOS and Linux), the
/// hover tooltip, and whether the badged icon is used.
#[derive(Debug)]
pub struct TrayPresentation {
    pub title: Option<String>,
    pub tooltip: String,
    pub unread_icon: bool,
}

/// The tray's look for an unread count: no title, the plain tooltip and icon when
/// there is nothing unread; otherwise the count as title, "<count> unread —
/// WhatsApp" as tooltip, and the badged icon.
pub fn badge_presentation(count: u32) -> (r: TrayPresentation)
    ensures
        count == 0 ==> r.title is None && r.tooltip@ == app_tooltip() && !r.unread_icon,
        count > 0 ==> (r.title matches Some(t) && t@ == decimal(count as nat)),
        count > 0 ==> r.tooltip@ == decimal(count as nat) + unread_suffix() && r.unread_icon,
        count > 0 ==> (r.title matches Some(t) && decimal_value(t@) == count),
{
    proof {
        lemma_decimal_roundtrip(count as nat);
    }
    match badge_state(count) {
        BadgeState::Clear => TrayPresentation {
            title: None,
            tooltip: String::from_str("WhatsApp"),
            unread_icon: false,
        },
        BadgeState::Count(c) => {
            let title = decimal_string(c);
            let mut tooltip = decimal_string(c);
            tooltip.append(" unread — WhatsApp");
            TrayPresentation { title: Some(title), tooltip, unread_icon: true }
        },
    }
}

/// One entry of the tray menu.
#[derive(Debug, PartialEq)]
pub struct TrayMenuEntry {
    pub id: String,
    pub label: String,
}

/// How the tray icon is set up.
#[derive(Debug, PartialEq)]
pub struct TraySetup {
    /// The tray's id, by which the badge updates find it.
    pub id: String,
    /// The tooltip it starts with.
    pub tooltip: String,
    /// Whether a left click opens the menu (it does not: it toggles).
    pub show_menu_on_left_click: bool,
    /// The menu, in order.
    pub menu: Vec<TrayMenuEntry>,
}

/// The id and label views of the menu entries.
pub open spec fn menu_view(menu: Seq<TrayMenuEntry>) -> Seq<(Seq<char>, Seq<char>)> {
    menu.map_values(|e: TrayMenuEntry| (e.id@, e.label@))
}

/// The tray menu: Show / Hide, Settings, Reload, Quit.
pub open spec fn tray_menu_spec() -> Seq<(Seq<char>, Seq<char>)> {
    seq![
        ("show"@, "Show / Hide"@),
        ("settings"@, "Settings"@),
        ("reload"@, "Reload"@),
        ("quit"@, "Quit"@),
    ]
}

fn entry(id: &str, label: &str) -> (r: TrayMenuEntry)
    ensures
        r.id@ == id@,
        r.label@ == label@,
{
    TrayMenuEntry { id: String::from_str(id), label: String::from_str(label) }
}

/// The tray as it is created: id "main-tray", tooltip "WhatsApp", no menu on
/// left click, and the four menu entries in order.
pub fn tray_setup() -> (r: TraySetup)
    ensures
        r.id@ == "main-tray"@,
        r.tooltip@ == app_tooltip(),
        !r.show_menu_on_left_click,
        menu_view(r.menu@) == tray_menu_spec(),
{
    let mut menu: Vec<TrayMenuEntry> = Vec::new();
    menu.push(entry("show", "Show / Hide"));
    menu.push(entry("settings", "Settings"));
    menu.push(entry("reload", "Reload"));
    menu.push(entry("quit", "Quit"));
    assert(menu_view(menu@) =~= tray_menu_spec());
    TraySetup {
        id: String::from_str("main-tray"),
        tooltip: String::from_str("WhatsApp"),
        show_menu_on_left_click: false,
        menu,
    }
}

/// A mouse button on the tray icon.
#[derive(Debug, Clone, Copy, PartialEq, Eq, Structural)]
pub enum MouseButton {
    Left,
    Right,
    Middle,
}

/// Whether the button went down or came up.
#[derive(Debug, Clone, Copy, PartialEq, Eq, Structural)]
pub enum ButtonState {
    Up,
    Down,
}

/// A click on the tray icon toggles the active account window when it is the
/// left button coming up; any other click does nothing (the right button opens
/// the menu by itself).
pub fn click_toggles(button: MouseButton, state: ButtonState) -> (r: bool)
    ensures
        r == (button == MouseButton::Left && state == ButtonState::Up),
{
    match (button, state) {
        (MouseButton::Left, ButtonState::Up) => true,
        _ => false,
    }
}

/// What a tray menu entry asks for.
#[derive(Debug, Clone, Copy, PartialEq, Eq, Structural)]
pub enum TrayMenuAction {
    /// Show or hide the active account window.
    ToggleActive,
    OpenSettings,
    /// Reload the window labelled `main`, when there is one.
    ReloadMain,
    Quit,
    Ignore,
}

/// The action for a menu entry id: "show" toggles the active account window,
/// "settings" opens the settings window, "reload" reloads the window labelled
/// `main` (see `reload_target`), "quit" quits; any other id is ignored.
pub fn menu_action(id: &str) -> (r: TrayMenuAction)
    ensures
        id@ == "show"@ ==> r == TrayMenuAction::ToggleActive,
        id@ == "settings"@ ==> r == TrayMenuAction::OpenSettings,
        id@ == "reload"@ ==> r == TrayMenuAction::ReloadMain,
        id@ == "quit"@ ==> r == TrayMenuAction::Quit,
        id@ != "show"@ && id@ != "settings"@ && id@ != "reload"@ && id@ != "quit"@
            ==> r == TrayMenuAction::Ignore,
{
    proof {
        reveal_strlit("show");
        reveal_strlit("settings");
        reveal_strlit("reload");
        reveal_strlit("quit");
        assert("show"@.len() != "settings"@.len() && "show"@.len() != "reload"@.len());
        assert("show"@[0] != "quit"@[0] && "settings"@[0] != "quit"@[0] && "reload"@[0] != "quit"@[0]);
        assert("settings"@[0] != "reload"@[0] && "settings"@.len() != "reload"@.len());
    }
    if str_eq(id, "show") {
        TrayMenuAction::ToggleActive
    } else if str_eq(id, "settings") {
        TrayMenuAction::OpenSettings
    } else if str_eq(id, "reload") {
        TrayMenuAction::ReloadMain
    } else if str_eq(id, "quit") {
        TrayMenuAction::Quit
    } else {
        TrayMenuAction::Ignore
    }
}

/// The tray's show/hide toggle (menu entry or left click): it toggles the active
/// account window exactly as the global shortcut does, so a hidden window comes
/// back, and while the app is locked the lock screen shows instead.
pub fn tray_toggle(
    unlocked: bool,
    active: Option<&str>,
    active_visible: Option<bool>,
    open_labels: &Vec<String>,
) -> (r: ToggleOutcome)
    ensures
        active_visible == Some(true) ==> r == ToggleOutcome::HideActive,
        active_visible != Some(true) ==> (r matches ToggleOutcome::Show(t)
            && show_target_ok(unlocked, opt_view(active), string_views(open_labels@), t)),
        !unlocked && active_visible != Some(true) ==> r == ToggleOutcome::Show(ShowTarget::LockScreen),
{
    toggle_active(unlocked, active, active_visible, open_labels)
}

/// The label of the window that the tray's "Reload" entry reloads.
pub open spec fn reload_label() -> Seq<char> {
    "main"@
}

/// Which window the tray's "Reload" entry reloads: the window labelled `main`
/// when one is open, else none (account windows are labelled `wa-<id>`, so
/// Reload leaves them alone).
pub fn reload_target(open_labels: &Vec<String>) -> (r: Option<String>)
    ensures
        r is Some <==> string_views(open_labels@).contains(reload_label()),
        r matches Some(l) ==> l@ == reload_label(),
{
    match find_label(open_labels, "main") {
        Some(i) => {
            assert(string_views(open_labels@)[i as int] == reload_label());
            Some(String::from_str("main"))
        },
        None => None,
    }
}

} // verus!
