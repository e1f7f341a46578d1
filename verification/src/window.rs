//! Which account window to reveal, toggle, isolate or title. The windows
//! themselves are handled outside; the decisions are made here on their labels.
use vstd::prelude::*;
use vstd::string::*;
use crate::text::{has_prefix, str_eq, str_starts_with};

verus! {

/// What a toggle should do given the active window's visibility.
#[derive(Debug, Clone, Copy, PartialEq, Eq, Structural)]
pub enum ToggleAct {
    Hide,
    Show,
}

/// Pure toggle decision: a visible active window is hidden; anything else (a
/// hidden window, or no active window at all, `None`) is shown.
pub fn toggle_decision(active_visible: Option<bool>) -> (r: ToggleAct)
    ensures
        r == (if active_visible == Some(true) { ToggleAct::Hide } else { ToggleAct::Show }),
{
    match active_visible {
        Some(true) => ToggleAct::Hide,
        _ => ToggleAct::Show,
    }
}

/// The label prefix of every account window.
pub open spec fn account_prefix() -> Seq<char> {
    "wa-"@
}

/// The label of the settings window.
pub open spec fn settings_label() -> Seq<char> {
    "settings"@
}

/// Whether a window label names an account window (`wa-<id>`).
pub fn is_account_window_label(label: &str) -> (r: bool)
    ensures
        r == has_prefix(label@, account_prefix()),
{
    str_starts_with(label, "wa-")
}

/// The window a "reveal" request brings up.
#[derive(Debug, PartialEq)]
pub enum ShowTarget {
    /// The app is locked: the lock screen, never an account window.
    LockScreen,
    /// This account window (by label).
    Account(String),
    /// The settings window.
    Settings,
    /// No window to show.
    Nothing,
}

/// The view of an optional label.
pub open spec fn opt_view(a: Option<&str>) -> Option<Seq<char>> {
    match a {
        Some(s) => Some(s@),
        None => None,
    }
}

/// The views of a list of strings (window labels, setting names).
pub open spec fn string_views(labels: Seq<String>) -> Seq<Seq<char>> {
    labels.map_values(|l: String| l@)
}

/// `i` is the first position of an account window label in `ls`.
pub open spec fn is_first_account(ls: Seq<Seq<char>>, i: int) -> bool {
    &&& 0 <= i < ls.len()
    &&& has_prefix(ls[i], account_prefix())
    &&& forall|j: int| 0 <= j < i ==> !has_prefix(#[trigger] ls[j], account_prefix())
}

pub open spec fn has_account_label(ls: Seq<Seq<char>>) -> bool {
    exists|i: int| 0 <= i < ls.len() && has_prefix(#[trigger] ls[i], account_prefix())
}

/// What `show_active` brings up, given whether the app is unlocked, the label of
/// the last-focused account window (if any is recorded), and the labels of the
/// open windows in the order they are walked: the lock screen when locked; else
/// the active account window if it is open; else the first open account window;
/// else the settings window if it is open; else nothing.
pub open spec fn show_target_ok(
    unlocked: bool,
    active: Option<Seq<char>>,
    ls: Seq<Seq<char>>,
    t: ShowTarget,
) -> bool {
    if !unlocked {
        t == ShowTarget::LockScreen
    } else if active is Some && ls.contains(active.unwrap()) {
        t matches ShowTarget::Account(l) && l@ == active.unwrap()
    } else if has_account_label(ls) {
        t matches ShowTarget::Account(l) && exists|i: int| is_first_account(ls, i) && l@ == #[trigger] ls[i]
    } else if ls.contains(settings_label()) {
        t == ShowTarget::Settings
    } else {
        t == ShowTarget::Nothing
    }
}

/// Position of `target` among `labels`, if it occurs.
pub fn find_label(labels: &Vec<String>, target: &str) -> (r: Option<usize>)
    ensures
        r matches Some(i) ==> i < labels@.len() && labels@[i as int]@ == target@,
        r is None ==> !string_views(labels@).contains(target@),
{
    let mut i: usize = 0;
    while i < labels.len()
        invariant
            i <= labels@.len(),
            forall|j: int| 0 <= j < i ==> labels@[j]@ != target@,
        decreases labels@.len() - i,
    {
        if str_eq(labels[i].as_str(), target) {
            return Some(i);
        }
        i += 1;
    }
    proof {
        if string_views(labels@).contains(target@) {
            let k = choose|k: int| 0 <= k < string_views(labels@).len() && string_views(labels@)[k] == target@;
            assert(labels@[k]@ == target@);
        }
    }
    None
}

/// Position of the first account window label among `labels`, if any.
fn first_account_label(labels: &Vec<String>) -> (r: Option<usize>)
    ensures
        r matches Some(i) ==> is_first_account(string_views(labels@), i as int),
        r is None ==> !has_account_label(string_views(labels@)),
{
    let ghost ls = string_views(labels@);
    let mut i: usize = 0;
    while i < labels.len()
        invariant
            i <= labels@.len(),
            ls == string_views(labels@),
            forall|j: int| 0 <= j < i ==> !has_prefix(#[trigger] ls[j], account_prefix()),
        decreases labels@.len() - i,
    {
        if is_account_window_label(labels[i].as_str()) {
            return Some(i);
        }
        i += 1;
    }
    None
}

/// Show the active (last-focused) account window; fall back to the first open
/// account window, then the settings window. While the app is locked any reveal
/// request shows the lock screen instead.
pub fn show_active(unlocked: bool, active: Option<&str>, open_labels: &Vec<String>) -> (r: ShowTarget)
    ensures
        show_target_ok(unlocked, opt_view(active), string_views(open_labels@), r),
        !unlocked ==> r == ShowTarget::LockScreen,
        unlocked && (active matches Some(a) && string_views(open_labels@).contains(a@))
            ==> (r matches ShowTarget::Account(l) && l@ == active.unwrap()@),
        unlocked && (forall|i: int| 0 <= i < open_labels@.len() ==> !has_prefix(#[trigger] open_labels@[i]@, "wa-"@))
            && (active matches Some(a) ==> has_prefix(a@, "wa-"@))
            && string_views(open_labels@).contains("settings"@) ==> r == ShowTarget::Settings,
        unlocked && (forall|i: int| 0 <= i < open_labels@.len() ==> !has_prefix(#[trigger] open_labels@[i]@, "wa-"@))
            && (active matches Some(a) ==> has_prefix(a@, "wa-"@))
            && !string_views(open_labels@).contains("settings"@) ==> r == ShowTarget::Nothing,
{
    let r = pick_show_target(unlocked, active, open_labels);
    proof {
        lemma_show_active_law(unlocked, opt_view(active), string_views(open_labels@), r);
        assert forall|i: int| 0 <= i < open_labels@.len() implies
            #[trigger] string_views(open_labels@)[i] == open_labels@[i]@ by {}
    }
    r
}

/// The reveal decision, case by case.
fn pick_show_target(unlocked: bool, active: Option<&str>, open_labels: &Vec<String>) -> (r: ShowTarget)
    ensures
        show_target_ok(unlocked, opt_view(active), string_views(open_labels@), r),
{
    let ghost ls = string_views(open_labels@);
    if !unlocked {
        return ShowTarget::LockScreen;
    }
    if let Some(a) = active {
        if let Some(i) = find_label(open_labels, a) {
            assert(ls[i as int] == a@);
            return ShowTarget::Account(open_labels[i].clone());
        }
    }
    match first_account_label(open_labels) {
        Some(i) => {
            let l = open_labels[i].clone();
            assert(l@ == ls[i as int]);
            assert(has_prefix(ls[i as int], account_prefix()));
            assert(has_account_label(ls));
            ShowTarget::Account(l)
        },
        None => {
            if let Some(k) = find_label(open_labels, "settings") {
                assert(ls[k as int] == settings_label());
                ShowTarget::Settings
            } else {
                ShowTarget::Nothing
            }
        },
    }
}

/// What toggling the active account window does.
#[derive(Debug, PartialEq)]
pub enum ToggleOutcome {
    /// Hide the (visible) active account window.
    HideActive,
    /// Reveal a window as `show_active` decides.
    Show(ShowTarget),
}

/// Toggle the active account window: hide it if visible, otherwise reveal as
/// `show_active` does, which defers to the lock screen while locked.
/// `active_visible` is `None` when no active account window is open.
pub fn toggle_active(
    unlocked: bool,
    active: Option<&str>,
    active_visible: Option<bool>,
    open_labels: &Vec<String>,
) -> (r: ToggleOutcome)
    ensures
        active_visible == Some(true) ==> r == ToggleOutcome::HideActive,
        active_visible != Some(true) ==> (r matches ToggleOutcome::Show(t)
            && show_target_ok(unlocked, opt_view(active), string_views(open_labels@), t)),
        !unlocked && active_visible != Some(true) ==> r == ToggleOutcome::Show(ShowTarget::LockScreen),
{
    match toggle_decision(active_visible) {
        ToggleAct::Hide => ToggleOutcome::HideActive,
        ToggleAct::Show => ToggleOutcome::Show(show_active(unlocked, active, open_labels)),
    }
}

/// The platform the app runs on, where a decision depends on it.
#[derive(Debug, Clone, Copy, PartialEq, Eq, Structural)]
pub enum Platform {
    Linux,
    Windows,
    MacOs,
}

/// How an account window's web data is stored.
#[derive(Debug, PartialEq)]
pub enum Isolation {
    /// The webview's default store: kept for the `default` account so that its
    /// login from before multiple accounts survives.
    SharedDefault,
    /// A data directory of the account's own (Linux, Windows).
    DataDirectory(String),
    /// A data store identifier of the account's own (macOS): a UUID.
    StoreIdentifier(u128),
}

/// Per-account session isolation. The `default` account keeps the shared default
/// store. Another account gets, on Linux and Windows, its profile directory when
/// that could be resolved (`profile_dir`), and the shared store otherwise; on
/// macOS, its persisted store UUID, or `fresh_uuid` when it has none.
pub fn apply_isolation(
    account_id: &str,
    platform: Platform,
    profile_dir: Option<String>,
    store_uuid: Option<u128>,
    fresh_uuid: u128,
) -> (r: Isolation)
    ensures
        account_id@ == "default"@ ==> r == Isolation::SharedDefault,
        account_id@ != "default"@ && platform != Platform::MacOs ==> match profile_dir {
            Some(d) => r matches Isolation::DataDirectory(x) && x@ == d@,
            None => r == Isolation::SharedDefault,
        },
        account_id@ != "default"@ && platform == Platform::MacOs ==> match store_uuid {
            Some(u) => r == Isolation::StoreIdentifier(u),
            None => r == Isolation::StoreIdentifier(fresh_uuid),
        },
{
    if str_eq(account_id, "default") {
        return Isolation::SharedDefault;
    }
    match platform {
        Platform::MacOs => match store_uuid {
            Some(u) => Isolation::StoreIdentifier(u),
            None => Isolation::StoreIdentifier(fresh_uuid),
        },
        _ => match profile_dir {
            Some(d) => Isolation::DataDirectory(d),
            None => Isolation::SharedDefault,
        },
    }
}

/// The message given when accounts cannot be isolated.
pub open spec fn isolation_unsupported_message() -> Seq<char> {
    "Multiple accounts require macOS 14 or newer."@
}

/// Whether further accounts can be isolated. Linux and Windows always can
/// (`macos_at_least_14` is `None` there); macOS needs version 14 or newer.
pub fn ensure_isolation_supported(macos_at_least_14: Option<bool>) -> (r: Result<(), String>)
    ensures
        macos_at_least_14 == Some(false) <==> r is Err,
        r matches Err(e) ==> e@ == isolation_unsupported_message(),
{
    match macos_at_least_14 {
        Some(false) => Err(String::from_str("Multiple accounts require macOS 14 or newer.")),
        _ => Ok(()),
    }
}

/// What opening a window does when its label may already be in use.
#[derive(Debug, Clone, Copy, PartialEq, Eq, Structural)]
pub enum WindowOpening {
    /// A window with the label is open: use it instead of building another.
    ReuseExisting,
    /// No such window: build it.
    Build,
}

/// Opening an account's window reuses the open window labelled `wa-<id>` (it is
/// returned as it is, neither shown nor focused) and builds one otherwise.
pub fn account_window_opening(account_id: &str, open_labels: &Vec<String>) -> (r: WindowOpening)
    ensures
        string_views(open_labels@).contains(account_prefix() + account_id@) <==> r == WindowOpening::ReuseExisting,
{
    let label = window_label(account_id);
    match find_label(open_labels, label.as_str()) {
        Some(i) => {
            assert(string_views(open_labels@)[i as int] == account_prefix() + account_id@);
            WindowOpening::ReuseExisting
        },
        None => WindowOpening::Build,
    }
}

/// Opening the settings window shows and focuses the open one labelled
/// `settings`, and builds it otherwise.
pub fn settings_window_opening(open_labels: &Vec<String>) -> (r: WindowOpening)
    ensures
        string_views(open_labels@).contains(settings_label()) <==> r == WindowOpening::ReuseExisting,
{
    match find_label(open_labels, "settings") {
        Some(i) => {
            assert(string_views(open_labels@)[i as int] == settings_label());
            WindowOpening::ReuseExisting
        },
        None => WindowOpening::Build,
    }
}

/// How the settings window is built.
#[derive(Debug, PartialEq)]
pub struct SettingsWindowSpec {
    pub label: String,
    /// The page of the app's own bundle it shows.
    pub page: String,
    pub title: String,
    /// Inner size in logical pixels.
    pub width: u32,
    pub height: u32,
    pub resizable: bool,
}

/// The settings window: label `settings`, the bundled `index.html`, titled
/// "whatRust — Settings", 440x680, not resizable.
pub fn settings_window_spec() -> (r: SettingsWindowSpec)
    ensures
        r.label@ == settings_label(),
        r.page@ == "index.html"@,
        r.title@ == "whatRust — Settings"@,
        r.width == 440 && r.height == 680,
        !r.resizable,
{
    SettingsWindowSpec {
        label: String::from_str("settings"),
        page: String::from_str("index.html"),
        title: String::from_str("whatRust — Settings"),
        width: 440,
        height: 680,
        resizable: false,
    }
}

/// The WebKitGTK settings switched on for an account window on Linux, so that
/// voice messages and calls work: media streams, Media Source, WebRTC and
/// encrypted media.
pub open spec fn linux_media_settings_spec() -> Seq<Seq<char>> {
    seq!["enable-media-stream"@, "enable-mediasource"@, "enable-webrtc"@, "enable-encrypted-media"@]
}

/// The names of the boolean WebKitGTK settings set to true on an account
/// window's webview on Linux, in the order they are set.
pub fn linux_media_settings() -> (r: Vec<String>)
    ensures
        string_views(r@) == linux_media_settings_spec(),
{
    let mut v: Vec<String> = Vec::new();
    v.push(String::from_str("enable-media-stream"));
    v.push(String::from_str("enable-mediasource"));
    v.push(String::from_str("enable-webrtc"));
    v.push(String::from_str("enable-encrypted-media"));
    assert(string_views(v@) =~= linux_media_settings_spec());
    v
}

/// Recent desktop Chrome user agent: WhatsApp Web rejects the default
/// WebKitGTK/Safari one. Bump the major version occasionally.
pub const CHROME_UA: &'static str =
    "Mozilla/5.0 (X11; Linux x86_64) AppleWebKit/537.36 (KHTML, like Gecko) Chrome/131.0.0.0 Safari/537.36";

/// The label of an account's window: `wa-<id>`.
pub fn window_label(account_id: &str) -> (r: String)
    ensures
        r@ == account_prefix() + account_id@,
        has_prefix(r@, account_prefix()),
{
    let mut l = String::from_str("wa-");
    l.append(account_id);
    proof {
        reveal_strlit("wa-");
    }
    assert(l@.subrange(0, account_prefix().len() as int) =~= account_prefix());
    l
}

/// The title of an account window: "whatRust — <account name>".
pub fn account_window_title(name: &str) -> (r: String)
    ensures
        r@ == "whatRust — "@ + name@,
{
    let mut t = String::from_str("whatRust — ");
    t.append(name);
    t
}

/// Everything an account window is built with, besides its icon and its
/// initialization script (files bundled with the app).
#[derive(Debug, PartialEq)]
pub struct AccountWindowSpec {
    pub label: String,
    pub url: String,
    pub title: String,
    /// Inner size in logical pixels.
    pub width: u32,
    pub height: u32,
    /// Minimum inner size in logical pixels.
    pub min_width: u32,
    pub min_height: u32,
    pub user_agent: String,
    pub visible: bool,
}

/// The window for an account: label `wa-<id>`, WhatsApp Web, titled with the
/// account's name, 1100x800 (at least 560x480), the Chrome user agent, and
/// visible unless the app starts hidden.
pub fn account_window_spec(account_id: &str, account_name: &str, start_hidden: bool) -> (r: AccountWindowSpec)
    ensures
        r.label@ == account_prefix() + account_id@,
        r.url@ == "https://web.whatsapp.com/"@,
        r.title@ == "whatRust — "@ + account_name@,
        r.width == 1100 && r.height == 800,
        r.min_width == 560 && r.min_height == 480,
        r.user_agent@ == CHROME_UA@,
        r.visible == !start_hidden,
{
    AccountWindowSpec {
        label: window_label(account_id),
        url: String::from_str("https://web.whatsapp.com/"),
        title: account_window_title(account_name),
        width: 1100,
        height: 800,
        min_width: 560,
        min_height: 480,
        user_agent: String::from_str(CHROME_UA),
        visible: !start_hidden,
    }
}

/// The kind of a webview permission request.
#[derive(Debug, Clone, Copy, PartialEq, Eq, Structural)]
pub enum PermissionKind {
    Microphone,
    Camera,
    Other,
}

/// What the app does with a webview permission request.
#[derive(Debug, Clone, Copy, PartialEq, Eq, Structural)]
pub enum PermissionDecision {
    /// Grant it without a prompt.
    Allow,
    /// Leave it to the webview's own handling.
    WebviewDefault,
}

/// Media access for voice messages and calls. On Linux every permission request
/// of the WhatsApp webview is granted; on Windows microphone and camera requests
/// are granted and others keep WebView2's handling; on macOS the app installs no
/// handler (the webview's own delegate grants media capture).
pub fn permission_decision(platform: Platform, kind: PermissionKind) -> (r: PermissionDecision)
    ensures
        platform == Platform::Linux ==> r == PermissionDecision::Allow,
        platform == Platform::Windows ==> r == (if kind == PermissionKind::Microphone
            || kind == PermissionKind::Camera { PermissionDecision::Allow } else { PermissionDecision::WebviewDefault }),
        platform == Platform::MacOs ==> r == PermissionDecision::WebviewDefault,
{
    match platform {
        Platform::Linux => PermissionDecision::Allow,
        Platform::Windows => match kind {
            PermissionKind::Microphone => PermissionDecision::Allow,
            PermissionKind::Camera => PermissionDecision::Allow,
            PermissionKind::Other => PermissionDecision::WebviewDefault,
        },
        Platform::MacOs => PermissionDecision::WebviewDefault,
    }
}

/// Reveal law, stated directly on the labels: locked, the lock screen; else the
/// recorded active window when it is open; else the first open `wa-` window;
/// and when no `wa-` window is open (and the recorded active label, if any, is an
/// account label), the settings window when it is open, else nothing. The
/// settings fallback does not depend on which account was last active.
pub proof fn lemma_show_active_law(unlocked: bool, active: Option<Seq<char>>, ls: Seq<Seq<char>>, t: ShowTarget)
    requires
        show_target_ok(unlocked, active, ls, t),
    ensures
        !unlocked ==> t == ShowTarget::LockScreen,
        unlocked && (active matches Some(a) && ls.contains(a)) ==> (t matches ShowTarget::Account(l) && l@ == active.unwrap()),
        unlocked && !(active matches Some(a) && ls.contains(a)) && (exists|i: int| 0 <= i < ls.len() && has_prefix(#[trigger] ls[i], "wa-"@))
            ==> (t matches ShowTarget::Account(l) && exists|i: int| 0 <= i < ls.len() && has_prefix(#[trigger] ls[i], "wa-"@)
                && l@ == ls[i] && forall|j: int| 0 <= j < i ==> !has_prefix(#[trigger] ls[j], "wa-"@)),
        unlocked && (forall|i: int| 0 <= i < ls.len() ==> !has_prefix(#[trigger] ls[i], "wa-"@))
            && (active matches Some(a) ==> has_prefix(a, "wa-"@)) && ls.contains("settings"@)
            ==> t == ShowTarget::Settings,
        unlocked && (forall|i: int| 0 <= i < ls.len() ==> !has_prefix(#[trigger] ls[i], "wa-"@))
            && (active matches Some(a) ==> has_prefix(a, "wa-"@)) && !ls.contains("settings"@)
            ==> t == ShowTarget::Nothing,
{
    if unlocked && active is Some && ls.contains(active.unwrap()) && has_prefix(active.unwrap(), "wa-"@) {
        let k = choose|k: int| 0 <= k < ls.len() && ls[k] == active.unwrap();
        assert(has_prefix(ls[k], "wa-"@));
    }
    if unlocked && !(active is Some && ls.contains(active.unwrap())) && has_account_label(ls) {
        let i = choose|i: int| is_first_account(ls, i) && t->0@ == #[trigger] ls[i];
        assert(has_prefix(ls[i], "wa-"@));
    }
    if unlocked && exists|i: int| 0 <= i < ls.len() && has_prefix(#[trigger] ls[i], "wa-"@) {
        let i = choose|i: int| 0 <= i < ls.len() && has_prefix(#[trigger] ls[i], "wa-"@);
        assert(has_account_label(ls));
    }
}

/// While the app is locked, a reveal request (tray click, global shortcut, second
/// launch, dock reopen) brings up the lock screen and never an account window.
pub proof fn lemma_locked_reveals_lock_screen(active: Option<Seq<char>>, ls: Seq<Seq<char>>, t: ShowTarget)
    requires
        show_target_ok(false, active, ls, t),
    ensures
        t == ShowTarget::LockScreen,
        !(t is Account),
{
}

/// A revealed account window is always an open one: the target of a reveal
/// request names a label among the open windows' labels.
pub proof fn lemma_revealed_account_is_open(
    unlocked: bool,
    active: Option<Seq<char>>,
    ls: Seq<Seq<char>>,
    t: ShowTarget,
)
    requires
        show_target_ok(unlocked, active, ls, t),
        t is Account,
    ensures
        ls.contains(t->0@),
{
    if !(active is Some && ls.contains(active.unwrap())) {
        let i = choose|i: int| is_first_account(ls, i) && t->0@ == #[trigger] ls[i];
        assert(ls[i] == t->0@);
    }
}

} // verus!
