//! Call popups on Windows: which top-level windows are WebView2 popups of this
//! process, and which of them still hang on an owner window that must be cut.
//! The enumeration of windows and the Win32 calls happen outside; the decisions
//! are made here on plain snapshots of each window.
use vstd::prelude::*;
use crate::text::str_eq;

verus! {

/// What is known of one top-level window when the popups are swept.
#[derive(Debug)]
pub struct TopWindow {
    /// Raw window handle.
    pub hwnd: isize,
    pub visible: bool,
    /// The window is its own root ancestor.
    pub top_level: bool,
    /// The window belongs to this process.
    pub our_process: bool,
    /// Window class name; empty when it could not be read.
    pub class_name: String,
}

/// One popup together with what its owner slot holds.
#[derive(Debug, Clone, Copy, PartialEq, Eq, Structural)]
pub struct PopupOwner {
    pub hwnd: isize,
    /// The owner handle; 0 when the popup is already independent.
    pub owner: isize,
    /// The owner window belongs to this process.
    pub owner_is_ours: bool,
}

/// WebView2/Chromium's window class for the web content host.
pub open spec fn popup_class() -> Seq<char> {
    "Chrome_WidgetWin_1"@
}

/// A popup candidate is a visible, top-level window of this process whose class
/// is WebView2's.
pub open spec fn is_candidate(visible: bool, top_level: bool, our_process: bool, class: Seq<char>) -> bool {
    visible && top_level && our_process && class == popup_class()
}

pub open spec fn is_popup(w: TopWindow) -> bool {
    is_candidate(w.visible, w.top_level, w.our_process, w.class_name@)
}

/// The handles of the popups among `ws`, in the order of `ws`.
pub open spec fn popup_hwnds_of(ws: Seq<TopWindow>) -> Seq<isize>
    decreases ws.len(),
{
    if ws.len() == 0 {
        seq![]
    } else if is_popup(ws.last()) {
        popup_hwnds_of(ws.drop_last()).push(ws.last().hwnd)
    } else {
        popup_hwnds_of(ws.drop_last())
    }
}

/// The handles whose owner must be stripped: the owner is set and is ours.
pub open spec fn unown_targets(ps: Seq<PopupOwner>) -> Seq<isize>
    decreases ps.len(),
{
    if ps.len() == 0 {
        seq![]
    } else if ps.last().owner != 0 && ps.last().owner_is_ours {
        unown_targets(ps.drop_last()).push(ps.last().hwnd)
    } else {
        unown_targets(ps.drop_last())
    }
}

/// A popup still owned by a window of this process.
pub open spec fn owned_by_us() -> spec_fn(PopupOwner) -> bool {
    |p: PopupOwner| p.owner != 0 && p.owner_is_ours
}

/// The handle of a popup.
pub open spec fn popup_owner_hwnd() -> spec_fn(PopupOwner) -> isize {
    |p: PopupOwner| p.hwnd
}

/// A visible, top-level window of this process with WebView2's class.
pub open spec fn is_webview2_popup() -> spec_fn(TopWindow) -> bool {
    |w: TopWindow| w.visible && w.top_level && w.our_process && w.class_name@ == "Chrome_WidgetWin_1"@
}

/// The handle of a window.
pub open spec fn window_hwnd() -> spec_fn(TopWindow) -> isize {
    |w: TopWindow| w.hwnd
}

/// The popups to detach are exactly the owned ones of this process, each once,
/// in input order; so their number is the number of such popups.
pub proof fn lemma_unown_is_owned_filter(ps: Seq<PopupOwner>)
    ensures
        unown_targets(ps) == ps.filter(owned_by_us()).map_values(popup_owner_hwnd()),
        unown_targets(ps).len() == ps.filter(owned_by_us()).len(),
    decreases ps.len(),
{
    reveal(Seq::filter);
    if ps.len() > 0 {
        lemma_unown_is_owned_filter(ps.drop_last());
        let f = ps.drop_last().filter(owned_by_us());
        if owned_by_us()(ps.last()) {
            assert(f.push(ps.last()).map_values(popup_owner_hwnd())
                =~= f.map_values(popup_owner_hwnd()).push(ps.last().hwnd));
        }
    } else {
        assert(ps.filter(owned_by_us()).map_values(popup_owner_hwnd()) =~= Seq::<isize>::empty());
    }
}

/// The popup handles found are exactly those of the visible, top-level windows
/// of this process with WebView2's class, each once, in input order.
pub proof fn lemma_popup_hwnds_is_filter(ws: Seq<TopWindow>)
    ensures
        popup_hwnds_of(ws) == ws.filter(is_webview2_popup()).map_values(window_hwnd()),
    decreases ws.len(),
{
    reveal(Seq::filter);
    reveal_strlit("Chrome_WidgetWin_1");
    if ws.len() > 0 {
        lemma_popup_hwnds_is_filter(ws.drop_last());
        let f = ws.drop_last().filter(is_webview2_popup());
        assert(is_popup(ws.last()) == is_webview2_popup()(ws.last()));
        if is_webview2_popup()(ws.last()) {
            assert(f.push(ws.last()).map_values(window_hwnd()) =~= f.map_values(window_hwnd()).push(ws.last().hwnd));
        }
    } else {
        assert(ws.filter(is_webview2_popup()).map_values(window_hwnd()) =~= Seq::<isize>::empty());
    }
}

/// The one decision the watcher makes about a window.
pub fn popup_candidate(visible: bool, top_level: bool, our_process: bool, class: &str) -> (r: bool)
    ensures
        r == is_candidate(visible, top_level, our_process, class@),
        r == (visible && top_level && our_process && class@ == "Chrome_WidgetWin_1"@),
{
    visible && top_level && our_process && str_eq(class, "Chrome_WidgetWin_1")
}

/// A window belongs to this process when its process id is known (non-zero) and
/// equals ours.
pub fn is_our_process(window_pid: u32, our_pid: u32) -> (r: bool)
    ensures
        r == (window_pid != 0 && window_pid == our_pid),
{
    window_pid != 0 && window_pid == our_pid
}

/// All visible top-level WebView2 popups of this process among `windows`.
pub fn popup_hwnds(windows: &Vec<TopWindow>) -> (r: Vec<isize>)
    ensures
        r@ == popup_hwnds_of(windows@),
        r@ == windows@.filter(is_webview2_popup()).map_values(window_hwnd()),
{
    proof {
        lemma_popup_hwnds_is_filter(windows@);
    }
    let mut out: Vec<isize> = Vec::new();
    let mut i: usize = 0;
    while i < windows.len()
        invariant
            i <= windows@.len(),
            out@ == popup_hwnds_of(windows@.take(i as int)),
        decreases windows@.len() - i,
    {
        let w = &windows[i];
        let keep = popup_candidate(w.visible, w.top_level, w.our_process, w.class_name.as_str());
        proof {
            assert(windows@.take(i + 1).drop_last() =~= windows@.take(i as int));
            assert(windows@.take(i + 1).last() == windows@[i as int]);
        }
        if keep {
            out.push(w.hwnd);
        }
        i += 1;
    }
    assert(windows@.take(windows@.len() as int) =~= windows@);
    out
}

/// There is a popup among `ws` exactly when the list of popup handles is not empty.
pub proof fn lemma_popups_nonempty(ws: Seq<TopWindow>)
    ensures
        popup_hwnds_of(ws).len() > 0 <==> exists|i: int| 0 <= i < ws.len() && #[trigger] is_popup(ws[i]),
    decreases ws.len(),
{
    if ws.len() > 0 {
        let init = ws.drop_last();
        lemma_popups_nonempty(init);
        if exists|i: int| 0 <= i < ws.len() && #[trigger] is_popup(ws[i]) {
            let i = choose|i: int| 0 <= i < ws.len() && #[trigger] is_popup(ws[i]);
            if i < ws.len() - 1 {
                assert(is_popup(init[i]));
            }
        }
        if exists|i: int| 0 <= i < init.len() && #[trigger] is_popup(init[i]) {
            let i = choose|i: int| 0 <= i < init.len() && #[trigger] is_popup(init[i]);
            assert(is_popup(ws[i]));
        }
        if is_popup(ws.last()) {
            assert(is_popup(ws[ws.len() - 1]));
        }
    }
}

/// Whether a WebView2 popup (a call or otherwise) is currently visible.
pub fn call_in_progress(windows: &Vec<TopWindow>) -> (r: bool)
    ensures
        r <==> exists|i: int| 0 <= i < windows@.len() && #[trigger] is_popup(windows@[i]),
        r <==> exists|i: int| 0 <= i < windows@.len() && #[trigger] is_webview2_popup()(windows@[i]),
{
    let hwnds = popup_hwnds(windows);
    proof {
        lemma_popups_nonempty(windows@);
        if exists|i: int| 0 <= i < windows@.len() && #[trigger] is_popup(windows@[i]) {
            let i = choose|i: int| 0 <= i < windows@.len() && #[trigger] is_popup(windows@[i]);
            assert(is_webview2_popup()(windows@[i]));
        }
        if exists|i: int| 0 <= i < windows@.len() && #[trigger] is_webview2_popup()(windows@[i]) {
            let i = choose|i: int| 0 <= i < windows@.len() && #[trigger] is_webview2_popup()(windows@[i]);
            assert(is_popup(windows@[i]));
        }
    }
    !(hwnds.len() == 0)
}

/// The popups whose owner must be stripped: those still owned (owner set) by a
/// window of this process. An independent popup, or one owned by another
/// process, is left alone. The number detached is the length of the result.
pub fn popups_to_unown(popups: &Vec<PopupOwner>) -> (r: Vec<isize>)
    ensures
        r@ == unown_targets(popups@),
        r@ == popups@.filter(owned_by_us()).map_values(popup_owner_hwnd()),
        r@.len() == popups@.filter(owned_by_us()).len(),
{
    proof {
        lemma_unown_is_owned_filter(popups@);
    }
    let mut out: Vec<isize> = Vec::new();
    let mut i: usize = 0;
    while i < popups.len()
        invariant
            i <= popups@.len(),
            out@ == unown_targets(popups@.take(i as int)),
        decreases popups@.len() - i,
    {
        let p = popups[i];
        proof {
            assert(popups@.take(i + 1).drop_last() =~= popups@.take(i as int));
            assert(popups@.take(i + 1).last() == popups@[i as int]);
        }
        if p.owner != 0 && p.owner_is_ours {
            out.push(p.hwnd);
        }
        i += 1;
    }
    assert(popups@.take(popups@.len() as int) =~= popups@);
    out
}

/// Only the leash we own is cut: every popup chosen for detaching is owned, by a
/// window of this process; and every such popup is chosen.
pub proof fn lemma_unown_only_owned(ps: Seq<PopupOwner>)
    ensures
        forall|k: int| 0 <= k < unown_targets(ps).len() ==> exists|i: int|
            0 <= i < ps.len() && ps[i].hwnd == #[trigger] unown_targets(ps)[k] && ps[i].owner != 0
                && ps[i].owner_is_ours,
        forall|i: int| 0 <= i < ps.len() && ps[i].owner != 0 && ps[i].owner_is_ours
            ==> unown_targets(ps).contains(#[trigger] ps[i].hwnd),
    decreases ps.len(),
{
    if ps.len() > 0 {
        let init = ps.drop_last();
        lemma_unown_only_owned(init);
        let r = unown_targets(ps);
        let ri = unown_targets(init);
        assert forall|k: int| 0 <= k < r.len() implies exists|i: int|
            0 <= i < ps.len() && ps[i].hwnd == #[trigger] r[k] && ps[i].owner != 0 && ps[i].owner_is_ours by {
            if k < ri.len() {
                assert(r[k] == ri[k]);
                let i = choose|i: int| 0 <= i < init.len() && init[i].hwnd == #[trigger] ri[k] && init[i].owner != 0
                    && init[i].owner_is_ours;
                assert(ps[i] == init[i]);
            } else {
                assert(ps[ps.len() - 1].hwnd == r[k]);
            }
        }
        assert forall|i: int| 0 <= i < ps.len() && ps[i].owner != 0 && ps[i].owner_is_ours
            implies r.contains(#[trigger] ps[i].hwnd) by {
            if i < ps.len() - 1 {
                assert(init[i] == ps[i]);
                assert(ri.contains(init[i].hwnd));
                let k = choose|k: int| 0 <= k < ri.len() && ri[k] == init[i].hwnd;
                assert(r[k] == ri[k]);
            } else {
                assert(r[r.len() - 1] == ps[i].hwnd);
            }
        }
    }
}

/// The window a popup handle found at position `k` comes from.
pub proof fn lemma_popup_source(ws: Seq<TopWindow>, k: int) -> (i: int)
    requires
        0 <= k < popup_hwnds_of(ws).len(),
    ensures
        0 <= i < ws.len(),
        ws[i].hwnd == popup_hwnds_of(ws)[k],
        is_popup(ws[i]),
    decreases ws.len(),
{
    let init = ws.drop_last();
    if k < popup_hwnds_of(init).len() {
        let j = lemma_popup_source(init, k);
        assert(ws[j] == init[j]);
        j
    } else {
        assert(is_popup(ws.last()));
        ws.len() - 1
    }
}

/// Some popup candidate among `ws` has the handle `h`.
pub open spec fn has_popup_with_hwnd(ws: Seq<TopWindow>, h: isize) -> bool {
    exists|i: int| 0 <= i < ws.len() && ws[i].hwnd == h && is_popup(#[trigger] ws[i])
}

/// Every popup handle found comes from a window that is a popup candidate.
pub proof fn lemma_popup_hwnds_are_candidates(ws: Seq<TopWindow>)
    ensures
        forall|k: int| 0 <= k < popup_hwnds_of(ws).len() ==> #[trigger] has_popup_with_hwnd(ws, popup_hwnds_of(ws)[k]),
{
    assert forall|k: int| 0 <= k < popup_hwnds_of(ws).len() implies #[trigger] has_popup_with_hwnd(ws, popup_hwnds_of(ws)[k]) by {
        let i = lemma_popup_source(ws, k);
        assert(is_popup(ws[i]));
    }
}

} // verus!
