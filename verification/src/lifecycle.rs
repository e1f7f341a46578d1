//! Start-up, relaunch, close and idle decisions: when the app starts hidden or
//! locked, what a second launch or a window close does, and when the idle timer
//! locks. The surrounding event loop runs outside and hands in plain values.
use vstd::prelude::*;
use crate::applock::AppLockConfig;
use crate::text::str_eq;

verus! {

/// The command-line flag of an autostart launch that stays in the tray.
pub open spec fn minimized_flag() -> Seq<char> {
    "--minimized"@
}

/// Some argument is exactly the minimized flag.
pub open spec fn args_have_flag(args: Seq<String>) -> bool {
    exists|i: int| 0 <= i < args.len() && (#[trigger] args[i])@ == minimized_flag()
}

/// Whether the command line carries `--minimized`.
pub fn has_minimized_flag(args: &Vec<String>) -> (r: bool)
    ensures
        r == args_have_flag(args@),
{
    let mut i: usize = 0;
    while i < args.len()
        invariant
            i <= args@.len(),
            forall|j: int| 0 <= j < i ==> (#[trigger] args@[j])@ != minimized_flag(),
        decreases args@.len() - i,
    {
        if str_eq(args[i].as_str(), "--minimized") {
            assert(args@[i as int]@ == minimized_flag());
            return true;
        }
        i += 1;
    }
    false
}

/// A second launch raises the active window, except an autostart relaunch that
/// carries `--minimized`, which keeps the app hidden in the tray.
pub fn raise_on_second_launch(args: &Vec<String>) -> (r: bool)
    ensures
        r == !args_have_flag(args@),
{
    !has_minimized_flag(args)
}

/// How the app comes up.
#[derive(Debug, Clone, Copy, PartialEq, Eq, Structural)]
pub struct LaunchPlan {
    /// The user asked to start in the tray (setting or `--minimized`).
    pub start_hidden: bool,
    /// The app starts locked.
    pub lock_on_launch: bool,
    /// The account windows are created hidden.
    pub open_hidden: bool,
    /// The lock screen is shown right away.
    pub show_lock_window: bool,
}

/// The launch plan for the start-minimized setting, whether `--minimized` was
/// passed, and the app-lock configuration.
pub open spec fn launch_plan_of(start_minimized: bool, minimized_arg: bool, lock: AppLockConfig) -> LaunchPlan {
    let start_hidden = start_minimized || minimized_arg;
    let lock_on_launch = lock.lock_active() && lock.lock_on_launch;
    LaunchPlan {
        start_hidden,
        lock_on_launch,
        open_hidden: start_hidden || lock_on_launch,
        show_lock_window: lock_on_launch && !start_hidden,
    }
}

/// Decide at start-up whether to start hidden and whether to start locked.
pub fn launch_plan(start_minimized: bool, args: &Vec<String>, lock: &AppLockConfig) -> (r: LaunchPlan)
    ensures
        r == launch_plan_of(start_minimized, args_have_flag(args@), *lock),
        r.start_hidden == (start_minimized || args_have_flag(args@)),
        r.lock_on_launch == (lock.enabled && lock.password_phc is Some && lock.lock_on_launch),
        r.open_hidden == (r.start_hidden || r.lock_on_launch),
        r.show_lock_window == (r.lock_on_launch && !r.start_hidden),
        start_minimized ==> r.start_hidden && r.open_hidden && !r.show_lock_window,
{
    proof {
        lemma_launch_plan_law(start_minimized, args_have_flag(args@), *lock);
    }
    let start_hidden = start_minimized || has_minimized_flag(args);
    let lock_on_launch = lock.is_active() && lock.lock_on_launch;
    LaunchPlan {
        start_hidden,
        lock_on_launch,
        open_hidden: start_hidden || lock_on_launch,
        show_lock_window: lock_on_launch && !start_hidden,
    }
}

/// An account other than `default` that has no persisted store id yet gets one
/// (state older than multiple accounts).
pub fn needs_store_uuid(account_id: &str, has_store_uuid: bool) -> (r: bool)
    ensures
        r == (account_id@ != "default"@ && !has_store_uuid),
{
    !str_eq(account_id, "default") && !has_store_uuid
}

/// Turns 128 random bits into a version-4 UUID (RFC 4122 variant), read as a
/// big-endian number: the version nibble (bits 76..80) becomes 4 and the variant
/// bits (62..64) become 0b10; every other bit is kept. Such an id is never nil.
pub fn v4_store_uuid(random: u128) -> (r: u128)
    ensures
        (r >> 76u128) & 0xfu128 == 4,
        (r >> 62u128) & 0x3u128 == 2,
        r & !0xf000_c000_0000_0000_0000u128 == random & !0xf000_c000_0000_0000_0000u128,
        r != 0,
{
    let r = (random & !0xf000_c000_0000_0000_0000u128) | 0x4000_8000_0000_0000_0000u128;
    assert((r >> 76u128) & 0xfu128 == 4 && (r >> 62u128) & 0x3u128 == 2
        && r & !0xf000_c000_0000_0000_0000u128 == random & !0xf000_c000_0000_0000_0000u128
        && r != 0) by (bit_vector)
        requires
            r == (random & !0xf000_c000_0000_0000_0000u128) | 0x4000_8000_0000_0000_0000u128;
    r
}

/// An account as far as its store id is concerned.
#[derive(Debug, PartialEq)]
pub struct AccountRecord {
    pub id: String,
    /// Persisted data-store UUID; the `default` account needs none.
    pub store_uuid: Option<u128>,
}

/// The account still lacks the store id that a non-default account must carry.
pub open spec fn lacks_store_uuid(a: AccountRecord) -> bool {
    a.id@ != "default"@ && a.store_uuid is None
}

/// One backfill pass over the accounts loaded at start-up: every non-default
/// account without a store id gets the fresh id at its position; every other
/// account is left as it was. The result says whether anything changed, that is
/// whether the accounts must be saved.
pub fn backfill_store_uuids(accounts: &mut Vec<AccountRecord>, fresh_uuids: &Vec<u128>) -> (changed: bool)
    requires
        fresh_uuids@.len() == old(accounts)@.len(),
    ensures
        final(accounts)@.len() == old(accounts)@.len(),
        forall|i: int| 0 <= i < old(accounts)@.len() && lacks_store_uuid(#[trigger] old(accounts)@[i])
            ==> final(accounts)@[i].id@ == old(accounts)@[i].id@
                && final(accounts)@[i].store_uuid == Some(fresh_uuids@[i]),
        forall|i: int| 0 <= i < old(accounts)@.len() && !lacks_store_uuid(#[trigger] old(accounts)@[i])
            ==> final(accounts)@[i] == old(accounts)@[i],
        forall|i: int| 0 <= i < final(accounts)@.len() && (#[trigger] final(accounts)@[i]).id@ != "default"@
            ==> final(accounts)@[i].store_uuid is Some,
        changed == exists|i: int| 0 <= i < old(accounts)@.len() && lacks_store_uuid(#[trigger] old(accounts)@[i]),
{
    let ghost start = accounts@;
    let mut changed = false;
    let mut i: usize = 0;
    while i < accounts.len()
        invariant
            start == old(accounts)@,
            fresh_uuids@.len() == start.len(),
            accounts@.len() == start.len(),
            i <= start.len(),
            forall|j: int| 0 <= j < i && lacks_store_uuid(#[trigger] start[j])
                ==> accounts@[j].id@ == start[j].id@ && accounts@[j].store_uuid == Some(fresh_uuids@[j]),
            forall|j: int| 0 <= j < start.len() && !(j < i && lacks_store_uuid(start[j]))
                ==> #[trigger] accounts@[j] == start[j],
            changed == exists|j: int| 0 <= j < i && lacks_store_uuid(#[trigger] start[j]),
        decreases start.len() - i,
    {
        let needs = needs_store_uuid(accounts[i].id.as_str(), accounts[i].store_uuid.is_some());
        assert(accounts@[i as int] == start[i as int]);
        if needs {
            let rec = AccountRecord { id: accounts[i].id.clone(), store_uuid: Some(fresh_uuids[i]) };
            accounts.set(i, rec);
            changed = true;
        }
        assert(needs == lacks_store_uuid(start[i as int]));
        i += 1;
    }
    assert forall|j: int| 0 <= j < accounts@.len() && (#[trigger] accounts@[j]).id@ != "default"@
        implies accounts@[j].store_uuid is Some by {
        if lacks_store_uuid(start[j]) {
        } else {
            assert(accounts@[j] == start[j]);
        }
    }
    changed
}

/// The idle auto-lock fires when the lock is active with a non-zero threshold,
/// the app is unlocked, no call is in progress, and the user has been idle
/// (as far as it could be read) for at least the threshold.
pub open spec fn idle_lock_due_of(
    lock: AppLockConfig,
    unlocked: bool,
    call_in_progress: bool,
    idle_seconds: Option<u64>,
) -> bool {
    &&& lock.lock_active()
    &&& lock.idle_secs != 0
    &&& unlocked
    &&& !call_in_progress
    &&& idle_seconds matches Some(t) && t >= lock.idle_secs
}

/// One tick of the idle watcher: whether to lock now. `idle_seconds` is `None`
/// when the idle time could not be read, which never locks.
pub fn idle_lock_due(
    lock: &AppLockConfig,
    unlocked: bool,
    call_in_progress: bool,
    idle_seconds: Option<u64>,
) -> (r: bool)
    ensures
        r == idle_lock_due_of(*lock, unlocked, call_in_progress, idle_seconds),
        r <==> (lock.enabled && lock.password_phc is Some && lock.idle_secs != 0 && unlocked && !call_in_progress
            && idle_seconds is Some && idle_seconds.unwrap() >= lock.idle_secs),
{
    proof {
        lemma_idle_lock_law(*lock, unlocked, call_in_progress, idle_seconds);
    }
    if !lock.is_active() || lock.idle_secs == 0 {
        return false;
    }
    if !unlocked || call_in_progress {
        return false;
    }
    match idle_seconds {
        Some(t) => t >= lock.idle_secs as u64,
        None => false,
    }
}

/// What closing an account window does.
#[derive(Debug, Clone, Copy, PartialEq, Eq, Structural)]
pub enum CloseAction {
    /// Let the window close.
    Close,
    /// Keep it, hidden in the tray.
    Hide,
    /// Keep it and lock the app.
    LockNow,
}

pub open spec fn close_action_of(close_to_tray: bool, lock: AppLockConfig) -> CloseAction {
    if !close_to_tray {
        CloseAction::Close
    } else if lock.lock_active() && lock.lock_on_hide {
        CloseAction::LockNow
    } else {
        CloseAction::Hide
    }
}

/// A close request on an account window: with close-to-tray it is kept, and
/// either locked (when the active lock locks on hide) or hidden; without it the
/// window closes.
pub fn close_request_action(close_to_tray: bool, lock: &AppLockConfig) -> (r: CloseAction)
    ensures
        r == close_action_of(close_to_tray, *lock),
        !close_to_tray ==> r == CloseAction::Close,
        close_to_tray ==> r != CloseAction::Close,
        r == CloseAction::LockNow <==> (close_to_tray && lock.enabled && lock.password_phc is Some && lock.lock_on_hide),
{
    proof {
        lemma_close_action_law(close_to_tray, *lock);
    }
    if !close_to_tray {
        CloseAction::Close
    } else if lock.is_active() && lock.lock_on_hide {
        CloseAction::LockNow
    } else {
        CloseAction::Hide
    }
}

/// A lock that is enabled but has no password hash can never lock the user out:
/// it neither starts the app locked, nor locks on idle, nor locks on close.
pub proof fn lemma_no_password_never_locks(
    lock: AppLockConfig,
    start_minimized: bool,
    minimized_arg: bool,
    unlocked: bool,
    call_in_progress: bool,
    idle_seconds: Option<u64>,
    close_to_tray: bool,
)
    requires
        lock.password_phc is None,
    ensures
        !launch_plan_of(start_minimized, minimized_arg, lock).lock_on_launch,
        !launch_plan_of(start_minimized, minimized_arg, lock).show_lock_window,
        !idle_lock_due_of(lock, unlocked, call_in_progress, idle_seconds),
        close_action_of(close_to_tray, lock) != CloseAction::LockNow,
{
}

/// When the app starts locked no account window is shown at launch: they are all
/// created hidden. The lock screen shows at launch only when the app starts
/// locked and was not asked to stay in the tray.
pub proof fn lemma_locked_launch_hides_accounts(start_minimized: bool, minimized_arg: bool, lock: AppLockConfig)
    ensures
        launch_plan_of(start_minimized, minimized_arg, lock).lock_on_launch
            ==> launch_plan_of(start_minimized, minimized_arg, lock).open_hidden,
        launch_plan_of(start_minimized, minimized_arg, lock).show_lock_window
            <==> (launch_plan_of(start_minimized, minimized_arg, lock).lock_on_launch
                && !launch_plan_of(start_minimized, minimized_arg, lock).start_hidden),
{
}

/// Once the idle lock is due it stays due while the user stays idle longer.
pub proof fn lemma_idle_lock_monotone(
    lock: AppLockConfig,
    unlocked: bool,
    call_in_progress: bool,
    t1: u64,
    t2: u64,
)
    requires
        t1 <= t2,
        idle_lock_due_of(lock, unlocked, call_in_progress, Some(t1)),
    ensures
        idle_lock_due_of(lock, unlocked, call_in_progress, Some(t2)),
{
}

/// While locked, or during a call, the idle lock never fires.
pub proof fn lemma_idle_lock_needs_unlocked_and_no_call(
    lock: AppLockConfig,
    unlocked: bool,
    call_in_progress: bool,
    idle_seconds: Option<u64>,
)
    requires
        !unlocked || call_in_progress,
    ensures
        !idle_lock_due_of(lock, unlocked, call_in_progress, idle_seconds),
{
}

/// Start-up law: the app starts hidden exactly when the start-minimized setting is
/// on or `--minimized` was passed; it starts locked exactly when the lock is
/// enabled with a password and set to lock on launch; the account windows open
/// hidden when it starts hidden or locked; the lock screen shows right away only
/// when it starts locked and visible. In particular the start-minimized setting
/// alone keeps every window hidden.
pub proof fn lemma_launch_plan_law(start_minimized: bool, minimized_arg: bool, lock: AppLockConfig)
    ensures
        launch_plan_of(start_minimized, minimized_arg, lock).start_hidden == (start_minimized || minimized_arg),
        launch_plan_of(start_minimized, minimized_arg, lock).lock_on_launch
            == (lock.enabled && lock.password_phc is Some && lock.lock_on_launch),
        launch_plan_of(start_minimized, minimized_arg, lock).open_hidden
            == (start_minimized || minimized_arg || (lock.enabled && lock.password_phc is Some && lock.lock_on_launch)),
        launch_plan_of(start_minimized, minimized_arg, lock).show_lock_window
            == (lock.enabled && lock.password_phc is Some && lock.lock_on_launch && !start_minimized && !minimized_arg),
        start_minimized ==> launch_plan_of(start_minimized, minimized_arg, lock).start_hidden
            && launch_plan_of(start_minimized, minimized_arg, lock).open_hidden,
{
}

/// Idle-lock law: the idle lock fires exactly when the lock is enabled with a
/// password, its threshold is non-zero, the app is unlocked, no call is going on,
/// and the idle time read is at least the threshold. Nothing else of the
/// configuration (lock on launch, lock on hide, biometrics) matters.
pub proof fn lemma_idle_lock_law(lock: AppLockConfig, unlocked: bool, call_in_progress: bool, idle_seconds: Option<u64>)
    ensures
        idle_lock_due_of(lock, unlocked, call_in_progress, idle_seconds) <==> (lock.enabled && lock.password_phc is Some
            && lock.idle_secs != 0 && unlocked && !call_in_progress && idle_seconds is Some
            && idle_seconds.unwrap() >= lock.idle_secs),
{
}

/// The idle decision depends on the lock configuration only through whether the
/// lock is enabled, whether a password is set, and the threshold.
pub proof fn lemma_idle_lock_ignores_other_settings(
    a: AppLockConfig,
    b: AppLockConfig,
    unlocked: bool,
    call_in_progress: bool,
    idle_seconds: Option<u64>,
)
    requires
        a.enabled == b.enabled,
        (a.password_phc is Some) == (b.password_phc is Some),
        a.idle_secs == b.idle_secs,
    ensures
        idle_lock_due_of(a, unlocked, call_in_progress, idle_seconds)
            == idle_lock_due_of(b, unlocked, call_in_progress, idle_seconds),
{
}

/// Close law: without close-to-tray the window closes, whatever the lock
/// configuration; with it the window is always kept, and the app locks exactly
/// when the lock is enabled with a password and set to lock on hide.
pub proof fn lemma_close_action_law(close_to_tray: bool, lock: AppLockConfig)
    ensures
        !close_to_tray ==> close_action_of(close_to_tray, lock) == CloseAction::Close,
        close_to_tray ==> close_action_of(close_to_tray, lock) != CloseAction::Close,
        close_action_of(close_to_tray, lock) == CloseAction::LockNow
            <==> (close_to_tray && lock.enabled && lock.password_phc is Some && lock.lock_on_hide),
{
}

} // verus!
