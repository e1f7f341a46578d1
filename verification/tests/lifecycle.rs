use whatrust::applock::AppLockConfig;
use whatrust::lifecycle::{
    backfill_store_uuids, close_request_action, has_minimized_flag, idle_lock_due, launch_plan, needs_store_uuid,
    raise_on_second_launch, v4_store_uuid, AccountRecord, CloseAction, LaunchPlan,
};

fn args(xs: &[&str]) -> Vec<String> {
    xs.iter().map(|s| s.to_string()).collect()
}

fn active_lock() -> AppLockConfig {
    AppLockConfig {
        enabled: true,
        password_phc: Some("$argon2id$x".to_string()),
        idle_secs: 300,
        ..AppLockConfig::default()
    }
}

#[test]
fn minimized_flag_is_found() {
    assert!(has_minimized_flag(&args(&["whatrust", "--minimized"])));
    assert!(!has_minimized_flag(&args(&["whatrust", "--minimize"])));
    assert!(!has_minimized_flag(&args(&[])));
}

#[test]
fn second_launch_raises_unless_minimized() {
    assert!(raise_on_second_launch(&args(&["whatrust"])));
    assert!(!raise_on_second_launch(&args(&["whatrust", "--minimized"])));
}

#[test]
fn fresh_install_launches_unlocked_and_visible() {
    let p = launch_plan(false, &args(&["whatrust"]), &AppLockConfig::default());
    assert_eq!(
        p,
        LaunchPlan { start_hidden: false, lock_on_launch: false, open_hidden: false, show_lock_window: false }
    );
}

#[test]
fn active_lock_launches_locked_with_lock_screen() {
    let p = launch_plan(false, &args(&["whatrust"]), &active_lock());
    assert_eq!(
        p,
        LaunchPlan { start_hidden: false, lock_on_launch: true, open_hidden: true, show_lock_window: true }
    );
    let p = launch_plan(false, &args(&["whatrust", "--minimized"]), &active_lock());
    assert_eq!(
        p,
        LaunchPlan { start_hidden: true, lock_on_launch: true, open_hidden: true, show_lock_window: false }
    );
}

#[test]
fn enabled_without_password_never_locks() {
    let lock = AppLockConfig { enabled: true, lock_on_hide: true, idle_secs: 10, ..AppLockConfig::default() };
    assert!(!launch_plan(false, &args(&[]), &lock).lock_on_launch);
    assert!(!idle_lock_due(&lock, true, false, Some(1000)));
    assert_eq!(close_request_action(true, &lock), CloseAction::Hide);
}

#[test]
fn idle_lock_fires_at_threshold() {
    let lock = active_lock();
    assert!(!idle_lock_due(&lock, true, false, Some(299)));
    assert!(idle_lock_due(&lock, true, false, Some(300)));
    assert!(idle_lock_due(&lock, true, false, Some(301)));
    assert!(!idle_lock_due(&lock, true, false, None));
    assert!(!idle_lock_due(&lock, false, false, Some(1000)));
    assert!(!idle_lock_due(&lock, true, true, Some(1000)));
    let off = AppLockConfig { idle_secs: 0, ..active_lock() };
    assert!(!idle_lock_due(&off, true, false, Some(1000)));
}

#[test]
fn close_requests() {
    let mut lock = active_lock();
    assert_eq!(close_request_action(false, &lock), CloseAction::Close);
    assert_eq!(close_request_action(true, &lock), CloseAction::Hide);
    lock.lock_on_hide = true;
    assert_eq!(close_request_action(true, &lock), CloseAction::LockNow);
}

#[test]
fn store_uuid_backfill() {
    assert!(!needs_store_uuid("default", false));
    assert!(needs_store_uuid("work", false));
    assert!(!needs_store_uuid("work", true));
}

fn rec(id: &str, uuid: Option<u128>) -> AccountRecord {
    AccountRecord { id: id.to_string(), store_uuid: uuid }
}

#[test]
fn backfill_gives_every_non_default_account_an_id() {
    let mut accounts = vec![rec("default", None), rec("work", None), rec("home", Some(5)), rec("x", None)];
    let changed = backfill_store_uuids(&mut accounts, &vec![100, 101, 102, 103]);
    assert!(changed);
    assert_eq!(accounts, vec![rec("default", None), rec("work", Some(101)), rec("home", Some(5)), rec("x", Some(103))]);
    // A second pass changes nothing, so nothing is saved.
    assert!(!backfill_store_uuids(&mut accounts, &vec![200, 201, 202, 203]));
    assert_eq!(accounts[1], rec("work", Some(101)));
}

#[test]
fn backfill_of_default_only_changes_nothing() {
    let mut accounts = vec![rec("default", None)];
    assert!(!backfill_store_uuids(&mut accounts, &vec![1]));
    assert_eq!(accounts, vec![rec("default", None)]);
}

#[test]
fn v4_uuid_bits() {
    assert_eq!(v4_store_uuid(0), 0x4000_8000_0000_0000_0000);
    let all = v4_store_uuid(u128::MAX);
    assert_eq!((all >> 76) & 0xf, 4);
    assert_eq!((all >> 62) & 0x3, 2);
    assert_eq!(all | 0xf000_c000_0000_0000_0000, u128::MAX);
    let s = format!("{:032x}", v4_store_uuid(0x0123_4567_89ab_cdef_0123_4567_89ab_cdef));
    assert_eq!(&s[12..13], "4");
}
