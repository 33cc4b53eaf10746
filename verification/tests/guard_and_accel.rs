use std::sync::atomic::{AtomicUsize, Ordering};
use std::sync::Arc;

use reaper_core::accel::{
    AccelMsg, AccelMsgKind, AcceleratorKeyCode, Hwnd, Point, TranslateAccelResult, WM_CHAR,
    WM_KEYDOWN, WM_KEYUP, WM_SYSKEYDOWN, WM_SYSKEYUP,
};
use reaper_core::guard::{GuardActivation, GuardCoordinator, GuardRelease, ReaperGuard, TeardownFn};

#[test]
fn guard_sharing_runs_teardown_once() {
    let mut coordinator = GuardCoordinator::new();
    // First-ever activation: wake, and run the initializer.
    match coordinator.acquire() {
        GuardActivation::Activated { run_initializer } => assert!(run_initializer),
        GuardActivation::Shared => panic!("first acquisition cannot share"),
    }
    // Two independent activations while one guard is live: both share.
    assert!(coordinator.acquire().is_shared());
    assert!(coordinator.acquire().is_shared());
    // Only the release of the last live guard triggers the teardown.
    assert_eq!(coordinator.release(), GuardRelease::StillLive);
    assert_eq!(coordinator.release(), GuardRelease::StillLive);
    assert_eq!(coordinator.release(), GuardRelease::LastReleased);
    // A later activation cycle wakes again but never re-runs the
    // initializer.
    match coordinator.acquire() {
        GuardActivation::Activated { run_initializer } => assert!(!run_initializer),
        GuardActivation::Shared => panic!("no guard is live any more"),
    }
    assert_eq!(coordinator.release(), GuardRelease::LastReleased);
}

#[test]
fn guard_token_hands_its_teardown_out_once() {
    let ran = Arc::new(AtomicUsize::new(0));
    let r = Arc::clone(&ran);
    let mut guard = ReaperGuard::new(TeardownFn::new(move || {
        r.fetch_add(1, Ordering::SeqCst);
    }));
    let teardown = guard.take_go_to_sleep().expect("the teardown is owed once");
    assert!(guard.take_go_to_sleep().is_none(), "a second take finds nothing");
    teardown.invoke();
    assert_eq!(ran.load(Ordering::SeqCst), 1);
}

#[test]
fn accel_msg_kind_decodes_known_messages() {
    assert_eq!(AccelMsgKind::from_raw(WM_KEYDOWN), AccelMsgKind::KeyDown);
    assert_eq!(AccelMsgKind::from_raw(WM_KEYUP), AccelMsgKind::KeyUp);
    assert_eq!(AccelMsgKind::from_raw(WM_CHAR), AccelMsgKind::Char);
    assert_eq!(AccelMsgKind::from_raw(WM_SYSKEYDOWN), AccelMsgKind::SysKeyDown);
    assert_eq!(AccelMsgKind::from_raw(WM_SYSKEYUP), AccelMsgKind::SysKeyUp);
    assert!(matches!(
        AccelMsgKind::from_raw(0x0200),
        AccelMsgKind::Unknown(_)
    ));
}

#[test]
fn accel_msg_exposes_its_fields() {
    let msg = AccelMsg::from_raw(
        0x1234,
        WM_KEYDOWN,
        0x0005_0041,
        0x001d_0001,
        987_654,
        Point::from_raw(10, -3),
    );
    assert_eq!(msg.window().get(), 0x1234);
    assert_eq!(msg.message(), AccelMsgKind::KeyDown);
    // The key code is the low word of the first parameter.
    assert_eq!(msg.key().get(), 0x0041);
    assert_eq!(msg.time(), 987_654);
    assert_eq!(msg.point(), Point { x: 10, y: 4294967293 });
}

#[test]
fn loword_takes_the_low_sixteen_bits() {
    assert_eq!(reaper_core::accel::loword(0), 0);
    assert_eq!(reaper_core::accel::loword(0x12345), 0x2345);
    assert_eq!(reaper_core::accel::loword(-1), 0xffff);
}

#[test]
fn key_code_wraps_its_value() {
    let code = AcceleratorKeyCode::new(0x41);
    assert_eq!(code.get(), 0x41);
}

#[test]
fn null_window_handles_have_no_wrapped_form() {
    assert!(Hwnd::new(0).is_none());
    assert_eq!(Hwnd::new(5).unwrap().get(), 5);
}

#[test]
fn translate_accel_results_convert_to_the_raw_integers() {
    assert_eq!(TranslateAccelResult::NotOurWindow.to_raw(), 0);
    assert_eq!(TranslateAccelResult::Eat.to_raw(), 1);
    assert_eq!(TranslateAccelResult::PassOnToWindow.to_raw(), -1);
    assert_eq!(TranslateAccelResult::ProcessEventRaw.to_raw(), -10);
    assert_eq!(TranslateAccelResult::ForcePassOnToWindow.to_raw(), -20);
    assert_eq!(TranslateAccelResult::ForceToMainWindowAccelTable.to_raw(), -666);
    assert_eq!(
        TranslateAccelResult::ForceToMainWindowAccelTableEvenIfTextField.to_raw(),
        -667
    );
}
