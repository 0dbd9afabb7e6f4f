use xdd_tray::addon::{fps_for_state, Addon, HIDDEN_FPS_LIMIT, INACTIVE_FPS_LIMIT};
use xdd_tray::pacer::fps_to_interval;
use xdd_tray::wm::{
    NIN_SELECT, SC_MINIMIZE, SC_RESTORE, WA_ACTIVE, WA_INACTIVE, WM_ACTIVATE, WM_ERROR,
    WM_NOTIFY_CALLBACK, WM_SYSCOMMAND, WM_WINDOW_STATE, WM_XDD_MESSAGE,
};

#[test]
fn pacing_policy_per_state() {
    assert_eq!(fps_for_state(WM_WINDOW_STATE::MINIMIZED), Some(HIDDEN_FPS_LIMIT));
    assert_eq!(fps_for_state(WM_WINDOW_STATE::INACTIVE), Some(INACTIVE_FPS_LIMIT));
    assert_eq!(fps_for_state(WM_WINDOW_STATE::RESTORED), Some(0));
    assert_eq!(fps_for_state(WM_WINDOW_STATE::MAXIMIZED), Some(0));
    assert_eq!(fps_for_state(WM_WINDOW_STATE::ACTIVE), Some(0));
    assert_eq!(fps_for_state(WM_WINDOW_STATE::DEFAULT), None);
    assert_eq!(fps_for_state(WM_WINDOW_STATE::HIDDEN), None);
    assert_eq!(fps_for_state(WM_WINDOW_STATE::SHOWN), None);
}

#[test]
fn active_then_self_minimize_then_external_restore() {
    let mut addon = Addon::new();

    // The window becomes active: no pacing.
    let out = addon.handle_message(WM_ACTIVATE, WA_ACTIVE as usize, 0);
    assert_eq!(addon.wm.state, WM_WINDOW_STATE::ACTIVE);
    assert_eq!(out.fired, Some((WM_WINDOW_STATE::ACTIVE, false)));
    assert_eq!(addon.pacer.interval_ns, 0);

    // The addon minimizes its own window: the hidden limit kicks in, ~333 ms.
    let out = addon.handle_message(
        WM_SYSCOMMAND,
        SC_MINIMIZE as usize,
        WM_XDD_MESSAGE as isize,
    );
    assert_eq!(addon.wm.state, WM_WINDOW_STATE::MINIMIZED);
    assert_eq!(out.fired, Some((WM_WINDOW_STATE::MINIMIZED, true)));
    assert_eq!(addon.pacer.interval_ns, 333_333_333);
    assert_eq!(addon.pacer.interval_ns, fps_to_interval(HIDDEN_FPS_LIMIT));

    // The user restores the window externally: pacing is cleared.
    let out = addon.handle_message(WM_SYSCOMMAND, SC_RESTORE as usize, 0);
    assert_eq!(addon.wm.state, WM_WINDOW_STATE::RESTORED);
    assert_eq!(out.fired, Some((WM_WINDOW_STATE::RESTORED, false)));
    assert_eq!(addon.pacer.interval_ns, 0);
}

#[test]
fn losing_focus_applies_the_inactive_limit() {
    let mut addon = Addon::new();
    addon.handle_message(WM_ACTIVATE, WA_INACTIVE as usize, 0);
    assert_eq!(addon.wm.state, WM_WINDOW_STATE::INACTIVE);
    assert_eq!(addon.pacer.interval_ns, fps_to_interval(INACTIVE_FPS_LIMIT));
    assert_eq!(addon.pacer.interval_ns, 66_666_667);
}

#[test]
fn a_repeated_transition_does_not_touch_pacing_again() {
    let mut addon = Addon::new();
    addon.handle_message(WM_ACTIVATE, WA_INACTIVE as usize, 0);
    addon.pacer.set_limit(0);
    // Same trigger again: no transition fires, so the policy stays silent.
    let out = addon.handle_message(WM_ACTIVATE, WA_INACTIVE as usize, 0);
    assert_eq!(out.fired, None);
    assert_eq!(addon.pacer.interval_ns, 0);
}

#[test]
fn a_tray_selection_is_handled_and_reported() {
    let mut addon = Addon::new();
    let out = addon.handle_message(WM_NOTIFY_CALLBACK, 0, NIN_SELECT as isize);
    assert!(out.handled);
    assert!(out.tray_select);
    assert_eq!(out.fired, None);

    // Everything else still belongs to the platform's default processing.
    let out = addon.handle_message(WM_ACTIVATE, WA_ACTIVE as usize, 0);
    assert!(!out.handled);
    assert!(!out.tray_select);
}

#[test]
fn tray_policy_shows_restores_and_drops_the_icon() {
    let mut addon = Addon::new();
    addon.wm.trayize(true).unwrap();
    addon.wm.hide_window(true).unwrap();

    assert_eq!(addon.on_tray_select(true, true, true), Ok(()));
    assert!(addon.wm.window_visible);
    assert!(!addon.wm.notify_visible);
}

#[test]
fn tray_policy_stops_when_the_show_call_fails() {
    let mut addon = Addon::new();
    addon.wm.trayize(true).unwrap();
    addon.wm.hide_window(true).unwrap();

    assert_eq!(
        addon.on_tray_select(false, true, true),
        Err(WM_ERROR::WM_ERROR_SHOW_WINDOW)
    );
    assert!(!addon.wm.window_visible);
    assert!(addon.wm.notify_visible);
}

#[test]
fn tray_policy_stops_when_the_restore_post_fails() {
    let mut addon = Addon::new();
    addon.wm.trayize(true).unwrap();
    addon.wm.hide_window(true).unwrap();

    assert_eq!(
        addon.on_tray_select(true, false, true),
        Err(WM_ERROR::WM_ERROR_RESTORE)
    );
    assert!(addon.wm.window_visible);
    assert!(addon.wm.notify_visible);
}

#[test]
fn tray_policy_reports_a_refused_icon_delete() {
    let mut addon = Addon::new();
    addon.wm.trayize(true).unwrap();
    addon.wm.hide_window(true).unwrap();

    assert_eq!(
        addon.on_tray_select(true, true, false),
        Err(WM_ERROR::WM_ERROR_DEL_NOTIFY_ICON)
    );
    assert!(addon.wm.window_visible);
    assert!(addon.wm.notify_visible);
}
