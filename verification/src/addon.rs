//! The addon's policy layer: one window-state machine and one frame pacer,
//! wired together. A window message is classified, the transition it fires
//! adjusts the pacing target, and a tray selection is surfaced so the caller
//! can run the tray policy (show the window, restore it, drop the icon).

use vstd::prelude::*;

use crate::pacer::FramePacer;
use crate::pacer::spec_fps_to_interval;
use crate::wm::WM_ACTION;
use crate::wm::WM_ERROR;
use crate::wm::WM_WINDOW_STATE;
use crate::wm::WindowManager;
use crate::wm::spec_state_after;
use crate::wm::spec_toggle_result;
use crate::wm::spec_toggle_state;
use crate::wm::spec_transition_event;
use crate::wm::spec_tray_select;

verus! {

/// Frame-rate limit while the window is minimized.
pub const HIDDEN_FPS_LIMIT: u32 = 3;

/// Frame-rate limit while the window is inactive.
pub const INACTIVE_FPS_LIMIT: u32 = 15;

/// The frame-rate limit a state transition asks for: throttled hard while
/// minimized, gently while inactive, unlimited when the window is in use
/// again, and no change for the states pacing does not care about.
pub open spec fn spec_fps_for_state(state: WM_WINDOW_STATE) -> Option<u32> {
    match state {
        WM_WINDOW_STATE::MINIMIZED => Some(HIDDEN_FPS_LIMIT),
        WM_WINDOW_STATE::INACTIVE => Some(INACTIVE_FPS_LIMIT),
        WM_WINDOW_STATE::RESTORED => Some(0u32),
        WM_WINDOW_STATE::MAXIMIZED => Some(0u32),
        WM_WINDOW_STATE::ACTIVE => Some(0u32),
        _ => None,
    }
}

/// The frame-rate limit to apply on a transition to the given state, if the
/// transition changes pacing at all.
pub fn fps_for_state(state: WM_WINDOW_STATE) -> (fps: Option<u32>)
    ensures
        fps == spec_fps_for_state(state),
{
    match state {
        WM_WINDOW_STATE::MINIMIZED => Some(HIDDEN_FPS_LIMIT),
        WM_WINDOW_STATE::INACTIVE => Some(INACTIVE_FPS_LIMIT),
        WM_WINDOW_STATE::RESTORED => Some(0),
        WM_WINDOW_STATE::MAXIMIZED => Some(0),
        WM_WINDOW_STATE::ACTIVE => Some(0),
        _ => None,
    }
}

/// What handling one message did for the caller: whether the message is fully
/// handled here (only a tray selection is), the transition it fired, and
/// whether the tray policy is now owed.
#[derive(Debug, Clone, Copy, PartialEq, Eq)]
pub struct HandleOutcome {
    /// Whether the message needs no further processing by the platform.
    pub handled: bool,
    /// The transition that fired: the new state and whether the driving
    /// message was self-originated.
    pub fired: Option<(WM_WINDOW_STATE, bool)>,
    /// Whether the tray icon was selected, so the caller must run the tray
    /// policy (`on_tray_select`) with the platform's outcomes.
    pub tray_select: bool,
}

/// The window-state machine and the frame pacer of this addon, with the
/// policy that connects them.
pub struct Addon {
    /// The window-state machine and visibility flags.
    pub wm: WindowManager,
    /// The frame pacer the render hook consults.
    pub pacer: FramePacer,
}

impl Addon {
    /// The pacing interval after a message is handled: a fired transition may
    /// select a new frame-rate limit; everything else leaves pacing alone.
    pub open spec fn spec_interval_after(self, u_msg: u32, w_param: usize, l_param: isize) -> u64 {
        match spec_transition_event(self.wm.state, u_msg, w_param, l_param) {
            Some(event) => match spec_fps_for_state(event.0) {
                Some(fps) => spec_fps_to_interval(fps),
                None => self.pacer.interval_ns,
            },
            None => self.pacer.interval_ns,
        }
    }

    /// A fresh addon: default window state, icon absent, window visible,
    /// pacing off.
    pub fn new() -> (addon: Self)
        ensures
            addon.wm.state == WM_WINDOW_STATE::DEFAULT,
            !addon.wm.notify_visible,
            addon.wm.window_visible,
            addon.pacer.interval_ns == 0,
            addon.pacer.last_tick_ns == 0,
    {
        Addon { wm: WindowManager::new(), pacer: FramePacer::new() }
    }

    /// Handles one window message: classifies it, applies the transition it
    /// asks for, and adjusts the pacing target per the fired transition. A
    /// tray selection is reported as handled; everything else still belongs
    /// to the platform's default processing.
    pub fn handle_message(&mut self, u_msg: u32, w_param: usize, l_param: isize) -> (out:
        HandleOutcome)
        ensures
            final(self).wm.state == spec_state_after(old(self).wm.state, u_msg, w_param, l_param),
            final(self).wm.notify_visible == old(self).wm.notify_visible,
            final(self).wm.window_visible == old(self).wm.window_visible,
            final(self).pacer.interval_ns == old(self).spec_interval_after(
                u_msg,
                w_param,
                l_param,
            ),
            final(self).pacer.last_tick_ns == old(self).pacer.last_tick_ns,
            out.fired == spec_transition_event(old(self).wm.state, u_msg, w_param, l_param),
            out.tray_select == spec_tray_select(u_msg, l_param),
            out.handled == spec_tray_select(u_msg, l_param),
    {
        let classified = self.wm.wnd_proc(u_msg, w_param, l_param);
        match classified.fired {
            Some((new_state, _is_self)) => {
                match fps_for_state(new_state) {
                    Some(fps) => self.pacer.set_limit(fps),
                    None => {},
                }
            },
            None => {},
        }
        let tray_select = match classified.tray_action {
            Some(WM_ACTION::WM_TRAY_CLICK) => true,
            _ => false,
        };
        HandleOutcome { handled: tray_select, fired: classified.fired, tray_select }
    }

    /// The tray policy on a tray selection: show the window, ask it to
    /// restore, then remove the tray icon (the icon and the hidden window are
    /// mutually exclusive). Stops at the first failing step. The caller makes
    /// the platform calls and reports their outcomes: `os_show_ok` for the
    /// show call, `restore_posted` for posting the restore request,
    /// `os_del_ok` for deleting the icon; each is consulted only when its
    /// step is reached and needed.
    pub fn on_tray_select(&mut self, os_show_ok: bool, restore_posted: bool, os_del_ok: bool)
        -> (r: Result<(), WM_ERROR>)
        ensures
            final(self).wm.state == old(self).wm.state,
            final(self).pacer == old(self).pacer,
            final(self).wm.window_visible == spec_toggle_state(
                old(self).wm.window_visible,
                true,
                os_show_ok,
            ),
            ({
                let show_r = spec_toggle_result(
                    old(self).wm.window_visible,
                    true,
                    os_show_ok,
                    WM_ERROR::WM_ERROR_SHOW_WINDOW,
                );
                &&& show_r is Err ==> {
                    &&& r == show_r
                    &&& final(self).wm.notify_visible == old(self).wm.notify_visible
                }
                &&& show_r is Ok && !restore_posted ==> {
                    &&& r == Err::<(), WM_ERROR>(WM_ERROR::WM_ERROR_RESTORE)
                    &&& final(self).wm.notify_visible == old(self).wm.notify_visible
                }
                &&& show_r is Ok && restore_posted ==> {
                    &&& r == spec_toggle_result(
                        old(self).wm.notify_visible,
                        false,
                        os_del_ok,
                        WM_ERROR::WM_ERROR_DEL_NOTIFY_ICON,
                    )
                    &&& final(self).wm.notify_visible == spec_toggle_state(
                        old(self).wm.notify_visible,
                        false,
                        os_del_ok,
                    )
                }
            }),
    {
        if let Err(e) = self.wm.show(os_show_ok) {
            return Err(e);
        }
        if let Err(e) = self.wm.restore(restore_posted) {
            return Err(e);
        }
        self.wm.untrayize(os_del_ok)
    }
}

} // verus!
