//! Window-state machine and tray bookkeeping. Window messages arrive as plain
//! numbers; this module classifies them into state transitions, tells messages
//! this addon posted itself (tagged with a sentinel in the auxiliary
//! parameter) from external ones, and keeps the idempotent visibility flags
//! for the window and the notification-area icon. Posting messages and the
//! notification-area calls themselves happen outside this crate; each such
//! call reports its outcome here.

use vstd::prelude::*;

verus! {

/// System-command message: a minimize, maximize or restore request.
pub const WM_SYSCOMMAND: u32 = 0x0112;

/// Activation message: the window gained or lost focus.
pub const WM_ACTIVATE: u32 = 0x0006;

/// Visibility message: the window is about to be shown or hidden.
pub const WM_SHOWWINDOW: u32 = 0x0018;

/// First message number of the application-private range.
pub const WM_APP: u32 = 0x8000;

/// The callback message the tray icon is registered with, allocated from the
/// application-private range to avoid the platform-reserved ones.
pub const WM_NOTIFY_CALLBACK: u32 = WM_APP + 0x69;

/// Sentinel carried in the auxiliary parameter of every message this addon
/// posts to its own window, so the state machine can tell its own synthetic
/// messages from external ones.
pub const WM_XDD_MESSAGE: u32 = 1337;

/// System-command parameter: minimize.
pub const SC_MINIMIZE: u32 = 0xF020;

/// System-command parameter: maximize.
pub const SC_MAXIMIZE: u32 = 0xF030;

/// System-command parameter: restore.
pub const SC_RESTORE: u32 = 0xF120;

/// Activation parameter: deactivated.
pub const WA_INACTIVE: u32 = 0;

/// Activation parameter: activated by some means other than a click.
pub const WA_ACTIVE: u32 = 1;

/// Activation parameter: activated by a click.
pub const WA_CLICKACTIVE: u32 = 2;

/// Tray notification: the icon was selected.
pub const NIN_SELECT: u32 = 0x0400;

/// The canonical visibility and activity state of the one managed window.
#[allow(non_camel_case_types)]
#[derive(Debug, Clone, Copy, PartialEq, Eq, Structural)]
pub enum WM_WINDOW_STATE {
    DEFAULT,
    MINIMIZED,
    RESTORED,
    MAXIMIZED,
    HIDDEN,
    SHOWN,
    ACTIVE,
    INACTIVE,
}

/// A window or tray operation that the platform refused.
#[allow(non_camel_case_types)]
#[derive(Debug, Clone, Copy, PartialEq, Eq, Structural)]
pub enum WM_ERROR {
    WM_ERROR_MINIMIZE,
    WM_ERROR_RESTORE,
    WM_ERROR_MAXIMIZE,
    WM_ERROR_ADD_NOTIFY_ICON,
    WM_ERROR_DEL_NOTIFY_ICON,
    WM_ERROR_SHOW_WINDOW,
    WM_ERROR_HIDE_WINDOW,
}

/// An input surfaced to the action callback rather than a state change.
#[allow(non_camel_case_types)]
#[derive(Debug, Clone, Copy, PartialEq, Eq, Structural)]
pub enum WM_ACTION {
    WM_DEFAULT,
    WM_TRAY_CLICK,
}

/// The state a message asks the window to take, if it is a transition trigger
/// at all. Show-window messages are handled only when the auxiliary parameter
/// is 0, that is when they come from a plain show-window call rather than from
/// layered-window housekeeping.
pub open spec fn spec_target_state(u_msg: u32, w_param: usize, l_param: isize) -> Option<
    WM_WINDOW_STATE,
> {
    if u_msg == WM_SYSCOMMAND {
        if w_param as u32 == SC_MAXIMIZE {
            Some(WM_WINDOW_STATE::MAXIMIZED)
        } else if w_param as u32 == SC_RESTORE {
            Some(WM_WINDOW_STATE::RESTORED)
        } else if w_param as u32 == SC_MINIMIZE {
            Some(WM_WINDOW_STATE::MINIMIZED)
        } else {
            None
        }
    } else if u_msg == WM_ACTIVATE {
        if w_param as u32 == WA_ACTIVE || w_param as u32 == WA_CLICKACTIVE {
            Some(WM_WINDOW_STATE::ACTIVE)
        } else if w_param as u32 == WA_INACTIVE {
            Some(WM_WINDOW_STATE::INACTIVE)
        } else {
            None
        }
    } else if u_msg == WM_SHOWWINDOW {
        if l_param == 0 {
            if w_param as u32 == 0 {
                Some(WM_WINDOW_STATE::HIDDEN)
            } else {
                Some(WM_WINDOW_STATE::SHOWN)
            }
        } else {
            None
        }
    } else {
        None
    }
}

/// Whether the message originated from this addon itself. For system-command
/// and activation messages that is read off the sentinel in the auxiliary
/// parameter, a pure function of the message; the show-window messages that
/// are handled are the reflections of this addon's own show-window calls.
pub open spec fn spec_msg_self(u_msg: u32, w_param: usize, l_param: isize) -> bool {
    if u_msg == WM_SHOWWINDOW {
        true
    } else {
        l_param as u32 == WM_XDD_MESSAGE
    }
}

/// Whether the message is the tray icon reporting that it was selected: the
/// icon's callback message, with the notification code in the low word of the
/// auxiliary parameter.
pub open spec fn spec_tray_select(u_msg: u32, l_param: isize) -> bool {
    u_msg == WM_NOTIFY_CALLBACK && (l_param as u32) & 0xffff == NIN_SELECT
}

/// The window state after a message is handled: the state the message asks
/// for, or the old state when the message is no transition trigger.
pub open spec fn spec_state_after(
    state: WM_WINDOW_STATE,
    u_msg: u32,
    w_param: usize,
    l_param: isize,
) -> WM_WINDOW_STATE {
    match spec_target_state(u_msg, w_param, l_param) {
        Some(target) => target,
        None => state,
    }
}

/// The state-change notification a message fires: the new state and whether
/// the message was self-originated, or nothing when the message is no
/// transition trigger or asks for the state the window is already in.
pub open spec fn spec_transition_event(
    state: WM_WINDOW_STATE,
    u_msg: u32,
    w_param: usize,
    l_param: isize,
) -> Option<(WM_WINDOW_STATE, bool)> {
    match spec_target_state(u_msg, w_param, l_param) {
        Some(target) => if target != state {
            Some((target, spec_msg_self(u_msg, w_param, l_param)))
        } else {
            None
        },
        None => None,
    }
}

/// What an idempotent visibility toggle returns: already in the asked-for
/// state is success without any platform call; otherwise the platform call
/// decides, and its failure is the given error.
pub open spec fn spec_toggle_result(
    current: bool,
    target: bool,
    os_ok: bool,
    err: WM_ERROR,
) -> Result<(), WM_ERROR> {
    if current == target {
        Ok(())
    } else if os_ok {
        Ok(())
    } else {
        Err(err)
    }
}

/// The visibility flag after an idempotent toggle: it moves to the asked-for
/// state exactly when a platform call was needed and succeeded.
pub open spec fn spec_toggle_state(current: bool, target: bool, os_ok: bool) -> bool {
    if current == target {
        current
    } else if os_ok {
        target
    } else {
        current
    }
}

/// What handling one message produced: the state-change notification it
/// fired, if any, and the tray action it surfaced, if any. The caller owes
/// unhandled messages to the platform's default processing either way.
#[derive(Debug, Clone, Copy, PartialEq, Eq)]
pub struct WndProcOutcome {
    /// The transition that fired: the new state and whether the driving
    /// message was self-originated. `None` when no notification is owed.
    pub fired: Option<(WM_WINDOW_STATE, bool)>,
    /// The tray action the message surfaced, if it was a tray notification.
    pub tray_action: Option<WM_ACTION>,
}

/// A message this addon posts to its own window, tagged with the sentinel so
/// the state machine recognizes it as self-originated when it loops back.
#[derive(Debug, Clone, Copy, PartialEq, Eq)]
pub struct SysCommandRequest {
    /// The message number to post.
    pub message: u32,
    /// The primary parameter to post.
    pub w_param: usize,
    /// The auxiliary parameter to post; carries the sentinel.
    pub l_param: isize,
}

/// The system-command request that asks the window to minimize.
pub fn minimize_request() -> (req: SysCommandRequest)
    ensures
        req.message == WM_SYSCOMMAND,
        req.w_param == SC_MINIMIZE as usize,
        req.l_param == WM_XDD_MESSAGE as isize,
{
    SysCommandRequest {
        message: WM_SYSCOMMAND,
        w_param: SC_MINIMIZE as usize,
        l_param: WM_XDD_MESSAGE as isize,
    }
}

/// The system-command request that asks the window to maximize.
pub fn maximize_request() -> (req: SysCommandRequest)
    ensures
        req.message == WM_SYSCOMMAND,
        req.w_param == SC_MAXIMIZE as usize,
        req.l_param == WM_XDD_MESSAGE as isize,
{
    SysCommandRequest {
        message: WM_SYSCOMMAND,
        w_param: SC_MAXIMIZE as usize,
        l_param: WM_XDD_MESSAGE as isize,
    }
}

/// The system-command request that asks the window to restore.
pub fn restore_request() -> (req: SysCommandRequest)
    ensures
        req.message == WM_SYSCOMMAND,
        req.w_param == SC_RESTORE as usize,
        req.l_param == WM_XDD_MESSAGE as isize,
{
    SysCommandRequest {
        message: WM_SYSCOMMAND,
        w_param: SC_RESTORE as usize,
        l_param: WM_XDD_MESSAGE as isize,
    }
}

/// The classification layer over the one managed window: its canonical state,
/// and the visibility flags for the window and the notification-area icon.
/// The window handle and the icon descriptor live with the unverified caller.
pub struct WindowManager {
    /// Canonical state, mutated only by `transition`.
    pub state: WM_WINDOW_STATE,
    /// Whether the notification-area icon is currently installed.
    pub notify_visible: bool,
    /// Whether the window is currently shown.
    pub window_visible: bool,
}

impl WindowManager {
    /// A manager for a freshly learned window: default state, no tray icon,
    /// window visible.
    pub fn new() -> (wm: Self)
        ensures
            wm.state == WM_WINDOW_STATE::DEFAULT,
            !wm.notify_visible,
            wm.window_visible,
    {
        WindowManager {
            state: WM_WINDOW_STATE::DEFAULT,
            notify_visible: false,
            window_visible: true,
        }
    }

    /// The sole state mutator. A repeated state is a no-op that fires no
    /// notification; a new state is recorded and returned together with the
    /// self-origination flag, for the caller's policy.
    pub fn transition(&mut self, value: WM_WINDOW_STATE, is_self: bool) -> (fired: Option<
        (WM_WINDOW_STATE, bool),
    >)
        ensures
            old(self).state == value ==> {
                &&& *final(self) == *old(self)
                &&& fired is None
            },
            old(self).state != value ==> {
                &&& final(self).state == value
                &&& final(self).notify_visible == old(self).notify_visible
                &&& final(self).window_visible == old(self).window_visible
                &&& fired == Some((value, is_self))
            },
    {
        if value == self.state {
            None
        } else {
            self.state = value;
            Some((value, is_self))
        }
    }

    /// Classifies one window message: applies the transition it asks for, if
    /// any, and reports the notification and tray action it produced. Only
    /// the classification happens here; the caller still forwards unhandled
    /// messages to the platform's default processing.
    pub fn wnd_proc(&mut self, u_msg: u32, w_param: usize, l_param: isize) -> (out:
        WndProcOutcome)
        ensures
            final(self).state == spec_state_after(old(self).state, u_msg, w_param, l_param),
            final(self).notify_visible == old(self).notify_visible,
            final(self).window_visible == old(self).window_visible,
            out.fired == spec_transition_event(old(self).state, u_msg, w_param, l_param),
            out.tray_action == if spec_tray_select(u_msg, l_param) {
                Some(WM_ACTION::WM_TRAY_CLICK)
            } else {
                None::<WM_ACTION>
            },
    {
        let mut fired: Option<(WM_WINDOW_STATE, bool)> = None;
        let mut tray_action: Option<WM_ACTION> = None;
        if u_msg == WM_SYSCOMMAND {
            let command: u32 = w_param as u32;
            let is_self: bool = l_param as u32 == WM_XDD_MESSAGE;
            if command == SC_MAXIMIZE {
                fired = self.transition(WM_WINDOW_STATE::MAXIMIZED, is_self);
            } else if command == SC_RESTORE {
                fired = self.transition(WM_WINDOW_STATE::RESTORED, is_self);
            } else if command == SC_MINIMIZE {
                fired = self.transition(WM_WINDOW_STATE::MINIMIZED, is_self);
            }
        } else if u_msg == WM_ACTIVATE {
            let activation: u32 = w_param as u32;
            let is_self: bool = l_param as u32 == WM_XDD_MESSAGE;
            if activation == WA_ACTIVE || activation == WA_CLICKACTIVE {
                fired = self.transition(WM_WINDOW_STATE::ACTIVE, is_self);
            } else if activation == WA_INACTIVE {
                fired = self.transition(WM_WINDOW_STATE::INACTIVE, is_self);
            }
        } else if u_msg == WM_SHOWWINDOW {
            if l_param == 0 {
                if w_param as u32 == 0 {
                    fired = self.transition(WM_WINDOW_STATE::HIDDEN, true);
                } else {
                    fired = self.transition(WM_WINDOW_STATE::SHOWN, true);
                }
            }
        } else if u_msg == WM_NOTIFY_CALLBACK {
            if (l_param as u32) & 0xffff == NIN_SELECT {
                tray_action = Some(WM_ACTION::WM_TRAY_CLICK);
            }
        }
        WndProcOutcome { fired, tray_action }
    }

    /// Installs the notification-area icon; a no-op when it is already
    /// installed. `os_add_ok` is whether the platform accepted the icon, and
    /// is consulted only when an installation was actually needed.
    pub fn trayize(&mut self, os_add_ok: bool) -> (r: Result<(), WM_ERROR>)
        ensures
            r == spec_toggle_result(
                old(self).notify_visible,
                true,
                os_add_ok,
                WM_ERROR::WM_ERROR_ADD_NOTIFY_ICON,
            ),
            final(self).notify_visible == spec_toggle_state(
                old(self).notify_visible,
                true,
                os_add_ok,
            ),
            final(self).state == old(self).state,
            final(self).window_visible == old(self).window_visible,
    {
        if self.notify_visible {
            Ok(())
        } else if os_add_ok {
            self.notify_visible = true;
            Ok(())
        } else {
            Err(WM_ERROR::WM_ERROR_ADD_NOTIFY_ICON)
        }
    }

    /// Removes the notification-area icon; a no-op when it is already gone.
    /// `os_del_ok` is whether the platform deleted the icon, and is consulted
    /// only when a removal was actually needed.
    pub fn untrayize(&mut self, os_del_ok: bool) -> (r: Result<(), WM_ERROR>)
        ensures
            r == spec_toggle_result(
                old(self).notify_visible,
                false,
                os_del_ok,
                WM_ERROR::WM_ERROR_DEL_NOTIFY_ICON,
            ),
            final(self).notify_visible == spec_toggle_state(
                old(self).notify_visible,
                false,
                os_del_ok,
            ),
            final(self).state == old(self).state,
            final(self).window_visible == old(self).window_visible,
    {
        if !self.notify_visible {
            Ok(())
        } else if os_del_ok {
            self.notify_visible = false;
            Ok(())
        } else {
            Err(WM_ERROR::WM_ERROR_DEL_NOTIFY_ICON)
        }
    }

    /// Shows the window; a no-op when it is already shown. `os_show_ok` is
    /// whether the platform's show call succeeded, and is consulted only when
    /// a call was actually needed.
    pub fn show(&mut self, os_show_ok: bool) -> (r: Result<(), WM_ERROR>)
        ensures
            r == spec_toggle_result(
                old(self).window_visible,
                true,
                os_show_ok,
                WM_ERROR::WM_ERROR_SHOW_WINDOW,
            ),
            final(self).window_visible == spec_toggle_state(
                old(self).window_visible,
                true,
                os_show_ok,
            ),
            final(self).state == old(self).state,
            final(self).notify_visible == old(self).notify_visible,
    {
        if self.window_visible {
            Ok(())
        } else if os_show_ok {
            self.window_visible = true;
            Ok(())
        } else {
            Err(WM_ERROR::WM_ERROR_SHOW_WINDOW)
        }
    }

    /// Hides the window; a no-op when it is already hidden. `os_hide_ok` is
    /// whether the platform's hide call succeeded, and is consulted only when
    /// a call was actually needed.
    pub fn hide_window(&mut self, os_hide_ok: bool) -> (r: Result<(), WM_ERROR>)
        ensures
            r == spec_toggle_result(
                old(self).window_visible,
                false,
                os_hide_ok,
                WM_ERROR::WM_ERROR_HIDE_WINDOW,
            ),
            final(self).window_visible == spec_toggle_state(
                old(self).window_visible,
                false,
                os_hide_ok,
            ),
            final(self).state == old(self).state,
            final(self).notify_visible == old(self).notify_visible,
    {
        if !self.window_visible {
            Ok(())
        } else if os_hide_ok {
            self.window_visible = false;
            Ok(())
        } else {
            Err(WM_ERROR::WM_ERROR_HIDE_WINDOW)
        }
    }

    /// Reports the outcome of posting a minimize request: the posting failure
    /// becomes this component's error. The state itself changes only when the
    /// posted message loops back through `wnd_proc`.
    pub fn minimize(&self, posted: bool) -> (r: Result<(), WM_ERROR>)
        ensures
            posted ==> r == Ok::<(), WM_ERROR>(()),
            !posted ==> r == Err::<(), WM_ERROR>(WM_ERROR::WM_ERROR_MINIMIZE),
    {
        if posted {
            Ok(())
        } else {
            Err(WM_ERROR::WM_ERROR_MINIMIZE)
        }
    }

    /// Reports the outcome of posting a maximize request, as `minimize` does.
    pub fn maximize(&self, posted: bool) -> (r: Result<(), WM_ERROR>)
        ensures
            posted ==> r == Ok::<(), WM_ERROR>(()),
            !posted ==> r == Err::<(), WM_ERROR>(WM_ERROR::WM_ERROR_MAXIMIZE),
    {
        if posted {
            Ok(())
        } else {
            Err(WM_ERROR::WM_ERROR_MAXIMIZE)
        }
    }

    /// Reports the outcome of posting a restore request, as `minimize` does.
    pub fn restore(&self, posted: bool) -> (r: Result<(), WM_ERROR>)
        ensures
            posted ==> r == Ok::<(), WM_ERROR>(()),
            !posted ==> r == Err::<(), WM_ERROR>(WM_ERROR::WM_ERROR_RESTORE),
    {
        if posted {
            Ok(())
        } else {
            Err(WM_ERROR::WM_ERROR_RESTORE)
        }
    }
}

/// Feeding a message a second time, right after it has been handled, fires no
/// second notification: the first handling already moved the state to the
/// message's target, and a repeated state is a no-op.
pub proof fn lemma_repeated_message_fires_once(
    state: WM_WINDOW_STATE,
    u_msg: u32,
    w_param: usize,
    l_param: isize,
)
    ensures
        spec_transition_event(
            spec_state_after(state, u_msg, w_param, l_param),
            u_msg,
            w_param,
            l_param,
        ) is None,
{
}

/// For the messages that carry the sentinel in their auxiliary parameter, a
/// transition reports self-origination exactly when the sentinel is present:
/// the classification reads nothing but the message itself.
pub proof fn lemma_sentinel_marks_self(u_msg: u32, w_param: usize, l_param: isize)
    requires
        u_msg == WM_SYSCOMMAND || u_msg == WM_ACTIVATE,
    ensures
        spec_msg_self(u_msg, w_param, l_param) <==> l_param as u32 == WM_XDD_MESSAGE,
{
}

/// The system-command requests this addon posts to its own window are
/// classified as self-originated transitions to the commanded state, so a
/// posted command cannot re-trigger the policy that posted it.
pub proof fn lemma_own_requests_are_self()
    ensures
        spec_target_state(WM_SYSCOMMAND, SC_MINIMIZE as usize, WM_XDD_MESSAGE as isize) == Some(
            WM_WINDOW_STATE::MINIMIZED,
        ),
        spec_target_state(WM_SYSCOMMAND, SC_MAXIMIZE as usize, WM_XDD_MESSAGE as isize) == Some(
            WM_WINDOW_STATE::MAXIMIZED,
        ),
        spec_target_state(WM_SYSCOMMAND, SC_RESTORE as usize, WM_XDD_MESSAGE as isize) == Some(
            WM_WINDOW_STATE::RESTORED,
        ),
        spec_msg_self(WM_SYSCOMMAND, SC_MINIMIZE as usize, WM_XDD_MESSAGE as isize),
        spec_msg_self(WM_SYSCOMMAND, SC_MAXIMIZE as usize, WM_XDD_MESSAGE as isize),
        spec_msg_self(WM_SYSCOMMAND, SC_RESTORE as usize, WM_XDD_MESSAGE as isize),
{
}

/// Installing the tray icon is idempotent: once an installation has
/// succeeded, installing again succeeds without consulting the platform and
/// exactly one icon stays installed.
pub proof fn lemma_tray_add_idempotent(visible: bool, os_ok1: bool, os_ok2: bool)
    requires
        spec_toggle_result(visible, true, os_ok1, WM_ERROR::WM_ERROR_ADD_NOTIFY_ICON) is Ok,
    ensures
        ({
            let after_first = spec_toggle_state(visible, true, os_ok1);
            &&& after_first
            &&& spec_toggle_result(
                after_first,
                true,
                os_ok2,
                WM_ERROR::WM_ERROR_ADD_NOTIFY_ICON,
            ) is Ok
            &&& spec_toggle_state(after_first, true, os_ok2) == after_first
        }),
{
}

} // verus!
