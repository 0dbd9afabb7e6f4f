//! Lifecycle manager for one native function hook. The hooking primitive
//! itself (install a detour, produce a trampoline) lives outside this crate;
//! the caller performs each primitive call and reports its status here. This
//! module decides which calls are allowed in the current lifecycle state,
//! keeps the one hook record, and surfaces every failure as a status value.

use vstd::prelude::*;

verus! {

/// Status reported by the hooking primitive, and by this manager for
/// lifecycle violations it rules out before the primitive is consulted.
#[allow(non_camel_case_types)]
#[must_use]
#[derive(Debug, Clone, Copy, PartialEq, Eq, Structural)]
pub enum MH_STATUS {
    /// Unknown error. Should not be returned.
    MH_UNKNOWN,
    /// Successful.
    MH_OK,
    /// The hooking primitive is already initialized.
    MH_ERROR_ALREADY_INITIALIZED,
    /// The hooking primitive is not initialized yet, or already uninitialized.
    MH_ERROR_NOT_INITIALIZED,
    /// The hook for the specified target function is already created.
    MH_ERROR_ALREADY_CREATED,
    /// The hook for the specified target function is not created yet.
    MH_ERROR_NOT_CREATED,
    /// The hook for the specified target function is already enabled.
    MH_ERROR_ENABLED,
    /// The hook for the specified target function is not enabled yet, or
    /// already disabled.
    MH_ERROR_DISABLED,
    /// The specified pointer is invalid. It points the address of non-allocated
    /// and/or non-executable region.
    MH_ERROR_NOT_EXECUTABLE,
    /// The specified target function cannot be hooked.
    MH_ERROR_UNSUPPORTED_FUNCTION,
    /// Failed to allocate memory.
    MH_ERROR_MEMORY_ALLOC,
    /// Failed to change the memory protection.
    MH_ERROR_MEMORY_PROTECT,
    /// The specified module is not loaded.
    MH_ERROR_MODULE_NOT_FOUND,
    /// The specified function is not found.
    MH_ERROR_FUNCTION_NOT_FOUND,
}

/// The status that the hooking primitive reports with the given numeric code.
pub open spec fn spec_status_from_code(code: int) -> MH_STATUS {
    if code == -1 {
        MH_STATUS::MH_UNKNOWN
    } else if code == 0 {
        MH_STATUS::MH_OK
    } else if code == 1 {
        MH_STATUS::MH_ERROR_ALREADY_INITIALIZED
    } else if code == 2 {
        MH_STATUS::MH_ERROR_NOT_INITIALIZED
    } else if code == 3 {
        MH_STATUS::MH_ERROR_ALREADY_CREATED
    } else if code == 4 {
        MH_STATUS::MH_ERROR_NOT_CREATED
    } else if code == 5 {
        MH_STATUS::MH_ERROR_ENABLED
    } else if code == 6 {
        MH_STATUS::MH_ERROR_DISABLED
    } else if code == 7 {
        MH_STATUS::MH_ERROR_NOT_EXECUTABLE
    } else if code == 8 {
        MH_STATUS::MH_ERROR_UNSUPPORTED_FUNCTION
    } else if code == 9 {
        MH_STATUS::MH_ERROR_MEMORY_ALLOC
    } else if code == 10 {
        MH_STATUS::MH_ERROR_MEMORY_PROTECT
    } else if code == 11 {
        MH_STATUS::MH_ERROR_MODULE_NOT_FOUND
    } else {
        MH_STATUS::MH_ERROR_FUNCTION_NOT_FOUND
    }
}

/// Decodes the numeric status code that the hooking primitive returns. The
/// primitive only produces codes -1 through 12.
pub fn status_from_code(code: i32) -> (status: MH_STATUS)
    requires
        -1 <= code <= 12,
    ensures
        status == spec_status_from_code(code as int),
{
    match code {
        -1 => MH_STATUS::MH_UNKNOWN,
        0 => MH_STATUS::MH_OK,
        1 => MH_STATUS::MH_ERROR_ALREADY_INITIALIZED,
        2 => MH_STATUS::MH_ERROR_NOT_INITIALIZED,
        3 => MH_STATUS::MH_ERROR_ALREADY_CREATED,
        4 => MH_STATUS::MH_ERROR_NOT_CREATED,
        5 => MH_STATUS::MH_ERROR_ENABLED,
        6 => MH_STATUS::MH_ERROR_DISABLED,
        7 => MH_STATUS::MH_ERROR_NOT_EXECUTABLE,
        8 => MH_STATUS::MH_ERROR_UNSUPPORTED_FUNCTION,
        9 => MH_STATUS::MH_ERROR_MEMORY_ALLOC,
        10 => MH_STATUS::MH_ERROR_MEMORY_PROTECT,
        11 => MH_STATUS::MH_ERROR_MODULE_NOT_FOUND,
        _ => MH_STATUS::MH_ERROR_FUNCTION_NOT_FOUND,
    }
}

impl MH_STATUS {
    /// Turns a status into a result, keeping the failing status as the error.
    /// The context string names the primitive call for the caller's logging.
    pub fn ok_context(self, context: &str) -> (r: Result<(), MH_STATUS>)
        ensures
            self == MH_STATUS::MH_OK ==> r == Ok::<(), MH_STATUS>(()),
            self != MH_STATUS::MH_OK ==> r == Err::<(), MH_STATUS>(self),
    {
        if self == MH_STATUS::MH_OK {
            Ok(())
        } else {
            Err(self)
        }
    }

    /// Turns a status into a result, keeping the failing status as the error.
    pub fn ok(self) -> (r: Result<(), MH_STATUS>)
        ensures
            self == MH_STATUS::MH_OK ==> r == Ok::<(), MH_STATUS>(()),
            self != MH_STATUS::MH_OK ==> r == Err::<(), MH_STATUS>(self),
    {
        if self == MH_STATUS::MH_OK {
            Ok(())
        } else {
            Err(self)
        }
    }
}

/// Where one hook stands in its life: created, live, paused, or gone for good.
#[derive(Debug, Clone, Copy, PartialEq, Eq, Structural)]
pub enum HookState {
    /// Installed but not redirecting calls yet.
    Created,
    /// Redirecting calls to the detour.
    Enabled,
    /// Installed, redirection paused.
    Disabled,
    /// Taken out; terminal.
    Removed,
}

/// One installed interception: the hooked function, the detour that replaces
/// it, and the trampoline through which the original code stays reachable.
/// Addresses are plain numbers here; only the unverified caller turns them
/// back into pointers.
#[derive(Debug, Clone, Copy, PartialEq, Eq, Structural)]
pub struct Hook {
    /// Address of the function being intercepted.
    pub target: usize,
    /// Address of the detour the target is redirected to.
    pub detour: usize,
    /// Address of the trampoline that reaches the original code; produced
    /// exactly once, at creation, and never changed afterwards.
    pub trampoline: usize,
    /// Lifecycle state of this hook.
    pub state: HookState,
}

/// Process-wide lifecycle manager around the hooking primitive. It must be
/// initialized exactly once, and this addon drives exactly one hook, so the
/// manager holds zero or one hook record: asking to create a second hook
/// while one is installed fails just as the primitive would fail for a
/// repeated target.
///
/// The primitive's own calls happen outside this crate. For each operation the
/// manager first answers whether the call is allowed in the current state
/// (`check_*`), and then, given the status the primitive returned, records the
/// outcome (`create`, `enable`, `disable`, `remove`).
pub struct HookManager {
    /// Whether the primitive's operations have been bound, once, for this process.
    pub initialized: bool,
    /// The one hook this manager drives, if it has been created.
    pub hook: Option<Hook>,
}

impl HookManager {
    /// Whether a create call may be made now: initialized, and no hook
    /// currently installed (a removed hook leaves the slot free again).
    pub open spec fn can_create(self) -> bool {
        &&& self.initialized
        &&& match self.hook {
            Some(h) => h.state is Removed,
            None => true,
        }
    }

    /// Whether an enable call may be made now.
    pub open spec fn can_enable(self) -> bool {
        &&& self.initialized
        &&& match self.hook {
            Some(h) => h.state is Created || h.state is Disabled,
            None => false,
        }
    }

    /// Whether a disable call may be made now.
    pub open spec fn can_disable(self) -> bool {
        &&& self.initialized
        &&& match self.hook {
            Some(h) => h.state is Enabled,
            None => false,
        }
    }

    /// Whether a remove call may be made now: any installed hook may be
    /// removed, enabled or not.
    pub open spec fn can_remove(self) -> bool {
        &&& self.initialized
        &&& match self.hook {
            Some(h) => !(h.state is Removed),
            None => false,
        }
    }

    /// The verdict `check_create` reaches from the current state.
    pub open spec fn spec_check_create(self) -> Result<(), MH_STATUS> {
        if !self.initialized {
            Err(MH_STATUS::MH_ERROR_NOT_INITIALIZED)
        } else if !self.can_create() {
            Err(MH_STATUS::MH_ERROR_ALREADY_CREATED)
        } else {
            Ok(())
        }
    }

    /// The verdict `check_enable` reaches from the current state.
    pub open spec fn spec_check_enable(self) -> Result<(), MH_STATUS> {
        if !self.initialized {
            Err(MH_STATUS::MH_ERROR_NOT_INITIALIZED)
        } else if self.hook matches Some(h) && h.state is Enabled {
            Err(MH_STATUS::MH_ERROR_ENABLED)
        } else if !self.can_enable() {
            Err(MH_STATUS::MH_ERROR_NOT_CREATED)
        } else {
            Ok(())
        }
    }

    /// The verdict `check_disable` reaches from the current state.
    pub open spec fn spec_check_disable(self) -> Result<(), MH_STATUS> {
        if !self.initialized {
            Err(MH_STATUS::MH_ERROR_NOT_INITIALIZED)
        } else if self.hook matches Some(h) && (h.state is Created || h.state is Disabled) {
            Err(MH_STATUS::MH_ERROR_DISABLED)
        } else if !self.can_disable() {
            Err(MH_STATUS::MH_ERROR_NOT_CREATED)
        } else {
            Ok(())
        }
    }

    /// The verdict `check_remove` reaches from the current state.
    pub open spec fn spec_check_remove(self) -> Result<(), MH_STATUS> {
        if !self.initialized {
            Err(MH_STATUS::MH_ERROR_NOT_INITIALIZED)
        } else if !self.can_remove() {
            Err(MH_STATUS::MH_ERROR_NOT_CREATED)
        } else {
            Ok(())
        }
    }

    /// A manager with nothing bound and no hook.
    pub fn new() -> (m: Self)
        ensures
            !m.initialized,
            m.hook is None,
    {
        HookManager { initialized: false, hook: None }
    }

    /// Binds the primitive's operations, exactly once per process. A second
    /// initialization is a lifecycle bug and is refused loudly.
    pub fn init(&mut self) -> (r: Result<(), MH_STATUS>)
        ensures
            old(self).initialized ==> {
                &&& r == Err::<(), MH_STATUS>(MH_STATUS::MH_ERROR_ALREADY_INITIALIZED)
                &&& *final(self) == *old(self)
            },
            !old(self).initialized ==> {
                &&& r == Ok::<(), MH_STATUS>(())
                &&& final(self).initialized
                &&& final(self).hook == old(self).hook
            },
    {
        if self.initialized {
            Err(MH_STATUS::MH_ERROR_ALREADY_INITIALIZED)
        } else {
            self.initialized = true;
            Ok(())
        }
    }

    /// Whether a hook may be created now; the error that rules it out
    /// otherwise. Only after an `Ok` here is the primitive's create called.
    pub fn check_create(&self) -> (r: Result<(), MH_STATUS>)
        ensures
            r == self.spec_check_create(),
            r is Ok <==> self.can_create(),
    {
        if !self.initialized {
            Err(MH_STATUS::MH_ERROR_NOT_INITIALIZED)
        } else {
            match &self.hook {
                Some(h) => {
                    if h.state == HookState::Removed {
                        Ok(())
                    } else {
                        Err(MH_STATUS::MH_ERROR_ALREADY_CREATED)
                    }
                },
                None => Ok(()),
            }
        }
    }

    /// Records what the primitive's create call returned: on success the hook
    /// record with the trampoline the primitive produced, otherwise the
    /// failing status, with nothing changed.
    pub fn create(&mut self, target: usize, detour: usize, status: MH_STATUS, trampoline: usize)
        -> (r: Result<(), MH_STATUS>)
        requires
            old(self).can_create(),
        ensures
            status == MH_STATUS::MH_OK ==> {
                &&& r == Ok::<(), MH_STATUS>(())
                &&& final(self).hook == Some(
                    Hook { target, detour, trampoline, state: HookState::Created },
                )
                &&& final(self).initialized == old(self).initialized
            },
            status != MH_STATUS::MH_OK ==> {
                &&& r == Err::<(), MH_STATUS>(status)
                &&& *final(self) == *old(self)
            },
    {
        if status == MH_STATUS::MH_OK {
            self.hook = Some(Hook { target, detour, trampoline, state: HookState::Created });
            Ok(())
        } else {
            Err(status)
        }
    }

    /// The trampoline of the installed hook: the only way left to reach the
    /// original code while the detour is live.
    pub fn trampoline(&self) -> (r: Option<usize>)
        ensures
            r == match self.hook {
                Some(h) => Some(h.trampoline),
                None => None::<usize>,
            },
    {
        match &self.hook {
            Some(h) => Some(h.trampoline),
            None => None,
        }
    }

    /// Whether the hook may be enabled now; the error that rules it out
    /// otherwise: `MH_ERROR_ENABLED` when it is already live,
    /// `MH_ERROR_NOT_CREATED` when there is nothing to enable.
    pub fn check_enable(&self) -> (r: Result<(), MH_STATUS>)
        ensures
            r == self.spec_check_enable(),
            r is Ok <==> self.can_enable(),
    {
        if !self.initialized {
            Err(MH_STATUS::MH_ERROR_NOT_INITIALIZED)
        } else {
            match &self.hook {
                Some(h) => {
                    if h.state == HookState::Enabled {
                        Err(MH_STATUS::MH_ERROR_ENABLED)
                    } else if h.state == HookState::Removed {
                        Err(MH_STATUS::MH_ERROR_NOT_CREATED)
                    } else {
                        Ok(())
                    }
                },
                None => Err(MH_STATUS::MH_ERROR_NOT_CREATED),
            }
        }
    }

    /// Records what the primitive's enable call returned: on success the hook
    /// is live and its detour receives all calls; addresses never change.
    pub fn enable(&mut self, status: MH_STATUS) -> (r: Result<(), MH_STATUS>)
        requires
            old(self).can_enable(),
        ensures
            status == MH_STATUS::MH_OK ==> {
                &&& r == Ok::<(), MH_STATUS>(())
                &&& final(self).hook == Some(
                    Hook { state: HookState::Enabled, ..old(self).hook->Some_0 },
                )
                &&& final(self).initialized == old(self).initialized
            },
            status != MH_STATUS::MH_OK ==> {
                &&& r == Err::<(), MH_STATUS>(status)
                &&& *final(self) == *old(self)
            },
    {
        if status == MH_STATUS::MH_OK {
            match &self.hook {
                Some(h) => {
                    self.hook = Some(Hook { state: HookState::Enabled, ..*h });
                },
                None => {},
            }
            Ok(())
        } else {
            Err(status)
        }
    }

    /// Whether the hook may be disabled now; the error that rules it out
    /// otherwise: `MH_ERROR_DISABLED` when it is not enabled,
    /// `MH_ERROR_NOT_CREATED` when there is nothing to disable.
    pub fn check_disable(&self) -> (r: Result<(), MH_STATUS>)
        ensures
            r == self.spec_check_disable(),
            r is Ok <==> self.can_disable(),
    {
        if !self.initialized {
            Err(MH_STATUS::MH_ERROR_NOT_INITIALIZED)
        } else {
            match &self.hook {
                Some(h) => {
                    if h.state == HookState::Created || h.state == HookState::Disabled {
                        Err(MH_STATUS::MH_ERROR_DISABLED)
                    } else if h.state == HookState::Removed {
                        Err(MH_STATUS::MH_ERROR_NOT_CREATED)
                    } else {
                        Ok(())
                    }
                },
                None => Err(MH_STATUS::MH_ERROR_NOT_CREATED),
            }
        }
    }

    /// Records what the primitive's disable call returned: on success calls
    /// flow to the original again; addresses never change.
    pub fn disable(&mut self, status: MH_STATUS) -> (r: Result<(), MH_STATUS>)
        requires
            old(self).can_disable(),
        ensures
            status == MH_STATUS::MH_OK ==> {
                &&& r == Ok::<(), MH_STATUS>(())
                &&& final(self).hook == Some(
                    Hook { state: HookState::Disabled, ..old(self).hook->Some_0 },
                )
                &&& final(self).initialized == old(self).initialized
            },
            status != MH_STATUS::MH_OK ==> {
                &&& r == Err::<(), MH_STATUS>(status)
                &&& *final(self) == *old(self)
            },
    {
        if status == MH_STATUS::MH_OK {
            match &self.hook {
                Some(h) => {
                    self.hook = Some(Hook { state: HookState::Disabled, ..*h });
                },
                None => {},
            }
            Ok(())
        } else {
            Err(status)
        }
    }

    /// Whether the hook may be removed now; the error that rules it out
    /// otherwise.
    pub fn check_remove(&self) -> (r: Result<(), MH_STATUS>)
        ensures
            r == self.spec_check_remove(),
            r is Ok <==> self.can_remove(),
    {
        if !self.initialized {
            Err(MH_STATUS::MH_ERROR_NOT_INITIALIZED)
        } else {
            match &self.hook {
                Some(h) => {
                    if h.state == HookState::Removed {
                        Err(MH_STATUS::MH_ERROR_NOT_CREATED)
                    } else {
                        Ok(())
                    }
                },
                None => Err(MH_STATUS::MH_ERROR_NOT_CREATED),
            }
        }
    }

    /// Records what the primitive's remove call returned: on success the hook
    /// is gone for good and the slot is free for a new creation.
    pub fn remove(&mut self, status: MH_STATUS) -> (r: Result<(), MH_STATUS>)
        requires
            old(self).can_remove(),
        ensures
            status == MH_STATUS::MH_OK ==> {
                &&& r == Ok::<(), MH_STATUS>(())
                &&& final(self).hook == Some(
                    Hook { state: HookState::Removed, ..old(self).hook->Some_0 },
                )
                &&& final(self).initialized == old(self).initialized
            },
            status != MH_STATUS::MH_OK ==> {
                &&& r == Err::<(), MH_STATUS>(status)
                &&& *final(self) == *old(self)
            },
    {
        if status == MH_STATUS::MH_OK {
            match &self.hook {
                Some(h) => {
                    self.hook = Some(Hook { state: HookState::Removed, ..*h });
                },
                None => {},
            }
            Ok(())
        } else {
            Err(status)
        }
    }
}

/// Enabling before anything was created is refused with `MH_ERROR_NOT_CREATED`.
pub proof fn lemma_enable_before_create_refused(m: HookManager)
    requires
        m.initialized,
        m.hook is None,
    ensures
        m.spec_check_enable() == Err::<(), MH_STATUS>(MH_STATUS::MH_ERROR_NOT_CREATED),
{
}

/// While a hook is installed, creating again is refused with
/// `MH_ERROR_ALREADY_CREATED`.
pub proof fn lemma_create_twice_refused(m: HookManager)
    requires
        m.initialized,
        m.hook matches Some(h) && !(h.state is Removed),
    ensures
        m.spec_check_create() == Err::<(), MH_STATUS>(MH_STATUS::MH_ERROR_ALREADY_CREATED),
{
}

/// While the hook is live, enabling again is refused with `MH_ERROR_ENABLED`.
pub proof fn lemma_enable_twice_refused(m: HookManager)
    requires
        m.initialized,
        m.hook matches Some(h) && h.state is Enabled,
    ensures
        m.spec_check_enable() == Err::<(), MH_STATUS>(MH_STATUS::MH_ERROR_ENABLED),
{
}

} // verus!
