use xdd_tray::mh::{status_from_code, HookManager, HookState, MH_STATUS};

#[test]
fn nothing_works_before_initialization() {
    let manager = HookManager::new();
    assert_eq!(manager.check_create(), Err(MH_STATUS::MH_ERROR_NOT_INITIALIZED));
    assert_eq!(manager.check_enable(), Err(MH_STATUS::MH_ERROR_NOT_INITIALIZED));
    assert_eq!(manager.check_disable(), Err(MH_STATUS::MH_ERROR_NOT_INITIALIZED));
    assert_eq!(manager.check_remove(), Err(MH_STATUS::MH_ERROR_NOT_INITIALIZED));
}

#[test]
fn second_initialization_is_refused() {
    let mut manager = HookManager::new();
    assert_eq!(manager.init(), Ok(()));
    assert_eq!(manager.init(), Err(MH_STATUS::MH_ERROR_ALREADY_INITIALIZED));
}

#[test]
fn enable_before_create_fails_with_not_created() {
    let mut manager = HookManager::new();
    manager.init().unwrap();
    assert_eq!(manager.check_enable(), Err(MH_STATUS::MH_ERROR_NOT_CREATED));
}

#[test]
fn create_twice_fails_with_already_created() {
    let mut manager = HookManager::new();
    manager.init().unwrap();
    assert_eq!(manager.check_create(), Ok(()));
    assert_eq!(manager.create(0x1000, 0x2000, MH_STATUS::MH_OK, 0x3000), Ok(()));
    assert_eq!(manager.check_create(), Err(MH_STATUS::MH_ERROR_ALREADY_CREATED));
}

#[test]
fn enable_twice_fails_with_enabled() {
    let mut manager = HookManager::new();
    manager.init().unwrap();
    manager.create(0x1000, 0x2000, MH_STATUS::MH_OK, 0x3000).unwrap();
    assert_eq!(manager.check_enable(), Ok(()));
    assert_eq!(manager.enable(MH_STATUS::MH_OK), Ok(()));
    assert_eq!(manager.check_enable(), Err(MH_STATUS::MH_ERROR_ENABLED));
}

#[test]
fn disable_before_enable_fails_with_disabled() {
    let mut manager = HookManager::new();
    manager.init().unwrap();
    manager.create(0x1000, 0x2000, MH_STATUS::MH_OK, 0x3000).unwrap();
    assert_eq!(manager.check_disable(), Err(MH_STATUS::MH_ERROR_DISABLED));
}

#[test]
fn full_lifecycle_created_enabled_disabled_removed() {
    let mut manager = HookManager::new();
    manager.init().unwrap();
    manager.create(0x1000, 0x2000, MH_STATUS::MH_OK, 0x3000).unwrap();
    assert_eq!(manager.trampoline(), Some(0x3000));
    assert_eq!(manager.hook.unwrap().state, HookState::Created);

    manager.enable(MH_STATUS::MH_OK).unwrap();
    assert_eq!(manager.hook.unwrap().state, HookState::Enabled);

    assert_eq!(manager.check_disable(), Ok(()));
    manager.disable(MH_STATUS::MH_OK).unwrap();
    assert_eq!(manager.hook.unwrap().state, HookState::Disabled);

    // The trampoline was produced at creation and never changes.
    assert_eq!(manager.trampoline(), Some(0x3000));

    assert_eq!(manager.check_remove(), Ok(()));
    manager.remove(MH_STATUS::MH_OK).unwrap();
    assert_eq!(manager.hook.unwrap().state, HookState::Removed);

    // A removed hook is gone: nothing to enable, but the slot is free again.
    assert_eq!(manager.check_enable(), Err(MH_STATUS::MH_ERROR_NOT_CREATED));
    assert_eq!(manager.check_remove(), Err(MH_STATUS::MH_ERROR_NOT_CREATED));
    assert_eq!(manager.check_create(), Ok(()));
}

#[test]
fn failed_creation_changes_nothing() {
    let mut manager = HookManager::new();
    manager.init().unwrap();
    let r = manager.create(0x1000, 0x2000, MH_STATUS::MH_ERROR_NOT_EXECUTABLE, 0);
    assert_eq!(r, Err(MH_STATUS::MH_ERROR_NOT_EXECUTABLE));
    assert_eq!(manager.trampoline(), None);
    assert_eq!(manager.check_create(), Ok(()));
}

#[test]
fn failed_enable_keeps_the_hook_created() {
    let mut manager = HookManager::new();
    manager.init().unwrap();
    manager.create(0x1000, 0x2000, MH_STATUS::MH_OK, 0x3000).unwrap();
    let r = manager.enable(MH_STATUS::MH_ERROR_MEMORY_PROTECT);
    assert_eq!(r, Err(MH_STATUS::MH_ERROR_MEMORY_PROTECT));
    assert_eq!(manager.hook.unwrap().state, HookState::Created);
}

#[test]
fn status_codes_decode_as_the_primitive_defines_them() {
    assert_eq!(status_from_code(-1), MH_STATUS::MH_UNKNOWN);
    assert_eq!(status_from_code(0), MH_STATUS::MH_OK);
    assert_eq!(status_from_code(1), MH_STATUS::MH_ERROR_ALREADY_INITIALIZED);
    assert_eq!(status_from_code(2), MH_STATUS::MH_ERROR_NOT_INITIALIZED);
    assert_eq!(status_from_code(3), MH_STATUS::MH_ERROR_ALREADY_CREATED);
    assert_eq!(status_from_code(4), MH_STATUS::MH_ERROR_NOT_CREATED);
    assert_eq!(status_from_code(5), MH_STATUS::MH_ERROR_ENABLED);
    assert_eq!(status_from_code(6), MH_STATUS::MH_ERROR_DISABLED);
    assert_eq!(status_from_code(7), MH_STATUS::MH_ERROR_NOT_EXECUTABLE);
    assert_eq!(status_from_code(8), MH_STATUS::MH_ERROR_UNSUPPORTED_FUNCTION);
    assert_eq!(status_from_code(9), MH_STATUS::MH_ERROR_MEMORY_ALLOC);
    assert_eq!(status_from_code(10), MH_STATUS::MH_ERROR_MEMORY_PROTECT);
    assert_eq!(status_from_code(11), MH_STATUS::MH_ERROR_MODULE_NOT_FOUND);
    assert_eq!(status_from_code(12), MH_STATUS::MH_ERROR_FUNCTION_NOT_FOUND);
}

#[test]
fn ok_keeps_the_failing_status_as_the_error() {
    assert_eq!(MH_STATUS::MH_OK.ok(), Ok(()));
    assert_eq!(MH_STATUS::MH_ERROR_MEMORY_ALLOC.ok(), Err(MH_STATUS::MH_ERROR_MEMORY_ALLOC));
}

#[test]
fn ok_context_keeps_the_failing_status_as_the_error() {
    assert_eq!(MH_STATUS::MH_OK.ok_context("MH_CreateHook"), Ok(()));
    assert_eq!(
        MH_STATUS::MH_ERROR_UNSUPPORTED_FUNCTION.ok_context("MH_CreateHook"),
        Err(MH_STATUS::MH_ERROR_UNSUPPORTED_FUNCTION)
    );
}
