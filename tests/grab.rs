use redev::grab::{
    disposition, do_hook, exit_target, keyboard_hooked, mouse_hooked, on_message, unhooked,
    Disposition, HookAction, HookError, HookKind, HookPhase, MessageAction, HC_ACTION,
    WM_USER_EXIT_HOOK,
};
use redev::{exit_grab, is_grabbed, set_get_key_unicode, Error, GrabError, HookState};

fn active_state() -> HookState<u32> {
    let mut s = HookState::new();
    assert_eq!(do_hook(&mut s, 1), HookAction::InstallKeyboard);
    assert_eq!(keyboard_hooked(&mut s, 0x100, 0, false, 7), HookAction::InstallMouse);
    assert_eq!(mouse_hooked(&mut s, 0x200, 0, 7), HookAction::RunLoop);
    s
}

#[test]
fn start_installs_both_hooks() {
    let s = active_state();
    assert!(is_grabbed(&s));
    assert_eq!(s.phase, HookPhase::Active);
    assert_eq!(s.thread_id, 7);
    assert_eq!((s.keyboard_hook, s.mouse_hook), (0x100, 0x200));
    assert_eq!(s.callback, Some(1));
}

#[test]
fn second_start_is_a_no_op_keeping_the_first_callback() {
    let mut s = active_state();
    assert_eq!(do_hook(&mut s, 2), HookAction::AlreadyActive);
    assert_eq!(s.callback, Some(1));
    assert_eq!((s.keyboard_hook, s.mouse_hook), (0x100, 0x200));

    let mut installing = HookState::new();
    do_hook(&mut installing, 1);
    assert_eq!(do_hook(&mut installing, 2), HookAction::AlreadyActive);
    assert_eq!(installing.callback, Some(1));
}

#[test]
fn keyboard_only_skips_the_mouse_hook() {
    let mut s: HookState<u32> = HookState::new();
    do_hook(&mut s, 1);
    assert_eq!(keyboard_hooked(&mut s, 0x100, 0, true, 9), HookAction::RunLoop);
    assert!(is_grabbed(&s));
    assert_eq!(s.mouse_hook, 0);
}

#[test]
fn refused_keyboard_hook_leaves_nothing() {
    let mut s: HookState<u32> = HookState::new();
    do_hook(&mut s, 1);
    assert_eq!(
        keyboard_hooked(&mut s, 0, 5, false, 9),
        HookAction::Fail(Error::Hook(HookError::Key(5)))
    );
    assert_eq!(s.phase, HookPhase::Idle);
    assert_eq!(s.callback, None);
    assert!(!is_grabbed(&s));
}

#[test]
fn refused_mouse_hook_removes_the_keyboard_hook() {
    let mut s: HookState<u32> = HookState::new();
    do_hook(&mut s, 1);
    keyboard_hooked(&mut s, 0x100, 0, false, 9);
    assert_eq!(
        mouse_hooked(&mut s, 0, 6, 9),
        HookAction::UnhookKeyboardAndFail { hook: 0x100, error: Error::Hook(HookError::Mouse(6)) }
    );
    assert_eq!(s.phase, HookPhase::Idle);
    assert_eq!((s.keyboard_hook, s.callback), (0, None));
}

#[test]
fn exit_releases_the_thread_and_removes_the_hooks() {
    let mut s = active_state();
    assert_eq!(exit_target(&s), Some(7));
    assert!(exit_grab(&mut s, Ok(())).is_ok());
    assert!(!is_grabbed(&s));
    assert_eq!(exit_target(&s), None);
    assert_eq!(on_message(&s, 0x0113), MessageAction::Dispatch);
    assert_eq!(on_message(&s, WM_USER_EXIT_HOOK), MessageAction::Unhook(HookKind::Keyboard, 0x100));
    assert_eq!(unhooked(&mut s, HookKind::Keyboard, true), MessageAction::Unhook(HookKind::Mouse, 0x200));
    assert_eq!(unhooked(&mut s, HookKind::Mouse, true), MessageAction::Leave);
    assert_eq!(s.phase, HookPhase::Idle);
    assert_eq!(s.callback, None);
    assert_eq!(do_hook(&mut s, 3), HookAction::InstallKeyboard);
}

#[test]
fn refused_removal_waits_for_the_next_exit_message() {
    let mut s = active_state();
    exit_grab(&mut s, Ok(())).unwrap();
    assert_eq!(unhooked(&mut s, HookKind::Keyboard, false), MessageAction::Dispatch);
    assert_eq!(s.keyboard_hook, 0x100);
    assert_eq!(on_message(&s, WM_USER_EXIT_HOOK), MessageAction::Unhook(HookKind::Keyboard, 0x100));
}

#[test]
fn failed_signal_is_an_error_and_keeps_the_grab() {
    let mut s = active_state();
    match exit_grab(&mut s, Err(1444)) {
        Err(GrabError::System(Error::ExitGrabError(1444))) => {}
        other => panic!("unexpected {:?}", other),
    }
    assert!(is_grabbed(&s));
}

#[test]
fn exit_without_grab_is_ok() {
    let mut s: HookState<u32> = HookState::new();
    assert!(exit_grab(&mut s, Ok(())).is_ok());
    assert!(!is_grabbed(&s));
}

#[test]
fn only_refused_actions_are_swallowed() {
    assert_eq!(disposition(HC_ACTION, Some(false)), Disposition::Swallow);
    assert_eq!(disposition(HC_ACTION, Some(true)), Disposition::PassOn);
    assert_eq!(disposition(HC_ACTION, None), Disposition::PassOn);
    assert_eq!(disposition(3, Some(false)), Disposition::PassOn);
}

#[test]
fn key_text_lookup_can_be_switched_off() {
    let mut s: HookState<u32> = HookState::new();
    assert!(s.get_key_unicode);
    set_get_key_unicode(&mut s, false);
    assert!(!s.get_key_unicode);
}
