//! The lifecycle of the process-wide interception hook.
//!
//! The hook's state is one value, kept by its owner behind one lock. Each step takes the
//! state and what the OS reported, and returns what to do next: the OS calls themselves
//! (installing and removing hooks, waiting for messages, waking the owning thread) stay
//! with the caller.

use vstd::prelude::*;

use crate::redev::GrabError;

verus! {

/// Message that wakes the hook's thread to remove its hooks (`WM_USER + 1`).
pub const WM_USER_EXIT_HOOK: u32 = 0x0401;

/// Hook code with which the OS hands over an event to process.
pub const HC_ACTION: i32 = 0;

/// The hook that the platform refused to install, with the OS error code.
#[derive(Debug, Clone, Copy, PartialEq, Eq, Structural)]
pub enum HookError {
    Mouse(u32),
    Key(u32),
}

/// Errors of the interception hook's lifecycle.
#[derive(Debug, Clone, Copy, PartialEq, Eq, Structural)]
pub enum Error {
    /// The thread that owns the hook could not be signalled; the OS error code.
    ExitGrabError(u32),
    Hook(HookError),
}

/// Where the hook's lifecycle stands.
#[derive(Debug, Clone, Copy, PartialEq, Eq, Structural)]
pub enum HookPhase {
    /// No hook and no callback.
    Idle,
    /// A callback is registered and its hooks are being installed.
    Installing,
    /// The hooks are in place and their thread waits for events.
    Active,
    /// The owning thread was asked to remove the hooks.
    Stopping,
}

/// The process-wide hook state: one callback slot, the hook handles (zero where none is
/// installed) and the thread that owns them (zero where none does).
#[derive(Debug)]
pub struct HookState<C> {
    pub phase: HookPhase,
    pub callback: Option<C>,
    pub thread_id: u32,
    pub keyboard_hook: usize,
    pub mouse_hook: usize,
    pub get_key_unicode: bool,
}

/// What the thread that started a grab does next.
#[derive(Debug, Clone, Copy, PartialEq, Eq, Structural)]
pub enum HookAction {
    /// A hook is already in place: return success, installing nothing.
    AlreadyActive,
    /// Install the keyboard hook and report the outcome.
    InstallKeyboard,
    /// Install the mouse hook and report the outcome.
    InstallMouse,
    /// Remove the keyboard hook with this handle, then fail with the error.
    UnhookKeyboardAndFail { hook: usize, error: Error },
    /// Fail with the error; nothing is installed.
    Fail(Error),
    /// The hooks are in place: wait for messages.
    RunLoop,
}

/// Which hook to remove.
#[derive(Debug, Clone, Copy, PartialEq, Eq, Structural)]
pub enum HookKind {
    Keyboard,
    Mouse,
}

/// What the owning thread does with a message it received.
#[derive(Debug, Clone, Copy, PartialEq, Eq, Structural)]
pub enum MessageAction {
    /// Translate and dispatch it as usual.
    Dispatch,
    /// Remove the hooks, starting with this one.
    Unhook(HookKind, usize),
    /// Nothing is left to remove: leave the loop.
    Leave,
}

/// How the hook procedure disposes of one event.
#[derive(Debug, Clone, Copy, PartialEq, Eq, Structural)]
pub enum Disposition {
    /// Hand the event on to the next hook and to applications.
    PassOn,
    /// Keep the event from applications.
    Swallow,
}

impl<C> HookState<C> {
    /// The state holds together: a callback exactly while not idle, an owning thread
    /// exactly while active, and no hook while idle.
    pub open spec fn wf(self) -> bool {
        match self.phase {
            HookPhase::Idle => self.callback is None && self.thread_id == 0
                && self.keyboard_hook == 0 && self.mouse_hook == 0,
            HookPhase::Installing => self.callback is Some && self.thread_id == 0
                && self.mouse_hook == 0,
            HookPhase::Active => self.callback is Some && self.thread_id != 0,
            HookPhase::Stopping => self.callback is Some && self.thread_id == 0,
        }
    }

    /// A state with no hook, which resolves the text of key presses.
    pub fn new() -> (r: HookState<C>)
        ensures
            r.wf(),
            r.phase is Idle,
            r.get_key_unicode,
    {
        HookState {
            phase: HookPhase::Idle,
            callback: None,
            thread_id: 0,
            keyboard_hook: 0,
            mouse_hook: 0,
            get_key_unicode: true,
        }
    }
}

/// An idle state, as after `exit` completed.
pub open spec fn idle<C>(s: HookState<C>) -> HookState<C> {
    HookState {
        phase: HookPhase::Idle,
        callback: None,
        thread_id: 0,
        keyboard_hook: 0,
        mouse_hook: 0,
        get_key_unicode: s.get_key_unicode,
    }
}

/// Starting a grab: a no-op where one is in place or under way; else the callback takes
/// the slot and the keyboard hook is to be installed.
pub open spec fn start_step<C>(s: HookState<C>, callback: C) -> (HookState<C>, HookAction) {
    if s.phase is Idle {
        (
            HookState { phase: HookPhase::Installing, callback: Some(callback), ..s },
            HookAction::InstallKeyboard,
        )
    } else {
        (s, HookAction::AlreadyActive)
    }
}

/// The keyboard hook's installation was tried: on refusal nothing is left; else the
/// mouse hook follows, unless only the keyboard is wanted.
pub open spec fn keyboard_step<C>(
    s: HookState<C>,
    hook: usize,
    error: u32,
    keyboard_only: bool,
    thread: u32,
) -> (HookState<C>, HookAction) {
    if hook == 0 {
        (idle(s), HookAction::Fail(Error::Hook(HookError::Key(error))))
    } else if keyboard_only {
        (
            HookState { phase: HookPhase::Active, keyboard_hook: hook, thread_id: thread, ..s },
            HookAction::RunLoop,
        )
    } else {
        (HookState { keyboard_hook: hook, ..s }, HookAction::InstallMouse)
    }
}

/// The mouse hook's installation was tried: on refusal the keyboard hook is removed and
/// nothing is left; else the hooks are active.
pub open spec fn mouse_step<C>(s: HookState<C>, hook: usize, error: u32, thread: u32) -> (
    HookState<C>,
    HookAction,
) {
    if hook == 0 {
        (
            idle(s),
            HookAction::UnhookKeyboardAndFail {
                hook: s.keyboard_hook,
                error: Error::Hook(HookError::Mouse(error)),
            },
        )
    } else {
        (
            HookState { phase: HookPhase::Active, mouse_hook: hook, thread_id: thread, ..s },
            HookAction::RunLoop,
        )
    }
}

/// What to remove next: the keyboard hook, then the mouse hook; nothing once both are gone.
pub open spec fn unhook_plan<C>(s: HookState<C>) -> MessageAction {
    if s.keyboard_hook != 0 {
        MessageAction::Unhook(HookKind::Keyboard, s.keyboard_hook)
    } else if s.mouse_hook != 0 {
        MessageAction::Unhook(HookKind::Mouse, s.mouse_hook)
    } else {
        MessageAction::Leave
    }
}

/// The owning thread received a message: the exit message starts removing the hooks.
pub open spec fn message_step<C>(s: HookState<C>, message: u32) -> MessageAction {
    if message == WM_USER_EXIT_HOOK {
        unhook_plan(s)
    } else {
        MessageAction::Dispatch
    }
}

/// A hook's removal was tried. A removed hook is forgotten, and once none is left the
/// state is idle; a refusal keeps the hook, and the thread waits for the next message.
pub open spec fn unhook_step<C>(s: HookState<C>, kind: HookKind, removed: bool) -> (
    HookState<C>,
    MessageAction,
) {
    if !removed {
        (s, MessageAction::Dispatch)
    } else {
        let t = match kind {
            HookKind::Keyboard => HookState { keyboard_hook: 0, ..s },
            HookKind::Mouse => HookState { mouse_hook: 0, ..s },
        };
        if t.keyboard_hook == 0 && t.mouse_hook == 0 {
            (idle(t), MessageAction::Leave)
        } else {
            (t, unhook_plan(t))
        }
    }
}

/// `exit` was asked for, and the owning thread (if any) signalled with this outcome. A
/// signal that did not arrive is an error, and the hooks stay; else the thread is
/// released and the hooks are on their way out.
pub open spec fn exit_step<C>(s: HookState<C>, signal: Result<(), u32>) -> (
    HookState<C>,
    Result<(), Error>,
) {
    if s.phase is Active {
        match signal {
            Ok(()) => (HookState { phase: HookPhase::Stopping, thread_id: 0, ..s }, Ok(())),
            Err(code) => (s, Err(Error::ExitGrabError(code))),
        }
    } else {
        (s, Ok(()))
    }
}

/// Whether a grab is in place.
pub fn is_grabbed<C>(state: &HookState<C>) -> (r: bool)
    requires
        state.wf(),
    ensures
        r == (state.phase is Active),
{
    state.thread_id != 0
}

/// Whether the hook resolves the text of key presses.
pub fn set_get_key_unicode<C>(state: &mut HookState<C>, b: bool)
    ensures
        *final(state) == (HookState { get_key_unicode: b, ..*old(state) }),
{
    state.get_key_unicode = b;
}

/// Starts a grab with this callback. Where a grab is in place or under way, nothing
/// changes and the callback is dropped.
pub fn do_hook<C>(state: &mut HookState<C>, callback: C) -> (r: HookAction)
    requires
        old(state).wf(),
    ensures
        final(state).wf(),
        (*final(state), r) == start_step(*old(state), callback),
{
    match state.phase {
        HookPhase::Idle => {
            state.phase = HookPhase::Installing;
            state.callback = Some(callback);
            HookAction::InstallKeyboard
        },
        _ => HookAction::AlreadyActive,
    }
}

fn reset<C>(state: &mut HookState<C>)
    ensures
        *final(state) == idle(*old(state)),
{
    state.phase = HookPhase::Idle;
    state.callback = None;
    state.thread_id = 0;
    state.keyboard_hook = 0;
    state.mouse_hook = 0;
}

/// Takes the outcome of installing the keyboard hook: its handle (zero where the OS
/// refused, with the error code), on the thread `thread` that will own it.
pub fn keyboard_hooked<C>(
    state: &mut HookState<C>,
    hook: usize,
    error: u32,
    keyboard_only: bool,
    thread: u32,
) -> (r: HookAction)
    requires
        old(state).wf(),
        old(state).phase is Installing,
        thread != 0,
    ensures
        final(state).wf(),
        (*final(state), r) == keyboard_step(*old(state), hook, error, keyboard_only, thread),
{
    if hook == 0 {
        reset(state);
        HookAction::Fail(Error::Hook(HookError::Key(error)))
    } else if keyboard_only {
        state.phase = HookPhase::Active;
        state.keyboard_hook = hook;
        state.thread_id = thread;
        HookAction::RunLoop
    } else {
        state.keyboard_hook = hook;
        HookAction::InstallMouse
    }
}

/// Takes the outcome of installing the mouse hook: its handle (zero where the OS refused,
/// with the error code), on the thread `thread` that will own it.
pub fn mouse_hooked<C>(state: &mut HookState<C>, hook: usize, error: u32, thread: u32) -> (r:
    HookAction)
    requires
        old(state).wf(),
        old(state).phase is Installing,
        thread != 0,
    ensures
        final(state).wf(),
        (*final(state), r) == mouse_step(*old(state), hook, error, thread),
{
    if hook == 0 {
        let keyboard = state.keyboard_hook;
        reset(state);
        HookAction::UnhookKeyboardAndFail {
            hook: keyboard,
            error: Error::Hook(HookError::Mouse(error)),
        }
    } else {
        state.phase = HookPhase::Active;
        state.mouse_hook = hook;
        state.thread_id = thread;
        HookAction::RunLoop
    }
}

fn next_unhook<C>(state: &HookState<C>) -> (r: MessageAction)
    ensures
        r == unhook_plan(*state),
{
    if state.keyboard_hook != 0 {
        MessageAction::Unhook(HookKind::Keyboard, state.keyboard_hook)
    } else if state.mouse_hook != 0 {
        MessageAction::Unhook(HookKind::Mouse, state.mouse_hook)
    } else {
        MessageAction::Leave
    }
}

/// What the owning thread does with a message it received.
pub fn on_message<C>(state: &HookState<C>, message: u32) -> (r: MessageAction)
    ensures
        r == message_step(*state, message),
{
    if message == WM_USER_EXIT_HOOK {
        next_unhook(state)
    } else {
        MessageAction::Dispatch
    }
}

/// Takes the outcome of removing a hook, and says what to remove next, or to leave the
/// loop, or (on a refusal) to wait for the next message.
pub fn unhooked<C>(state: &mut HookState<C>, kind: HookKind, removed: bool) -> (r: MessageAction)
    requires
        old(state).wf(),
    ensures
        final(state).wf(),
        (*final(state), r) == unhook_step(*old(state), kind, removed),
{
    if !removed {
        MessageAction::Dispatch
    } else {
        match kind {
            HookKind::Keyboard => state.keyboard_hook = 0,
            HookKind::Mouse => state.mouse_hook = 0,
        }
        if state.keyboard_hook == 0 && state.mouse_hook == 0 {
            reset(state);
            MessageAction::Leave
        } else {
            next_unhook(state)
        }
    }
}

/// The thread to wake for `exit`: the hook's owner, where a grab is in place.
pub fn exit_target<C>(state: &HookState<C>) -> (r: Option<u32>)
    requires
        state.wf(),
    ensures
        r is Some <==> state.phase is Active,
        r is Some ==> r->0 == state.thread_id,
{
    if state.thread_id != 0 {
        Some(state.thread_id)
    } else {
        None
    }
}

/// Ends a grab, given the outcome of waking the thread that `exit_target` named (`Ok`
/// where it named none).
pub fn exit_grab<C>(state: &mut HookState<C>, signal: Result<(), u32>) -> (r: Result<(), GrabError>)
    requires
        old(state).wf(),
    ensures
        final(state).wf(),
        *final(state) == exit_step(*old(state), signal).0,
        r is Ok <==> exit_step(*old(state), signal).1 is Ok,
        r is Err ==> r->Err_0 == GrabError::System(exit_step(*old(state), signal).1->Err_0),
{
    if state.thread_id != 0 {
        match signal {
            Ok(()) => {
                state.phase = HookPhase::Stopping;
                state.thread_id = 0;
                Ok(())
            },
            Err(code) => Err(GrabError::System(Error::ExitGrabError(code))),
        }
    } else {
        Ok(())
    }
}

/// What the hook procedure does with an event, given the hook code and what the callback
/// decided: `Some(true)` to deliver, `Some(false)` to swallow, `None` where no callback
/// ran. Only an event handed over for processing and refused by the callback is swallowed.
pub fn disposition(code: i32, kept: Option<bool>) -> (r: Disposition)
    ensures
        r is Swallow <==> (code == HC_ACTION && kept == Some(false)),
{
    if code == HC_ACTION {
        match kept {
            Some(false) => Disposition::Swallow,
            _ => Disposition::PassOn,
        }
    } else {
        Disposition::PassOn
    }
}

/// Idempotent start: once a grab has started, starting another changes nothing and keeps
/// the first callback, which stays the only one registered.
pub proof fn lemma_idempotent_start<C>(s: HookState<C>, first: C, second: C)
    requires
        s.wf(),
        s.phase is Idle,
    ensures
        ({
            let s1 = start_step(s, first).0;
            &&& s1.callback == Some(first)
            &&& start_step(s1, second) == (s1, HookAction::AlreadyActive)
        }),
{
}

/// A second start while hooks are installed or active changes nothing.
pub proof fn lemma_start_while_busy<C>(s: HookState<C>, callback: C)
    requires
        s.wf(),
        !(s.phase is Idle),
    ensures
        start_step(s, callback) == (s, HookAction::AlreadyActive),
{
}

/// Cancellation completes: after `exit` on an active grab whose thread was woken, no grab
/// is reported; the exit message makes the thread remove its hooks, and once the OS
/// removes them (at most two removals) the thread leaves its loop with the state idle.
pub proof fn lemma_cancellation<C>(s: HookState<C>)
    requires
        s.wf(),
        s.phase is Active,
    ensures
        ({
            let s1 = exit_step(s, Ok(())).0;
            let plan = message_step(s1, WM_USER_EXIT_HOOK);
            &&& exit_step(s, Ok(())).1 is Ok
            &&& s1.wf()
            &&& !(s1.phase is Active)
            &&& s1.callback == s.callback
            &&& match plan {
                MessageAction::Leave => s1.keyboard_hook == 0 && s1.mouse_hook == 0,
                MessageAction::Unhook(k1, _) => {
                    let (s2, next) = unhook_step(s1, k1, true);
                    match next {
                        MessageAction::Leave => s2 == idle(s1),
                        MessageAction::Unhook(k2, _) => unhook_step(s2, k2, true) == (
                            idle(s2),
                            MessageAction::Leave,
                        ),
                        MessageAction::Dispatch => false,
                    }
                },
                MessageAction::Dispatch => false,
            }
        }),
{
}

} // verus!
