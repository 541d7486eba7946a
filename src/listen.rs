//! Which events a macOS event tap listens to.

use vstd::prelude::*;

verus! {

pub const CG_LEFT_MOUSE_DOWN: u64 = 1;

pub const CG_LEFT_MOUSE_UP: u64 = 2;

pub const CG_RIGHT_MOUSE_DOWN: u64 = 3;

pub const CG_RIGHT_MOUSE_UP: u64 = 4;

pub const CG_MOUSE_MOVED: u64 = 5;

pub const CG_LEFT_MOUSE_DRAGGED: u64 = 6;

pub const CG_RIGHT_MOUSE_DRAGGED: u64 = 7;

pub const CG_KEY_DOWN: u64 = 10;

pub const CG_KEY_UP: u64 = 11;

pub const CG_FLAGS_CHANGED: u64 = 12;

pub const CG_SCROLL_WHEEL: u64 = 22;

/// The bit of an event type in an event mask.
pub open spec fn bit(event_type: u64) -> u64 {
    vstd::arithmetic::power2::pow2(event_type as nat) as u64
}

/// The mask of the keyboard's event types: key down, key up and modifier changes.
pub open spec fn keyboard_mask() -> u64 {
    (bit(CG_KEY_DOWN) + bit(CG_KEY_UP) + bit(CG_FLAGS_CHANGED)) as u64
}

/// The mask of every event type a listener takes: the keyboard's, and the mouse's buttons,
/// moves, drags and wheel.
pub open spec fn all_events_mask() -> u64 {
    (keyboard_mask() + bit(CG_LEFT_MOUSE_DOWN) + bit(CG_LEFT_MOUSE_UP) + bit(CG_RIGHT_MOUSE_DOWN)
        + bit(CG_RIGHT_MOUSE_UP) + bit(CG_MOUSE_MOVED) + bit(CG_LEFT_MOUSE_DRAGGED) + bit(
        CG_RIGHT_MOUSE_DRAGGED,
    ) + bit(CG_SCROLL_WHEEL)) as u64
}

/// The event mask that a listener's tap is created with: the keyboard's event types only
/// where only keyboard events are wanted, else all of them.
pub fn event_mask(keyboard_only: bool) -> (r: u64)
    ensures
        r == (if keyboard_only { keyboard_mask() } else { all_events_mask() }),
{
    proof {
        vstd::arithmetic::power2::lemma2_to64();
    }
    let keyboard: u64 = 0x400 + 0x800 + 0x1000;
    if keyboard_only {
        keyboard
    } else {
        keyboard + 0x2 + 0x4 + 0x8 + 0x10 + 0x20 + 0x40 + 0x80 + 0x40_0000
    }
}

} // verus!
