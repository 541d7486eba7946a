//! Cross-platform simulation and global listening for keyboard and mouse input.
//!
//! The library holds the logic of input handling, proved against its contracts: the key
//! vocabulary and each platform's key code tables, a keyboard that predicts the text of
//! key presses, the lifecycle of the process-wide interception hook, and the records that
//! simulate an event. The OS calls themselves belong to the caller.

mod redev;
pub use crate::redev::{
    Button, DisplayError, Event, EventType, GrabError, Key, KeyCode, KeyboardState,
    ListenError, RawKey, SimulateError, UnicodeInfo,
};

pub mod codes_conv;
pub mod convert;
pub mod display;
pub mod grab;
pub mod keyboard;
pub mod keycodes;
pub mod listen;
pub mod simulate;

pub use crate::codes_conv::{key_to_native, native_to_key, NativeCode, Platform};
pub use crate::display::display_size;
pub use crate::grab::{exit_grab, is_grabbed, set_get_key_unicode, Error, HookState};
pub use crate::keyboard::{set_event_popup, Keyboard, LayoutAnswer, LayoutQuery};

use vstd::prelude::*;

verus! {

/// Declares the timestamp type carried by events, which the library never looks into.
#[verifier::external_type_specification]
#[verifier::external_body]
pub struct ExSystemTime(std::time::SystemTime);

/// Whether the environment asks for keyboard events only: the variable is set and not empty.
pub fn keyboard_only(value: Option<&str>) -> (r: bool)
    ensures
        r == (value is Some && value.unwrap()@.len() > 0),
{
    match value {
        Some(s) => s.unicode_len() > 0,
        None => false,
    }
}

} // verus!
