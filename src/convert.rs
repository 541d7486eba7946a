//! Native Windows hook messages read as events.

use vstd::prelude::*;

use crate::keycodes::windows::{get_win_key, win_key_of};
use crate::redev::{Button, Event, EventType, UnicodeInfo};
use crate::simulate::WHEEL_DELTA;

verus! {

pub const WM_KEYDOWN: usize = 0x0100;

pub const WM_KEYUP: usize = 0x0101;

pub const WM_SYSKEYDOWN: usize = 0x0104;

pub const WM_SYSKEYUP: usize = 0x0105;

pub const WM_MOUSEMOVE: usize = 0x0200;

pub const WM_LBUTTONDOWN: usize = 0x0201;

pub const WM_LBUTTONUP: usize = 0x0202;

pub const WM_RBUTTONDOWN: usize = 0x0204;

pub const WM_RBUTTONUP: usize = 0x0205;

pub const WM_MBUTTONDOWN: usize = 0x0207;

pub const WM_MBUTTONUP: usize = 0x0208;

pub const WM_MOUSEWHEEL: usize = 0x020a;

pub const WM_XBUTTONDOWN: usize = 0x020b;

pub const WM_XBUTTONUP: usize = 0x020c;

pub const WM_MOUSEHWHEEL: usize = 0x020e;

/// The event of a keyboard hook message: a press or a release of the key that the codes
/// read as; `None` for any other message.
pub open spec fn keyboard_event(message: usize, vk: u32, scan: u32) -> Option<EventType> {
    if message == WM_KEYDOWN || message == WM_SYSKEYDOWN {
        Some(EventType::KeyPress(win_key_of(vk, scan)))
    } else if message == WM_KEYUP || message == WM_SYSKEYUP {
        Some(EventType::KeyRelease(win_key_of(vk, scan)))
    } else {
        None
    }
}

/// The high word of a mouse message's data, read as signed.
pub open spec fn signed_high_word(data: u32) -> int {
    let hw = data / 65536;
    if hw >= 32768 {
        hw - 65536
    } else {
        hw as int
    }
}

/// Whole wheel notches in a delta, rounded toward zero.
pub open spec fn notches(delta: int) -> int {
    if delta >= 0 {
        delta / WHEEL_DELTA as int
    } else {
        -((-delta) / WHEEL_DELTA as int)
    }
}

/// The event of a mouse hook message at position (`x`, `y`) with data `data`: the
/// buttons' presses and releases (an extra button by its number in the high word), a
/// move, or a scroll of the high word's notches; `None` for any other message.
pub open spec fn mouse_event(message: usize, x: i32, y: i32, data: u32) -> Option<EventType> {
    if message == WM_LBUTTONDOWN {
        Some(EventType::ButtonPress(Button::Left))
    } else if message == WM_LBUTTONUP {
        Some(EventType::ButtonRelease(Button::Left))
    } else if message == WM_RBUTTONDOWN {
        Some(EventType::ButtonPress(Button::Right))
    } else if message == WM_RBUTTONUP {
        Some(EventType::ButtonRelease(Button::Right))
    } else if message == WM_MBUTTONDOWN {
        Some(EventType::ButtonPress(Button::Middle))
    } else if message == WM_MBUTTONUP {
        Some(EventType::ButtonRelease(Button::Middle))
    } else if message == WM_XBUTTONDOWN {
        Some(EventType::ButtonPress(Button::Unknown((data / 65536) as u8)))
    } else if message == WM_XBUTTONUP {
        Some(EventType::ButtonRelease(Button::Unknown((data / 65536) as u8)))
    } else if message == WM_MOUSEMOVE {
        Some(EventType::MouseMove { x: x as i64, y: y as i64 })
    } else if message == WM_MOUSEWHEEL {
        Some(EventType::Wheel { delta_x: 0, delta_y: notches(signed_high_word(data)) as i64 })
    } else if message == WM_MOUSEHWHEEL {
        Some(EventType::Wheel { delta_x: notches(signed_high_word(data)) as i64, delta_y: 0 })
    } else {
        None
    }
}

/// The event of a keyboard hook message with these codes.
pub fn convert_keyboard(message: usize, vk: u32, scan: u32) -> (r: Option<EventType>)
    ensures
        r == keyboard_event(message, vk, scan),
{
    if message == WM_KEYDOWN || message == WM_SYSKEYDOWN {
        Some(EventType::KeyPress(get_win_key(vk, scan)))
    } else if message == WM_KEYUP || message == WM_SYSKEYUP {
        Some(EventType::KeyRelease(get_win_key(vk, scan)))
    } else {
        None
    }
}

fn wheel_notches(data: u32) -> (r: i64)
    ensures
        r == notches(signed_high_word(data)),
{
    let hw: u32 = data / 65536;
    let delta: i64 = if hw >= 32768 { hw as i64 - 65536 } else { hw as i64 };
    if delta >= 0 {
        delta / WHEEL_DELTA
    } else {
        -((-delta) / WHEEL_DELTA)
    }
}

/// The event of a mouse hook message at this position with this data.
pub fn convert_mouse(message: usize, x: i32, y: i32, data: u32) -> (r: Option<EventType>)
    ensures
        r == mouse_event(message, x, y, data),
{
    if message == WM_LBUTTONDOWN {
        Some(EventType::ButtonPress(Button::Left))
    } else if message == WM_LBUTTONUP {
        Some(EventType::ButtonRelease(Button::Left))
    } else if message == WM_RBUTTONDOWN {
        Some(EventType::ButtonPress(Button::Right))
    } else if message == WM_RBUTTONUP {
        Some(EventType::ButtonRelease(Button::Right))
    } else if message == WM_MBUTTONDOWN {
        Some(EventType::ButtonPress(Button::Middle))
    } else if message == WM_MBUTTONUP {
        Some(EventType::ButtonRelease(Button::Middle))
    } else if message == WM_XBUTTONDOWN {
        Some(EventType::ButtonPress(Button::Unknown((data / 65536) as u8)))
    } else if message == WM_XBUTTONUP {
        Some(EventType::ButtonRelease(Button::Unknown((data / 65536) as u8)))
    } else if message == WM_MOUSEMOVE {
        Some(EventType::MouseMove { x: x as i64, y: y as i64 })
    } else if message == WM_MOUSEWHEEL {
        Some(EventType::Wheel { delta_x: 0, delta_y: wheel_notches(data) })
    } else if message == WM_MOUSEHWHEEL {
        Some(EventType::Wheel { delta_x: wheel_notches(data), delta_y: 0 })
    } else {
        None
    }
}

impl Event {
    /// An event record. The text is kept only for a key press, and only where the hook
    /// resolves the text of key presses.
    pub fn new(
        time: std::time::SystemTime,
        event_type: EventType,
        unicode: Option<UnicodeInfo>,
        get_key_unicode: bool,
        platform_code: u32,
        position_code: u32,
        extra_data: u64,
    ) -> (r: Event)
        ensures
            r.time == time,
            r.event_type == event_type,
            r.unicode == (if get_key_unicode && event_type is KeyPress {
                unicode
            } else {
                None
            }),
            r.platform_code == platform_code,
            r.position_code == position_code,
            r.usb_hid == 0,
            r.extra_data == extra_data,
    {
        let kept = match event_type {
            EventType::KeyPress(_) => if get_key_unicode {
                unicode
            } else {
                None
            },
            _ => None,
        };
        Event {
            time,
            unicode: kept,
            event_type,
            platform_code,
            position_code,
            usb_hid: 0,
            extra_data,
        }
    }
}

} // verus!
