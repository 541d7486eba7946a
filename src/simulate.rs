//! The input records that simulating an event sends to Windows.

use vstd::prelude::*;

use crate::codes_conv::{key_to_native, native_of, NativeCode, Platform};
use crate::redev::{Button, EventType, Key, SimulateError};

verus! {

/// The key event carries an extended key (one whose scan code has the `0xE0` prefix).
pub const KEYEVENTF_EXTENDEDKEY: u32 = 0x0001;

/// The key event is a release.
pub const KEYEVENTF_KEYUP: u32 = 0x0002;

/// The key event carries a UTF-16 code unit in place of a key.
pub const KEYEVENTF_UNICODE: u32 = 0x0004;

/// The key event names its key by scan code alone.
pub const KEYEVENTF_SCANCODE: u32 = 0x0008;

pub const MOUSEEVENTF_MOVE: u32 = 0x0001;

pub const MOUSEEVENTF_LEFTDOWN: u32 = 0x0002;

pub const MOUSEEVENTF_LEFTUP: u32 = 0x0004;

pub const MOUSEEVENTF_RIGHTDOWN: u32 = 0x0008;

pub const MOUSEEVENTF_RIGHTUP: u32 = 0x0010;

pub const MOUSEEVENTF_MIDDLEDOWN: u32 = 0x0020;

pub const MOUSEEVENTF_MIDDLEUP: u32 = 0x0040;

pub const MOUSEEVENTF_XDOWN: u32 = 0x0080;

pub const MOUSEEVENTF_XUP: u32 = 0x0100;

pub const MOUSEEVENTF_WHEEL: u32 = 0x0800;

pub const MOUSEEVENTF_HWHEEL: u32 = 0x1000;

/// Mouse coordinates are absolute, scaled so that the screen spans 0 to 65535.
pub const MOUSEEVENTF_ABSOLUTE: u32 = 0x8000;

/// One notch of the wheel.
pub const WHEEL_DELTA: i64 = 120;

/// The largest absolute mouse coordinate.
pub const ABSOLUTE_SPAN: i128 = 65535;

/// One input record for the OS's input queue.
#[derive(Debug, Clone, Copy, PartialEq, Eq, Structural)]
pub enum WinInput {
    Keyboard { keycode: u16, scancode: u16, flags: u32 },
    Mouse { dx: i32, dy: i32, data: i32, flags: u32 },
}

/// Relies on `<u16 as TryFrom<u32>>::try_from`: it succeeds exactly on values that fit,
/// and keeps them.
#[verifier::external_body]
fn u16_from_u32(v: u32) -> (r: Result<u16, core::num::TryFromIntError>)
    ensures
        r is Ok <==> v <= u16::MAX,
        r is Ok ==> r->Ok_0 == v,
{
    u16::try_from(v)
}

/// Relies on `<i32 as TryFrom<i128>>::try_from`: it succeeds exactly on values that fit,
/// and keeps them.
#[verifier::external_body]
fn i32_from_i128(v: i128) -> (r: Result<i32, core::num::TryFromIntError>)
    ensures
        r is Ok <==> i32::MIN <= v <= i32::MAX,
        r is Ok ==> r->Ok_0 == v,
{
    i32::try_from(v)
}

/// The flags of a key event: extended for a scan code with the `0xE0` prefix, a release
/// where it is one, and by scan code where no virtual keycode is given.
pub open spec fn key_flags(keycode: u32, scancode: u32, release: bool) -> u32 {
    ((if scancode / 256 == 0xe0 { KEYEVENTF_EXTENDEDKEY } else { 0 }) + (if release {
        KEYEVENTF_KEYUP
    } else {
        0
    }) + (if keycode == 0 { KEYEVENTF_SCANCODE } else { 0 })) as u32
}

/// The record of a key event with these codes; the scan code goes without its prefix.
pub open spec fn key_input(keycode: u32, scancode: u32, release: bool) -> WinInput {
    WinInput::Keyboard {
        keycode: keycode as u16,
        scancode: (scancode % 256) as u16,
        flags: key_flags(keycode, scancode, release),
    }
}

/// The flags of a button event.
pub open spec fn button_flags(button: Button, press: bool) -> u32 {
    match button {
        Button::Left => if press { MOUSEEVENTF_LEFTDOWN } else { MOUSEEVENTF_LEFTUP },
        Button::Right => if press { MOUSEEVENTF_RIGHTDOWN } else { MOUSEEVENTF_RIGHTUP },
        Button::Middle => if press { MOUSEEVENTF_MIDDLEDOWN } else { MOUSEEVENTF_MIDDLEUP },
        Button::Unknown(_) => if press { MOUSEEVENTF_XDOWN } else { MOUSEEVENTF_XUP },
    }
}

/// The record of a button event; an extra button carries its number.
pub open spec fn button_input(button: Button, press: bool) -> WinInput {
    WinInput::Mouse {
        dx: 0,
        dy: 0,
        data: match button {
            Button::Unknown(n) => n as i32,
            _ => 0,
        },
        flags: button_flags(button, press),
    }
}

/// A pixel coordinate scaled to the absolute span over a screen side of `side` pixels,
/// rounded toward zero.
pub open spec fn scaled(pos: int, side: int) -> int {
    if pos + 1 >= 0 {
        (pos + 1) * ABSOLUTE_SPAN / side
    } else {
        -((-(pos + 1)) * ABSOLUTE_SPAN / side)
    }
}

/// The wheel records of a scroll: a horizontal one, then a vertical one, each only where
/// its delta is not zero, at one wheel delta a notch.
pub open spec fn wheel_inputs(delta_x: i64, delta_y: i64) -> Seq<WinInput> {
    let h = if delta_x != 0 {
        seq![
            WinInput::Mouse {
                dx: 0,
                dy: 0,
                data: (delta_x * WHEEL_DELTA) as i32,
                flags: MOUSEEVENTF_HWHEEL,
            },
        ]
    } else {
        Seq::empty()
    };
    let v = if delta_y != 0 {
        seq![
            WinInput::Mouse {
                dx: 0,
                dy: 0,
                data: (delta_y * WHEEL_DELTA) as i32,
                flags: MOUSEEVENTF_WHEEL,
            },
        ]
    } else {
        Seq::empty()
    };
    h + v
}

/// Whether an integer fits an `i32`.
pub open spec fn fits_i32(v: int) -> bool {
    i32::MIN <= v <= i32::MAX
}

fn key_record(key: Key, release: bool) -> (r: Result<WinInput, SimulateError>)
    ensures
        match native_of(Platform::Windows, key) {
            Some(NativeCode::Windows { keycode, scancode }) => if keycode <= u16::MAX {
                r == Ok::<WinInput, SimulateError>(key_input(keycode, scancode, release))
            } else {
                r matches Err(SimulateError::IntConversion(_))
            },
            _ => r is Err && (if key is RawKey {
                r->Err_0 is InvalidRawKey
            } else {
                r->Err_0 is GetCodes
            }),
        },
{
    let code = key_to_native(Platform::Windows, key);
    match code {
        Ok(NativeCode::Windows { keycode, scancode }) => {
            let vk = match u16_from_u32(keycode) {
                Ok(v) => v,
                Err(e) => {
                    return Err(SimulateError::IntConversion(e));
                },
            };
            let extended: u32 = if scancode / 256 == 0xe0 { KEYEVENTF_EXTENDEDKEY } else { 0 };
            let up: u32 = if release { KEYEVENTF_KEYUP } else { 0 };
            let by_scan: u32 = if keycode == 0 { KEYEVENTF_SCANCODE } else { 0 };
            Ok(
                WinInput::Keyboard {
                    keycode: vk,
                    scancode: (scancode % 256) as u16,
                    flags: extended + up + by_scan,
                },
            )
        },
        Ok(_) => Err(SimulateError::GetCodes),
        Err(e) => Err(e),
    }
}

fn button_record(button: Button, press: bool) -> (r: WinInput)
    ensures
        r == button_input(button, press),
{
    let flags = match button {
        Button::Left => if press { MOUSEEVENTF_LEFTDOWN } else { MOUSEEVENTF_LEFTUP },
        Button::Right => if press { MOUSEEVENTF_RIGHTDOWN } else { MOUSEEVENTF_RIGHTUP },
        Button::Middle => if press { MOUSEEVENTF_MIDDLEDOWN } else { MOUSEEVENTF_MIDDLEUP },
        Button::Unknown(_) => if press { MOUSEEVENTF_XDOWN } else { MOUSEEVENTF_XUP },
    };
    let data: i32 = match button {
        Button::Unknown(n) => n as i32,
        _ => 0,
    };
    WinInput::Mouse { dx: 0, dy: 0, data, flags }
}

fn scale(pos: i64, side: u64) -> (r: i128)
    requires
        side > 0,
    ensures
        r == scaled(pos as int, side as int),
{
    let p: i128 = pos as i128 + 1;
    let magnitude: i128 = if p >= 0 { p } else { -p };
    assert(0 <= magnitude * 65535 <= 0x8000_0000_0000_0000 * 65535) by (nonlinear_arith)
        requires
            0 <= magnitude <= 0x8000_0000_0000_0000,
    ;
    let q = (magnitude * ABSOLUTE_SPAN) / (side as i128);
    if p >= 0 {
        q
    } else {
        -q
    }
}

/// The input records that simulate an event on Windows, given the screen size where it
/// is known.
///
/// A key goes by its canonical codes (`GetCodes` where Windows has none, `InvalidRawKey`
/// for a raw key of another platform's numbering); a mouse move is scaled to the
/// absolute span over the screen (`NoDisplay` where its size is unknown or zero); a
/// scroll gives a record for each axis that moves. `IntConversion` where a value does
/// not fit its field.
pub fn windows_inputs(event_type: &EventType, display: Option<(u64, u64)>) -> (r: Result<
    Vec<WinInput>,
    SimulateError,
>)
    ensures
        match *event_type {
            EventType::KeyPress(key) | EventType::KeyRelease(key) => {
                let release = event_type is KeyRelease;
                match native_of(Platform::Windows, key) {
                    Some(NativeCode::Windows { keycode, scancode }) => if keycode <= u16::MAX {
                        r is Ok && r->Ok_0@ == seq![key_input(keycode, scancode, release)]
                    } else {
                        r matches Err(SimulateError::IntConversion(_))
                    },
                    _ => r is Err && (if key is RawKey {
                        r->Err_0 is InvalidRawKey
                    } else {
                        r->Err_0 is GetCodes
                    }),
                }
            },
            EventType::ButtonPress(b) => r is Ok && r->Ok_0@ == seq![button_input(b, true)],
            EventType::ButtonRelease(b) => r is Ok && r->Ok_0@ == seq![button_input(b, false)],
            EventType::MouseMove { x, y } => match display {
                Some((w, h)) => if w > 0 && h > 0 {
                    if fits_i32(scaled(x as int, w as int)) && fits_i32(scaled(y as int, h as int)) {
                        r is Ok && r->Ok_0@ == seq![
                            WinInput::Mouse {
                                dx: scaled(x as int, w as int) as i32,
                                dy: scaled(y as int, h as int) as i32,
                                data: 0,
                                flags: (MOUSEEVENTF_MOVE + MOUSEEVENTF_ABSOLUTE) as u32,
                            },
                        ]
                    } else {
                        r matches Err(SimulateError::IntConversion(_))
                    }
                } else {
                    r matches Err(SimulateError::NoDisplay)
                },
                None => r matches Err(SimulateError::NoDisplay),
            },
            EventType::Wheel { delta_x, delta_y } => if fits_i32(delta_x * WHEEL_DELTA) && fits_i32(
                delta_y * WHEEL_DELTA,
            ) {
                r is Ok && r->Ok_0@ == wheel_inputs(delta_x, delta_y)
            } else {
                r matches Err(SimulateError::IntConversion(_))
            },
        },
{
    let mut out: Vec<WinInput> = Vec::new();
    match *event_type {
        EventType::KeyPress(key) => {
            let rec = key_record(key, false)?;
            out.push(rec);
        },
        EventType::KeyRelease(key) => {
            let rec = key_record(key, true)?;
            out.push(rec);
        },
        EventType::ButtonPress(b) => out.push(button_record(b, true)),
        EventType::ButtonRelease(b) => out.push(button_record(b, false)),
        EventType::MouseMove { x, y } => {
            let (w, h) = match display {
                Some((w, h)) => (w, h),
                None => {
                    return Err(SimulateError::NoDisplay);
                },
            };
            if w == 0 || h == 0 {
                return Err(SimulateError::NoDisplay);
            }
            let dx = match i32_from_i128(scale(x, w)) {
                Ok(v) => v,
                Err(e) => {
                    return Err(SimulateError::IntConversion(e));
                },
            };
            let dy = match i32_from_i128(scale(y, h)) {
                Ok(v) => v,
                Err(e) => {
                    return Err(SimulateError::IntConversion(e));
                },
            };
            out.push(
                WinInput::Mouse { dx, dy, data: 0, flags: MOUSEEVENTF_MOVE + MOUSEEVENTF_ABSOLUTE },
            );
        },
        EventType::Wheel { delta_x, delta_y } => {
            let data_x = match i32_from_i128(delta_x as i128 * WHEEL_DELTA as i128) {
                Ok(v) => v,
                Err(e) => {
                    return Err(SimulateError::IntConversion(e));
                },
            };
            let data_y = match i32_from_i128(delta_y as i128 * WHEEL_DELTA as i128) {
                Ok(v) => v,
                Err(e) => {
                    return Err(SimulateError::IntConversion(e));
                },
            };
            if delta_x != 0 {
                out.push(WinInput::Mouse { dx: 0, dy: 0, data: data_x, flags: MOUSEEVENTF_HWHEEL });
            }
            if delta_y != 0 {
                out.push(WinInput::Mouse { dx: 0, dy: 0, data: data_y, flags: MOUSEEVENTF_WHEEL });
            }
            assert(out@ =~= wheel_inputs(delta_x, delta_y));
        },
    }
    Ok(out)
}

/// The record of a press or release of a UTF-16 code unit.
pub open spec fn unicode_input(unit: u16, release: bool) -> WinInput {
    WinInput::Keyboard {
        keycode: 0,
        scancode: unit,
        flags: (KEYEVENTF_UNICODE + if release { KEYEVENTF_KEYUP } else { 0 }) as u32,
    }
}

/// The records that type a text: a press and a release of each code unit, in order.
pub open spec fn unicode_seq(text: Seq<u16>) -> Seq<WinInput>
    decreases text.len(),
{
    if text.len() == 0 {
        Seq::empty()
    } else {
        unicode_seq(text.drop_last()).push(unicode_input(text.last(), false)).push(
            unicode_input(text.last(), true),
        )
    }
}

/// The records that type a text by its UTF-16 code units, for characters no key gives.
pub fn unicode_inputs(text: &[u16]) -> (r: Vec<WinInput>)
    ensures
        r@ == unicode_seq(text@),
{
    let mut out: Vec<WinInput> = Vec::new();
    let mut i: usize = 0;
    while i < text.len()
        invariant
            i <= text@.len(),
            out@ == unicode_seq(text@.subrange(0, i as int)),
        decreases text@.len() - i,
    {
        let unit = text[i];
        out.push(WinInput::Keyboard { keycode: 0, scancode: unit, flags: KEYEVENTF_UNICODE });
        out.push(
            WinInput::Keyboard {
                keycode: 0,
                scancode: unit,
                flags: KEYEVENTF_UNICODE + KEYEVENTF_KEYUP,
            },
        );
        proof {
            let next = text@.subrange(0, i as int + 1);
            assert(next.drop_last() =~= text@.subrange(0, i as int));
            assert(next.last() == unit);
        }
        i = i + 1;
    }
    assert(text@.subrange(0, text@.len() as int) =~= text@);
    out
}

/// The records that type one character: the key the layout gives it, pressed and
/// released, inside a press and release of the left Shift where the layout asks for
/// Shift; where no key gives it, its code unit by Unicode injection if that is allowed,
/// else `NoCorrespondingKey`. A key with no Windows codes fails as a key event does.
pub fn char_inputs(unit: u16, layout_key: Option<(Key, bool)>, unicode_fallback: bool) -> (r:
    Result<Vec<WinInput>, SimulateError>)
    ensures
        match layout_key {
            None => if unicode_fallback {
                r is Ok && r->Ok_0@ == unicode_seq(seq![unit])
            } else {
                r matches Err(SimulateError::NoCorrespondingKey)
            },
            Some((key, shift)) => match native_of(Platform::Windows, key) {
                Some(NativeCode::Windows { keycode, scancode }) => if keycode <= u16::MAX {
                    let typed = seq![
                        key_input(keycode, scancode, false),
                        key_input(keycode, scancode, true),
                    ];
                    r is Ok && r->Ok_0@ == (if shift {
                        seq![key_input(160, 0x2a, false)] + typed + seq![
                            key_input(160, 0x2a, true),
                        ]
                    } else {
                        typed
                    })
                } else {
                    r matches Err(SimulateError::IntConversion(_))
                },
                _ => r is Err && (if key is RawKey {
                    r->Err_0 is InvalidRawKey
                } else {
                    r->Err_0 is GetCodes
                }),
            },
        },
{
    match layout_key {
        None => {
            if unicode_fallback {
                let units = [unit];
                let out = unicode_inputs(&units);
                assert(units@ =~= seq![unit]);
                Ok(out)
            } else {
                Err(SimulateError::NoCorrespondingKey)
            }
        },
        Some((key, shift)) => {
            let press = key_record(key, false)?;
            let release = key_record(key, true)?;
            let mut out: Vec<WinInput> = Vec::new();
            if shift {
                out.push(key_record(Key::ShiftLeft, false)?);
            }
            out.push(press);
            out.push(release);
            if shift {
                out.push(key_record(Key::ShiftLeft, true)?);
            }
            proof {
                if shift {
                    assert(out@ =~= seq![key_input(160, 0x2a, false)] + seq![
                        press,
                        release,
                    ] + seq![key_input(160, 0x2a, true)]);
                } else {
                    assert(out@ =~= seq![press, release]);
                }
            }
            Ok(out)
        },
    }
}

} // verus!
