//! One entry point over the three platforms' code tables.

use vstd::prelude::*;

use crate::keycodes::{linux, macos, windows};
use crate::redev::{Key, RawKey, SimulateError};

verus! {

/// The platforms whose key numbering the library knows.
#[derive(Debug, Clone, Copy, PartialEq, Eq, Structural)]
pub enum Platform {
    Windows,
    Linux,
    MacOS,
}

/// A key code in one platform's numbering.
#[derive(Debug, Clone, Copy, PartialEq, Eq, Structural)]
pub enum NativeCode {
    /// A virtual keycode and a scan code; zero where the event gives only the other.
    Windows { keycode: u32, scancode: u32 },
    /// An X.Org keycode.
    Linux(u32),
    /// A macOS virtual keycode.
    MacOS(u16),
}

impl NativeCode {
    /// The platform whose numbering the code is in.
    pub open spec fn platform(self) -> Platform {
        match self {
            NativeCode::Windows { .. } => Platform::Windows,
            NativeCode::Linux(_) => Platform::Linux,
            NativeCode::MacOS(_) => Platform::MacOS,
        }
    }
}

/// The name of a raw key's numbering space.
pub open spec fn raw_space_name(raw: RawKey) -> Seq<char> {
    match raw {
        RawKey::ScanCode(_) => "ScanCode"@,
        RawKey::WinVirtualKeycode(_) => "WinVirtualKeycode"@,
        RawKey::LinuxXorgKeycode(_) => "LinuxXorgKeycode"@,
        RawKey::LinuxConsoleKeycode(_) => "LinuxConsoleKeycode"@,
        RawKey::MacVirtualKeycode(_) => "MacVirtualKeycode"@,
    }
}

/// The raw numbering spaces that a platform takes, as its errors name them.
pub open spec fn expected_raw_spaces(platform: Platform) -> Seq<char> {
    match platform {
        Platform::Windows => "ScanCode or WinVirtualKeycode"@,
        Platform::Linux => "LinuxXorgKeycode"@,
        Platform::MacOS => "MacVirtualKeycode"@,
    }
}

/// The native code of a raw key on a platform, where the raw key is in one of its spaces.
pub open spec fn raw_native(platform: Platform, raw: RawKey) -> Option<NativeCode> {
    match (platform, raw) {
        (Platform::Windows, RawKey::ScanCode(c)) => Some(
            NativeCode::Windows { keycode: 0, scancode: c as u32 },
        ),
        (Platform::Windows, RawKey::WinVirtualKeycode(c)) => Some(
            NativeCode::Windows { keycode: c as u32, scancode: 0 },
        ),
        (Platform::Linux, RawKey::LinuxXorgKeycode(c)) => Some(NativeCode::Linux(c as u32)),
        (Platform::MacOS, RawKey::MacVirtualKeycode(c)) => Some(NativeCode::MacOS(c)),
        _ => None,
    }
}

/// The native code of a key on a platform: its table entry, or the raw key's own code.
pub open spec fn native_of(platform: Platform, key: Key) -> Option<NativeCode> {
    match key {
        Key::RawKey(raw) => raw_native(platform, raw),
        _ => match platform {
            Platform::Windows => match windows::win_codes(key) {
                Some(c) => Some(NativeCode::Windows { keycode: c.0, scancode: c.1 }),
                None => None,
            },
            Platform::Linux => match linux::xorg_code(key) {
                Some(c) => Some(NativeCode::Linux(c)),
                None => None,
            },
            Platform::MacOS => match macos::mac_code(key) {
                Some(c) => Some(NativeCode::MacOS(c)),
                None => None,
            },
        },
    }
}

/// The key that a native code reads as.
pub open spec fn key_of(code: NativeCode) -> Key {
    match code {
        NativeCode::Windows { keycode, scancode } => windows::win_key_of(keycode, scancode),
        NativeCode::Linux(c) => linux::xorg_key(c),
        NativeCode::MacOS(c) => macos::mac_key(c),
    }
}

/// The name of a raw key's numbering space.
pub fn raw_key_space(raw: RawKey) -> (r: String)
    ensures
        r@ == raw_space_name(raw),
{
    match raw {
        RawKey::ScanCode(_) => "ScanCode".to_string(),
        RawKey::WinVirtualKeycode(_) => "WinVirtualKeycode".to_string(),
        RawKey::LinuxXorgKeycode(_) => "LinuxXorgKeycode".to_string(),
        RawKey::LinuxConsoleKeycode(_) => "LinuxConsoleKeycode".to_string(),
        RawKey::MacVirtualKeycode(_) => "MacVirtualKeycode".to_string(),
    }
}

fn expected_spaces(platform: Platform) -> (r: String)
    ensures
        r@ == expected_raw_spaces(platform),
{
    match platform {
        Platform::Windows => "ScanCode or WinVirtualKeycode".to_string(),
        Platform::Linux => "LinuxXorgKeycode".to_string(),
        Platform::MacOS => "MacVirtualKeycode".to_string(),
    }
}

/// The native code of a key on a platform.
///
/// Fails with `InvalidRawKey` for a raw key outside the platform's numbering spaces,
/// naming the spaces expected and the one given, and with `GetCodes` for a key the
/// platform does not have.
pub fn key_to_native(platform: Platform, key: Key) -> (r: Result<NativeCode, SimulateError>)
    ensures
        r is Ok <==> native_of(platform, key) is Some,
        r is Ok ==> r->Ok_0 == native_of(platform, key)->0,
        r is Err ==> (match key {
            Key::RawKey(raw) => r->Err_0 matches SimulateError::InvalidRawKey { expected, got }
                && expected@ == expected_raw_spaces(platform)
                && got is Some && got->0@ == raw_space_name(raw),
            _ => r->Err_0 is GetCodes,
        }),
{
    match key {
        Key::RawKey(raw) => match raw_to_native(platform, raw) {
            Some(code) => Ok(code),
            None => Err(
                SimulateError::InvalidRawKey {
                    expected: expected_spaces(platform),
                    got: Some(raw_key_space(raw)),
                },
            ),
        },
        _ => {
            let code = match platform {
                Platform::Windows => match windows::get_win_codes(key) {
                    Some(c) => Some(NativeCode::Windows { keycode: c.0, scancode: c.1 }),
                    None => None,
                },
                Platform::Linux => match linux::code_from_key(key) {
                    Some(c) => Some(NativeCode::Linux(c)),
                    None => None,
                },
                Platform::MacOS => match macos::code_from_key(key) {
                    Some(c) => Some(NativeCode::MacOS(c)),
                    None => None,
                },
            };
            match code {
                Some(c) => Ok(c),
                None => Err(SimulateError::GetCodes),
            }
        },
    }
}

fn raw_to_native(platform: Platform, raw: RawKey) -> (r: Option<NativeCode>)
    ensures
        r == raw_native(platform, raw),
{
    match (platform, raw) {
        (Platform::Windows, RawKey::ScanCode(c)) => Some(
            NativeCode::Windows { keycode: 0, scancode: c as u32 },
        ),
        (Platform::Windows, RawKey::WinVirtualKeycode(c)) => Some(
            NativeCode::Windows { keycode: c as u32, scancode: 0 },
        ),
        (Platform::Linux, RawKey::LinuxXorgKeycode(c)) => Some(NativeCode::Linux(c as u32)),
        (Platform::MacOS, RawKey::MacVirtualKeycode(c)) => Some(NativeCode::MacOS(c)),
        _ => None,
    }
}

/// The key that a native code reads as. Never fails: a code of no named key reads as
/// `Unknown` with that code.
pub fn native_to_key(code: NativeCode) -> (r: Key)
    ensures
        r == key_of(code),
{
    match code {
        NativeCode::Windows { keycode, scancode } => windows::get_win_key(keycode, scancode),
        NativeCode::Linux(c) => linux::key_from_code(c),
        NativeCode::MacOS(c) => macos::key_from_code(c),
    }
}

/// Round trip: a named key that a platform has reads back from its native code.
pub proof fn lemma_round_trip(platform: Platform, key: Key)
    requires
        key.is_named(),
        native_of(platform, key) is Some,
    ensures
        key_of(native_of(platform, key)->0) == key,
{
    match platform {
        Platform::Windows => windows::lemma_key_round_trip(key),
        Platform::Linux => linux::lemma_key_round_trip(key),
        Platform::MacOS => macos::lemma_key_round_trip(key),
    }
}

/// Round trip the other way: a code that reads as a named key is that key's native code;
/// on Windows, where several pairs may read as one key, its virtual keycode is the key's
/// canonical one, except for the generic Shift, Control and Alt keycodes.
pub proof fn lemma_code_reads_back(code: NativeCode)
    requires
        key_of(code).is_named(),
    ensures
        native_of(code.platform(), key_of(code)) is Some,
        match code {
            NativeCode::Windows { keycode, .. } => (keycode != windows::VK_SHIFT && keycode
                != windows::VK_CONTROL && keycode != windows::VK_MENU) ==> windows::win_codes(
                key_of(code),
            ).unwrap().0 == keycode,
            _ => native_of(code.platform(), key_of(code)) == Some(code),
        },
{
    match code {
        NativeCode::Windows { keycode, scancode } => {
            if keycode != windows::VK_SHIFT && keycode != windows::VK_CONTROL && keycode
                != windows::VK_MENU {
                windows::lemma_code_round_trip(keycode);
            }
        },
        NativeCode::Linux(c) => linux::lemma_code_round_trip(c),
        NativeCode::MacOS(c) => macos::lemma_code_round_trip(c),
    }
}

/// A code of no named key reads as `Unknown` with that code, on every platform but for the
/// generic Windows modifiers.
pub proof fn lemma_unknown_reads_as_itself(code: NativeCode)
    requires
        !key_of(code).is_named(),
    ensures
        key_of(code) == Key::Unknown(
            match code {
                NativeCode::Windows { keycode, .. } => keycode,
                NativeCode::Linux(c) => c,
                NativeCode::MacOS(c) => c as u32,
            },
        ),
{
    match code {
        NativeCode::Windows { keycode, scancode } => windows::lemma_unknown_code(keycode, scancode),
        NativeCode::Linux(c) => linux::lemma_unknown_code(c),
        NativeCode::MacOS(c) => macos::lemma_unknown_code(c),
    }
}

/// Determinism: reading a code depends on the code alone, so two readings of one code agree.
pub proof fn lemma_deterministic(code1: NativeCode, code2: NativeCode)
    requires
        code1 == code2,
    ensures
        key_of(code1) == key_of(code2),
{
}

} // verus!
