use redev::codes_conv::{key_to_native, native_to_key, NativeCode, Platform};
use redev::keycodes::{linux, macos, windows};
use redev::{Key, RawKey, SimulateError};

const ALL_KEYS: [Key; 145] = [
    Key::Alt,
    Key::AltGr,
    Key::Backspace,
    Key::CapsLock,
    Key::ControlLeft,
    Key::ControlRight,
    Key::Delete,
    Key::DownArrow,
    Key::End,
    Key::Escape,
    Key::F1,
    Key::F10,
    Key::F11,
    Key::F12,
    Key::F13,
    Key::F14,
    Key::F15,
    Key::F16,
    Key::F17,
    Key::F18,
    Key::F19,
    Key::F20,
    Key::F21,
    Key::F22,
    Key::F23,
    Key::F24,
    Key::F2,
    Key::F3,
    Key::F4,
    Key::F5,
    Key::F6,
    Key::F7,
    Key::F8,
    Key::F9,
    Key::Home,
    Key::LeftArrow,
    Key::MetaLeft,
    Key::MetaRight,
    Key::PageDown,
    Key::PageUp,
    Key::Return,
    Key::RightArrow,
    Key::ShiftLeft,
    Key::ShiftRight,
    Key::Space,
    Key::Tab,
    Key::UpArrow,
    Key::PrintScreen,
    Key::ScrollLock,
    Key::Pause,
    Key::NumLock,
    Key::BackQuote,
    Key::Num1,
    Key::Num2,
    Key::Num3,
    Key::Num4,
    Key::Num5,
    Key::Num6,
    Key::Num7,
    Key::Num8,
    Key::Num9,
    Key::Num0,
    Key::Minus,
    Key::Equal,
    Key::KeyQ,
    Key::KeyW,
    Key::KeyE,
    Key::KeyR,
    Key::KeyT,
    Key::KeyY,
    Key::KeyU,
    Key::KeyI,
    Key::KeyO,
    Key::KeyP,
    Key::LeftBracket,
    Key::RightBracket,
    Key::KeyA,
    Key::KeyS,
    Key::KeyD,
    Key::KeyF,
    Key::KeyG,
    Key::KeyH,
    Key::KeyJ,
    Key::KeyK,
    Key::KeyL,
    Key::SemiColon,
    Key::Quote,
    Key::BackSlash,
    Key::IntlBackslash,
    Key::IntlRo,
    Key::IntlYen,
    Key::KanaMode,
    Key::KeyZ,
    Key::KeyX,
    Key::KeyC,
    Key::KeyV,
    Key::KeyB,
    Key::KeyN,
    Key::KeyM,
    Key::Comma,
    Key::Dot,
    Key::Slash,
    Key::Insert,
    Key::KpReturn,
    Key::KpMinus,
    Key::KpPlus,
    Key::KpMultiply,
    Key::KpDivide,
    Key::KpDecimal,
    Key::KpEqual,
    Key::KpComma,
    Key::Kp0,
    Key::Kp1,
    Key::Kp2,
    Key::Kp3,
    Key::Kp4,
    Key::Kp5,
    Key::Kp6,
    Key::Kp7,
    Key::Kp8,
    Key::Kp9,
    Key::VolumeUp,
    Key::VolumeDown,
    Key::VolumeMute,
    Key::Lang1,
    Key::Lang2,
    Key::Lang3,
    Key::Lang4,
    Key::Lang5,
    Key::Function,
    Key::Apps,
    Key::Cancel,
    Key::Clear,
    Key::Kana,
    Key::Hangul,
    Key::Junja,
    Key::Final,
    Key::Hanja,
    Key::Hanji,
    Key::Print,
    Key::Select,
    Key::Execute,
    Key::Help,
    Key::Sleep,
    Key::Separator,
];

#[test]
fn test_convet_keycode() {
    let key = Key::KeyQ;
    let (keycode, scancode) = (81, 16);

    assert_eq!(key, windows::get_win_key(keycode, scancode));
    assert_eq!((81, 16), windows::get_win_codes(key).unwrap());

    assert_eq!(16, windows::scancode_from_key(key).unwrap()); // Windows
    assert_eq!(24, linux::code_from_key(key).unwrap()); // Linux
    assert_eq!(12, macos::code_from_key(key).unwrap()); // Mac OS
}

#[test]
fn key_q_on_each_platform() {
    assert_eq!(
        key_to_native(Platform::Windows, Key::KeyQ).unwrap(),
        NativeCode::Windows { keycode: 81, scancode: 16 }
    );
    assert_eq!(native_to_key(NativeCode::Windows { keycode: 81, scancode: 16 }), Key::KeyQ);
    assert_eq!(key_to_native(Platform::Linux, Key::KeyQ).unwrap(), NativeCode::Linux(24));
    assert_eq!(key_to_native(Platform::MacOS, Key::KeyQ).unwrap(), NativeCode::MacOS(12));
}

#[test]
fn every_named_key_round_trips() {
    let platforms = [Platform::Windows, Platform::Linux, Platform::MacOS];
    let mut counted = [0usize; 3];
    for (i, platform) in platforms.iter().enumerate() {
        for key in ALL_KEYS.iter() {
            if let Ok(code) = key_to_native(*platform, *key) {
                assert_eq!(native_to_key(code), *key, "{:?} on {:?}", key, platform);
                assert_eq!(native_to_key(code), native_to_key(code));
                counted[i] += 1;
            }
        }
    }
    assert!(counted.iter().all(|n| *n > 100));
}

#[test]
fn missing_keys_fail_with_get_codes() {
    assert!(matches!(key_to_native(Platform::Windows, Key::KpReturn), Err(SimulateError::GetCodes)));
    assert!(matches!(key_to_native(Platform::Linux, Key::Function), Err(SimulateError::GetCodes)));
    assert!(matches!(key_to_native(Platform::MacOS, Key::F24), Err(SimulateError::GetCodes)));
    assert_eq!(windows::code_from_key(Key::Lang5), None);
}

#[test]
fn raw_key_of_another_platform_is_invalid() {
    match key_to_native(Platform::Windows, Key::RawKey(RawKey::LinuxXorgKeycode(24))) {
        Err(SimulateError::InvalidRawKey { expected, got }) => {
            assert_eq!(expected, "ScanCode or WinVirtualKeycode");
            assert_eq!(got, Some("LinuxXorgKeycode".to_string()));
        }
        other => panic!("unexpected {:?}", other),
    }
    match key_to_native(Platform::Linux, Key::RawKey(RawKey::MacVirtualKeycode(12))) {
        Err(SimulateError::InvalidRawKey { expected, got }) => {
            assert_eq!(expected, "LinuxXorgKeycode");
            assert_eq!(got, Some("MacVirtualKeycode".to_string()));
        }
        other => panic!("unexpected {:?}", other),
    }
}

#[test]
fn raw_key_of_the_platform_passes_its_code() {
    assert_eq!(
        key_to_native(Platform::Windows, Key::RawKey(RawKey::ScanCode(0x1e))).unwrap(),
        NativeCode::Windows { keycode: 0, scancode: 0x1e }
    );
    assert_eq!(
        key_to_native(Platform::Windows, Key::RawKey(RawKey::WinVirtualKeycode(65))).unwrap(),
        NativeCode::Windows { keycode: 65, scancode: 0 }
    );
    assert_eq!(
        key_to_native(Platform::Linux, Key::RawKey(RawKey::LinuxXorgKeycode(300))).unwrap(),
        NativeCode::Linux(300)
    );
    assert_eq!(
        key_to_native(Platform::MacOS, Key::RawKey(RawKey::MacVirtualKeycode(200))).unwrap(),
        NativeCode::MacOS(200)
    );
}

#[test]
fn unknown_codes_read_as_unknown() {
    assert_eq!(native_to_key(NativeCode::Linux(5000)), Key::Unknown(5000));
    assert_eq!(native_to_key(NativeCode::MacOS(200)), Key::Unknown(200));
    assert_eq!(native_to_key(NativeCode::Windows { keycode: 255, scancode: 0 }), Key::Unknown(255));
    assert_eq!(key_to_native(Platform::Linux, Key::Unknown(5000)).unwrap(), NativeCode::Linux(5000));
    assert!(matches!(key_to_native(Platform::MacOS, Key::Unknown(70000)), Err(SimulateError::GetCodes)));
}

#[test]
fn windows_generic_modifiers_go_by_scan_code() {
    assert_eq!(windows::get_win_key(16, 0x2a), Key::ShiftLeft);
    assert_eq!(windows::get_win_key(16, 0x36), Key::ShiftRight);
    assert_eq!(windows::get_win_key(17, 0x1d), Key::ControlLeft);
    assert_eq!(windows::get_win_key(17, 0xe01d), Key::ControlRight);
    assert_eq!(windows::get_win_key(18, 0x38), Key::Alt);
    assert_eq!(windows::get_win_key(18, 0xe038), Key::AltGr);
}

#[test]
fn windows_keypad_enter_reads_as_return() {
    assert_eq!(windows::get_win_key(13, 0xe01c), Key::Return);
    assert_eq!(windows::get_win_codes(Key::Return), Some((13, 0x1c)));
    assert_eq!(windows::key_from_code(13), Key::Return);
}

#[test]
fn tables_agree_in_both_directions() {
    assert_eq!(linux::key_from_code(9), Key::Escape);
    assert_eq!(linux::code_from_key(Key::Escape), Some(9));
    assert_eq!(macos::key_from_code(0), Key::KeyA);
    assert_eq!(macos::code_from_key(Key::KeyA), Some(0));
    assert_eq!(windows::code_from_key(Key::Delete), Some(46));
    assert_eq!(windows::scancode_from_key(Key::Delete), Some(0xe053));
}

#[test]
fn raw_key_default_is_scan_code_zero() {
    assert_eq!(RawKey::default(), RawKey::ScanCode(0));
}
