use redev::convert::{convert_keyboard, convert_mouse, WM_KEYDOWN, WM_KEYUP, WM_MOUSEWHEEL};
use redev::listen::event_mask;
use redev::simulate::{char_inputs, unicode_inputs, windows_inputs, WinInput};
use redev::{display_size, keyboard_only, Button, DisplayError, Event, EventType, Key, RawKey};
use redev::{SimulateError, UnicodeInfo};

#[test]
fn display_size_converts_metrics() {
    assert_eq!(display_size(Some((1920, 1080))).unwrap(), (1920, 1080));
    assert!(matches!(display_size(Some((-1, 1080))), Err(DisplayError::ConversionError(_))));
    assert!(matches!(display_size(Some((1920, -5))), Err(DisplayError::ConversionError(_))));
    assert!(matches!(display_size(None), Err(DisplayError::NoDisplay)));
}

#[test]
fn keyboard_only_needs_a_non_empty_value() {
    assert!(keyboard_only(Some("1")));
    assert!(!keyboard_only(Some("")));
    assert!(!keyboard_only(None));
}

#[test]
fn key_press_and_release_records() {
    assert_eq!(
        windows_inputs(&EventType::KeyPress(Key::KeyQ), None).unwrap(),
        vec![WinInput::Keyboard { keycode: 81, scancode: 16, flags: 0 }]
    );
    assert_eq!(
        windows_inputs(&EventType::KeyRelease(Key::KeyQ), None).unwrap(),
        vec![WinInput::Keyboard { keycode: 81, scancode: 16, flags: 2 }]
    );
    assert_eq!(
        windows_inputs(&EventType::KeyPress(Key::Delete), None).unwrap(),
        vec![WinInput::Keyboard { keycode: 46, scancode: 0x53, flags: 1 }]
    );
    assert_eq!(
        windows_inputs(&EventType::KeyPress(Key::RawKey(RawKey::ScanCode(0x1e))), None).unwrap(),
        vec![WinInput::Keyboard { keycode: 0, scancode: 0x1e, flags: 8 }]
    );
}

#[test]
fn key_records_fail_as_the_tables_do() {
    assert!(matches!(
        windows_inputs(&EventType::KeyPress(Key::KpReturn), None),
        Err(SimulateError::GetCodes)
    ));
    assert!(matches!(
        windows_inputs(&EventType::KeyPress(Key::RawKey(RawKey::MacVirtualKeycode(1))), None),
        Err(SimulateError::InvalidRawKey { .. })
    ));
    assert!(matches!(
        windows_inputs(&EventType::KeyPress(Key::Unknown(70000)), None),
        Err(SimulateError::IntConversion(_))
    ));
}

#[test]
fn mouse_move_is_scaled_to_the_screen() {
    let display = Some((1920, 1080));
    assert_eq!(
        windows_inputs(&EventType::MouseMove { x: 0, y: 0 }, display).unwrap(),
        vec![WinInput::Mouse { dx: 34, dy: 60, data: 0, flags: 0x8001 }]
    );
    assert_eq!(
        windows_inputs(&EventType::MouseMove { x: 400, y: 400 }, display).unwrap(),
        vec![WinInput::Mouse { dx: 13687, dy: 24332, data: 0, flags: 0x8001 }]
    );
    assert!(matches!(
        windows_inputs(&EventType::MouseMove { x: 0, y: 0 }, None),
        Err(SimulateError::NoDisplay)
    ));
    assert!(matches!(
        windows_inputs(&EventType::MouseMove { x: 0, y: 0 }, Some((0, 1080))),
        Err(SimulateError::NoDisplay)
    ));
    assert!(matches!(
        windows_inputs(&EventType::MouseMove { x: i64::MAX - 1, y: 0 }, display),
        Err(SimulateError::IntConversion(_))
    ));
}

#[test]
fn buttons_and_wheel_records() {
    assert_eq!(
        windows_inputs(&EventType::ButtonPress(Button::Left), None).unwrap(),
        vec![WinInput::Mouse { dx: 0, dy: 0, data: 0, flags: 0x0002 }]
    );
    assert_eq!(
        windows_inputs(&EventType::ButtonRelease(Button::Unknown(2)), None).unwrap(),
        vec![WinInput::Mouse { dx: 0, dy: 0, data: 2, flags: 0x0100 }]
    );
    assert_eq!(
        windows_inputs(&EventType::Wheel { delta_x: 0, delta_y: 1 }, None).unwrap(),
        vec![WinInput::Mouse { dx: 0, dy: 0, data: 120, flags: 0x0800 }]
    );
    assert_eq!(
        windows_inputs(&EventType::Wheel { delta_x: -2, delta_y: 3 }, None).unwrap(),
        vec![
            WinInput::Mouse { dx: 0, dy: 0, data: -240, flags: 0x1000 },
            WinInput::Mouse { dx: 0, dy: 0, data: 360, flags: 0x0800 },
        ]
    );
    assert!(windows_inputs(&EventType::Wheel { delta_x: 0, delta_y: 0 }, None).unwrap().is_empty());
    assert!(matches!(
        windows_inputs(&EventType::Wheel { delta_x: i64::MAX, delta_y: 0 }, None),
        Err(SimulateError::IntConversion(_))
    ));
}

#[test]
fn hook_messages_read_as_events() {
    assert_eq!(convert_keyboard(WM_KEYDOWN, 81, 16), Some(EventType::KeyPress(Key::KeyQ)));
    assert_eq!(convert_keyboard(WM_KEYUP, 16, 0x36), Some(EventType::KeyRelease(Key::ShiftRight)));
    assert_eq!(convert_keyboard(0x0102, 81, 16), None);
    assert_eq!(convert_mouse(0x0201, 0, 0, 0), Some(EventType::ButtonPress(Button::Left)));
    assert_eq!(convert_mouse(0x020c, 0, 0, 0x0002_0000), Some(EventType::ButtonRelease(Button::Unknown(2))));
    assert_eq!(convert_mouse(0x0200, -5, 7, 0), Some(EventType::MouseMove { x: -5, y: 7 }));
    assert_eq!(
        convert_mouse(WM_MOUSEWHEEL, 0, 0, 0xff88_0000),
        Some(EventType::Wheel { delta_x: 0, delta_y: -1 })
    );
    assert_eq!(
        convert_mouse(0x020e, 0, 0, 240 << 16),
        Some(EventType::Wheel { delta_x: 2, delta_y: 0 })
    );
}

#[test]
fn events_keep_text_for_key_presses_only() {
    let info = UnicodeInfo { name: Some("a".to_string()), unicode: vec![97], is_dead: false };
    let now = std::time::SystemTime::now();
    let press = Event::new(now, EventType::KeyPress(Key::KeyA), Some(info.clone()), true, 65, 30, 0);
    assert_eq!(press.unicode, Some(info.clone()));
    assert_eq!(press.usb_hid, 0);
    let release = Event::new(now, EventType::KeyRelease(Key::KeyA), Some(info.clone()), true, 65, 30, 0);
    assert_eq!(release.unicode, None);
    let off = Event::new(now, EventType::KeyPress(Key::KeyA), Some(info), false, 65, 30, 9);
    assert_eq!(off.unicode, None);
    assert_eq!(off.extra_data, 9);
}

#[test]
fn listener_mask_by_keyboard_only() {
    assert_eq!(event_mask(true), (1 << 10) | (1 << 11) | (1 << 12));
    assert_eq!(
        event_mask(false),
        (1 << 10) | (1 << 11) | (1 << 12) | 0b1111_1110 | (1 << 22)
    );
}

#[test]
fn unicode_text_is_pressed_and_released_unit_by_unit() {
    assert_eq!(
        unicode_inputs(&[0x00e9, 0x0041]),
        vec![
            WinInput::Keyboard { keycode: 0, scancode: 0x00e9, flags: 4 },
            WinInput::Keyboard { keycode: 0, scancode: 0x00e9, flags: 6 },
            WinInput::Keyboard { keycode: 0, scancode: 0x0041, flags: 4 },
            WinInput::Keyboard { keycode: 0, scancode: 0x0041, flags: 6 },
        ]
    );
    assert!(unicode_inputs(&[]).is_empty());
}

#[test]
fn characters_go_through_their_layout_key() {
    assert_eq!(
        char_inputs(0x61, Some((Key::KeyA, false)), true).unwrap(),
        vec![
            WinInput::Keyboard { keycode: 65, scancode: 0x1e, flags: 0 },
            WinInput::Keyboard { keycode: 65, scancode: 0x1e, flags: 2 },
        ]
    );
    assert_eq!(
        char_inputs(0x41, Some((Key::KeyA, true)), true).unwrap(),
        vec![
            WinInput::Keyboard { keycode: 160, scancode: 0x2a, flags: 0 },
            WinInput::Keyboard { keycode: 65, scancode: 0x1e, flags: 0 },
            WinInput::Keyboard { keycode: 65, scancode: 0x1e, flags: 2 },
            WinInput::Keyboard { keycode: 160, scancode: 0x2a, flags: 2 },
        ]
    );
    assert_eq!(
        char_inputs(0x263a, None, true).unwrap(),
        vec![
            WinInput::Keyboard { keycode: 0, scancode: 0x263a, flags: 4 },
            WinInput::Keyboard { keycode: 0, scancode: 0x263a, flags: 6 },
        ]
    );
    assert!(matches!(char_inputs(0x263a, None, false), Err(SimulateError::NoCorrespondingKey)));
    assert!(matches!(
        char_inputs(0x61, Some((Key::KpReturn, false)), true),
        Err(SimulateError::GetCodes)
    ));
}
