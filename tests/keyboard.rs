use redev::keyboard::{DeadKey, Keyboard, LayoutAnswer};
use redev::{set_event_popup, EventType, Key};

const E_ACUTE: u16 = 0x00e9;

#[test]
fn alt_gr_dead_key_composes_on_next_vowel() {
    let mut kb = Keyboard::new();
    assert_eq!(kb.feed(&EventType::KeyPress(Key::AltGr)), None);
    let q = kb.feed(&EventType::KeyPress(Key::KeyE)).unwrap();
    assert!(q.alt_gr);
    assert_eq!(q.key, Key::KeyE);
    let dead = kb
        .resolve(&q, LayoutAnswer::Dead { name: Some("\u{b4}".to_string()) })
        .unwrap();
    assert!(dead.is_dead);
    assert!(dead.unicode.is_empty());
    assert_eq!(kb.feed(&EventType::KeyRelease(Key::KeyE)), None);
    assert_eq!(kb.feed(&EventType::KeyRelease(Key::AltGr)), None);
    assert!(!kb.alt_gr);

    let q2 = kb.feed(&EventType::KeyPress(Key::KeyE)).unwrap();
    assert!(!q2.alt_gr);
    assert_eq!(
        q2.dead,
        Some(DeadKey { key: Key::KeyE, shift: false, caps_lock: false, alt_gr: true })
    );
    let out = kb
        .resolve(
            &q2,
            LayoutAnswer::Text { unicode: vec![E_ACUTE], name: Some("\u{e9}".to_string()) },
        )
        .unwrap();
    assert_eq!(out.unicode, vec![E_ACUTE]);
    assert!(!out.is_dead);
    assert_eq!(out.name, Some("é".to_string()));
    assert_eq!(kb.dead, None);
}

#[test]
fn dead_key_alone_gives_dead_and_no_text() {
    let mut kb = Keyboard::new();
    let q = kb.feed(&EventType::KeyPress(Key::Quote)).unwrap();
    let info = kb.resolve(&q, LayoutAnswer::Dead { name: None }).unwrap();
    assert!(info.is_dead);
    assert_eq!(info.unicode, Vec::<u16>::new());
    assert_eq!(kb.dead.unwrap().key, Key::Quote);
}

#[test]
fn dead_then_composable_gives_one_composed_result() {
    let mut kb = Keyboard::new();
    let q = kb.feed(&EventType::KeyPress(Key::Quote)).unwrap();
    kb.resolve(&q, LayoutAnswer::Dead { name: None });
    let q2 = kb.feed(&EventType::KeyPress(Key::KeyE)).unwrap();
    assert_eq!(q2.dead.unwrap().key, Key::Quote);
    let info = kb
        .resolve(&q2, LayoutAnswer::Text { unicode: vec![E_ACUTE], name: None })
        .unwrap();
    assert_eq!(info.unicode, vec![E_ACUTE]);
    assert!(!info.is_dead);
    let q3 = kb.feed(&EventType::KeyPress(Key::KeyE)).unwrap();
    assert_eq!(q3.dead, None);
}

#[test]
fn shift_is_held_from_press_to_release() {
    let mut kb = Keyboard::new();
    kb.feed(&EventType::KeyPress(Key::ShiftLeft));
    assert!(kb.feed(&EventType::KeyPress(Key::KeyS)).unwrap().shift);
    kb.feed(&EventType::KeyRelease(Key::ShiftLeft));
    assert!(!kb.feed(&EventType::KeyPress(Key::KeyS)).unwrap().shift);
    kb.feed(&EventType::KeyPress(Key::ShiftRight));
    assert!(kb.feed(&EventType::KeyPress(Key::KeyS)).unwrap().shift);
}

#[test]
fn caps_lock_toggles_on_press() {
    let mut kb = Keyboard::new();
    kb.feed(&EventType::KeyPress(Key::CapsLock));
    kb.feed(&EventType::KeyRelease(Key::CapsLock));
    assert!(kb.caps_lock);
    kb.feed(&EventType::KeyPress(Key::CapsLock));
    assert!(!kb.caps_lock);
}

#[test]
fn control_is_reported_to_the_layout() {
    let mut kb = Keyboard::new();
    kb.feed(&EventType::KeyPress(Key::ControlRight));
    assert!(kb.feed(&EventType::KeyPress(Key::KeyC)).unwrap().control);
}

#[test]
fn non_key_events_change_nothing() {
    let mut kb = Keyboard::new();
    let before = kb;
    assert_eq!(kb.feed(&EventType::MouseMove { x: 3, y: 4 }), None);
    assert_eq!(kb.feed(&EventType::Wheel { delta_x: 0, delta_y: 1 }), None);
    assert_eq!(kb.feed(&EventType::KeyRelease(Key::KeyA)), None);
    assert_eq!(kb, before);
}

#[test]
fn key_without_text_gives_none_and_keeps_dead_key() {
    let mut kb = Keyboard::new();
    let q = kb.feed(&EventType::KeyPress(Key::Quote)).unwrap();
    kb.resolve(&q, LayoutAnswer::Dead { name: None });
    let q2 = kb.feed(&EventType::KeyPress(Key::F1)).unwrap();
    assert_eq!(kb.resolve(&q2, LayoutAnswer::NoText), None);
    assert_eq!(kb.dead.unwrap().key, Key::Quote);
}

#[test]
fn event_popup_flag_goes_with_queries() {
    let mut kb = Keyboard::new();
    set_event_popup(&mut kb, true);
    assert!(kb.feed(&EventType::KeyPress(Key::KeyA)).unwrap().event_popup);
    set_event_popup(&mut kb, false);
    assert!(!kb.feed(&EventType::KeyPress(Key::KeyA)).unwrap().event_popup);
}
