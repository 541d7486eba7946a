use vstd::prelude::*;

use crate::redev::Key;

verus! {

/// Virtual keycode of the generic Shift key.
pub const VK_SHIFT: u32 = 16;

/// Virtual keycode of the generic Control key.
pub const VK_CONTROL: u32 = 17;

/// Virtual keycode of the generic Alt (menu) key.
pub const VK_MENU: u32 = 18;

/// Scan code of the right Shift key.
pub const SCAN_SHIFT_RIGHT: u32 = 0x36;

/// Scan code of the right Control key (extended).
pub const SCAN_CONTROL_RIGHT: u32 = 0xe01d;

/// Scan code of the right Alt key (extended).
pub const SCAN_ALT_RIGHT: u32 = 0xe038;

/// The canonical (virtual keycode, scan code) pair of each named key that has one; an
/// `Unknown` key stands for its own virtual keycode, with no scan code.
pub open spec fn win_codes(key: Key) -> Option<(u32, u32)> {
    match key {
        Key::Alt => Some((164u32, 0x38u32)),
        Key::AltGr => Some((165u32, 0xe038u32)),
        Key::Backspace => Some((8u32, 0x0eu32)),
        Key::CapsLock => Some((20u32, 0x3au32)),
        Key::ControlLeft => Some((162u32, 0x1du32)),
        Key::ControlRight => Some((163u32, 0xe01du32)),
        Key::Delete => Some((46u32, 0xe053u32)),
        Key::DownArrow => Some((40u32, 0xe050u32)),
        Key::End => Some((35u32, 0xe04fu32)),
        Key::Escape => Some((27u32, 0x01u32)),
        Key::F1 => Some((112u32, 0x3bu32)),
        Key::F10 => Some((121u32, 0x44u32)),
        Key::F11 => Some((122u32, 0x57u32)),
        Key::F12 => Some((123u32, 0x58u32)),
        Key::F13 => Some((124u32, 0x64u32)),
        Key::F14 => Some((125u32, 0x65u32)),
        Key::F15 => Some((126u32, 0x66u32)),
        Key::F16 => Some((127u32, 0x67u32)),
        Key::F17 => Some((128u32, 0x68u32)),
        Key::F18 => Some((129u32, 0x69u32)),
        Key::F19 => Some((130u32, 0x6au32)),
        Key::F20 => Some((131u32, 0x6bu32)),
        Key::F21 => Some((132u32, 0x6cu32)),
        Key::F22 => Some((133u32, 0x6du32)),
        Key::F23 => Some((134u32, 0x6eu32)),
        Key::F24 => Some((135u32, 0x76u32)),
        Key::F2 => Some((113u32, 0x3cu32)),
        Key::F3 => Some((114u32, 0x3du32)),
        Key::F4 => Some((115u32, 0x3eu32)),
        Key::F5 => Some((116u32, 0x3fu32)),
        Key::F6 => Some((117u32, 0x40u32)),
        Key::F7 => Some((118u32, 0x41u32)),
        Key::F8 => Some((119u32, 0x42u32)),
        Key::F9 => Some((120u32, 0x43u32)),
        Key::Home => Some((36u32, 0xe047u32)),
        Key::LeftArrow => Some((37u32, 0xe04bu32)),
        Key::MetaLeft => Some((91u32, 0xe05bu32)),
        Key::MetaRight => Some((92u32, 0xe05cu32)),
        Key::PageDown => Some((34u32, 0xe051u32)),
        Key::PageUp => Some((33u32, 0xe049u32)),
        Key::Return => Some((13u32, 0x1cu32)),
        Key::RightArrow => Some((39u32, 0xe04du32)),
        Key::ShiftLeft => Some((160u32, 0x2au32)),
        Key::ShiftRight => Some((161u32, 0x36u32)),
        Key::Space => Some((32u32, 0x39u32)),
        Key::Tab => Some((9u32, 0x0fu32)),
        Key::UpArrow => Some((38u32, 0xe048u32)),
        Key::PrintScreen => Some((44u32, 0xe037u32)),
        Key::ScrollLock => Some((145u32, 0x46u32)),
        Key::Pause => Some((19u32, 0x45u32)),
        Key::NumLock => Some((144u32, 0xe045u32)),
        Key::BackQuote => Some((192u32, 0x29u32)),
        Key::Num1 => Some((49u32, 0x02u32)),
        Key::Num2 => Some((50u32, 0x03u32)),
        Key::Num3 => Some((51u32, 0x04u32)),
        Key::Num4 => Some((52u32, 0x05u32)),
        Key::Num5 => Some((53u32, 0x06u32)),
        Key::Num6 => Some((54u32, 0x07u32)),
        Key::Num7 => Some((55u32, 0x08u32)),
        Key::Num8 => Some((56u32, 0x09u32)),
        Key::Num9 => Some((57u32, 0x0au32)),
        Key::Num0 => Some((48u32, 0x0bu32)),
        Key::Minus => Some((189u32, 0x0cu32)),
        Key::Equal => Some((187u32, 0x0du32)),
        Key::KeyQ => Some((81u32, 0x10u32)),
        Key::KeyW => Some((87u32, 0x11u32)),
        Key::KeyE => Some((69u32, 0x12u32)),
        Key::KeyR => Some((82u32, 0x13u32)),
        Key::KeyT => Some((84u32, 0x14u32)),
        Key::KeyY => Some((89u32, 0x15u32)),
        Key::KeyU => Some((85u32, 0x16u32)),
        Key::KeyI => Some((73u32, 0x17u32)),
        Key::KeyO => Some((79u32, 0x18u32)),
        Key::KeyP => Some((80u32, 0x19u32)),
        Key::LeftBracket => Some((219u32, 0x1au32)),
        Key::RightBracket => Some((221u32, 0x1bu32)),
        Key::KeyA => Some((65u32, 0x1eu32)),
        Key::KeyS => Some((83u32, 0x1fu32)),
        Key::KeyD => Some((68u32, 0x20u32)),
        Key::KeyF => Some((70u32, 0x21u32)),
        Key::KeyG => Some((71u32, 0x22u32)),
        Key::KeyH => Some((72u32, 0x23u32)),
        Key::KeyJ => Some((74u32, 0x24u32)),
        Key::KeyK => Some((75u32, 0x25u32)),
        Key::KeyL => Some((76u32, 0x26u32)),
        Key::SemiColon => Some((186u32, 0x27u32)),
        Key::Quote => Some((222u32, 0x28u32)),
        Key::BackSlash => Some((220u32, 0x2bu32)),
        Key::IntlBackslash => Some((226u32, 0x56u32)),
        Key::IntlRo => Some((193u32, 0x73u32)),
        Key::KeyZ => Some((90u32, 0x2cu32)),
        Key::KeyX => Some((88u32, 0x2du32)),
        Key::KeyC => Some((67u32, 0x2eu32)),
        Key::KeyV => Some((86u32, 0x2fu32)),
        Key::KeyB => Some((66u32, 0x30u32)),
        Key::KeyN => Some((78u32, 0x31u32)),
        Key::KeyM => Some((77u32, 0x32u32)),
        Key::Comma => Some((188u32, 0x33u32)),
        Key::Dot => Some((190u32, 0x34u32)),
        Key::Slash => Some((191u32, 0x35u32)),
        Key::Insert => Some((45u32, 0xe052u32)),
        Key::KpMinus => Some((109u32, 0x4au32)),
        Key::KpPlus => Some((107u32, 0x4eu32)),
        Key::KpMultiply => Some((106u32, 0x37u32)),
        Key::KpDivide => Some((111u32, 0xe035u32)),
        Key::KpDecimal => Some((110u32, 0x53u32)),
        Key::KpEqual => Some((146u32, 0x59u32)),
        Key::KpComma => Some((194u32, 0x7eu32)),
        Key::Kp0 => Some((96u32, 0x52u32)),
        Key::Kp1 => Some((97u32, 0x4fu32)),
        Key::Kp2 => Some((98u32, 0x50u32)),
        Key::Kp3 => Some((99u32, 0x51u32)),
        Key::Kp4 => Some((100u32, 0x4bu32)),
        Key::Kp5 => Some((101u32, 0x4cu32)),
        Key::Kp6 => Some((102u32, 0x4du32)),
        Key::Kp7 => Some((103u32, 0x47u32)),
        Key::Kp8 => Some((104u32, 0x48u32)),
        Key::Kp9 => Some((105u32, 0x49u32)),
        Key::VolumeUp => Some((175u32, 0xe030u32)),
        Key::VolumeDown => Some((174u32, 0xe02eu32)),
        Key::VolumeMute => Some((173u32, 0xe020u32)),
        Key::Apps => Some((93u32, 0xe05du32)),
        Key::Cancel => Some((3u32, 0xe046u32)),
        Key::Clear => Some((12u32, 0x4cu32)),
        Key::Kana => Some((21u32, 0x70u32)),
        Key::Junja => Some((23u32, 0x00u32)),
        Key::Final => Some((24u32, 0x00u32)),
        Key::Hanja => Some((25u32, 0x00u32)),
        Key::Print => Some((42u32, 0x00u32)),
        Key::Select => Some((41u32, 0x00u32)),
        Key::Execute => Some((43u32, 0x00u32)),
        Key::Help => Some((47u32, 0x00u32)),
        Key::Sleep => Some((95u32, 0xe05fu32)),
        Key::Separator => Some((108u32, 0x00u32)),
        Key::Unknown(code) => Some((code, 0u32)),
        _ => None,
    }
}

/// The named key with this virtual keycode in the canonical table, or `Unknown`.
pub open spec fn win_key(vk: u32) -> Key {
    match vk {
        164 => Key::Alt,
        165 => Key::AltGr,
        8 => Key::Backspace,
        20 => Key::CapsLock,
        162 => Key::ControlLeft,
        163 => Key::ControlRight,
        46 => Key::Delete,
        40 => Key::DownArrow,
        35 => Key::End,
        27 => Key::Escape,
        112 => Key::F1,
        121 => Key::F10,
        122 => Key::F11,
        123 => Key::F12,
        124 => Key::F13,
        125 => Key::F14,
        126 => Key::F15,
        127 => Key::F16,
        128 => Key::F17,
        129 => Key::F18,
        130 => Key::F19,
        131 => Key::F20,
        132 => Key::F21,
        133 => Key::F22,
        134 => Key::F23,
        135 => Key::F24,
        113 => Key::F2,
        114 => Key::F3,
        115 => Key::F4,
        116 => Key::F5,
        117 => Key::F6,
        118 => Key::F7,
        119 => Key::F8,
        120 => Key::F9,
        36 => Key::Home,
        37 => Key::LeftArrow,
        91 => Key::MetaLeft,
        92 => Key::MetaRight,
        34 => Key::PageDown,
        33 => Key::PageUp,
        13 => Key::Return,
        39 => Key::RightArrow,
        160 => Key::ShiftLeft,
        161 => Key::ShiftRight,
        32 => Key::Space,
        9 => Key::Tab,
        38 => Key::UpArrow,
        44 => Key::PrintScreen,
        145 => Key::ScrollLock,
        19 => Key::Pause,
        144 => Key::NumLock,
        192 => Key::BackQuote,
        49 => Key::Num1,
        50 => Key::Num2,
        51 => Key::Num3,
        52 => Key::Num4,
        53 => Key::Num5,
        54 => Key::Num6,
        55 => Key::Num7,
        56 => Key::Num8,
        57 => Key::Num9,
        48 => Key::Num0,
        189 => Key::Minus,
        187 => Key::Equal,
        81 => Key::KeyQ,
        87 => Key::KeyW,
        69 => Key::KeyE,
        82 => Key::KeyR,
        84 => Key::KeyT,
        89 => Key::KeyY,
        85 => Key::KeyU,
        73 => Key::KeyI,
        79 => Key::KeyO,
        80 => Key::KeyP,
        219 => Key::LeftBracket,
        221 => Key::RightBracket,
        65 => Key::KeyA,
        83 => Key::KeyS,
        68 => Key::KeyD,
        70 => Key::KeyF,
        71 => Key::KeyG,
        72 => Key::KeyH,
        74 => Key::KeyJ,
        75 => Key::KeyK,
        76 => Key::KeyL,
        186 => Key::SemiColon,
        222 => Key::Quote,
        220 => Key::BackSlash,
        226 => Key::IntlBackslash,
        193 => Key::IntlRo,
        90 => Key::KeyZ,
        88 => Key::KeyX,
        67 => Key::KeyC,
        86 => Key::KeyV,
        66 => Key::KeyB,
        78 => Key::KeyN,
        77 => Key::KeyM,
        188 => Key::Comma,
        190 => Key::Dot,
        191 => Key::Slash,
        45 => Key::Insert,
        109 => Key::KpMinus,
        107 => Key::KpPlus,
        106 => Key::KpMultiply,
        111 => Key::KpDivide,
        110 => Key::KpDecimal,
        146 => Key::KpEqual,
        194 => Key::KpComma,
        96 => Key::Kp0,
        97 => Key::Kp1,
        98 => Key::Kp2,
        99 => Key::Kp3,
        100 => Key::Kp4,
        101 => Key::Kp5,
        102 => Key::Kp6,
        103 => Key::Kp7,
        104 => Key::Kp8,
        105 => Key::Kp9,
        175 => Key::VolumeUp,
        174 => Key::VolumeDown,
        173 => Key::VolumeMute,
        93 => Key::Apps,
        3 => Key::Cancel,
        12 => Key::Clear,
        21 => Key::Kana,
        23 => Key::Junja,
        24 => Key::Final,
        25 => Key::Hanja,
        42 => Key::Print,
        41 => Key::Select,
        43 => Key::Execute,
        47 => Key::Help,
        95 => Key::Sleep,
        108 => Key::Separator,
        _ => Key::Unknown(vk),
    }
}

/// The key of a (virtual keycode, scan code) pair. The generic Shift, Control and Alt
/// keycodes are told apart by the scan code; every other pair goes by its keycode, so
/// that several pairs may read as one key (the keypad Enter reads as `Return`).
pub open spec fn win_key_of(vk: u32, scan: u32) -> Key {
    if vk == VK_SHIFT {
        if scan == SCAN_SHIFT_RIGHT { Key::ShiftRight } else { Key::ShiftLeft }
    } else if vk == VK_CONTROL {
        if scan == SCAN_CONTROL_RIGHT { Key::ControlRight } else { Key::ControlLeft }
    } else if vk == VK_MENU {
        if scan == SCAN_ALT_RIGHT { Key::AltGr } else { Key::Alt }
    } else {
        win_key(vk)
    }
}

/// The canonical (virtual keycode, scan code) pair of a key: `None` for a key that Windows
/// does not have.
pub fn get_win_codes(key: Key) -> (r: Option<(u32, u32)>)
    ensures
        r == win_codes(key),
{
    match key {
        Key::Alt => Some((164, 0x38)),
        Key::AltGr => Some((165, 0xe038)),
        Key::Backspace => Some((8, 0x0e)),
        Key::CapsLock => Some((20, 0x3a)),
        Key::ControlLeft => Some((162, 0x1d)),
        Key::ControlRight => Some((163, 0xe01d)),
        Key::Delete => Some((46, 0xe053)),
        Key::DownArrow => Some((40, 0xe050)),
        Key::End => Some((35, 0xe04f)),
        Key::Escape => Some((27, 0x01)),
        Key::F1 => Some((112, 0x3b)),
        Key::F10 => Some((121, 0x44)),
        Key::F11 => Some((122, 0x57)),
        Key::F12 => Some((123, 0x58)),
        Key::F13 => Some((124, 0x64)),
        Key::F14 => Some((125, 0x65)),
        Key::F15 => Some((126, 0x66)),
        Key::F16 => Some((127, 0x67)),
        Key::F17 => Some((128, 0x68)),
        Key::F18 => Some((129, 0x69)),
        Key::F19 => Some((130, 0x6a)),
        Key::F20 => Some((131, 0x6b)),
        Key::F21 => Some((132, 0x6c)),
        Key::F22 => Some((133, 0x6d)),
        Key::F23 => Some((134, 0x6e)),
        Key::F24 => Some((135, 0x76)),
        Key::F2 => Some((113, 0x3c)),
        Key::F3 => Some((114, 0x3d)),
        Key::F4 => Some((115, 0x3e)),
        Key::F5 => Some((116, 0x3f)),
        Key::F6 => Some((117, 0x40)),
        Key::F7 => Some((118, 0x41)),
        Key::F8 => Some((119, 0x42)),
        Key::F9 => Some((120, 0x43)),
        Key::Home => Some((36, 0xe047)),
        Key::LeftArrow => Some((37, 0xe04b)),
        Key::MetaLeft => Some((91, 0xe05b)),
        Key::MetaRight => Some((92, 0xe05c)),
        Key::PageDown => Some((34, 0xe051)),
        Key::PageUp => Some((33, 0xe049)),
        Key::Return => Some((13, 0x1c)),
        Key::RightArrow => Some((39, 0xe04d)),
        Key::ShiftLeft => Some((160, 0x2a)),
        Key::ShiftRight => Some((161, 0x36)),
        Key::Space => Some((32, 0x39)),
        Key::Tab => Some((9, 0x0f)),
        Key::UpArrow => Some((38, 0xe048)),
        Key::PrintScreen => Some((44, 0xe037)),
        Key::ScrollLock => Some((145, 0x46)),
        Key::Pause => Some((19, 0x45)),
        Key::NumLock => Some((144, 0xe045)),
        Key::BackQuote => Some((192, 0x29)),
        Key::Num1 => Some((49, 0x02)),
        Key::Num2 => Some((50, 0x03)),
        Key::Num3 => Some((51, 0x04)),
        Key::Num4 => Some((52, 0x05)),
        Key::Num5 => Some((53, 0x06)),
        Key::Num6 => Some((54, 0x07)),
        Key::Num7 => Some((55, 0x08)),
        Key::Num8 => Some((56, 0x09)),
        Key::Num9 => Some((57, 0x0a)),
        Key::Num0 => Some((48, 0x0b)),
        Key::Minus => Some((189, 0x0c)),
        Key::Equal => Some((187, 0x0d)),
        Key::KeyQ => Some((81, 0x10)),
        Key::KeyW => Some((87, 0x11)),
        Key::KeyE => Some((69, 0x12)),
        Key::KeyR => Some((82, 0x13)),
        Key::KeyT => Some((84, 0x14)),
        Key::KeyY => Some((89, 0x15)),
        Key::KeyU => Some((85, 0x16)),
        Key::KeyI => Some((73, 0x17)),
        Key::KeyO => Some((79, 0x18)),
        Key::KeyP => Some((80, 0x19)),
        Key::LeftBracket => Some((219, 0x1a)),
        Key::RightBracket => Some((221, 0x1b)),
        Key::KeyA => Some((65, 0x1e)),
        Key::KeyS => Some((83, 0x1f)),
        Key::KeyD => Some((68, 0x20)),
        Key::KeyF => Some((70, 0x21)),
        Key::KeyG => Some((71, 0x22)),
        Key::KeyH => Some((72, 0x23)),
        Key::KeyJ => Some((74, 0x24)),
        Key::KeyK => Some((75, 0x25)),
        Key::KeyL => Some((76, 0x26)),
        Key::SemiColon => Some((186, 0x27)),
        Key::Quote => Some((222, 0x28)),
        Key::BackSlash => Some((220, 0x2b)),
        Key::IntlBackslash => Some((226, 0x56)),
        Key::IntlRo => Some((193, 0x73)),
        Key::KeyZ => Some((90, 0x2c)),
        Key::KeyX => Some((88, 0x2d)),
        Key::KeyC => Some((67, 0x2e)),
        Key::KeyV => Some((86, 0x2f)),
        Key::KeyB => Some((66, 0x30)),
        Key::KeyN => Some((78, 0x31)),
        Key::KeyM => Some((77, 0x32)),
        Key::Comma => Some((188, 0x33)),
        Key::Dot => Some((190, 0x34)),
        Key::Slash => Some((191, 0x35)),
        Key::Insert => Some((45, 0xe052)),
        Key::KpMinus => Some((109, 0x4a)),
        Key::KpPlus => Some((107, 0x4e)),
        Key::KpMultiply => Some((106, 0x37)),
        Key::KpDivide => Some((111, 0xe035)),
        Key::KpDecimal => Some((110, 0x53)),
        Key::KpEqual => Some((146, 0x59)),
        Key::KpComma => Some((194, 0x7e)),
        Key::Kp0 => Some((96, 0x52)),
        Key::Kp1 => Some((97, 0x4f)),
        Key::Kp2 => Some((98, 0x50)),
        Key::Kp3 => Some((99, 0x51)),
        Key::Kp4 => Some((100, 0x4b)),
        Key::Kp5 => Some((101, 0x4c)),
        Key::Kp6 => Some((102, 0x4d)),
        Key::Kp7 => Some((103, 0x47)),
        Key::Kp8 => Some((104, 0x48)),
        Key::Kp9 => Some((105, 0x49)),
        Key::VolumeUp => Some((175, 0xe030)),
        Key::VolumeDown => Some((174, 0xe02e)),
        Key::VolumeMute => Some((173, 0xe020)),
        Key::Apps => Some((93, 0xe05d)),
        Key::Cancel => Some((3, 0xe046)),
        Key::Clear => Some((12, 0x4c)),
        Key::Kana => Some((21, 0x70)),
        Key::Junja => Some((23, 0x00)),
        Key::Final => Some((24, 0x00)),
        Key::Hanja => Some((25, 0x00)),
        Key::Print => Some((42, 0x00)),
        Key::Select => Some((41, 0x00)),
        Key::Execute => Some((43, 0x00)),
        Key::Help => Some((47, 0x00)),
        Key::Sleep => Some((95, 0xe05f)),
        Key::Separator => Some((108, 0x00)),
        Key::Unknown(code) => Some((code, 0)),
        _ => None,
    }
}

/// The virtual keycode of a key.
pub fn code_from_key(key: Key) -> (r: Option<u32>)
    ensures
        r == (match win_codes(key) {
            Some(codes) => Some(codes.0),
            None => None,
        }),
{
    match get_win_codes(key) {
        Some(codes) => Some(codes.0),
        None => None,
    }
}

/// The scan code of a key.
pub fn scancode_from_key(key: Key) -> (r: Option<u32>)
    ensures
        r == (match win_codes(key) {
            Some(codes) => Some(codes.1),
            None => None,
        }),
{
    match get_win_codes(key) {
        Some(codes) => Some(codes.1),
        None => None,
    }
}

/// The key with this virtual keycode in the canonical table.
pub fn key_from_code(vk: u32) -> (r: Key)
    ensures
        r == win_key(vk),
{
    match vk {
        164 => Key::Alt,
        165 => Key::AltGr,
        8 => Key::Backspace,
        20 => Key::CapsLock,
        162 => Key::ControlLeft,
        163 => Key::ControlRight,
        46 => Key::Delete,
        40 => Key::DownArrow,
        35 => Key::End,
        27 => Key::Escape,
        112 => Key::F1,
        121 => Key::F10,
        122 => Key::F11,
        123 => Key::F12,
        124 => Key::F13,
        125 => Key::F14,
        126 => Key::F15,
        127 => Key::F16,
        128 => Key::F17,
        129 => Key::F18,
        130 => Key::F19,
        131 => Key::F20,
        132 => Key::F21,
        133 => Key::F22,
        134 => Key::F23,
        135 => Key::F24,
        113 => Key::F2,
        114 => Key::F3,
        115 => Key::F4,
        116 => Key::F5,
        117 => Key::F6,
        118 => Key::F7,
        119 => Key::F8,
        120 => Key::F9,
        36 => Key::Home,
        37 => Key::LeftArrow,
        91 => Key::MetaLeft,
        92 => Key::MetaRight,
        34 => Key::PageDown,
        33 => Key::PageUp,
        13 => Key::Return,
        39 => Key::RightArrow,
        160 => Key::ShiftLeft,
        161 => Key::ShiftRight,
        32 => Key::Space,
        9 => Key::Tab,
        38 => Key::UpArrow,
        44 => Key::PrintScreen,
        145 => Key::ScrollLock,
        19 => Key::Pause,
        144 => Key::NumLock,
        192 => Key::BackQuote,
        49 => Key::Num1,
        50 => Key::Num2,
        51 => Key::Num3,
        52 => Key::Num4,
        53 => Key::Num5,
        54 => Key::Num6,
        55 => Key::Num7,
        56 => Key::Num8,
        57 => Key::Num9,
        48 => Key::Num0,
        189 => Key::Minus,
        187 => Key::Equal,
        81 => Key::KeyQ,
        87 => Key::KeyW,
        69 => Key::KeyE,
        82 => Key::KeyR,
        84 => Key::KeyT,
        89 => Key::KeyY,
        85 => Key::KeyU,
        73 => Key::KeyI,
        79 => Key::KeyO,
        80 => Key::KeyP,
        219 => Key::LeftBracket,
        221 => Key::RightBracket,
        65 => Key::KeyA,
        83 => Key::KeyS,
        68 => Key::KeyD,
        70 => Key::KeyF,
        71 => Key::KeyG,
        72 => Key::KeyH,
        74 => Key::KeyJ,
        75 => Key::KeyK,
        76 => Key::KeyL,
        186 => Key::SemiColon,
        222 => Key::Quote,
        220 => Key::BackSlash,
        226 => Key::IntlBackslash,
        193 => Key::IntlRo,
        90 => Key::KeyZ,
        88 => Key::KeyX,
        67 => Key::KeyC,
        86 => Key::KeyV,
        66 => Key::KeyB,
        78 => Key::KeyN,
        77 => Key::KeyM,
        188 => Key::Comma,
        190 => Key::Dot,
        191 => Key::Slash,
        45 => Key::Insert,
        109 => Key::KpMinus,
        107 => Key::KpPlus,
        106 => Key::KpMultiply,
        111 => Key::KpDivide,
        110 => Key::KpDecimal,
        146 => Key::KpEqual,
        194 => Key::KpComma,
        96 => Key::Kp0,
        97 => Key::Kp1,
        98 => Key::Kp2,
        99 => Key::Kp3,
        100 => Key::Kp4,
        101 => Key::Kp5,
        102 => Key::Kp6,
        103 => Key::Kp7,
        104 => Key::Kp8,
        105 => Key::Kp9,
        175 => Key::VolumeUp,
        174 => Key::VolumeDown,
        173 => Key::VolumeMute,
        93 => Key::Apps,
        3 => Key::Cancel,
        12 => Key::Clear,
        21 => Key::Kana,
        23 => Key::Junja,
        24 => Key::Final,
        25 => Key::Hanja,
        42 => Key::Print,
        41 => Key::Select,
        43 => Key::Execute,
        47 => Key::Help,
        95 => Key::Sleep,
        108 => Key::Separator,
        _ => Key::Unknown(vk),
    }
}

/// The key of a (virtual keycode, scan code) pair.
pub fn get_win_key(vk: u32, scan: u32) -> (r: Key)
    ensures
        r == win_key_of(vk, scan),
{
    if vk == VK_SHIFT {
        if scan == SCAN_SHIFT_RIGHT { Key::ShiftRight } else { Key::ShiftLeft }
    } else if vk == VK_CONTROL {
        if scan == SCAN_CONTROL_RIGHT { Key::ControlRight } else { Key::ControlLeft }
    } else if vk == VK_MENU {
        if scan == SCAN_ALT_RIGHT { Key::AltGr } else { Key::Alt }
    } else {
        key_from_code(vk)
    }
}

/// Each named key with a canonical pair reads back from that pair.
pub proof fn lemma_key_round_trip(key: Key)
    requires
        key.is_named(),
        win_codes(key) is Some,
    ensures
        win_key_of(win_codes(key).unwrap().0, win_codes(key).unwrap().1) == key,
{
}

/// A keycode that reads as a named key in the canonical table is that key's keycode.
pub proof fn lemma_code_round_trip(vk: u32)
    requires
        win_key(vk).is_named(),
    ensures
        win_codes(win_key(vk)) is Some,
        win_codes(win_key(vk)).unwrap().0 == vk,
{
}

/// A keycode of no named key, and none of the generic modifiers, reads as `Unknown`
/// with itself.
pub proof fn lemma_unknown_code(vk: u32, scan: u32)
    requires
        !win_key(vk).is_named(),
        vk != VK_SHIFT,
        vk != VK_CONTROL,
        vk != VK_MENU,
    ensures
        win_key_of(vk, scan) == Key::Unknown(vk),
{
}

} // verus!
