use vstd::prelude::*;

use crate::redev::Key;

verus! {

/// The macOS virtual keycode of each named key that has one; an `Unknown` key stands for its own code.
pub open spec fn mac_code(key: Key) -> Option<u16> {
    match key {
        Key::Alt => Some(58u16),
        Key::AltGr => Some(61u16),
        Key::Backspace => Some(51u16),
        Key::CapsLock => Some(57u16),
        Key::ControlLeft => Some(59u16),
        Key::ControlRight => Some(62u16),
        Key::Delete => Some(117u16),
        Key::DownArrow => Some(125u16),
        Key::End => Some(119u16),
        Key::Escape => Some(53u16),
        Key::F1 => Some(122u16),
        Key::F10 => Some(109u16),
        Key::F11 => Some(103u16),
        Key::F12 => Some(111u16),
        Key::F13 => Some(105u16),
        Key::F14 => Some(107u16),
        Key::F15 => Some(113u16),
        Key::F16 => Some(106u16),
        Key::F17 => Some(64u16),
        Key::F18 => Some(79u16),
        Key::F19 => Some(80u16),
        Key::F20 => Some(90u16),
        Key::F2 => Some(120u16),
        Key::F3 => Some(99u16),
        Key::F4 => Some(118u16),
        Key::F5 => Some(96u16),
        Key::F6 => Some(97u16),
        Key::F7 => Some(98u16),
        Key::F8 => Some(100u16),
        Key::F9 => Some(101u16),
        Key::Home => Some(115u16),
        Key::LeftArrow => Some(123u16),
        Key::MetaLeft => Some(55u16),
        Key::MetaRight => Some(54u16),
        Key::PageDown => Some(121u16),
        Key::PageUp => Some(116u16),
        Key::Return => Some(36u16),
        Key::RightArrow => Some(124u16),
        Key::ShiftLeft => Some(56u16),
        Key::ShiftRight => Some(60u16),
        Key::Space => Some(49u16),
        Key::Tab => Some(48u16),
        Key::UpArrow => Some(126u16),
        Key::NumLock => Some(71u16),
        Key::BackQuote => Some(50u16),
        Key::Num1 => Some(18u16),
        Key::Num2 => Some(19u16),
        Key::Num3 => Some(20u16),
        Key::Num4 => Some(21u16),
        Key::Num5 => Some(23u16),
        Key::Num6 => Some(22u16),
        Key::Num7 => Some(26u16),
        Key::Num8 => Some(28u16),
        Key::Num9 => Some(25u16),
        Key::Num0 => Some(29u16),
        Key::Minus => Some(27u16),
        Key::Equal => Some(24u16),
        Key::KeyQ => Some(12u16),
        Key::KeyW => Some(13u16),
        Key::KeyE => Some(14u16),
        Key::KeyR => Some(15u16),
        Key::KeyT => Some(17u16),
        Key::KeyY => Some(16u16),
        Key::KeyU => Some(32u16),
        Key::KeyI => Some(34u16),
        Key::KeyO => Some(31u16),
        Key::KeyP => Some(35u16),
        Key::LeftBracket => Some(33u16),
        Key::RightBracket => Some(30u16),
        Key::KeyA => Some(0u16),
        Key::KeyS => Some(1u16),
        Key::KeyD => Some(2u16),
        Key::KeyF => Some(3u16),
        Key::KeyG => Some(5u16),
        Key::KeyH => Some(4u16),
        Key::KeyJ => Some(38u16),
        Key::KeyK => Some(40u16),
        Key::KeyL => Some(37u16),
        Key::SemiColon => Some(41u16),
        Key::Quote => Some(39u16),
        Key::BackSlash => Some(42u16),
        Key::IntlBackslash => Some(10u16),
        Key::IntlRo => Some(94u16),
        Key::IntlYen => Some(93u16),
        Key::KeyZ => Some(6u16),
        Key::KeyX => Some(7u16),
        Key::KeyC => Some(8u16),
        Key::KeyV => Some(9u16),
        Key::KeyB => Some(11u16),
        Key::KeyN => Some(45u16),
        Key::KeyM => Some(46u16),
        Key::Comma => Some(43u16),
        Key::Dot => Some(47u16),
        Key::Slash => Some(44u16),
        Key::Insert => Some(114u16),
        Key::KpReturn => Some(76u16),
        Key::KpMinus => Some(78u16),
        Key::KpPlus => Some(69u16),
        Key::KpMultiply => Some(67u16),
        Key::KpDivide => Some(75u16),
        Key::KpDecimal => Some(65u16),
        Key::KpEqual => Some(81u16),
        Key::KpComma => Some(95u16),
        Key::Kp0 => Some(82u16),
        Key::Kp1 => Some(83u16),
        Key::Kp2 => Some(84u16),
        Key::Kp3 => Some(85u16),
        Key::Kp4 => Some(86u16),
        Key::Kp5 => Some(87u16),
        Key::Kp6 => Some(88u16),
        Key::Kp7 => Some(89u16),
        Key::Kp8 => Some(91u16),
        Key::Kp9 => Some(92u16),
        Key::VolumeUp => Some(72u16),
        Key::VolumeDown => Some(73u16),
        Key::VolumeMute => Some(74u16),
        Key::Lang1 => Some(104u16),
        Key::Lang2 => Some(102u16),
        Key::Function => Some(63u16),
        Key::Apps => Some(110u16),
        Key::Unknown(code) => if code <= 0xffff { Some(code as u16) } else { None },
        _ => None,
    }
}

/// The named key with this macOS virtual keycode, or `Unknown` with the code where none has it.
pub open spec fn mac_key(code: u16) -> Key {
    match code {
        58 => Key::Alt,
        61 => Key::AltGr,
        51 => Key::Backspace,
        57 => Key::CapsLock,
        59 => Key::ControlLeft,
        62 => Key::ControlRight,
        117 => Key::Delete,
        125 => Key::DownArrow,
        119 => Key::End,
        53 => Key::Escape,
        122 => Key::F1,
        109 => Key::F10,
        103 => Key::F11,
        111 => Key::F12,
        105 => Key::F13,
        107 => Key::F14,
        113 => Key::F15,
        106 => Key::F16,
        64 => Key::F17,
        79 => Key::F18,
        80 => Key::F19,
        90 => Key::F20,
        120 => Key::F2,
        99 => Key::F3,
        118 => Key::F4,
        96 => Key::F5,
        97 => Key::F6,
        98 => Key::F7,
        100 => Key::F8,
        101 => Key::F9,
        115 => Key::Home,
        123 => Key::LeftArrow,
        55 => Key::MetaLeft,
        54 => Key::MetaRight,
        121 => Key::PageDown,
        116 => Key::PageUp,
        36 => Key::Return,
        124 => Key::RightArrow,
        56 => Key::ShiftLeft,
        60 => Key::ShiftRight,
        49 => Key::Space,
        48 => Key::Tab,
        126 => Key::UpArrow,
        71 => Key::NumLock,
        50 => Key::BackQuote,
        18 => Key::Num1,
        19 => Key::Num2,
        20 => Key::Num3,
        21 => Key::Num4,
        23 => Key::Num5,
        22 => Key::Num6,
        26 => Key::Num7,
        28 => Key::Num8,
        25 => Key::Num9,
        29 => Key::Num0,
        27 => Key::Minus,
        24 => Key::Equal,
        12 => Key::KeyQ,
        13 => Key::KeyW,
        14 => Key::KeyE,
        15 => Key::KeyR,
        17 => Key::KeyT,
        16 => Key::KeyY,
        32 => Key::KeyU,
        34 => Key::KeyI,
        31 => Key::KeyO,
        35 => Key::KeyP,
        33 => Key::LeftBracket,
        30 => Key::RightBracket,
        0 => Key::KeyA,
        1 => Key::KeyS,
        2 => Key::KeyD,
        3 => Key::KeyF,
        5 => Key::KeyG,
        4 => Key::KeyH,
        38 => Key::KeyJ,
        40 => Key::KeyK,
        37 => Key::KeyL,
        41 => Key::SemiColon,
        39 => Key::Quote,
        42 => Key::BackSlash,
        10 => Key::IntlBackslash,
        94 => Key::IntlRo,
        93 => Key::IntlYen,
        6 => Key::KeyZ,
        7 => Key::KeyX,
        8 => Key::KeyC,
        9 => Key::KeyV,
        11 => Key::KeyB,
        45 => Key::KeyN,
        46 => Key::KeyM,
        43 => Key::Comma,
        47 => Key::Dot,
        44 => Key::Slash,
        114 => Key::Insert,
        76 => Key::KpReturn,
        78 => Key::KpMinus,
        69 => Key::KpPlus,
        67 => Key::KpMultiply,
        75 => Key::KpDivide,
        65 => Key::KpDecimal,
        81 => Key::KpEqual,
        95 => Key::KpComma,
        82 => Key::Kp0,
        83 => Key::Kp1,
        84 => Key::Kp2,
        85 => Key::Kp3,
        86 => Key::Kp4,
        87 => Key::Kp5,
        88 => Key::Kp6,
        89 => Key::Kp7,
        91 => Key::Kp8,
        92 => Key::Kp9,
        72 => Key::VolumeUp,
        73 => Key::VolumeDown,
        74 => Key::VolumeMute,
        104 => Key::Lang1,
        102 => Key::Lang2,
        63 => Key::Function,
        110 => Key::Apps,
        _ => Key::Unknown(code as u32),
    }
}

/// The macOS virtual keycode of a key: `None` for a key that a Mac keyboard does not have.
pub fn code_from_key(key: Key) -> (r: Option<u16>)
    ensures
        r == mac_code(key),
{
    match key {
        Key::Alt => Some(58),
        Key::AltGr => Some(61),
        Key::Backspace => Some(51),
        Key::CapsLock => Some(57),
        Key::ControlLeft => Some(59),
        Key::ControlRight => Some(62),
        Key::Delete => Some(117),
        Key::DownArrow => Some(125),
        Key::End => Some(119),
        Key::Escape => Some(53),
        Key::F1 => Some(122),
        Key::F10 => Some(109),
        Key::F11 => Some(103),
        Key::F12 => Some(111),
        Key::F13 => Some(105),
        Key::F14 => Some(107),
        Key::F15 => Some(113),
        Key::F16 => Some(106),
        Key::F17 => Some(64),
        Key::F18 => Some(79),
        Key::F19 => Some(80),
        Key::F20 => Some(90),
        Key::F2 => Some(120),
        Key::F3 => Some(99),
        Key::F4 => Some(118),
        Key::F5 => Some(96),
        Key::F6 => Some(97),
        Key::F7 => Some(98),
        Key::F8 => Some(100),
        Key::F9 => Some(101),
        Key::Home => Some(115),
        Key::LeftArrow => Some(123),
        Key::MetaLeft => Some(55),
        Key::MetaRight => Some(54),
        Key::PageDown => Some(121),
        Key::PageUp => Some(116),
        Key::Return => Some(36),
        Key::RightArrow => Some(124),
        Key::ShiftLeft => Some(56),
        Key::ShiftRight => Some(60),
        Key::Space => Some(49),
        Key::Tab => Some(48),
        Key::UpArrow => Some(126),
        Key::NumLock => Some(71),
        Key::BackQuote => Some(50),
        Key::Num1 => Some(18),
        Key::Num2 => Some(19),
        Key::Num3 => Some(20),
        Key::Num4 => Some(21),
        Key::Num5 => Some(23),
        Key::Num6 => Some(22),
        Key::Num7 => Some(26),
        Key::Num8 => Some(28),
        Key::Num9 => Some(25),
        Key::Num0 => Some(29),
        Key::Minus => Some(27),
        Key::Equal => Some(24),
        Key::KeyQ => Some(12),
        Key::KeyW => Some(13),
        Key::KeyE => Some(14),
        Key::KeyR => Some(15),
        Key::KeyT => Some(17),
        Key::KeyY => Some(16),
        Key::KeyU => Some(32),
        Key::KeyI => Some(34),
        Key::KeyO => Some(31),
        Key::KeyP => Some(35),
        Key::LeftBracket => Some(33),
        Key::RightBracket => Some(30),
        Key::KeyA => Some(0),
        Key::KeyS => Some(1),
        Key::KeyD => Some(2),
        Key::KeyF => Some(3),
        Key::KeyG => Some(5),
        Key::KeyH => Some(4),
        Key::KeyJ => Some(38),
        Key::KeyK => Some(40),
        Key::KeyL => Some(37),
        Key::SemiColon => Some(41),
        Key::Quote => Some(39),
        Key::BackSlash => Some(42),
        Key::IntlBackslash => Some(10),
        Key::IntlRo => Some(94),
        Key::IntlYen => Some(93),
        Key::KeyZ => Some(6),
        Key::KeyX => Some(7),
        Key::KeyC => Some(8),
        Key::KeyV => Some(9),
        Key::KeyB => Some(11),
        Key::KeyN => Some(45),
        Key::KeyM => Some(46),
        Key::Comma => Some(43),
        Key::Dot => Some(47),
        Key::Slash => Some(44),
        Key::Insert => Some(114),
        Key::KpReturn => Some(76),
        Key::KpMinus => Some(78),
        Key::KpPlus => Some(69),
        Key::KpMultiply => Some(67),
        Key::KpDivide => Some(75),
        Key::KpDecimal => Some(65),
        Key::KpEqual => Some(81),
        Key::KpComma => Some(95),
        Key::Kp0 => Some(82),
        Key::Kp1 => Some(83),
        Key::Kp2 => Some(84),
        Key::Kp3 => Some(85),
        Key::Kp4 => Some(86),
        Key::Kp5 => Some(87),
        Key::Kp6 => Some(88),
        Key::Kp7 => Some(89),
        Key::Kp8 => Some(91),
        Key::Kp9 => Some(92),
        Key::VolumeUp => Some(72),
        Key::VolumeDown => Some(73),
        Key::VolumeMute => Some(74),
        Key::Lang1 => Some(104),
        Key::Lang2 => Some(102),
        Key::Function => Some(63),
        Key::Apps => Some(110),
        Key::Unknown(code) => if code <= 0xffff { Some(code as u16) } else { None },
        _ => None,
    }
}

/// The key with this macOS virtual keycode.
pub fn key_from_code(code: u16) -> (r: Key)
    ensures
        r == mac_key(code),
{
    match code {
        58 => Key::Alt,
        61 => Key::AltGr,
        51 => Key::Backspace,
        57 => Key::CapsLock,
        59 => Key::ControlLeft,
        62 => Key::ControlRight,
        117 => Key::Delete,
        125 => Key::DownArrow,
        119 => Key::End,
        53 => Key::Escape,
        122 => Key::F1,
        109 => Key::F10,
        103 => Key::F11,
        111 => Key::F12,
        105 => Key::F13,
        107 => Key::F14,
        113 => Key::F15,
        106 => Key::F16,
        64 => Key::F17,
        79 => Key::F18,
        80 => Key::F19,
        90 => Key::F20,
        120 => Key::F2,
        99 => Key::F3,
        118 => Key::F4,
        96 => Key::F5,
        97 => Key::F6,
        98 => Key::F7,
        100 => Key::F8,
        101 => Key::F9,
        115 => Key::Home,
        123 => Key::LeftArrow,
        55 => Key::MetaLeft,
        54 => Key::MetaRight,
        121 => Key::PageDown,
        116 => Key::PageUp,
        36 => Key::Return,
        124 => Key::RightArrow,
        56 => Key::ShiftLeft,
        60 => Key::ShiftRight,
        49 => Key::Space,
        48 => Key::Tab,
        126 => Key::UpArrow,
        71 => Key::NumLock,
        50 => Key::BackQuote,
        18 => Key::Num1,
        19 => Key::Num2,
        20 => Key::Num3,
        21 => Key::Num4,
        23 => Key::Num5,
        22 => Key::Num6,
        26 => Key::Num7,
        28 => Key::Num8,
        25 => Key::Num9,
        29 => Key::Num0,
        27 => Key::Minus,
        24 => Key::Equal,
        12 => Key::KeyQ,
        13 => Key::KeyW,
        14 => Key::KeyE,
        15 => Key::KeyR,
        17 => Key::KeyT,
        16 => Key::KeyY,
        32 => Key::KeyU,
        34 => Key::KeyI,
        31 => Key::KeyO,
        35 => Key::KeyP,
        33 => Key::LeftBracket,
        30 => Key::RightBracket,
        0 => Key::KeyA,
        1 => Key::KeyS,
        2 => Key::KeyD,
        3 => Key::KeyF,
        5 => Key::KeyG,
        4 => Key::KeyH,
        38 => Key::KeyJ,
        40 => Key::KeyK,
        37 => Key::KeyL,
        41 => Key::SemiColon,
        39 => Key::Quote,
        42 => Key::BackSlash,
        10 => Key::IntlBackslash,
        94 => Key::IntlRo,
        93 => Key::IntlYen,
        6 => Key::KeyZ,
        7 => Key::KeyX,
        8 => Key::KeyC,
        9 => Key::KeyV,
        11 => Key::KeyB,
        45 => Key::KeyN,
        46 => Key::KeyM,
        43 => Key::Comma,
        47 => Key::Dot,
        44 => Key::Slash,
        114 => Key::Insert,
        76 => Key::KpReturn,
        78 => Key::KpMinus,
        69 => Key::KpPlus,
        67 => Key::KpMultiply,
        75 => Key::KpDivide,
        65 => Key::KpDecimal,
        81 => Key::KpEqual,
        95 => Key::KpComma,
        82 => Key::Kp0,
        83 => Key::Kp1,
        84 => Key::Kp2,
        85 => Key::Kp3,
        86 => Key::Kp4,
        87 => Key::Kp5,
        88 => Key::Kp6,
        89 => Key::Kp7,
        91 => Key::Kp8,
        92 => Key::Kp9,
        72 => Key::VolumeUp,
        73 => Key::VolumeDown,
        74 => Key::VolumeMute,
        104 => Key::Lang1,
        102 => Key::Lang2,
        63 => Key::Function,
        110 => Key::Apps,
        _ => Key::Unknown(code as u32),
    }
}

/// Each named key with a macOS virtual keycode reads back from that code.
pub proof fn lemma_key_round_trip(key: Key)
    requires
        key.is_named(),
        mac_code(key) is Some,
    ensures
        mac_key(mac_code(key)->0) == key,
{
}

/// A code that reads as a named key is that key's macOS virtual keycode.
pub proof fn lemma_code_round_trip(code: u16)
    requires
        mac_key(code).is_named(),
    ensures
        mac_code(mac_key(code)) == Some(code),
{
}

/// A code that reads as `Unknown` carries itself.
pub proof fn lemma_unknown_code(code: u16)
    requires
        !mac_key(code).is_named(),
    ensures
        mac_key(code) == Key::Unknown(code as u32),
{
}

} // verus!
