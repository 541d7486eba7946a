use vstd::prelude::*;

use crate::redev::Key;

verus! {

/// The X.Org keycode of each named key that has one; an `Unknown` key stands for its own code.
pub open spec fn xorg_code(key: Key) -> Option<u32> {
    match key {
        Key::Alt => Some(64u32),
        Key::AltGr => Some(108u32),
        Key::Backspace => Some(22u32),
        Key::CapsLock => Some(66u32),
        Key::ControlLeft => Some(37u32),
        Key::ControlRight => Some(105u32),
        Key::Delete => Some(119u32),
        Key::DownArrow => Some(116u32),
        Key::End => Some(115u32),
        Key::Escape => Some(9u32),
        Key::F1 => Some(67u32),
        Key::F10 => Some(76u32),
        Key::F11 => Some(95u32),
        Key::F12 => Some(96u32),
        Key::F13 => Some(191u32),
        Key::F14 => Some(192u32),
        Key::F15 => Some(193u32),
        Key::F16 => Some(194u32),
        Key::F17 => Some(195u32),
        Key::F18 => Some(196u32),
        Key::F19 => Some(197u32),
        Key::F20 => Some(198u32),
        Key::F21 => Some(199u32),
        Key::F22 => Some(200u32),
        Key::F23 => Some(201u32),
        Key::F24 => Some(202u32),
        Key::F2 => Some(68u32),
        Key::F3 => Some(69u32),
        Key::F4 => Some(70u32),
        Key::F5 => Some(71u32),
        Key::F6 => Some(72u32),
        Key::F7 => Some(73u32),
        Key::F8 => Some(74u32),
        Key::F9 => Some(75u32),
        Key::Home => Some(110u32),
        Key::LeftArrow => Some(113u32),
        Key::MetaLeft => Some(133u32),
        Key::MetaRight => Some(134u32),
        Key::PageDown => Some(117u32),
        Key::PageUp => Some(112u32),
        Key::Return => Some(36u32),
        Key::RightArrow => Some(114u32),
        Key::ShiftLeft => Some(50u32),
        Key::ShiftRight => Some(62u32),
        Key::Space => Some(65u32),
        Key::Tab => Some(23u32),
        Key::UpArrow => Some(111u32),
        Key::PrintScreen => Some(107u32),
        Key::ScrollLock => Some(78u32),
        Key::Pause => Some(127u32),
        Key::NumLock => Some(77u32),
        Key::BackQuote => Some(49u32),
        Key::Num1 => Some(10u32),
        Key::Num2 => Some(11u32),
        Key::Num3 => Some(12u32),
        Key::Num4 => Some(13u32),
        Key::Num5 => Some(14u32),
        Key::Num6 => Some(15u32),
        Key::Num7 => Some(16u32),
        Key::Num8 => Some(17u32),
        Key::Num9 => Some(18u32),
        Key::Num0 => Some(19u32),
        Key::Minus => Some(20u32),
        Key::Equal => Some(21u32),
        Key::KeyQ => Some(24u32),
        Key::KeyW => Some(25u32),
        Key::KeyE => Some(26u32),
        Key::KeyR => Some(27u32),
        Key::KeyT => Some(28u32),
        Key::KeyY => Some(29u32),
        Key::KeyU => Some(30u32),
        Key::KeyI => Some(31u32),
        Key::KeyO => Some(32u32),
        Key::KeyP => Some(33u32),
        Key::LeftBracket => Some(34u32),
        Key::RightBracket => Some(35u32),
        Key::KeyA => Some(38u32),
        Key::KeyS => Some(39u32),
        Key::KeyD => Some(40u32),
        Key::KeyF => Some(41u32),
        Key::KeyG => Some(42u32),
        Key::KeyH => Some(43u32),
        Key::KeyJ => Some(44u32),
        Key::KeyK => Some(45u32),
        Key::KeyL => Some(46u32),
        Key::SemiColon => Some(47u32),
        Key::Quote => Some(48u32),
        Key::BackSlash => Some(51u32),
        Key::IntlBackslash => Some(94u32),
        Key::IntlRo => Some(97u32),
        Key::IntlYen => Some(132u32),
        Key::KanaMode => Some(101u32),
        Key::KeyZ => Some(52u32),
        Key::KeyX => Some(53u32),
        Key::KeyC => Some(54u32),
        Key::KeyV => Some(55u32),
        Key::KeyB => Some(56u32),
        Key::KeyN => Some(57u32),
        Key::KeyM => Some(58u32),
        Key::Comma => Some(59u32),
        Key::Dot => Some(60u32),
        Key::Slash => Some(61u32),
        Key::Insert => Some(118u32),
        Key::KpReturn => Some(104u32),
        Key::KpMinus => Some(82u32),
        Key::KpPlus => Some(86u32),
        Key::KpMultiply => Some(63u32),
        Key::KpDivide => Some(106u32),
        Key::KpDecimal => Some(91u32),
        Key::KpEqual => Some(125u32),
        Key::KpComma => Some(129u32),
        Key::Kp0 => Some(90u32),
        Key::Kp1 => Some(87u32),
        Key::Kp2 => Some(88u32),
        Key::Kp3 => Some(89u32),
        Key::Kp4 => Some(83u32),
        Key::Kp5 => Some(84u32),
        Key::Kp6 => Some(85u32),
        Key::Kp7 => Some(79u32),
        Key::Kp8 => Some(80u32),
        Key::Kp9 => Some(81u32),
        Key::VolumeUp => Some(123u32),
        Key::VolumeDown => Some(122u32),
        Key::VolumeMute => Some(121u32),
        Key::Lang1 => Some(130u32),
        Key::Lang2 => Some(131u32),
        Key::Lang3 => Some(98u32),
        Key::Lang4 => Some(99u32),
        Key::Apps => Some(135u32),
        Key::Cancel => Some(231u32),
        Key::Help => Some(146u32),
        Key::Sleep => Some(150u32),
        Key::Unknown(code) => Some(code),
        _ => None,
    }
}

/// The named key with this X.Org keycode, or `Unknown` with the code where none has it.
pub open spec fn xorg_key(code: u32) -> Key {
    match code {
        64 => Key::Alt,
        108 => Key::AltGr,
        22 => Key::Backspace,
        66 => Key::CapsLock,
        37 => Key::ControlLeft,
        105 => Key::ControlRight,
        119 => Key::Delete,
        116 => Key::DownArrow,
        115 => Key::End,
        9 => Key::Escape,
        67 => Key::F1,
        76 => Key::F10,
        95 => Key::F11,
        96 => Key::F12,
        191 => Key::F13,
        192 => Key::F14,
        193 => Key::F15,
        194 => Key::F16,
        195 => Key::F17,
        196 => Key::F18,
        197 => Key::F19,
        198 => Key::F20,
        199 => Key::F21,
        200 => Key::F22,
        201 => Key::F23,
        202 => Key::F24,
        68 => Key::F2,
        69 => Key::F3,
        70 => Key::F4,
        71 => Key::F5,
        72 => Key::F6,
        73 => Key::F7,
        74 => Key::F8,
        75 => Key::F9,
        110 => Key::Home,
        113 => Key::LeftArrow,
        133 => Key::MetaLeft,
        134 => Key::MetaRight,
        117 => Key::PageDown,
        112 => Key::PageUp,
        36 => Key::Return,
        114 => Key::RightArrow,
        50 => Key::ShiftLeft,
        62 => Key::ShiftRight,
        65 => Key::Space,
        23 => Key::Tab,
        111 => Key::UpArrow,
        107 => Key::PrintScreen,
        78 => Key::ScrollLock,
        127 => Key::Pause,
        77 => Key::NumLock,
        49 => Key::BackQuote,
        10 => Key::Num1,
        11 => Key::Num2,
        12 => Key::Num3,
        13 => Key::Num4,
        14 => Key::Num5,
        15 => Key::Num6,
        16 => Key::Num7,
        17 => Key::Num8,
        18 => Key::Num9,
        19 => Key::Num0,
        20 => Key::Minus,
        21 => Key::Equal,
        24 => Key::KeyQ,
        25 => Key::KeyW,
        26 => Key::KeyE,
        27 => Key::KeyR,
        28 => Key::KeyT,
        29 => Key::KeyY,
        30 => Key::KeyU,
        31 => Key::KeyI,
        32 => Key::KeyO,
        33 => Key::KeyP,
        34 => Key::LeftBracket,
        35 => Key::RightBracket,
        38 => Key::KeyA,
        39 => Key::KeyS,
        40 => Key::KeyD,
        41 => Key::KeyF,
        42 => Key::KeyG,
        43 => Key::KeyH,
        44 => Key::KeyJ,
        45 => Key::KeyK,
        46 => Key::KeyL,
        47 => Key::SemiColon,
        48 => Key::Quote,
        51 => Key::BackSlash,
        94 => Key::IntlBackslash,
        97 => Key::IntlRo,
        132 => Key::IntlYen,
        101 => Key::KanaMode,
        52 => Key::KeyZ,
        53 => Key::KeyX,
        54 => Key::KeyC,
        55 => Key::KeyV,
        56 => Key::KeyB,
        57 => Key::KeyN,
        58 => Key::KeyM,
        59 => Key::Comma,
        60 => Key::Dot,
        61 => Key::Slash,
        118 => Key::Insert,
        104 => Key::KpReturn,
        82 => Key::KpMinus,
        86 => Key::KpPlus,
        63 => Key::KpMultiply,
        106 => Key::KpDivide,
        91 => Key::KpDecimal,
        125 => Key::KpEqual,
        129 => Key::KpComma,
        90 => Key::Kp0,
        87 => Key::Kp1,
        88 => Key::Kp2,
        89 => Key::Kp3,
        83 => Key::Kp4,
        84 => Key::Kp5,
        85 => Key::Kp6,
        79 => Key::Kp7,
        80 => Key::Kp8,
        81 => Key::Kp9,
        123 => Key::VolumeUp,
        122 => Key::VolumeDown,
        121 => Key::VolumeMute,
        130 => Key::Lang1,
        131 => Key::Lang2,
        98 => Key::Lang3,
        99 => Key::Lang4,
        135 => Key::Apps,
        231 => Key::Cancel,
        146 => Key::Help,
        150 => Key::Sleep,
        _ => Key::Unknown(code as u32),
    }
}

/// The X.Org keycode of a key: `None` for a key that an X.Org keyboard does not have.
pub fn code_from_key(key: Key) -> (r: Option<u32>)
    ensures
        r == xorg_code(key),
{
    match key {
        Key::Alt => Some(64),
        Key::AltGr => Some(108),
        Key::Backspace => Some(22),
        Key::CapsLock => Some(66),
        Key::ControlLeft => Some(37),
        Key::ControlRight => Some(105),
        Key::Delete => Some(119),
        Key::DownArrow => Some(116),
        Key::End => Some(115),
        Key::Escape => Some(9),
        Key::F1 => Some(67),
        Key::F10 => Some(76),
        Key::F11 => Some(95),
        Key::F12 => Some(96),
        Key::F13 => Some(191),
        Key::F14 => Some(192),
        Key::F15 => Some(193),
        Key::F16 => Some(194),
        Key::F17 => Some(195),
        Key::F18 => Some(196),
        Key::F19 => Some(197),
        Key::F20 => Some(198),
        Key::F21 => Some(199),
        Key::F22 => Some(200),
        Key::F23 => Some(201),
        Key::F24 => Some(202),
        Key::F2 => Some(68),
        Key::F3 => Some(69),
        Key::F4 => Some(70),
        Key::F5 => Some(71),
        Key::F6 => Some(72),
        Key::F7 => Some(73),
        Key::F8 => Some(74),
        Key::F9 => Some(75),
        Key::Home => Some(110),
        Key::LeftArrow => Some(113),
        Key::MetaLeft => Some(133),
        Key::MetaRight => Some(134),
        Key::PageDown => Some(117),
        Key::PageUp => Some(112),
        Key::Return => Some(36),
        Key::RightArrow => Some(114),
        Key::ShiftLeft => Some(50),
        Key::ShiftRight => Some(62),
        Key::Space => Some(65),
        Key::Tab => Some(23),
        Key::UpArrow => Some(111),
        Key::PrintScreen => Some(107),
        Key::ScrollLock => Some(78),
        Key::Pause => Some(127),
        Key::NumLock => Some(77),
        Key::BackQuote => Some(49),
        Key::Num1 => Some(10),
        Key::Num2 => Some(11),
        Key::Num3 => Some(12),
        Key::Num4 => Some(13),
        Key::Num5 => Some(14),
        Key::Num6 => Some(15),
        Key::Num7 => Some(16),
        Key::Num8 => Some(17),
        Key::Num9 => Some(18),
        Key::Num0 => Some(19),
        Key::Minus => Some(20),
        Key::Equal => Some(21),
        Key::KeyQ => Some(24),
        Key::KeyW => Some(25),
        Key::KeyE => Some(26),
        Key::KeyR => Some(27),
        Key::KeyT => Some(28),
        Key::KeyY => Some(29),
        Key::KeyU => Some(30),
        Key::KeyI => Some(31),
        Key::KeyO => Some(32),
        Key::KeyP => Some(33),
        Key::LeftBracket => Some(34),
        Key::RightBracket => Some(35),
        Key::KeyA => Some(38),
        Key::KeyS => Some(39),
        Key::KeyD => Some(40),
        Key::KeyF => Some(41),
        Key::KeyG => Some(42),
        Key::KeyH => Some(43),
        Key::KeyJ => Some(44),
        Key::KeyK => Some(45),
        Key::KeyL => Some(46),
        Key::SemiColon => Some(47),
        Key::Quote => Some(48),
        Key::BackSlash => Some(51),
        Key::IntlBackslash => Some(94),
        Key::IntlRo => Some(97),
        Key::IntlYen => Some(132),
        Key::KanaMode => Some(101),
        Key::KeyZ => Some(52),
        Key::KeyX => Some(53),
        Key::KeyC => Some(54),
        Key::KeyV => Some(55),
        Key::KeyB => Some(56),
        Key::KeyN => Some(57),
        Key::KeyM => Some(58),
        Key::Comma => Some(59),
        Key::Dot => Some(60),
        Key::Slash => Some(61),
        Key::Insert => Some(118),
        Key::KpReturn => Some(104),
        Key::KpMinus => Some(82),
        Key::KpPlus => Some(86),
        Key::KpMultiply => Some(63),
        Key::KpDivide => Some(106),
        Key::KpDecimal => Some(91),
        Key::KpEqual => Some(125),
        Key::KpComma => Some(129),
        Key::Kp0 => Some(90),
        Key::Kp1 => Some(87),
        Key::Kp2 => Some(88),
        Key::Kp3 => Some(89),
        Key::Kp4 => Some(83),
        Key::Kp5 => Some(84),
        Key::Kp6 => Some(85),
        Key::Kp7 => Some(79),
        Key::Kp8 => Some(80),
        Key::Kp9 => Some(81),
        Key::VolumeUp => Some(123),
        Key::VolumeDown => Some(122),
        Key::VolumeMute => Some(121),
        Key::Lang1 => Some(130),
        Key::Lang2 => Some(131),
        Key::Lang3 => Some(98),
        Key::Lang4 => Some(99),
        Key::Apps => Some(135),
        Key::Cancel => Some(231),
        Key::Help => Some(146),
        Key::Sleep => Some(150),
        Key::Unknown(code) => Some(code),
        _ => None,
    }
}

/// The key with this X.Org keycode.
pub fn key_from_code(code: u32) -> (r: Key)
    ensures
        r == xorg_key(code),
{
    match code {
        64 => Key::Alt,
        108 => Key::AltGr,
        22 => Key::Backspace,
        66 => Key::CapsLock,
        37 => Key::ControlLeft,
        105 => Key::ControlRight,
        119 => Key::Delete,
        116 => Key::DownArrow,
        115 => Key::End,
        9 => Key::Escape,
        67 => Key::F1,
        76 => Key::F10,
        95 => Key::F11,
        96 => Key::F12,
        191 => Key::F13,
        192 => Key::F14,
        193 => Key::F15,
        194 => Key::F16,
        195 => Key::F17,
        196 => Key::F18,
        197 => Key::F19,
        198 => Key::F20,
        199 => Key::F21,
        200 => Key::F22,
        201 => Key::F23,
        202 => Key::F24,
        68 => Key::F2,
        69 => Key::F3,
        70 => Key::F4,
        71 => Key::F5,
        72 => Key::F6,
        73 => Key::F7,
        74 => Key::F8,
        75 => Key::F9,
        110 => Key::Home,
        113 => Key::LeftArrow,
        133 => Key::MetaLeft,
        134 => Key::MetaRight,
        117 => Key::PageDown,
        112 => Key::PageUp,
        36 => Key::Return,
        114 => Key::RightArrow,
        50 => Key::ShiftLeft,
        62 => Key::ShiftRight,
        65 => Key::Space,
        23 => Key::Tab,
        111 => Key::UpArrow,
        107 => Key::PrintScreen,
        78 => Key::ScrollLock,
        127 => Key::Pause,
        77 => Key::NumLock,
        49 => Key::BackQuote,
        10 => Key::Num1,
        11 => Key::Num2,
        12 => Key::Num3,
        13 => Key::Num4,
        14 => Key::Num5,
        15 => Key::Num6,
        16 => Key::Num7,
        17 => Key::Num8,
        18 => Key::Num9,
        19 => Key::Num0,
        20 => Key::Minus,
        21 => Key::Equal,
        24 => Key::KeyQ,
        25 => Key::KeyW,
        26 => Key::KeyE,
        27 => Key::KeyR,
        28 => Key::KeyT,
        29 => Key::KeyY,
        30 => Key::KeyU,
        31 => Key::KeyI,
        32 => Key::KeyO,
        33 => Key::KeyP,
        34 => Key::LeftBracket,
        35 => Key::RightBracket,
        38 => Key::KeyA,
        39 => Key::KeyS,
        40 => Key::KeyD,
        41 => Key::KeyF,
        42 => Key::KeyG,
        43 => Key::KeyH,
        44 => Key::KeyJ,
        45 => Key::KeyK,
        46 => Key::KeyL,
        47 => Key::SemiColon,
        48 => Key::Quote,
        51 => Key::BackSlash,
        94 => Key::IntlBackslash,
        97 => Key::IntlRo,
        132 => Key::IntlYen,
        101 => Key::KanaMode,
        52 => Key::KeyZ,
        53 => Key::KeyX,
        54 => Key::KeyC,
        55 => Key::KeyV,
        56 => Key::KeyB,
        57 => Key::KeyN,
        58 => Key::KeyM,
        59 => Key::Comma,
        60 => Key::Dot,
        61 => Key::Slash,
        118 => Key::Insert,
        104 => Key::KpReturn,
        82 => Key::KpMinus,
        86 => Key::KpPlus,
        63 => Key::KpMultiply,
        106 => Key::KpDivide,
        91 => Key::KpDecimal,
        125 => Key::KpEqual,
        129 => Key::KpComma,
        90 => Key::Kp0,
        87 => Key::Kp1,
        88 => Key::Kp2,
        89 => Key::Kp3,
        83 => Key::Kp4,
        84 => Key::Kp5,
        85 => Key::Kp6,
        79 => Key::Kp7,
        80 => Key::Kp8,
        81 => Key::Kp9,
        123 => Key::VolumeUp,
        122 => Key::VolumeDown,
        121 => Key::VolumeMute,
        130 => Key::Lang1,
        131 => Key::Lang2,
        98 => Key::Lang3,
        99 => Key::Lang4,
        135 => Key::Apps,
        231 => Key::Cancel,
        146 => Key::Help,
        150 => Key::Sleep,
        _ => Key::Unknown(code as u32),
    }
}

/// Each named key with a X.Org keycode reads back from that code.
pub proof fn lemma_key_round_trip(key: Key)
    requires
        key.is_named(),
        xorg_code(key) is Some,
    ensures
        xorg_key(xorg_code(key)->0) == key,
{
}

/// A code that reads as a named key is that key's X.Org keycode.
pub proof fn lemma_code_round_trip(code: u32)
    requires
        xorg_key(code).is_named(),
    ensures
        xorg_code(xorg_key(code)) == Some(code),
{
}

/// A code that reads as `Unknown` carries itself.
pub proof fn lemma_unknown_code(code: u32)
    requires
        !xorg_key(code).is_named(),
    ensures
        xorg_key(code) == Key::Unknown(code as u32),
{
}

} // verus!
