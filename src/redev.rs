use vstd::prelude::*;

verus! {

/// Platform-specific numeric code of a key, as macOS numbers its virtual keys.
pub type KeyCode = u16;

/// Errors that occur when trying to grab OS events.
#[derive(Debug)]
#[non_exhaustive]
pub enum GrabError {
    System(crate::grab::Error),
    SimulateError(SimulateError),
    ListenError(ListenError),
}

/// Errors that occur when trying to get the display size.
#[derive(Debug)]
#[non_exhaustive]
pub enum DisplayError {
    NoDisplay,
    ConversionError(core::num::TryFromIntError),
}

/// Error simulating an event.
#[derive(Debug)]
pub enum SimulateError {
    SendInput,
    InvalidRawKey { expected: String, got: Option<String> },
    GetCodes,
    IntConversion(core::num::TryFromIntError),
    NoDisplay,
    NoCode,
    NoCorrespondingKey,
}

/// Errors that occur when trying to capture OS events.
///
/// Not having the accessibility permission causes no error: events are then ignored.
#[derive(Debug, Clone, Copy, PartialEq, Eq, Structural)]
pub enum ListenError {
    EventTapError,
    LoopSourceError,
}

/// A physical key. Key names assume a QWERTY layout; the text that a press actually
/// produces is resolved by the keyboard state machine.
///
/// On Windows, `KpReturn` does not exist: it reads as `Return`. Keypad keys are also
/// reported by their function (e.g. `PageDown`) when NumLock is off.
#[derive(Debug, Clone, Copy, PartialEq, Eq, Hash, Structural)]
pub enum Key {
    /// Alt key on Linux and Windows (option key on macOS)
    Alt,
    AltGr,
    Backspace,
    CapsLock,
    ControlLeft,
    ControlRight,
    Delete,
    DownArrow,
    End,
    Escape,
    F1,
    F10,
    F11,
    F12,
    F13,
    F14,
    F15,
    F16,
    F17,
    F18,
    F19,
    F20,
    F21,
    F22,
    F23,
    F24,
    F2,
    F3,
    F4,
    F5,
    F6,
    F7,
    F8,
    F9,
    Home,
    LeftArrow,
    /// Also known as "windows", "super", and "command"
    MetaLeft,
    /// Also known as "windows", "super", and "command"
    MetaRight,
    PageDown,
    PageUp,
    Return,
    RightArrow,
    ShiftLeft,
    ShiftRight,
    Space,
    Tab,
    UpArrow,
    PrintScreen,
    ScrollLock,
    Pause,
    NumLock,
    BackQuote,
    Num1,
    Num2,
    Num3,
    Num4,
    Num5,
    Num6,
    Num7,
    Num8,
    Num9,
    Num0,
    Minus,
    Equal,
    KeyQ,
    KeyW,
    KeyE,
    KeyR,
    KeyT,
    KeyY,
    KeyU,
    KeyI,
    KeyO,
    KeyP,
    LeftBracket,
    RightBracket,
    KeyA,
    KeyS,
    KeyD,
    KeyF,
    KeyG,
    KeyH,
    KeyJ,
    KeyK,
    KeyL,
    SemiColon,
    Quote,
    BackSlash,
    IntlBackslash,
    /// Brazilian /? and Japanese _ 'ro'
    IntlRo,
    /// Japanese Henkan (Convert) key
    IntlYen,
    /// Japanese Hiragana/Katakana key
    KanaMode,
    KeyZ,
    KeyX,
    KeyC,
    KeyV,
    KeyB,
    KeyN,
    KeyM,
    Comma,
    Dot,
    Slash,
    Insert,
    KpReturn,
    KpMinus,
    KpPlus,
    KpMultiply,
    KpDivide,
    KpDecimal,
    KpEqual,
    KpComma,
    Kp0,
    Kp1,
    Kp2,
    Kp3,
    Kp4,
    Kp5,
    Kp6,
    Kp7,
    Kp8,
    Kp9,
    VolumeUp,
    VolumeDown,
    VolumeMute,
    /// Korean Hangul/English toggle key, and the Kana key on the Apple Japanese keyboard
    Lang1,
    /// Korean Hanja conversion key, and the Eisu key on the Apple Japanese keyboard
    Lang2,
    /// Japanese Katakana key
    Lang3,
    /// Japanese Hiragana key
    Lang4,
    /// Japanese Zenkaku/Hankaku (fullwidth/halfwidth) key
    Lang5,
    Function,
    Apps,
    Cancel,
    Clear,
    Kana,
    Hangul,
    Junja,
    Final,
    Hanja,
    Hanji,
    Print,
    Select,
    Execute,
    Help,
    Sleep,
    Separator,
    /// A platform code with no named key.
    Unknown(u32),
    /// A key known only by its code in one platform's numbering.
    RawKey(RawKey),
}

impl Key {
    /// A key of the named vocabulary: neither `Unknown` nor `RawKey`.
    pub open spec fn is_named(self) -> bool {
        !(self is Unknown) && !(self is RawKey)
    }
}

/// A key code in one of the platforms' own numbering spaces.
#[derive(Debug, Clone, Copy, PartialEq, Eq, Hash, Structural)]
pub enum RawKey {
    ScanCode(KeyCode),
    WinVirtualKeycode(KeyCode),
    LinuxXorgKeycode(KeyCode),
    LinuxConsoleKeycode(KeyCode),
    MacVirtualKeycode(KeyCode),
}

impl Default for RawKey {
    fn default() -> (r: RawKey)
        ensures
            r == RawKey::ScanCode(0),
    {
        RawKey::ScanCode(0)
    }
}

/// Standard mouse buttons.
///
/// Mice with more than three buttons report the others as `Unknown`, with a code that
/// differs from one platform to the next.
#[derive(Debug, Clone, Copy, PartialEq, Eq, Structural)]
pub enum Button {
    Left,
    Right,
    Middle,
    Unknown(u8),
}

/// The input carried by an event, received from the OS or built in code.
#[derive(Debug, Clone, Copy, PartialEq, Eq, Structural)]
pub enum EventType {
    KeyPress(Key),
    KeyRelease(Key),
    ButtonPress(Button),
    ButtonRelease(Button),
    /// Cursor position in whole pixels, origin at the top left of the screen.
    MouseMove { x: i64, y: i64 },
    /// Positive delta is up and right.
    Wheel { delta_x: i64, delta_y: i64 },
}

/// The text that a key press produced.
#[derive(Debug, Clone, PartialEq, Default)]
pub struct UnicodeInfo {
    pub name: Option<String>,
    pub unicode: Vec<u16>,
    pub is_dead: bool,
}

/// An input event received from the OS.
#[derive(Debug)]
pub struct Event {
    /// The time at which the event was received.
    pub time: std::time::SystemTime,
    /// For key presses, the text the press produced, where it could be resolved.
    pub unicode: Option<UnicodeInfo>,
    /// The input itself. Keys are named as on a QWERTY layout.
    pub event_type: EventType,
    /// The OS code of the input (virtual keycode on Windows, keysym on Linux).
    pub platform_code: u32,
    /// A second OS code (scan code on Windows).
    pub position_code: u32,
    /// USB HID usage, where known.
    pub usb_hid: u32,
    /// Data the OS attaches to the event, which tells apart injected events.
    pub extra_data: u64,
}

/// A keyboard that resolves what text a key event would produce with the active
/// layout, without sending anything to the OS.
pub trait KeyboardState {
    /// Changes the keyboard state as if this event happened.
    fn add(&mut self, event_type: &EventType) -> Option<UnicodeInfo>;
}

} // verus!
