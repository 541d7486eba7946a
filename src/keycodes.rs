//! Conversions between `Key` and the numeric key codes of each platform.

pub mod linux;
pub mod macos;
pub mod windows;
