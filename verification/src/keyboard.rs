//! Keyboard types: logical keys, physical key codes and key locations.

use vstd::prelude::*;

verus! {

/// A platform key code that has no portable meaning.
#[derive(Clone, Copy, Debug, PartialEq, Eq, Hash, Structural)]
pub enum NativeKeyCode {
    Unidentified,
    /// An OpenHarmony key code.
    Ohos(i32),
}

/// The physical key of a key event.
#[derive(Clone, Copy, Debug, PartialEq, Eq, Hash, Structural)]
pub enum KeyCode {
    Unidentified(NativeKeyCode),
    Backspace,
    Enter,
}

/// Where on the keyboard a key sits.
#[derive(Clone, Copy, Debug, PartialEq, Eq, Hash, Structural)]
pub enum KeyLocation {
    Standard,
    Left,
    Right,
    Numpad,
}

/// The logical meaning of a key.
#[derive(Clone, Copy, Debug, PartialEq, Eq, Hash, Structural)]
pub enum Key {
    BrowserHome,
    BrowserBack,
    ArrowUp,
    ArrowDown,
    ArrowLeft,
    ArrowRight,
    Enter,
    AudioVolumeUp,
    AudioVolumeDown,
    Power,
    Camera,
    Alt,
    Shift,
    Tab,
    Space,
    Symbol,
    LaunchWebBrowser,
    LaunchMail,
    Backspace,
    MediaPlayPause,
    MediaStop,
    MediaTrackNext,
    MediaTrackPrevious,
    MediaRewind,
    MediaFastForward,
    MicrophoneVolumeMute,
    PageUp,
    PageDown,
    Escape,
    Delete,
    Control,
    CapsLock,
    ScrollLock,
    Super,
    Fn,
    PrintScreen,
    Pause,
    Home,
    End,
    Insert,
    BrowserForward,
    MediaPlay,
    MediaPause,
    MediaClose,
    Eject,
    MediaRecord,
    F1,
    F2,
    F3,
    F4,
    F5,
    F6,
    F7,
    F8,
    F9,
    F10,
    F11,
    F12,
    NumLock,
    AudioVolumeMute,
    Info,
    ChannelUp,
    ChannelDown,
    ZoomIn,
    ZoomOut,
    TV,
    LaunchCalendar,
    ZenkakuHankaku,
    NonConvert,
    Convert,
    HiraganaKatakana,
    BrightnessDown,
    BrightnessUp,
    Standby,
    WakeUp,
    Help,
    Cut,
    Copy,
    Paste,
    BrowserRefresh,
    /// A key with no logical meaning; carries its native code.
    Unidentified(NativeKeyCode),
}

/// Whether a key is pressed or released.
#[derive(Clone, Copy, Debug, PartialEq, Eq, Hash, Structural)]
pub enum ElementState {
    Pressed,
    Released,
}

/// The scan code of a physical key: OpenHarmony reports none.
pub fn keycode_to_scancode(code: KeyCode) -> (r: Option<u32>)
    ensures
        r is None,
{
    None
}

/// The physical key of a scan code: OpenHarmony knows none.
pub fn keycode_from_scancode(scancode: u32) -> (k: KeyCode)
    ensures
        k == KeyCode::Unidentified(NativeKeyCode::Unidentified),
{
    KeyCode::Unidentified(NativeKeyCode::Unidentified)
}

} // verus!
