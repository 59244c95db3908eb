//! OpenHarmony key codes and their logical keys and locations.

use vstd::prelude::*;

use crate::keyboard::{Key, KeyLocation, NativeKeyCode};

verus! {

/// OpenHarmony key code `Unknown`.
pub const UNKNOWN: i32 = -1;
/// OpenHarmony key code `Fn`.
pub const FN: i32 = 0;
/// OpenHarmony key code `Home`.
pub const HOME: i32 = 1;
/// OpenHarmony key code `Back`.
pub const BACK: i32 = 2;
/// OpenHarmony key code `MediaPlayPause`.
pub const MEDIA_PLAY_PAUSE: i32 = 10;
/// OpenHarmony key code `MediaStop`.
pub const MEDIA_STOP: i32 = 11;
/// OpenHarmony key code `MediaNext`.
pub const MEDIA_NEXT: i32 = 12;
/// OpenHarmony key code `MediaPrevious`.
pub const MEDIA_PREVIOUS: i32 = 13;
/// OpenHarmony key code `MediaRewind`.
pub const MEDIA_REWIND: i32 = 14;
/// OpenHarmony key code `MediaFastForward`.
pub const MEDIA_FAST_FORWARD: i32 = 15;
/// OpenHarmony key code `VolumeUp`.
pub const VOLUME_UP: i32 = 16;
/// OpenHarmony key code `VolumeDown`.
pub const VOLUME_DOWN: i32 = 17;
/// OpenHarmony key code `Power`.
pub const POWER: i32 = 18;
/// OpenHarmony key code `Camera`.
pub const CAMERA: i32 = 19;
/// OpenHarmony key code `VolumeMute`.
pub const VOLUME_MUTE: i32 = 22;
/// OpenHarmony key code `Mute`.
pub const MUTE: i32 = 23;
/// OpenHarmony key code `BrightnessUp`.
pub const BRIGHTNESS_UP: i32 = 40;
/// OpenHarmony key code `BrightnessDown`.
pub const BRIGHTNESS_DOWN: i32 = 41;
/// OpenHarmony key code `Key0`.
pub const KEY_0: i32 = 2000;
/// OpenHarmony key code `Key1`.
pub const KEY_1: i32 = 2001;
/// OpenHarmony key code `Key2`.
pub const KEY_2: i32 = 2002;
/// OpenHarmony key code `Key3`.
pub const KEY_3: i32 = 2003;
/// OpenHarmony key code `Key4`.
pub const KEY_4: i32 = 2004;
/// OpenHarmony key code `Key5`.
pub const KEY_5: i32 = 2005;
/// OpenHarmony key code `Key6`.
pub const KEY_6: i32 = 2006;
/// OpenHarmony key code `Key7`.
pub const KEY_7: i32 = 2007;
/// OpenHarmony key code `Key8`.
pub const KEY_8: i32 = 2008;
/// OpenHarmony key code `Key9`.
pub const KEY_9: i32 = 2009;
/// OpenHarmony key code `Star`.
pub const STAR: i32 = 2010;
/// OpenHarmony key code `Pound`.
pub const POUND: i32 = 2011;
/// OpenHarmony key code `DpadUp`.
pub const DPAD_UP: i32 = 2012;
/// OpenHarmony key code `DpadDown`.
pub const DPAD_DOWN: i32 = 2013;
/// OpenHarmony key code `DpadLeft`.
pub const DPAD_LEFT: i32 = 2014;
/// OpenHarmony key code `DpadRight`.
pub const DPAD_RIGHT: i32 = 2015;
/// OpenHarmony key code `DpadCenter`.
pub const DPAD_CENTER: i32 = 2016;
/// OpenHarmony key code `A`.
pub const A: i32 = 2017;
/// OpenHarmony key code `B`.
pub const B: i32 = 2018;
/// OpenHarmony key code `C`.
pub const C: i32 = 2019;
/// OpenHarmony key code `D`.
pub const D: i32 = 2020;
/// OpenHarmony key code `E`.
pub const E: i32 = 2021;
/// OpenHarmony key code `F`.
pub const F: i32 = 2022;
/// OpenHarmony key code `G`.
pub const G: i32 = 2023;
/// OpenHarmony key code `H`.
pub const H: i32 = 2024;
/// OpenHarmony key code `I`.
pub const I: i32 = 2025;
/// OpenHarmony key code `J`.
pub const J: i32 = 2026;
/// OpenHarmony key code `K`.
pub const K: i32 = 2027;
/// OpenHarmony key code `L`.
pub const L: i32 = 2028;
/// OpenHarmony key code `M`.
pub const M: i32 = 2029;
/// OpenHarmony key code `N`.
pub const N: i32 = 2030;
/// OpenHarmony key code `O`.
pub const O: i32 = 2031;
/// OpenHarmony key code `P`.
pub const P: i32 = 2032;
/// OpenHarmony key code `Q`.
pub const Q: i32 = 2033;
/// OpenHarmony key code `R`.
pub const R: i32 = 2034;
/// OpenHarmony key code `S`.
pub const S: i32 = 2035;
/// OpenHarmony key code `T`.
pub const T: i32 = 2036;
/// OpenHarmony key code `U`.
pub const U: i32 = 2037;
/// OpenHarmony key code `V`.
pub const V: i32 = 2038;
/// OpenHarmony key code `W`.
pub const W: i32 = 2039;
/// OpenHarmony key code `X`.
pub const X: i32 = 2040;
/// OpenHarmony key code `Y`.
pub const Y: i32 = 2041;
/// OpenHarmony key code `Z`.
pub const Z: i32 = 2042;
/// OpenHarmony key code `Comma`.
pub const COMMA: i32 = 2043;
/// OpenHarmony key code `Period`.
pub const PERIOD: i32 = 2044;
/// OpenHarmony key code `AltLeft`.
pub const ALT_LEFT: i32 = 2045;
/// OpenHarmony key code `AltRight`.
pub const ALT_RIGHT: i32 = 2046;
/// OpenHarmony key code `ShiftLeft`.
pub const SHIFT_LEFT: i32 = 2047;
/// OpenHarmony key code `ShiftRight`.
pub const SHIFT_RIGHT: i32 = 2048;
/// OpenHarmony key code `Tab`.
pub const TAB: i32 = 2049;
/// OpenHarmony key code `Space`.
pub const SPACE: i32 = 2050;
/// OpenHarmony key code `Sym`.
pub const SYM: i32 = 2051;
/// OpenHarmony key code `Explorer`.
pub const EXPLORER: i32 = 2052;
/// OpenHarmony key code `Envelope`.
pub const ENVELOPE: i32 = 2053;
/// OpenHarmony key code `Enter`.
pub const ENTER: i32 = 2054;
/// OpenHarmony key code `Del`.
pub const DEL: i32 = 2055;
/// OpenHarmony key code `Grave`.
pub const GRAVE: i32 = 2056;
/// OpenHarmony key code `Minus`.
pub const MINUS: i32 = 2057;
/// OpenHarmony key code `Equals`.
pub const EQUALS: i32 = 2058;
/// OpenHarmony key code `LeftBracket`.
pub const LEFT_BRACKET: i32 = 2059;
/// OpenHarmony key code `RightBracket`.
pub const RIGHT_BRACKET: i32 = 2060;
/// OpenHarmony key code `Backslash`.
pub const BACKSLASH: i32 = 2061;
/// OpenHarmony key code `Semicolon`.
pub const SEMICOLON: i32 = 2062;
/// OpenHarmony key code `Apostrophe`.
pub const APOSTROPHE: i32 = 2063;
/// OpenHarmony key code `Slash`.
pub const SLASH: i32 = 2064;
/// OpenHarmony key code `At`.
pub const AT: i32 = 2065;
/// OpenHarmony key code `Plus`.
pub const PLUS: i32 = 2066;
/// OpenHarmony key code `Menu`.
pub const MENU: i32 = 2067;
/// OpenHarmony key code `PageUp`.
pub const PAGE_UP: i32 = 2068;
/// OpenHarmony key code `PageDown`.
pub const PAGE_DOWN: i32 = 2069;
/// OpenHarmony key code `Escape`.
pub const ESCAPE: i32 = 2070;
/// OpenHarmony key code `ForwardDel`.
pub const FORWARD_DEL: i32 = 2071;
/// OpenHarmony key code `CtrlLeft`.
pub const CTRL_LEFT: i32 = 2072;
/// OpenHarmony key code `CtrlRight`.
pub const CTRL_RIGHT: i32 = 2073;
/// OpenHarmony key code `CapsLock`.
pub const CAPS_LOCK: i32 = 2074;
/// OpenHarmony key code `ScrollLock`.
pub const SCROLL_LOCK: i32 = 2075;
/// OpenHarmony key code `MetaLeft`.
pub const META_LEFT: i32 = 2076;
/// OpenHarmony key code `MetaRight`.
pub const META_RIGHT: i32 = 2077;
/// OpenHarmony key code `Function`.
pub const FUNCTION: i32 = 2078;
/// OpenHarmony key code `SysRq`.
pub const SYSRQ: i32 = 2079;
/// OpenHarmony key code `Break`.
pub const BREAK: i32 = 2080;
/// OpenHarmony key code `MoveHome`.
pub const MOVE_HOME: i32 = 2081;
/// OpenHarmony key code `MoveEnd`.
pub const MOVE_END: i32 = 2082;
/// OpenHarmony key code `Insert`.
pub const INSERT: i32 = 2083;
/// OpenHarmony key code `Forward`.
pub const FORWARD: i32 = 2084;
/// OpenHarmony key code `MediaPlay`.
pub const MEDIA_PLAY: i32 = 2085;
/// OpenHarmony key code `MediaPause`.
pub const MEDIA_PAUSE: i32 = 2086;
/// OpenHarmony key code `MediaClose`.
pub const MEDIA_CLOSE: i32 = 2087;
/// OpenHarmony key code `MediaEject`.
pub const MEDIA_EJECT: i32 = 2088;
/// OpenHarmony key code `MediaRecord`.
pub const MEDIA_RECORD: i32 = 2089;
/// OpenHarmony key code `F1`.
pub const F1: i32 = 2090;
/// OpenHarmony key code `F2`.
pub const F2: i32 = 2091;
/// OpenHarmony key code `F3`.
pub const F3: i32 = 2092;
/// OpenHarmony key code `F4`.
pub const F4: i32 = 2093;
/// OpenHarmony key code `F5`.
pub const F5: i32 = 2094;
/// OpenHarmony key code `F6`.
pub const F6: i32 = 2095;
/// OpenHarmony key code `F7`.
pub const F7: i32 = 2096;
/// OpenHarmony key code `F8`.
pub const F8: i32 = 2097;
/// OpenHarmony key code `F9`.
pub const F9: i32 = 2098;
/// OpenHarmony key code `F10`.
pub const F10: i32 = 2099;
/// OpenHarmony key code `F11`.
pub const F11: i32 = 2100;
/// OpenHarmony key code `F12`.
pub const F12: i32 = 2101;
/// OpenHarmony key code `NumLock`.
pub const NUM_LOCK: i32 = 2102;
/// OpenHarmony key code `Numpad0`.
pub const NUMPAD_0: i32 = 2103;
/// OpenHarmony key code `Numpad1`.
pub const NUMPAD_1: i32 = 2104;
/// OpenHarmony key code `Numpad2`.
pub const NUMPAD_2: i32 = 2105;
/// OpenHarmony key code `Numpad3`.
pub const NUMPAD_3: i32 = 2106;
/// OpenHarmony key code `Numpad4`.
pub const NUMPAD_4: i32 = 2107;
/// OpenHarmony key code `Numpad5`.
pub const NUMPAD_5: i32 = 2108;
/// OpenHarmony key code `Numpad6`.
pub const NUMPAD_6: i32 = 2109;
/// OpenHarmony key code `Numpad7`.
pub const NUMPAD_7: i32 = 2110;
/// OpenHarmony key code `Numpad8`.
pub const NUMPAD_8: i32 = 2111;
/// OpenHarmony key code `Numpad9`.
pub const NUMPAD_9: i32 = 2112;
/// OpenHarmony key code `NumpadDivide`.
pub const NUMPAD_DIVIDE: i32 = 2113;
/// OpenHarmony key code `NumpadMultiply`.
pub const NUMPAD_MULTIPLY: i32 = 2114;
/// OpenHarmony key code `NumpadSubtract`.
pub const NUMPAD_SUBTRACT: i32 = 2115;
/// OpenHarmony key code `NumpadAdd`.
pub const NUMPAD_ADD: i32 = 2116;
/// OpenHarmony key code `NumpadDot`.
pub const NUMPAD_DOT: i32 = 2117;
/// OpenHarmony key code `NumpadComma`.
pub const NUMPAD_COMMA: i32 = 2118;
/// OpenHarmony key code `NumpadEnter`.
pub const NUMPAD_ENTER: i32 = 2119;
/// OpenHarmony key code `NumpadEquals`.
pub const NUMPAD_EQUALS: i32 = 2120;
/// OpenHarmony key code `NumpadLeftParen`.
pub const NUMPAD_LEFT_PAREN: i32 = 2121;
/// OpenHarmony key code `NumpadRightParen`.
pub const NUMPAD_RIGHT_PAREN: i32 = 2122;
/// OpenHarmony key code `Sleep`.
pub const SLEEP: i32 = 2600;
/// OpenHarmony key code `ZenkakuHankaku`.
pub const ZENKAKU_HANKAKU: i32 = 2601;
/// OpenHarmony key code `Ro`.
pub const RO: i32 = 2603;
/// OpenHarmony key code `Henkan`.
pub const HENKAN: i32 = 2606;
/// OpenHarmony key code `KatakanaHiragana`.
pub const KATAKANA_HIRAGANA: i32 = 2607;
/// OpenHarmony key code `Muhenkan`.
pub const MUHENKAN: i32 = 2608;
/// OpenHarmony key code `Yen`.
pub const YEN: i32 = 2615;
/// OpenHarmony key code `Copy`.
pub const COPY: i32 = 2620;
/// OpenHarmony key code `Paste`.
pub const PASTE: i32 = 2622;
/// OpenHarmony key code `Cut`.
pub const CUT: i32 = 2624;
/// OpenHarmony key code `Help`.
pub const HELP: i32 = 2625;
/// OpenHarmony key code `Refresh`.
pub const REFRESH: i32 = 2635;
/// OpenHarmony key code `Info`.
pub const INFO: i32 = 2664;
/// OpenHarmony key code `TV`.
pub const TV: i32 = 2672;
/// OpenHarmony key code `Calendar`.
pub const CALENDAR: i32 = 2685;
/// OpenHarmony key code `ChannelUp`.
pub const CHANNEL_UP: i32 = 2690;
/// OpenHarmony key code `ChannelDown`.
pub const CHANNEL_DOWN: i32 = 2691;
/// OpenHarmony key code `ZoomIn`.
pub const ZOOM_IN: i32 = 2698;
/// OpenHarmony key code `ZoomOut`.
pub const ZOOM_OUT: i32 = 2699;
/// OpenHarmony key code `Wakeup`.
pub const WAKEUP: i32 = 2802;

/// The logical key that a key code names, where it names one.
///
/// Digits, letters, punctuation and numpad keys name none: they reach an
/// application as text. Neither do `UNKNOWN`, `MENU`, `YEN`, `RO`, `FN` and
/// any code that this table does not list.
pub open spec fn named_key(code: i32) -> Option<Key> {
    match code {
        HOME => Some(Key::BrowserHome),
        BACK => Some(Key::BrowserBack),
        DPAD_UP => Some(Key::ArrowUp),
        DPAD_DOWN => Some(Key::ArrowDown),
        DPAD_LEFT => Some(Key::ArrowLeft),
        DPAD_RIGHT => Some(Key::ArrowRight),
        DPAD_CENTER => Some(Key::Enter),
        VOLUME_UP => Some(Key::AudioVolumeUp),
        VOLUME_DOWN => Some(Key::AudioVolumeDown),
        POWER => Some(Key::Power),
        CAMERA => Some(Key::Camera),
        ALT_LEFT => Some(Key::Alt),
        ALT_RIGHT => Some(Key::Alt),
        SHIFT_LEFT => Some(Key::Shift),
        SHIFT_RIGHT => Some(Key::Shift),
        TAB => Some(Key::Tab),
        SPACE => Some(Key::Space),
        SYM => Some(Key::Symbol),
        EXPLORER => Some(Key::LaunchWebBrowser),
        ENVELOPE => Some(Key::LaunchMail),
        ENTER => Some(Key::Enter),
        DEL => Some(Key::Backspace),
        MEDIA_PLAY_PAUSE => Some(Key::MediaPlayPause),
        MEDIA_STOP => Some(Key::MediaStop),
        MEDIA_NEXT => Some(Key::MediaTrackNext),
        MEDIA_PREVIOUS => Some(Key::MediaTrackPrevious),
        MEDIA_REWIND => Some(Key::MediaRewind),
        MEDIA_FAST_FORWARD => Some(Key::MediaFastForward),
        MUTE => Some(Key::MicrophoneVolumeMute),
        PAGE_UP => Some(Key::PageUp),
        PAGE_DOWN => Some(Key::PageDown),
        ESCAPE => Some(Key::Escape),
        FORWARD_DEL => Some(Key::Delete),
        CTRL_LEFT => Some(Key::Control),
        CTRL_RIGHT => Some(Key::Control),
        CAPS_LOCK => Some(Key::CapsLock),
        SCROLL_LOCK => Some(Key::ScrollLock),
        META_LEFT => Some(Key::Super),
        META_RIGHT => Some(Key::Super),
        FUNCTION => Some(Key::Fn),
        SYSRQ => Some(Key::PrintScreen),
        BREAK => Some(Key::Pause),
        MOVE_HOME => Some(Key::Home),
        MOVE_END => Some(Key::End),
        INSERT => Some(Key::Insert),
        FORWARD => Some(Key::BrowserForward),
        MEDIA_PLAY => Some(Key::MediaPlay),
        MEDIA_PAUSE => Some(Key::MediaPause),
        MEDIA_CLOSE => Some(Key::MediaClose),
        MEDIA_EJECT => Some(Key::Eject),
        MEDIA_RECORD => Some(Key::MediaRecord),
        F1 => Some(Key::F1),
        F2 => Some(Key::F2),
        F3 => Some(Key::F3),
        F4 => Some(Key::F4),
        F5 => Some(Key::F5),
        F6 => Some(Key::F6),
        F7 => Some(Key::F7),
        F8 => Some(Key::F8),
        F9 => Some(Key::F9),
        F10 => Some(Key::F10),
        F11 => Some(Key::F11),
        F12 => Some(Key::F12),
        NUM_LOCK => Some(Key::NumLock),
        VOLUME_MUTE => Some(Key::AudioVolumeMute),
        INFO => Some(Key::Info),
        CHANNEL_UP => Some(Key::ChannelUp),
        CHANNEL_DOWN => Some(Key::ChannelDown),
        ZOOM_IN => Some(Key::ZoomIn),
        ZOOM_OUT => Some(Key::ZoomOut),
        TV => Some(Key::TV),
        CALENDAR => Some(Key::LaunchCalendar),
        ZENKAKU_HANKAKU => Some(Key::ZenkakuHankaku),
        MUHENKAN => Some(Key::NonConvert),
        HENKAN => Some(Key::Convert),
        KATAKANA_HIRAGANA => Some(Key::HiraganaKatakana),
        BRIGHTNESS_DOWN => Some(Key::BrightnessDown),
        BRIGHTNESS_UP => Some(Key::BrightnessUp),
        SLEEP => Some(Key::Standby),
        WAKEUP => Some(Key::WakeUp),
        HELP => Some(Key::Help),
        CUT => Some(Key::Cut),
        COPY => Some(Key::Copy),
        PASTE => Some(Key::Paste),
        REFRESH => Some(Key::BrowserRefresh),
        _ => None,
    }
}

/// The logical key of a key code: the named key, else `Unidentified`
/// carrying the OpenHarmony code.
pub open spec fn logical_key(code: i32) -> Key {
    match named_key(code) {
        Some(k) => k,
        None => Key::Unidentified(NativeKeyCode::Ohos(code)),
    }
}

/// Whether a key code is the left one of a modifier pair.
pub open spec fn is_left_modifier(code: i32) -> bool {
    code == ALT_LEFT || code == SHIFT_LEFT || code == CTRL_LEFT || code == META_LEFT
}

/// Whether a key code is the right one of a modifier pair.
pub open spec fn is_right_modifier(code: i32) -> bool {
    code == ALT_RIGHT || code == SHIFT_RIGHT || code == CTRL_RIGHT || code == META_RIGHT
}

/// Whether a key code sits on the numeric keypad: `NUM_LOCK` and the
/// keypad keys, whose codes run from `NUMPAD_0` to `NUMPAD_RIGHT_PAREN`.
pub open spec fn is_numpad(code: i32) -> bool {
    code == NUM_LOCK || (NUMPAD_0 <= code && code <= NUMPAD_RIGHT_PAREN)
}

/// The location of a key code on the keyboard.
pub open spec fn key_location(code: i32) -> KeyLocation {
    if is_left_modifier(code) {
        KeyLocation::Left
    } else if is_right_modifier(code) {
        KeyLocation::Right
    } else if is_numpad(code) {
        KeyLocation::Numpad
    } else {
        KeyLocation::Standard
    }
}

/// Maps an OpenHarmony key code to its logical key.
pub fn to_logical(code: i32) -> (k: Key)
    ensures
        k == logical_key(code),
{
    match code {
        HOME => Key::BrowserHome,
        BACK => Key::BrowserBack,
        DPAD_UP => Key::ArrowUp,
        DPAD_DOWN => Key::ArrowDown,
        DPAD_LEFT => Key::ArrowLeft,
        DPAD_RIGHT => Key::ArrowRight,
        DPAD_CENTER => Key::Enter,
        VOLUME_UP => Key::AudioVolumeUp,
        VOLUME_DOWN => Key::AudioVolumeDown,
        POWER => Key::Power,
        CAMERA => Key::Camera,
        ALT_LEFT => Key::Alt,
        ALT_RIGHT => Key::Alt,
        SHIFT_LEFT => Key::Shift,
        SHIFT_RIGHT => Key::Shift,
        TAB => Key::Tab,
        SPACE => Key::Space,
        SYM => Key::Symbol,
        EXPLORER => Key::LaunchWebBrowser,
        ENVELOPE => Key::LaunchMail,
        ENTER => Key::Enter,
        DEL => Key::Backspace,
        MEDIA_PLAY_PAUSE => Key::MediaPlayPause,
        MEDIA_STOP => Key::MediaStop,
        MEDIA_NEXT => Key::MediaTrackNext,
        MEDIA_PREVIOUS => Key::MediaTrackPrevious,
        MEDIA_REWIND => Key::MediaRewind,
        MEDIA_FAST_FORWARD => Key::MediaFastForward,
        MUTE => Key::MicrophoneVolumeMute,
        PAGE_UP => Key::PageUp,
        PAGE_DOWN => Key::PageDown,
        ESCAPE => Key::Escape,
        FORWARD_DEL => Key::Delete,
        CTRL_LEFT => Key::Control,
        CTRL_RIGHT => Key::Control,
        CAPS_LOCK => Key::CapsLock,
        SCROLL_LOCK => Key::ScrollLock,
        META_LEFT => Key::Super,
        META_RIGHT => Key::Super,
        FUNCTION => Key::Fn,
        SYSRQ => Key::PrintScreen,
        BREAK => Key::Pause,
        MOVE_HOME => Key::Home,
        MOVE_END => Key::End,
        INSERT => Key::Insert,
        FORWARD => Key::BrowserForward,
        MEDIA_PLAY => Key::MediaPlay,
        MEDIA_PAUSE => Key::MediaPause,
        MEDIA_CLOSE => Key::MediaClose,
        MEDIA_EJECT => Key::Eject,
        MEDIA_RECORD => Key::MediaRecord,
        F1 => Key::F1,
        F2 => Key::F2,
        F3 => Key::F3,
        F4 => Key::F4,
        F5 => Key::F5,
        F6 => Key::F6,
        F7 => Key::F7,
        F8 => Key::F8,
        F9 => Key::F9,
        F10 => Key::F10,
        F11 => Key::F11,
        F12 => Key::F12,
        NUM_LOCK => Key::NumLock,
        VOLUME_MUTE => Key::AudioVolumeMute,
        INFO => Key::Info,
        CHANNEL_UP => Key::ChannelUp,
        CHANNEL_DOWN => Key::ChannelDown,
        ZOOM_IN => Key::ZoomIn,
        ZOOM_OUT => Key::ZoomOut,
        TV => Key::TV,
        CALENDAR => Key::LaunchCalendar,
        ZENKAKU_HANKAKU => Key::ZenkakuHankaku,
        MUHENKAN => Key::NonConvert,
        HENKAN => Key::Convert,
        KATAKANA_HIRAGANA => Key::HiraganaKatakana,
        BRIGHTNESS_DOWN => Key::BrightnessDown,
        BRIGHTNESS_UP => Key::BrightnessUp,
        SLEEP => Key::Standby,
        WAKEUP => Key::WakeUp,
        HELP => Key::Help,
        CUT => Key::Cut,
        COPY => Key::Copy,
        PASTE => Key::Paste,
        REFRESH => Key::BrowserRefresh,
        _ => Key::Unidentified(NativeKeyCode::Ohos(code)),
    }
}

/// Maps an OpenHarmony key code to its location on the keyboard.
pub fn to_location(code: i32) -> (l: KeyLocation)
    ensures
        l == key_location(code),
{
    match code {
        ALT_LEFT | SHIFT_LEFT | CTRL_LEFT | META_LEFT => KeyLocation::Left,
        ALT_RIGHT | SHIFT_RIGHT | CTRL_RIGHT | META_RIGHT => KeyLocation::Right,
        NUM_LOCK => KeyLocation::Numpad,
        NUMPAD_0 | NUMPAD_1 | NUMPAD_2 | NUMPAD_3 | NUMPAD_4 | NUMPAD_5 | NUMPAD_6 | NUMPAD_7
        | NUMPAD_8 | NUMPAD_9 | NUMPAD_DIVIDE | NUMPAD_MULTIPLY | NUMPAD_SUBTRACT | NUMPAD_ADD
        | NUMPAD_DOT | NUMPAD_COMMA | NUMPAD_ENTER | NUMPAD_EQUALS | NUMPAD_LEFT_PAREN
        | NUMPAD_RIGHT_PAREN => KeyLocation::Numpad,
        _ => KeyLocation::Standard,
    }
}

/// Keys that reach an application as text, and the keypad's keys, have no
/// logical key of their own: digits, letters and the keypad keys are
/// unidentified, and an unidentified key always carries its own code.
pub proof fn law_text_keys_unidentified(code: i32)
    ensures
        (KEY_0 <= code <= KEY_9 || A <= code <= Z || NUMPAD_0 <= code <= NUMPAD_RIGHT_PAREN)
            ==> logical_key(code) == Key::Unidentified(NativeKeyCode::Ohos(code)),
        logical_key(code) is Unidentified ==> logical_key(code) == Key::Unidentified(
            NativeKeyCode::Ohos(code),
        ),
{
}

/// Both keys of a modifier pair have the same logical key, and they are
/// told apart by their location only.
pub proof fn law_modifier_pairs()
    ensures
        logical_key(ALT_LEFT) == logical_key(ALT_RIGHT),
        logical_key(SHIFT_LEFT) == logical_key(SHIFT_RIGHT),
        logical_key(CTRL_LEFT) == logical_key(CTRL_RIGHT),
        logical_key(META_LEFT) == logical_key(META_RIGHT),
        key_location(ALT_LEFT) == KeyLocation::Left && key_location(ALT_RIGHT) == KeyLocation::Right,
        key_location(SHIFT_LEFT) == KeyLocation::Left && key_location(SHIFT_RIGHT)
            == KeyLocation::Right,
        key_location(CTRL_LEFT) == KeyLocation::Left && key_location(CTRL_RIGHT) == KeyLocation::Right,
        key_location(META_LEFT) == KeyLocation::Left && key_location(META_RIGHT) == KeyLocation::Right,
{
}

} // verus!
