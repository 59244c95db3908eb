//! Cursor styles, background colors and themes, as the platform encodes them.

use vstd::prelude::*;

verus! {

/// A cursor icon.
#[derive(Clone, Copy, Debug, PartialEq, Eq, Hash, Structural)]
pub enum CursorIcon {
    Default,
    Crosshair,
    Hand,
    Arrow,
    Move,
    Text,
    Wait,
    Help,
    Progress,
    NotAllowed,
    ContextMenu,
    Cell,
    VerticalText,
    Alias,
    Copy,
    NoDrop,
    Grab,
    Grabbing,
    AllScroll,
    ZoomIn,
    ZoomOut,
    EResize,
    NResize,
    NeResize,
    NwResize,
    SResize,
    SeResize,
    SwResize,
    WResize,
    EwResize,
    NsResize,
    NeswResize,
    NwseResize,
    ColResize,
    RowResize,
}

/// The OpenHarmony `PointerStyle` value of a cursor icon (DEFAULT=0, EAST=1,
/// WEST=2, SOUTH=3, NORTH=4, WEST_EAST=5, NORTH_SOUTH=6, NORTH_EAST=7,
/// NORTH_WEST=8, SOUTH_EAST=9, SOUTH_WEST=10, NORTH_EAST_SOUTH_WEST=11,
/// NORTH_WEST_SOUTH_EAST=12, CROSS=13, CURSOR_COPY=14, CURSOR_FORBID=15,
/// HAND_GRABBING=17, HAND_OPEN=18, HAND_POINTING=19, HELP=20, MOVE=21,
/// TEXT_CURSOR=26, ZOOM_IN=27, ZOOM_OUT=28, HORIZONTAL_TEXT_CURSOR=39,
/// LOADING=42).
pub open spec fn pointer_style(icon: CursorIcon) -> i32 {
    match icon {
        CursorIcon::Default | CursorIcon::Arrow | CursorIcon::ContextMenu | CursorIcon::Cell => 0,
        CursorIcon::Crosshair => 13,
        CursorIcon::Hand => 19,
        CursorIcon::Move | CursorIcon::AllScroll => 21,
        CursorIcon::Text => 26,
        CursorIcon::VerticalText => 39,
        CursorIcon::Wait | CursorIcon::Progress => 42,
        CursorIcon::Help => 20,
        CursorIcon::NotAllowed | CursorIcon::NoDrop => 15,
        CursorIcon::Alias | CursorIcon::Copy => 14,
        CursorIcon::Grab => 18,
        CursorIcon::Grabbing => 17,
        CursorIcon::ZoomIn => 27,
        CursorIcon::ZoomOut => 28,
        CursorIcon::EResize => 1,
        CursorIcon::WResize => 2,
        CursorIcon::SResize => 3,
        CursorIcon::NResize => 4,
        CursorIcon::EwResize | CursorIcon::ColResize => 5,
        CursorIcon::NsResize | CursorIcon::RowResize => 6,
        CursorIcon::NeResize => 7,
        CursorIcon::NwResize => 8,
        CursorIcon::SeResize => 9,
        CursorIcon::SwResize => 10,
        CursorIcon::NeswResize => 11,
        CursorIcon::NwseResize => 12,
    }
}

/// Maps a cursor icon to its OpenHarmony pointer style.
pub fn ohos_pointer_style(icon: CursorIcon) -> (s: i32)
    ensures
        s == pointer_style(icon),
{
    match icon {
        CursorIcon::Default | CursorIcon::Arrow | CursorIcon::ContextMenu | CursorIcon::Cell => 0,
        CursorIcon::Crosshair => 13,
        CursorIcon::Hand => 19,
        CursorIcon::Move | CursorIcon::AllScroll => 21,
        CursorIcon::Text => 26,
        CursorIcon::VerticalText => 39,
        CursorIcon::Wait | CursorIcon::Progress => 42,
        CursorIcon::Help => 20,
        CursorIcon::NotAllowed | CursorIcon::NoDrop => 15,
        CursorIcon::Alias | CursorIcon::Copy => 14,
        CursorIcon::Grab => 18,
        CursorIcon::Grabbing => 17,
        CursorIcon::ZoomIn => 27,
        CursorIcon::ZoomOut => 28,
        CursorIcon::EResize => 1,
        CursorIcon::WResize => 2,
        CursorIcon::SResize => 3,
        CursorIcon::NResize => 4,
        CursorIcon::EwResize | CursorIcon::ColResize => 5,
        CursorIcon::NsResize | CursorIcon::RowResize => 6,
        CursorIcon::NeResize => 7,
        CursorIcon::NwResize => 8,
        CursorIcon::SeResize => 9,
        CursorIcon::SwResize => 10,
        CursorIcon::NeswResize => 11,
        CursorIcon::NwseResize => 12,
    }
}

/// Each OpenHarmony pointer style is shown for exactly the cursor icons
/// that it is named for: the arrow (DEFAULT, 0) only for the default,
/// arrow, context-menu and cell icons; the busy cursor (LOADING, 42) for
/// wait and progress; the text cursors (TEXT_CURSOR, 26;
/// HORIZONTAL_TEXT_CURSOR, 39); the hands (HAND_POINTING, 19; HAND_OPEN,
/// 18; HAND_GRABBING, 17); CROSS (13), HELP (20), MOVE (21), CURSOR_FORBID
/// (15), CURSOR_COPY (14), ZOOM_IN (27), ZOOM_OUT (28); and the resize
/// arrows EAST (1) to NORTH_WEST_SOUTH_EAST (12) by direction.
pub proof fn law_pointer_style_names(icon: CursorIcon)
    ensures
        pointer_style(icon) == 0 <==> (icon == CursorIcon::Default || icon == CursorIcon::Arrow
            || icon == CursorIcon::ContextMenu || icon == CursorIcon::Cell),
        pointer_style(icon) == 42 <==> (icon == CursorIcon::Wait || icon == CursorIcon::Progress),
        pointer_style(icon) == 26 <==> icon == CursorIcon::Text,
        pointer_style(icon) == 39 <==> icon == CursorIcon::VerticalText,
        pointer_style(icon) == 19 <==> icon == CursorIcon::Hand,
        pointer_style(icon) == 18 <==> icon == CursorIcon::Grab,
        pointer_style(icon) == 17 <==> icon == CursorIcon::Grabbing,
        pointer_style(icon) == 13 <==> icon == CursorIcon::Crosshair,
        pointer_style(icon) == 20 <==> icon == CursorIcon::Help,
        pointer_style(icon) == 21 <==> (icon == CursorIcon::Move || icon == CursorIcon::AllScroll),
        pointer_style(icon) == 15 <==> (icon == CursorIcon::NotAllowed || icon == CursorIcon::NoDrop),
        pointer_style(icon) == 14 <==> (icon == CursorIcon::Alias || icon == CursorIcon::Copy),
        pointer_style(icon) == 27 <==> icon == CursorIcon::ZoomIn,
        pointer_style(icon) == 28 <==> icon == CursorIcon::ZoomOut,
        pointer_style(icon) == 1 <==> icon == CursorIcon::EResize,
        pointer_style(icon) == 2 <==> icon == CursorIcon::WResize,
        pointer_style(icon) == 3 <==> icon == CursorIcon::SResize,
        pointer_style(icon) == 4 <==> icon == CursorIcon::NResize,
        pointer_style(icon) == 5 <==> (icon == CursorIcon::EwResize || icon == CursorIcon::ColResize),
        pointer_style(icon) == 6 <==> (icon == CursorIcon::NsResize || icon == CursorIcon::RowResize),
        pointer_style(icon) == 7 <==> icon == CursorIcon::NeResize,
        pointer_style(icon) == 8 <==> icon == CursorIcon::NwResize,
        pointer_style(icon) == 9 <==> icon == CursorIcon::SeResize,
        pointer_style(icon) == 10 <==> icon == CursorIcon::SwResize,
        pointer_style(icon) == 11 <==> icon == CursorIcon::NeswResize,
        pointer_style(icon) == 12 <==> icon == CursorIcon::NwseResize,
{
}

/// The `0xAARRGGBB` value of a color given as red, green, blue and alpha.
pub open spec fn argb(r: u8, g: u8, b: u8, a: u8) -> int {
    a * 0x100_0000 + r * 0x1_0000 + g * 0x100 + b
}

/// The OpenHarmony color of a window: transparent black when the window is
/// transparent, whatever the background; else the background packed as
/// `0xAARRGGBB`, if there is one.
pub open spec fn ohos_color(transparent: bool, bg: Option<(u8, u8, u8, u8)>) -> Option<u32> {
    if transparent {
        Some(0)
    } else {
        match bg {
            Some((r, g, b, a)) => Some(argb(r, g, b, a) as u32),
            None => None,
        }
    }
}

proof fn lemma_pack_argb(r: u8, g: u8, b: u8, a: u8)
    ensures
        ((a as u32) << 24u32) | ((r as u32) << 16u32) | ((g as u32) << 8u32) | (b as u32) == argb(
            r,
            g,
            b,
            a,
        ),
{
    assert(((a as u32) << 24u32) | ((r as u32) << 16u32) | ((g as u32) << 8u32) | (b as u32) == (
    a as u32) * 0x100_0000u32 + (r as u32) * 0x1_0000u32 + (g as u32) * 0x100u32 + (b as u32))
        by (bit_vector);
}

/// Converts an RGBA background to the OpenHarmony `0xAARRGGBB` color,
/// transparency taking priority over the background.
pub fn rgba_to_ohos_color(transparent: bool, bg: Option<(u8, u8, u8, u8)>) -> (c: Option<u32>)
    ensures
        c == ohos_color(transparent, bg),
{
    if transparent {
        Some(0x0000_0000)
    } else {
        match bg {
            Some((r, g, b, a)) => {
                proof {
                    lemma_pack_argb(r, g, b, a);
                }
                Some(((a as u32) << 24u32) | ((r as u32) << 16u32) | ((g as u32) << 8u32) | (b as u32))
            },
            None => None,
        }
    }
}

/// A window theme.
#[derive(Clone, Copy, Debug, PartialEq, Eq, Hash, Structural)]
pub enum Theme {
    Light,
    Dark,
}

/// The system color mode, as the platform configuration reports it.
#[derive(Clone, Copy, Debug, PartialEq, Eq, Hash, Structural)]
pub enum ColorMode {
    NoSet,
    Dark,
    Light,
}

/// The application-wide theme override: an explicit theme, or follow the
/// system.
#[derive(Clone, Copy, Debug, PartialEq, Eq, Hash, Structural)]
pub enum ThemeOverride {
    Light,
    Dark,
    Follow,
}

/// What setting a theme does: the override it records, and the color-mode
/// code it sends to the platform (Dark=0, Light=1, no preference=2).
#[derive(Clone, Copy, Debug, PartialEq, Eq, Hash, Structural)]
pub struct ThemeChange {
    pub theme_override: ThemeOverride,
    pub color_mode: i32,
}

/// The change that setting a theme makes: an explicit theme overrides the
/// system, none follows it.
pub open spec fn theme_change(theme: Option<Theme>) -> ThemeChange {
    match theme {
        Some(Theme::Dark) => ThemeChange { theme_override: ThemeOverride::Dark, color_mode: 0 },
        Some(Theme::Light) => ThemeChange { theme_override: ThemeOverride::Light, color_mode: 1 },
        None => ThemeChange { theme_override: ThemeOverride::Follow, color_mode: 2 },
    }
}

/// The theme in effect: the override, else Dark when the system is in dark
/// mode and Light otherwise (also before the system reported a mode).
pub open spec fn effective_theme(theme_override: ThemeOverride, system: ColorMode) -> Theme {
    match theme_override {
        ThemeOverride::Dark => Theme::Dark,
        ThemeOverride::Light => Theme::Light,
        ThemeOverride::Follow => if system == ColorMode::Dark {
            Theme::Dark
        } else {
            Theme::Light
        },
    }
}

/// The override and color-mode code that setting a theme gives.
pub fn set_theme(theme: Option<Theme>) -> (c: ThemeChange)
    ensures
        c == theme_change(theme),
{
    match theme {
        Some(Theme::Dark) => ThemeChange { theme_override: ThemeOverride::Dark, color_mode: 0 },
        Some(Theme::Light) => ThemeChange { theme_override: ThemeOverride::Light, color_mode: 1 },
        None => ThemeChange { theme_override: ThemeOverride::Follow, color_mode: 2 },
    }
}

/// The theme in effect under an override and a system color mode.
pub fn theme(theme_override: ThemeOverride, system: ColorMode) -> (t: Theme)
    ensures
        t == effective_theme(theme_override, system),
{
    match theme_override {
        ThemeOverride::Dark => Theme::Dark,
        ThemeOverride::Light => Theme::Light,
        ThemeOverride::Follow => match system {
            ColorMode::Dark => Theme::Dark,
            _ => Theme::Light,
        },
    }
}

/// Setting an explicit theme makes it the theme in effect, whatever mode the
/// system is in; clearing it makes the system's mode decide again.
pub proof fn law_set_theme_then_theme(t: Option<Theme>, system: ColorMode)
    ensures
        t matches Some(th) ==> effective_theme(theme_change(t).theme_override, system) == th,
        t is None ==> effective_theme(theme_change(t).theme_override, system) == (if system
            == ColorMode::Dark {
            Theme::Dark
        } else {
            Theme::Light
        }),
{
}

} // verus!
