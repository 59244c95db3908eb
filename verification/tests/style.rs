use tao_ohos::ids::OsError;
use tao_ohos::style::{
    ohos_pointer_style, rgba_to_ohos_color, set_theme, theme, ColorMode, CursorIcon, Theme,
    ThemeOverride,
};

#[test]
fn rgba_to_ohos_color_transparent_returns_transparent_black() {
    assert_eq!(rgba_to_ohos_color(true, None), Some(0x00000000));
    assert_eq!(rgba_to_ohos_color(true, Some((255, 0, 0, 255))), Some(0x00000000));
}

#[test]
fn rgba_to_ohos_color_none_bg_returns_none() {
    assert_eq!(rgba_to_ohos_color(false, None), None);
}

#[test]
fn rgba_to_ohos_color_packs_argb() {
    assert_eq!(rgba_to_ohos_color(false, Some((255, 128, 0, 200))), Some(0xC8FF8000));
}

#[test]
fn rgba_to_ohos_color_opaque_white() {
    assert_eq!(rgba_to_ohos_color(false, Some((255, 255, 255, 255))), Some(0xFFFFFFFF));
}

#[test]
fn rgba_to_ohos_color_zero_alpha() {
    assert_eq!(rgba_to_ohos_color(false, Some((0, 0, 0, 0))), Some(0x00000000));
}

#[test]
fn os_error_display_writes_message() {
    assert_eq!(OsError.message(), "OpenHarmony OS Error");
    assert_eq!(format!("{:?}", OsError), "OsError"); // Debug derive
}

#[test]
fn rgba_to_ohos_color_each_channel_in_place() {
    assert_eq!(rgba_to_ohos_color(false, Some((0x12, 0x34, 0x56, 0x78))), Some(0x78123456));
}

#[test]
fn pointer_styles() {
    assert_eq!(ohos_pointer_style(CursorIcon::Default), 0);
    assert_eq!(ohos_pointer_style(CursorIcon::Cell), 0);
    assert_eq!(ohos_pointer_style(CursorIcon::Crosshair), 13);
    assert_eq!(ohos_pointer_style(CursorIcon::Hand), 19);
    assert_eq!(ohos_pointer_style(CursorIcon::AllScroll), 21);
    assert_eq!(ohos_pointer_style(CursorIcon::Text), 26);
    assert_eq!(ohos_pointer_style(CursorIcon::VerticalText), 39);
    assert_eq!(ohos_pointer_style(CursorIcon::Progress), 42);
    assert_eq!(ohos_pointer_style(CursorIcon::NoDrop), 15);
    assert_eq!(ohos_pointer_style(CursorIcon::Copy), 14);
    assert_eq!(ohos_pointer_style(CursorIcon::Grab), 18);
    assert_eq!(ohos_pointer_style(CursorIcon::Grabbing), 17);
    assert_eq!(ohos_pointer_style(CursorIcon::ZoomOut), 28);
    assert_eq!(ohos_pointer_style(CursorIcon::ColResize), 5);
    assert_eq!(ohos_pointer_style(CursorIcon::RowResize), 6);
    assert_eq!(ohos_pointer_style(CursorIcon::NwseResize), 12);
}

#[test]
fn explicit_theme_overrides_system() {
    let c = set_theme(Some(Theme::Dark));
    assert_eq!(c.theme_override, ThemeOverride::Dark);
    assert_eq!(c.color_mode, 0);
    assert_eq!(theme(c.theme_override, ColorMode::Light), Theme::Dark);
    let c = set_theme(Some(Theme::Light));
    assert_eq!(c.color_mode, 1);
    assert_eq!(theme(c.theme_override, ColorMode::Dark), Theme::Light);
}

#[test]
fn no_theme_follows_system() {
    let c = set_theme(None);
    assert_eq!(c.theme_override, ThemeOverride::Follow);
    assert_eq!(c.color_mode, 2);
    assert_eq!(theme(c.theme_override, ColorMode::Dark), Theme::Dark);
    assert_eq!(theme(c.theme_override, ColorMode::Light), Theme::Light);
    assert_eq!(theme(c.theme_override, ColorMode::NoSet), Theme::Light);
}
