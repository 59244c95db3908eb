use tao_ohos::geometry::{PhysicalPosition, PhysicalSize, Rect};
use tao_ohos::ids::{OHOSWindowKind, PlatformSpecificWindowBuilderAttributes, WindowId};
use tao_ohos::style::{ColorMode, CursorIcon, Theme, ThemeOverride};
use tao_ohos::window::{
    check_single_main_window, float_window_params, resolve_window_kind, ExternalError,
    window_id_for, ResizeDirection, Window, WindowCommand, WindowStatus, FLAG_ALL_DECORATIONS, WINDOW_TYPE_FLOAT,
};

fn main_window() -> Window {
    Window::new(OHOSWindowKind::UIAbility, Some(0), true, false, true)
}

fn float_window(id: i64) -> Window {
    Window::new(OHOSWindowKind::Float, Some(id), true, false, true)
}

fn rect(left: i32, top: i32, width: i32, height: i32) -> Rect {
    Rect { top, left, width, height }
}

#[test]
fn new_window_defaults() {
    let w = main_window();
    assert!(w.is_visible());
    assert!(!w.is_minimized() && !w.is_maximized() && !w.fullscreen() && !w.is_always_on_top());
    assert!(w.is_resizable() && w.is_minimizable() && w.is_maximizable() && w.is_closable());
    assert_eq!(w.decoration_flags, FLAG_ALL_DECORATIONS);
    assert_eq!(w.id(), WindowId(0));
    assert_eq!(Window::new(OHOSWindowKind::Float, None, true, false, true).id(), WindowId(0));
    assert_eq!(float_window(7).id(), WindowId(7));
    assert_eq!(w.title(), "");
}

#[test]
fn undecorated_main_window_hides_decorations_at_creation() {
    let w = Window::new(OHOSWindowKind::UIAbility, Some(0), false, false, true);
    assert_eq!(
        w.initial_command(),
        Some(WindowCommand::SetWindowDecorations { window_id: 0, decorations: false })
    );
    assert_eq!(main_window().initial_command(), None);
    let f = Window::new(OHOSWindowKind::Float, Some(3), false, false, true);
    assert_eq!(f.initial_command(), None);
}

#[test]
fn window_kind_resolution_and_single_main_window() {
    assert_eq!(resolve_window_kind(None, false), OHOSWindowKind::UIAbility);
    assert_eq!(resolve_window_kind(None, true), OHOSWindowKind::Float);
    assert_eq!(resolve_window_kind(Some(OHOSWindowKind::Float), false), OHOSWindowKind::Float);
    assert!(check_single_main_window(OHOSWindowKind::UIAbility, true).is_err());
    assert!(check_single_main_window(OHOSWindowKind::UIAbility, false).is_ok());
    assert!(check_single_main_window(OHOSWindowKind::Float, true).is_ok());
}

#[test]
fn float_params_defaults_and_label() {
    let p = float_window_params(&None, &"Title".to_string(), None, None, true, false, Some((1, 2, 3, 4)));
    assert_eq!(p.name, "Title");
    assert_eq!(p.window_type, WINDOW_TYPE_FLOAT);
    assert_eq!((p.width, p.height, p.x, p.y), (800, 600, 100, 100));
    assert_eq!(p.background_color, Some(0x04010203));
    let p = float_window_params(
        &Some("label".to_string()),
        &"Title".to_string(),
        Some((320, 240)),
        Some((5, 6)),
        false,
        true,
        Some((1, 2, 3, 4)),
    );
    assert_eq!(p.name, "label");
    assert_eq!((p.width, p.height, p.x, p.y), (320, 240, 5, 6));
    assert_eq!(p.background_color, Some(0));
    assert!(!p.decorations && p.transparent);
}

#[test]
fn builder_attributes() {
    let a = PlatformSpecificWindowBuilderAttributes::default();
    assert_eq!(a.ohos_window_kind(), None);
    let a = a.with_label("sub").with_window_kind(OHOSWindowKind::Float);
    assert_eq!(a.label.as_deref(), Some("sub"));
    assert_eq!(a.ohos_window_kind(), Some(OHOSWindowKind::Float));
}

#[test]
fn inner_size_subtracts_decor_for_main_window_only() {
    let w = main_window();
    assert_eq!(w.inner_size(rect(0, 0, 1000, 800), 146), PhysicalSize { width: 1000, height: 654 });
    assert_eq!(w.inner_size(rect(0, 0, 1000, 100), 146), PhysicalSize { width: 1000, height: 0 });
    assert_eq!(w.inner_size(rect(0, 0, 1000, 800), -5), PhysicalSize { width: 1000, height: 800 });
    let f = float_window(2);
    assert_eq!(f.inner_size(rect(0, 0, 1000, 800), 146), PhysicalSize { width: 1000, height: 800 });
}

#[test]
fn set_inner_size_compensates_and_round_trips() {
    let w = main_window();
    let c = w.set_inner_size(PhysicalSize { width: 1200, height: 700 }, 146, 500);
    assert_eq!(
        c,
        Some(WindowCommand::TrackedResize {
            window_id: 0,
            width: 1200,
            req_height: 700,
            outer_height: 846,
            pre_height: 500,
            decor_used: 146,
        })
    );
    // the window lands at the outer height: the inner size reads back as asked
    assert_eq!(w.inner_size(rect(0, 0, 1200, 846), 146).height, 700);
    let f = float_window(4);
    assert_eq!(
        f.set_inner_size(PhysicalSize { width: 10, height: 20 }, 146, 0),
        Some(WindowCommand::ResizeWindow { window_id: 4, width: 10, height: 20 })
    );
    // saturating
    assert!(matches!(
        w.set_inner_size(PhysicalSize { width: 1, height: u32::MAX }, 10, 0),
        Some(WindowCommand::TrackedResize { outer_height, .. }) if outer_height == u32::MAX as i64
    ));
}

#[test]
fn set_inner_size_refused_when_not_resizable() {
    let mut w = main_window();
    assert_eq!(
        w.set_resizable(false),
        Some(WindowCommand::SetWindowDecorationFlags { window_id: 0, flags: 7 })
    );
    assert!(!w.is_resizable());
    assert_eq!(w.set_inner_size(PhysicalSize { width: 1, height: 1 }, 0, 0), None);
}

#[test]
fn commands_need_a_ready_bridge_and_an_id() {
    let mut w = Window::new(OHOSWindowKind::UIAbility, Some(0), true, false, false);
    assert_eq!(w.set_title("x"), None);
    assert_eq!(w.set_minimized(true), None);
    assert!(w.is_minimized());
    let mut w = Window::new(OHOSWindowKind::Float, None, true, false, true);
    assert_eq!(w.set_maximized(true), None);
    assert!(w.is_maximized());
}

#[test]
fn positions_and_outer_size() {
    let main = main_window();
    assert_eq!(
        main.inner_position(rect(515, 451, 800, 600), rect(0, 0, 800, 454), 146),
        PhysicalPosition { x: 515, y: 597 }
    );
    let f = float_window(2);
    assert_eq!(
        f.inner_position(rect(10, 20, 800, 600), rect(1, 2, 800, 454), 146),
        PhysicalPosition { x: 11, y: 22 }
    );
    assert_eq!(main.outer_position(rect(3, 4, 5, 6)), PhysicalPosition { x: 3, y: 4 });
    assert_eq!(main.outer_size(rect(0, 0, 800, 600), rect(0, 0, 1, 2)), PhysicalSize { width: 800, height: 600 });
    assert_eq!(main.outer_size(rect(0, 0, 0, 0), rect(0, 0, 640, 480)), PhysicalSize { width: 640, height: 480 });
}

#[test]
fn size_limits_are_sent_together() {
    let mut w = float_window(5);
    let c1 = w.set_max_inner_size(Some(PhysicalSize { width: 1000, height: 900 }));
    assert_eq!(
        c1,
        Some(WindowCommand::SetWindowLimits { window_id: 5, min_width: 0, min_height: 0, max_width: 1000, max_height: 900 })
    );
    let c2 = w.set_min_inner_size(Some(PhysicalSize { width: 100, height: 50 }));
    assert_eq!(
        c2,
        Some(WindowCommand::SetWindowLimits { window_id: 5, min_width: 100, min_height: 50, max_width: 1000, max_height: 900 })
    );
    let c3 = w.set_max_inner_size(None);
    assert_eq!(
        c3,
        Some(WindowCommand::SetWindowLimits { window_id: 5, min_width: 100, min_height: 50, max_width: 0, max_height: 0 })
    );
}

#[test]
fn visibility_minimizes_and_restores() {
    let mut w = float_window(9);
    assert!(w.is_visible());
    assert_eq!(w.set_visible(false), Some(WindowCommand::MinimizeWindow { window_id: 9 }));
    assert!(w.is_minimized());
    assert!(!w.is_visible());
    assert_eq!(w.set_visible(true), Some(WindowCommand::RestoreAndShowWindow { window_id: 9 }));
    assert!(!w.is_minimized());
    assert!(w.is_visible());
}

#[test]
fn focus_only_for_sub_windows() {
    assert_eq!(main_window().set_focus(), None);
    assert_eq!(main_window().set_focusable(true), None);
    assert_eq!(float_window(3).set_focus(), Some(WindowCommand::FocusWindow { window_id: 3 }));
    assert_eq!(
        float_window(3).set_focusable(false),
        Some(WindowCommand::SetWindowFocusable { window_id: 3, focusable: false })
    );
}

#[test]
fn minimize_and_maximize_guards() {
    let mut w = float_window(2);
    w.set_minimizable(false);
    assert_eq!(w.set_minimized(true), None);
    assert!(!w.is_minimized());
    assert_eq!(w.set_minimized(false), Some(WindowCommand::RestoreWindow { window_id: 2 }));
    w.set_maximizable(false);
    assert_eq!(w.set_maximized(true), None);
    assert!(!w.is_maximized());
    w.set_maximizable(true);
    assert_eq!(w.set_maximized(true), Some(WindowCommand::MaximizeWindow { window_id: 2 }));
    assert_eq!(w.set_maximized(false), Some(WindowCommand::RecoverWindow { window_id: 2 }));
    assert!(w.is_resizable() && w.is_closable() && !w.is_minimizable());
    assert_eq!(w.set_closable(false), Some(WindowCommand::SetWindowDecorationFlags { window_id: 2, flags: 10 }));
}

#[test]
fn fullscreen_mirrors_maximized() {
    let mut w = float_window(2);
    assert_eq!(w.set_fullscreen(true), Some(WindowCommand::SetFullscreen { window_id: 2, on: true }));
    assert!(w.fullscreen() && w.is_maximized());
    w.set_fullscreen(false);
    assert!(!w.fullscreen() && !w.is_maximized());
}

#[test]
fn window_status_write_back() {
    let mut w = float_window(2);
    w.apply_window_status(1);
    assert!(w.is_visible() && w.fullscreen() && w.is_maximized() && !w.is_minimized());
    w.apply_window_status(3);
    assert!(!w.is_visible() && !w.fullscreen() && !w.is_maximized() && w.is_minimized());
    w.apply_window_status(2);
    assert!(w.is_visible() && !w.fullscreen() && w.is_maximized() && !w.is_minimized());
    w.apply_window_status(5);
    assert!(w.is_visible() && !w.fullscreen() && w.is_maximized());
    w.apply_window_status(4);
    assert!(w.is_visible() && !w.fullscreen() && !w.is_maximized() && !w.is_minimized());
    let before = w.clone();
    w.apply_window_status(0);
    w.apply_window_status(42);
    assert_eq!(w, before);
    assert_eq!(WindowStatus::from(5), WindowStatus::SplitScreen);
    assert_eq!(WindowStatus::from(-1), WindowStatus::Other);
}

#[test]
fn decorations_top_and_ime() {
    let mut w = float_window(6);
    assert_eq!(w.set_decorations(false), Some(WindowCommand::SetWindowDecorations { window_id: 6, decorations: false }));
    assert!(!w.is_decorated());
    assert_eq!(w.set_always_on_top(true), Some(WindowCommand::SetWindowTopmost { window_id: 6, topmost: true }));
    assert!(w.is_always_on_top());
    assert_eq!(
        w.set_ime_position(PhysicalPosition { x: -3, y: 8 }),
        Some(WindowCommand::SetImePosition { window_id: 6, x: -3, y: 8 })
    );
    assert_eq!(
        w.set_outer_position(PhysicalPosition { x: 1, y: 2 }),
        Some(WindowCommand::MoveWindowTo { window_id: 6, x: 1, y: 2 })
    );
    assert!(matches!(w.set_title("hi"), Some(WindowCommand::SetWindowTitle { window_id: 6, ref title }) if title == "hi"));
}

#[test]
fn cursor_operations() {
    let w = float_window(6);
    assert_eq!(w.set_cursor_icon(CursorIcon::Hand), Some(WindowCommand::SetCursorIcon { window_id: 6, style: 19 }));
    assert_eq!(w.set_cursor_grab(true, 21), Err(ExternalError::NotSupported));
    assert_eq!(w.set_cursor_grab(true, 22), Ok(WindowCommand::SetCursorGrab { window_id: 6, grab: true }));
    let no_id = Window::new(OHOSWindowKind::Float, None, true, false, true);
    assert_eq!(no_id.set_cursor_grab(false, 30), Err(ExternalError::NotSupported));
    assert_eq!(w.set_cursor_position(PhysicalPosition { x: 0, y: 0 }), Err(ExternalError::NotSupported));
    assert_eq!(w.set_ignore_cursor_events(true), Ok(WindowCommand::SetWindowTouchable { window_id: 6, touchable: false }));
    assert_eq!(no_id.set_ignore_cursor_events(true), Err(ExternalError::NotSupported));
    assert_eq!(w.set_cursor_visible(false), Some(WindowCommand::SetCursorVisible { visible: false }));
    let not_ready = Window::new(OHOSWindowKind::Float, Some(6), true, false, false);
    assert_eq!(not_ready.set_cursor_visible(false), None);
    assert_eq!(not_ready.set_ignore_cursor_events(false), Err(ExternalError::NotSupported));
}

#[test]
fn drags_attention_and_background() {
    let w = float_window(6);
    assert_eq!(w.drag_window(), Ok(()));
    assert_eq!(
        w.drag_resize_window(ResizeDirection::East),
        Ok(Some(WindowCommand::SetWindowDraggable { window_id: 6, draggable: true }))
    );
    assert_eq!(w.request_user_attention(), Some(WindowCommand::RequestUserAttention { window_id: 6 }));
    assert_eq!(
        w.set_background_color(Some((255, 0, 0, 255))),
        Some(WindowCommand::SetWindowBackgroundColor { window_id: 6, color: 0xFFFF0000 })
    );
    assert_eq!(
        w.set_background_color(None),
        Some(WindowCommand::SetWindowBackgroundColor { window_id: 6, color: 0xFFFFFFFF })
    );
    let t = Window::new(OHOSWindowKind::Float, Some(6), true, true, true);
    assert_eq!(t.set_background_color(Some((1, 2, 3, 4))), None);
}

#[test]
fn window_theme() {
    let w = main_window();
    assert_eq!(w.theme(ThemeOverride::Follow, ColorMode::Dark), Theme::Dark);
    assert_eq!(w.theme(ThemeOverride::Light, ColorMode::Dark), Theme::Light);
    assert_eq!(w.set_theme(Some(Theme::Dark)).color_mode, 0);
}

#[test]
fn main_window_gets_id_zero() {
    assert_eq!(window_id_for(OHOSWindowKind::UIAbility, None).ok(), Some(0));
    assert_eq!(window_id_for(OHOSWindowKind::UIAbility, Some(7)).ok(), Some(0));
    let id = window_id_for(OHOSWindowKind::UIAbility, None).ok();
    let w = Window::new(OHOSWindowKind::UIAbility, id, true, false, true);
    assert_eq!(w.window_id(), Some(0));
    assert_eq!(w.id(), WindowId(0));
}

#[test]
fn float_window_takes_created_id() {
    assert_eq!(window_id_for(OHOSWindowKind::Float, Some(12)).ok(), Some(12));
    assert!(window_id_for(OHOSWindowKind::Float, None).is_err());
}
