//! The state mirror of one OpenHarmony window and the bridge commands that
//! its setters dispatch.
//!
//! The platform offers no synchronous query of a window's state, so the
//! window keeps a mirror: setters write the intent, and window-status events
//! write back what the system reports. A setter returns the bridge command
//! that the host must dispatch, if any: none when the window has no OS-level
//! id or the bridge is not ready.

use vstd::prelude::*;

use crate::geometry::{PhysicalPosition, PhysicalSize, Rect};
use crate::ids::{OHOSWindowKind, OsError, WindowId};
use crate::style::{
    effective_theme, ohos_color, pointer_style, set_theme, theme, ColorMode, CursorIcon, Theme,
    ThemeChange, ThemeOverride, ohos_pointer_style, rgba_to_ohos_color,
};

verus! {

/// Decoration button bit: the window can be closed.
pub const FLAG_CLOSABLE: u8 = 1;

/// Decoration button bit: the window can be maximized.
pub const FLAG_MAXIMIZABLE: u8 = 2;

/// Decoration button bit: the window can be minimized.
pub const FLAG_MINIMIZABLE: u8 = 4;

/// Decoration button bit: the window can be resized.
pub const FLAG_RESIZABLE: u8 = 8;

/// All decoration button bits.
pub const FLAG_ALL_DECORATIONS: u8 = 15;

/// The platform window type of a floating sub-window.
pub const WINDOW_TYPE_FLOAT: i32 = 8;

/// The platform window type given for the main window (none needed).
pub const WINDOW_TYPE_MAIN: i32 = 0;

/// The API level from which the cursor can be locked to a window.
pub const CURSOR_GRAB_MIN_API: u32 = 22;

/// Whether a value is one of the four decoration button bits.
pub open spec fn is_decoration_flag(flag: u8) -> bool {
    flag == FLAG_CLOSABLE || flag == FLAG_MAXIMIZABLE || flag == FLAG_MINIMIZABLE || flag
        == FLAG_RESIZABLE
}

/// Whether a decoration bit is set in a bitfield.
pub open spec fn has_flag(flags: u8, flag: u8) -> bool {
    (flags / flag) % 2 == 1
}

/// The bitfield with one decoration bit set (`on`) or cleared.
pub open spec fn with_flag(flags: u8, flag: u8, on: bool) -> u8 {
    if has_flag(flags, flag) == on {
        flags
    } else if on {
        (flags + flag) as u8
    } else {
        (flags - flag) as u8
    }
}

proof fn lemma_flag_ops(flags: u8, flag: u8)
    requires
        is_decoration_flag(flag),
    ensures
        (flags & flag != 0) == has_flag(flags, flag),
        flags | flag == with_flag(flags, flag, true),
        flags & !flag == with_flag(flags, flag, false),
{
    assert((flag == 1u8 || flag == 2u8 || flag == 4u8 || flag == 8u8) ==> ((flags & flag != 0) == ((
    flags / flag) % 2 == 1))) by (bit_vector);
    assert((flag == 1u8 || flag == 2u8 || flag == 4u8 || flag == 8u8) ==> (flags | flag == (if ((
    flags / flag) % 2 == 1) == true {
        flags
    } else {
        (flags + flag) as u8
    }))) by (bit_vector);
    assert((flag == 1u8 || flag == 2u8 || flag == 4u8 || flag == 8u8) ==> (flags & !flag == (if ((
    flags / flag) % 2 == 1) == false {
        flags
    } else {
        (flags - flag) as u8
    }))) by (bit_vector);
}

/// Whether a decoration bit is set.
fn flag_set(flags: u8, flag: u8) -> (r: bool)
    requires
        is_decoration_flag(flag),
    ensures
        r == has_flag(flags, flag),
{
    proof {
        lemma_flag_ops(flags, flag);
    }
    flags & flag != 0
}

/// Setting or clearing one decoration bit gives it the new value and keeps
/// every other decoration bit.
pub proof fn lemma_with_flag(flags: u8, flag: u8, other: u8, on: bool)
    requires
        is_decoration_flag(flag),
        is_decoration_flag(other),
    ensures
        has_flag(with_flag(flags, flag, on), flag) == on,
        other != flag ==> has_flag(with_flag(flags, flag, on), other) == has_flag(flags, other),
{
    assert((flag == 1u8 || flag == 2u8 || flag == 4u8 || flag == 8u8) && (other == 1u8 || other
        == 2u8 || other == 4u8 || other == 8u8) ==> {
        let w = if ((flags / flag) % 2 == 1) == on {
            flags
        } else if on {
            (flags + flag) as u8
        } else {
            (flags - flag) as u8
        };
        &&& ((w / flag) % 2 == 1) == on
        &&& other != flag ==> (((w / other) % 2 == 1) == ((flags / other) % 2 == 1))
    }) by (bit_vector);
}

/// The system status of a window, as `windowStatusChange` reports it.
#[derive(Clone, Copy, Debug, PartialEq, Eq, Structural)]
pub enum WindowStatus {
    FullScreen,
    Maximize,
    Minimize,
    Floating,
    SplitScreen,
    /// Undefined (`0`) or an unknown value.
    Other,
}

/// The status of a raw `WindowStatusType` value: 1 full screen, 2 maximized,
/// 3 minimized, 4 floating, 5 split screen.
pub open spec fn spec_window_status(value: i32) -> WindowStatus {
    if value == 1 {
        WindowStatus::FullScreen
    } else if value == 2 {
        WindowStatus::Maximize
    } else if value == 3 {
        WindowStatus::Minimize
    } else if value == 4 {
        WindowStatus::Floating
    } else if value == 5 {
        WindowStatus::SplitScreen
    } else {
        WindowStatus::Other
    }
}

impl From<i32> for WindowStatus {
    fn from(value: i32) -> (s: WindowStatus) {
        match value {
            1 => WindowStatus::FullScreen,
            2 => WindowStatus::Maximize,
            3 => WindowStatus::Minimize,
            4 => WindowStatus::Floating,
            5 => WindowStatus::SplitScreen,
            _ => WindowStatus::Other,
        }
    }
}

impl vstd::std_specs::convert::FromSpecImpl<i32> for WindowStatus {
    open spec fn obeys_from_spec() -> bool {
        true
    }

    open spec fn from_spec(value: i32) -> WindowStatus {
        spec_window_status(value)
    }
}

/// A direction of a drag-resize.
#[derive(Clone, Copy, Debug, PartialEq, Eq, Structural)]
pub enum ResizeDirection {
    East,
    North,
    NorthEast,
    NorthWest,
    South,
    SouthEast,
    SouthWest,
    West,
}

/// The error of an operation that the platform cannot perform.
#[derive(Clone, Copy, Debug, PartialEq, Eq, Structural)]
pub enum ExternalError {
    NotSupported,
}

/// A bridge call that a window setter asks the host to dispatch.
#[derive(Clone, Debug, PartialEq, Eq)]
pub enum WindowCommand {
    /// Resize to the outer size, without correction.
    ResizeWindow { window_id: i64, width: i64, height: i64 },
    /// Resize the main window to the outer size through its decor watcher,
    /// which corrects the height while the title-bar estimate converges.
    TrackedResize {
        window_id: i64,
        width: i64,
        req_height: i64,
        outer_height: i64,
        pre_height: i64,
        decor_used: i32,
    },
    MoveWindowTo { window_id: i64, x: i64, y: i64 },
    /// Set all four size limits at once (`0` means unlimited).
    SetWindowLimits {
        window_id: i64,
        min_width: i64,
        min_height: i64,
        max_width: i64,
        max_height: i64,
    },
    SetWindowTitle { window_id: i64, title: String },
    /// Restore, then show the window.
    RestoreAndShowWindow { window_id: i64 },
    MinimizeWindow { window_id: i64 },
    RestoreWindow { window_id: i64 },
    MaximizeWindow { window_id: i64 },
    /// Return from maximized or full screen to floating.
    RecoverWindow { window_id: i64 },
    FocusWindow { window_id: i64 },
    SetWindowFocusable { window_id: i64, focusable: bool },
    SetWindowDecorationFlags { window_id: i64, flags: i32 },
    SetFullscreen { window_id: i64, on: bool },
    SetWindowDecorations { window_id: i64, decorations: bool },
    SetWindowTopmost { window_id: i64, topmost: bool },
    SetImePosition { window_id: i64, x: i64, y: i64 },
    SetCursorIcon { window_id: i64, style: i32 },
    /// Resolve the real window id, then lock or unlock the cursor to it.
    SetCursorGrab { window_id: i64, grab: bool },
    RequestUserAttention { window_id: i64 },
    SetWindowTouchable { window_id: i64, touchable: bool },
    /// Show or hide the cursor (a global setting).
    SetCursorVisible { visible: bool },
    SetWindowDraggable { window_id: i64, draggable: bool },
    SetWindowBackgroundColor { window_id: i64, color: u32 },
}

/// The parameters of a new floating sub-window.
#[derive(Clone, Debug, PartialEq, Eq)]
pub struct WindowCreateParams {
    pub name: String,
    pub window_type: i32,
    pub width: i32,
    pub height: i32,
    pub x: i32,
    pub y: i32,
    pub decorations: bool,
    pub transparent: bool,
    pub background_color: Option<u32>,
}

/// The kind of a new window: the one asked for, else the main window while
/// none exists and a floating sub-window after that.
pub open spec fn spec_window_kind(requested: Option<OHOSWindowKind>, main_created: bool) -> OHOSWindowKind {
    match requested {
        Some(k) => k,
        None => if main_created {
            OHOSWindowKind::Float
        } else {
            OHOSWindowKind::UIAbility
        },
    }
}

/// Resolves the kind of a new window.
pub fn resolve_window_kind(requested: Option<OHOSWindowKind>, main_created: bool) -> (k: OHOSWindowKind)
    ensures
        k == spec_window_kind(requested, main_created),
{
    match requested {
        Some(k) => k,
        None => if main_created {
            OHOSWindowKind::Float
        } else {
            OHOSWindowKind::UIAbility
        },
    }
}

/// Whether creating a window of a kind is refused: a main window can be
/// created only if none was created before.
pub open spec fn creation_refused(kind: OHOSWindowKind, main_created_before: bool) -> bool {
    kind == OHOSWindowKind::UIAbility && main_created_before
}

/// Refuses a second main window.
pub fn check_single_main_window(kind: OHOSWindowKind, main_created_before: bool) -> (r: Result<(), OsError>)
    ensures
        r is Err <==> creation_refused(kind, main_created_before),
{
    if kind == OHOSWindowKind::UIAbility && main_created_before {
        Err(OsError)
    } else {
        Ok(())
    }
}

/// The parameters of a floating sub-window: named by its label, else its
/// title; sized and placed as asked (in physical pixels), else 800x600 at
/// (100, 100); with the background color that transparency allows.
pub fn float_window_params(
    label: &Option<String>,
    title: &String,
    inner_size: Option<(i32, i32)>,
    position: Option<(i32, i32)>,
    decorations: bool,
    transparent: bool,
    background_color: Option<(u8, u8, u8, u8)>,
) -> (p: WindowCreateParams)
    ensures
        p.name@ == (match label {
            Some(l) => l@,
            None => title@,
        }),
        p.window_type == WINDOW_TYPE_FLOAT,
        (p.width, p.height) == (match inner_size {
            Some(s) => s,
            None => (800i32, 600i32),
        }),
        (p.x, p.y) == (match position {
            Some(q) => q,
            None => (100i32, 100i32),
        }),
        p.decorations == decorations,
        p.transparent == transparent,
        p.background_color == ohos_color(transparent, background_color),
{
    let name = match label {
        Some(l) => l.clone(),
        None => title.clone(),
    };
    let (width, height) = match inner_size {
        Some(s) => s,
        None => (800, 600),
    };
    let (x, y) = match position {
        Some(q) => q,
        None => (100, 100),
    };
    WindowCreateParams {
        name,
        window_type: WINDOW_TYPE_FLOAT,
        width,
        height,
        x,
        y,
        decorations,
        transparent,
        background_color: rgba_to_ohos_color(transparent, background_color),
    }
}

/// The platform id of a new window: the main window reuses the ability's
/// container, whose id is 0; a floating sub-window has the id that creating
/// its OS-level window gave, and no id if that creation failed.
pub open spec fn spec_window_id(kind: OHOSWindowKind, created: Option<i64>) -> Option<i64> {
    match kind {
        OHOSWindowKind::UIAbility => Some(0),
        OHOSWindowKind::Float => created,
    }
}

/// Gives a new window its platform id; a floating sub-window whose OS-level
/// window could not be created is refused.
pub fn window_id_for(kind: OHOSWindowKind, created: Option<i64>) -> (r: Result<i64, OsError>)
    ensures
        match spec_window_id(kind, created) {
            Some(id) => r == Ok::<i64, OsError>(id),
            None => r is Err,
        },
{
    match kind {
        OHOSWindowKind::UIAbility => Ok(0),
        OHOSWindowKind::Float => match created {
            Some(id) => Ok(id),
            None => Err(OsError),
        },
    }
}

/// The title-bar inset subtracted from a window's outer height: none for a
/// floating sub-window (which draws its own title bar), else the cached
/// decor height, no less than zero.
pub open spec fn decor_inset(kind: OHOSWindowKind, decor_height: i32) -> u32 {
    if kind == OHOSWindowKind::Float {
        0
    } else if decor_height < 0 {
        0
    } else {
        decor_height as u32
    }
}

/// The outer height dispatched for a requested inner height: the inner
/// height plus the inset, saturating at `u32::MAX`.
pub open spec fn outer_height_for(kind: OHOSWindowKind, inner_height: u32, decor_height: i32) -> u32 {
    let h = inner_height + decor_inset(kind, decor_height);
    if h > u32::MAX {
        u32::MAX
    } else {
        h as u32
    }
}

/// The inner height of a window whose outer height is `rect_height`: the
/// outer height less the inset, no less than zero.
pub open spec fn inner_height_of(kind: OHOSWindowKind, rect_height: i32, decor_height: i32) -> u32 {
    let h = (rect_height as u32) - decor_inset(kind, decor_height);
    if h < 0 {
        0
    } else {
        h as u32
    }
}

/// Restoring a saved inner size gives it back: when the dispatched outer
/// height lands as the window's height and the sum did not saturate, the
/// inner height read back is the one requested, so save and restore cycles
/// neither grow nor shrink a window.
pub proof fn law_inner_size_round_trip(kind: OHOSWindowKind, h: u32, decor_height: i32, rect_height: i32)
    requires
        h + decor_inset(kind, decor_height) <= u32::MAX,
        rect_height as u32 == outer_height_for(kind, h, decor_height),
    ensures
        inner_height_of(kind, rect_height, decor_height) == h,
{
}

/// The mirror of one window's state.
#[derive(Clone, Debug, PartialEq, Eq, Structural)]
pub struct Window {
    /// The OS-level id: `0` for the main window, positive for a sub-window,
    /// none for a window without one.
    pub window_id: Option<i64>,
    pub kind: OHOSWindowKind,
    /// Whether the bridge to the platform's window operations is ready.
    pub bridge_ready: bool,
    pub maximized: bool,
    pub minimized: bool,
    pub decorations: bool,
    pub transparent: bool,
    pub visible: bool,
    pub fullscreen: bool,
    /// Intent only: the platform has no z-order query.
    pub always_on_top: bool,
    /// Decoration button bits (closable, maximizable, minimizable, resizable).
    pub decoration_flags: u8,
    pub min_inner_width: u32,
    pub min_inner_height: u32,
    pub max_inner_width: u32,
    pub max_inner_height: u32,
}

impl Window {
    /// The window id that bridge commands go to: the OS-level id, when the
    /// bridge is ready.
    pub open spec fn target(self) -> Option<i64> {
        if self.bridge_ready {
            self.window_id
        } else {
            None
        }
    }

    /// The window with the four status bits of its mirror written.
    pub open spec fn with_status(self, visible: bool, fullscreen: bool, maximized: bool, minimized: bool) -> Window {
        Window { visible, fullscreen, maximized, minimized, ..self }
    }

    /// The window after a raw status value is written back: full screen is
    /// visible, full screen and maximized; maximized is visible and
    /// maximized; minimized is only minimized; floating is only visible;
    /// split screen is visible and not full screen, the other bits kept; an
    /// unknown value changes nothing.
    pub open spec fn after_status(self, status: i32) -> Window {
        match spec_window_status(status) {
            WindowStatus::FullScreen => self.with_status(true, true, true, false),
            WindowStatus::Maximize => self.with_status(true, false, true, false),
            WindowStatus::Minimize => self.with_status(false, false, false, true),
            WindowStatus::Floating => self.with_status(true, false, false, false),
            WindowStatus::SplitScreen => Window { visible: true, fullscreen: false, ..self },
            WindowStatus::Other => self,
        }
    }

    /// A new window: visible, neither maximized, minimized, full screen nor
    /// on top, every decoration button enabled and no size limits.
    pub fn new(
        kind: OHOSWindowKind,
        window_id: Option<i64>,
        decorations: bool,
        transparent: bool,
        bridge_ready: bool,
    ) -> (w: Window)
        ensures
            w == (Window {
                window_id,
                kind,
                bridge_ready,
                maximized: false,
                minimized: false,
                decorations,
                transparent,
                visible: true,
                fullscreen: false,
                always_on_top: false,
                decoration_flags: FLAG_ALL_DECORATIONS,
                min_inner_width: 0,
                min_inner_height: 0,
                max_inner_width: 0,
                max_inner_height: 0,
            }),
    {
        Window {
            window_id,
            kind,
            bridge_ready,
            maximized: false,
            minimized: false,
            decorations,
            transparent,
            visible: true,
            fullscreen: false,
            always_on_top: false,
            decoration_flags: FLAG_ALL_DECORATIONS,
            min_inner_width: 0,
            min_inner_height: 0,
            max_inner_width: 0,
            max_inner_height: 0,
        }
    }

    /// The command that applies the builder's decorations at creation: a
    /// main window built without decorations hides them at once.
    pub fn initial_command(&self) -> (c: Option<WindowCommand>)
        ensures
            c == (if self.kind == OHOSWindowKind::UIAbility && !self.decorations && self.bridge_ready {
                Some(WindowCommand::SetWindowDecorations { window_id: 0, decorations: false })
            } else {
                None
            }),
    {
        if self.kind == OHOSWindowKind::UIAbility && !self.decorations && self.bridge_ready {
            Some(WindowCommand::SetWindowDecorations { window_id: 0, decorations: false })
        } else {
            None
        }
    }

    fn dispatch_target(&self) -> (t: Option<i64>)
        ensures
            t == self.target(),
    {
        if self.bridge_ready {
            self.window_id
        } else {
            None
        }
    }

    /// The window's id: its OS-level id, `0` without one.
    pub fn id(&self) -> (id: WindowId)
        ensures
            id.0 == (match self.window_id {
                Some(i) => i,
                None => 0,
            }),
    {
        match self.window_id {
            Some(i) => WindowId(i),
            None => WindowId(0),
        }
    }

    /// The OS-level id.
    pub fn window_id(&self) -> (id: Option<i64>)
        ensures
            id == self.window_id,
    {
        self.window_id
    }

    /// The title (the platform does not report one).
    pub fn title(&self) -> (t: String)
        ensures
            t@ == Seq::<char>::empty(),
    {
        String::new()
    }

    fn inset(&self, decor_height: i32) -> (d: u32)
        ensures
            d == decor_inset(self.kind, decor_height),
    {
        if self.kind == OHOSWindowKind::Float {
            0
        } else if decor_height < 0 {
            0
        } else {
            decor_height as u32
        }
    }

    /// The inner size of the window whose outer rectangle is `window_rect`:
    /// the outer width, and the outer height less the title-bar inset.
    pub fn inner_size(&self, window_rect: Rect, decor_height: i32) -> (s: PhysicalSize)
        ensures
            s.width == window_rect.width as u32,
            s.height == inner_height_of(self.kind, window_rect.height, decor_height),
    {
        let inset = self.inset(decor_height);
        PhysicalSize {
            width: window_rect.width as u32,
            height: (window_rect.height as u32).saturating_sub(inset),
        }
    }

    /// The position of the content area on screen: the window position plus
    /// the content offset, plus the cached title-bar height for the main
    /// window.
    pub fn inner_position(&self, window_rect: Rect, content_rect: Rect, decor_height: i32) -> (p: PhysicalPosition)
        requires
            i32::MIN <= window_rect.left + content_rect.left <= i32::MAX,
            i32::MIN <= window_rect.top + content_rect.top + (if self.kind == OHOSWindowKind::Float {
                0
            } else {
                decor_height as int
            }) <= i32::MAX,
        ensures
            p.x == window_rect.left + content_rect.left,
            p.y == window_rect.top + content_rect.top + (if self.kind == OHOSWindowKind::Float {
                0
            } else {
                decor_height as int
            }),
    {
        let decor = if self.kind == OHOSWindowKind::Float {
            0
        } else {
            decor_height as i64
        };
        let y = window_rect.top as i64 + content_rect.top as i64 + decor;
        PhysicalPosition { x: window_rect.left + content_rect.left, y: y as i32 }
    }

    /// The position of the window on screen.
    pub fn outer_position(&self, window_rect: Rect) -> (p: PhysicalPosition)
        ensures
            p.x == window_rect.left,
            p.y == window_rect.top,
    {
        PhysicalPosition { x: window_rect.left, y: window_rect.top }
    }

    /// The outer size: the window rectangle once the platform reported one
    /// (both sides positive), else the content rectangle.
    pub fn outer_size(&self, window_rect: Rect, content_rect: Rect) -> (s: PhysicalSize)
        ensures
            window_rect.width > 0 && window_rect.height > 0 ==> s == (PhysicalSize {
                width: window_rect.width as u32,
                height: window_rect.height as u32,
            }),
            !(window_rect.width > 0 && window_rect.height > 0) ==> s == (PhysicalSize {
                width: content_rect.width as u32,
                height: content_rect.height as u32,
            }),
    {
        if window_rect.width > 0 && window_rect.height > 0 {
            PhysicalSize { width: window_rect.width as u32, height: window_rect.height as u32 }
        } else {
            PhysicalSize { width: content_rect.width as u32, height: content_rect.height as u32 }
        }
    }

    /// Resizes to an inner size (physical pixels). Refused while the window
    /// is not resizable. The dispatched outer height adds the title-bar
    /// inset; a floating sub-window is resized directly, the main window
    /// through its decor watcher, from its current height `current_height`.
    pub fn set_inner_size(&self, size: PhysicalSize, decor_height: i32, current_height: i32) -> (c: Option<WindowCommand>)
        ensures
            !has_flag(self.decoration_flags, FLAG_RESIZABLE) ==> c is None,
            has_flag(self.decoration_flags, FLAG_RESIZABLE) ==> c == (match self.target() {
                None => None,
                Some(id) => if self.kind == OHOSWindowKind::Float {
                    Some(
                        WindowCommand::ResizeWindow {
                            window_id: id,
                            width: size.width as i64,
                            height: outer_height_for(self.kind, size.height, decor_height) as i64,
                        },
                    )
                } else {
                    Some(
                        WindowCommand::TrackedResize {
                            window_id: id,
                            width: size.width as i64,
                            req_height: size.height as i64,
                            outer_height: outer_height_for(self.kind, size.height, decor_height) as i64,
                            pre_height: current_height as i64,
                            decor_used: decor_inset(self.kind, decor_height) as i32,
                        },
                    )
                },
            }),
    {
        if !flag_set(self.decoration_flags, FLAG_RESIZABLE) {
            return None;
        }
        let inset = self.inset(decor_height);
        let outer_height = size.height.saturating_add(inset);
        match self.dispatch_target() {
            None => None,
            Some(id) => {
                if self.kind == OHOSWindowKind::Float {
                    Some(
                        WindowCommand::ResizeWindow {
                            window_id: id,
                            width: size.width as i64,
                            height: outer_height as i64,
                        },
                    )
                } else {
                    Some(
                        WindowCommand::TrackedResize {
                            window_id: id,
                            width: size.width as i64,
                            req_height: size.height as i64,
                            outer_height: outer_height as i64,
                            pre_height: current_height as i64,
                            decor_used: inset as i32,
                        },
                    )
                }
            },
        }
    }
}

impl Window {
    /// Moves the window to a position (physical pixels).
    pub fn set_outer_position(&self, position: PhysicalPosition) -> (c: Option<WindowCommand>)
        ensures
            c == (match self.target() {
                Some(id) => Some(
                    WindowCommand::MoveWindowTo {
                        window_id: id,
                        x: position.x as i64,
                        y: position.y as i64,
                    },
                ),
                None => None,
            }),
    {
        match self.dispatch_target() {
            Some(id) => Some(
                WindowCommand::MoveWindowTo { window_id: id, x: position.x as i64, y: position.y as i64 },
            ),
            None => None,
        }
    }

    /// The window with its minimum inner size recorded (`0` for none).
    pub open spec fn with_min_inner_size(self, size: Option<PhysicalSize>) -> Window {
        match size {
            Some(s) => Window { min_inner_width: s.width, min_inner_height: s.height, ..self },
            None => Window { min_inner_width: 0, min_inner_height: 0, ..self },
        }
    }

    /// The window with its maximum inner size recorded (`0` for none).
    pub open spec fn with_max_inner_size(self, size: Option<PhysicalSize>) -> Window {
        match size {
            Some(s) => Window { max_inner_width: s.width, max_inner_height: s.height, ..self },
            None => Window { max_inner_width: 0, max_inner_height: 0, ..self },
        }
    }

    /// The command that sends all four size limits as the mirror holds them.
    pub open spec fn limits_command(self) -> Option<WindowCommand> {
        match self.target() {
            Some(id) => Some(
                WindowCommand::SetWindowLimits {
                    window_id: id,
                    min_width: self.min_inner_width as i64,
                    min_height: self.min_inner_height as i64,
                    max_width: self.max_inner_width as i64,
                    max_height: self.max_inner_height as i64,
                },
            ),
            None => None,
        }
    }

    fn limits(&self) -> (c: Option<WindowCommand>)
        ensures
            c == self.limits_command(),
    {
        match self.dispatch_target() {
            Some(id) => Some(
                WindowCommand::SetWindowLimits {
                    window_id: id,
                    min_width: self.min_inner_width as i64,
                    min_height: self.min_inner_height as i64,
                    max_width: self.max_inner_width as i64,
                    max_height: self.max_inner_height as i64,
                },
            ),
            None => None,
        }
    }

    /// Sets the minimum inner size (physical pixels; none for no limit). The
    /// platform sets all four limits at once, so the command also carries
    /// the maximum that the mirror holds.
    pub fn set_min_inner_size(&mut self, size: Option<PhysicalSize>) -> (c: Option<WindowCommand>)
        ensures
            *final(self) == old(self).with_min_inner_size(size),
            c == final(self).limits_command(),
    {
        let (w, h) = match size {
            Some(s) => (s.width, s.height),
            None => (0, 0),
        };
        self.min_inner_width = w;
        self.min_inner_height = h;
        self.limits()
    }

    /// Sets the maximum inner size (physical pixels; none for no limit). The
    /// command also carries the minimum that the mirror holds.
    pub fn set_max_inner_size(&mut self, size: Option<PhysicalSize>) -> (c: Option<WindowCommand>)
        ensures
            *final(self) == old(self).with_max_inner_size(size),
            c == final(self).limits_command(),
    {
        let (w, h) = match size {
            Some(s) => (s.width, s.height),
            None => (0, 0),
        };
        self.max_inner_width = w;
        self.max_inner_height = h;
        self.limits()
    }

    /// Sets the title.
    pub fn set_title(&self, title: &str) -> (c: Option<WindowCommand>)
        ensures
            match self.target() {
                Some(id) => c matches Some(WindowCommand::SetWindowTitle { window_id, title: t })
                    && window_id == id && t@ == title@,
                None => c is None,
            },
    {
        match self.dispatch_target() {
            Some(id) => Some(WindowCommand::SetWindowTitle { window_id: id, title: title.to_owned() }),
            None => None,
        }
    }

    /// Shows or hides the window. The platform cannot hide a window, so
    /// hiding minimizes it and showing restores and shows it. The requested
    /// visibility is written into the visible mirror (status events write the
    /// truth later) and the minimized mirror follows. Nothing happens without
    /// a dispatch target.
    pub fn set_visible(&mut self, visible: bool) -> (c: Option<WindowCommand>)
        ensures
            match old(self).target() {
                Some(id) => {
                    &&& *final(self) == (Window { visible, minimized: !visible, ..*old(self) })
                    &&& c == Some(
                        if visible {
                            WindowCommand::RestoreAndShowWindow { window_id: id }
                        } else {
                            WindowCommand::MinimizeWindow { window_id: id }
                        },
                    )
                },
                None => *final(self) == *old(self) && c is None,
            },
    {
        match self.dispatch_target() {
            Some(id) => {
                self.visible = visible;
                self.minimized = !visible;
                if visible {
                    Some(WindowCommand::RestoreAndShowWindow { window_id: id })
                } else {
                    Some(WindowCommand::MinimizeWindow { window_id: id })
                }
            },
            None => None,
        }
    }

    /// Focuses a sub-window; the main window's focus is the system's.
    pub fn set_focus(&self) -> (c: Option<WindowCommand>)
        ensures
            c == (match self.target() {
                Some(id) => if id > 0 {
                    Some(WindowCommand::FocusWindow { window_id: id })
                } else {
                    None
                },
                None => None,
            }),
    {
        match self.dispatch_target() {
            Some(id) => if id > 0 {
                Some(WindowCommand::FocusWindow { window_id: id })
            } else {
                None
            },
            None => None,
        }
    }

    /// Makes a sub-window focusable or not; the main window's is the system's.
    pub fn set_focusable(&self, focusable: bool) -> (c: Option<WindowCommand>)
        ensures
            c == (match self.target() {
                Some(id) => if id > 0 {
                    Some(WindowCommand::SetWindowFocusable { window_id: id, focusable })
                } else {
                    None
                },
                None => None,
            }),
    {
        match self.dispatch_target() {
            Some(id) => if id > 0 {
                Some(WindowCommand::SetWindowFocusable { window_id: id, focusable })
            } else {
                None
            },
            None => None,
        }
    }

    /// Whether the window was asked to stay on top.
    pub fn is_always_on_top(&self) -> (r: bool)
        ensures
            r == self.always_on_top,
    {
        self.always_on_top
    }

    /// Sets or clears one decoration bit and sends the whole bitfield.
    fn set_decoration_flag(&mut self, flag: u8, on: bool) -> (c: Option<WindowCommand>)
        requires
            is_decoration_flag(flag),
        ensures
            *final(self) == (Window {
                decoration_flags: with_flag(old(self).decoration_flags, flag, on),
                ..*old(self)
            }),
            c == (match old(self).target() {
                Some(id) => Some(
                    WindowCommand::SetWindowDecorationFlags {
                        window_id: id,
                        flags: with_flag(old(self).decoration_flags, flag, on) as i32,
                    },
                ),
                None => None,
            }),
    {
        proof {
            lemma_flag_ops(self.decoration_flags, flag);
        }
        let flags = if on {
            self.decoration_flags | flag
        } else {
            self.decoration_flags & !flag
        };
        self.decoration_flags = flags;
        match self.dispatch_target() {
            Some(id) => Some(WindowCommand::SetWindowDecorationFlags { window_id: id, flags: flags as i32 }),
            None => None,
        }
    }

    /// Shows or hides the resize decoration; also allows or refuses resizes.
    pub fn set_resizable(&mut self, resizable: bool) -> (c: Option<WindowCommand>)
        ensures
            *final(self) == (Window {
                decoration_flags: with_flag(old(self).decoration_flags, FLAG_RESIZABLE, resizable),
                ..*old(self)
            }),
            c == (match old(self).target() {
                Some(id) => Some(
                    WindowCommand::SetWindowDecorationFlags {
                        window_id: id,
                        flags: with_flag(old(self).decoration_flags, FLAG_RESIZABLE, resizable) as i32,
                    },
                ),
                None => None,
            }),
    {
        self.set_decoration_flag(FLAG_RESIZABLE, resizable)
    }

    /// Shows or hides the minimize button; also allows or refuses minimizing.
    pub fn set_minimizable(&mut self, minimizable: bool) -> (c: Option<WindowCommand>)
        ensures
            *final(self) == (Window {
                decoration_flags: with_flag(old(self).decoration_flags, FLAG_MINIMIZABLE, minimizable),
                ..*old(self)
            }),
            c == (match old(self).target() {
                Some(id) => Some(
                    WindowCommand::SetWindowDecorationFlags {
                        window_id: id,
                        flags: with_flag(old(self).decoration_flags, FLAG_MINIMIZABLE, minimizable)
                            as i32,
                    },
                ),
                None => None,
            }),
    {
        self.set_decoration_flag(FLAG_MINIMIZABLE, minimizable)
    }

    /// Shows or hides the maximize button; also allows or refuses maximizing.
    pub fn set_maximizable(&mut self, maximizable: bool) -> (c: Option<WindowCommand>)
        ensures
            *final(self) == (Window {
                decoration_flags: with_flag(old(self).decoration_flags, FLAG_MAXIMIZABLE, maximizable),
                ..*old(self)
            }),
            c == (match old(self).target() {
                Some(id) => Some(
                    WindowCommand::SetWindowDecorationFlags {
                        window_id: id,
                        flags: with_flag(old(self).decoration_flags, FLAG_MAXIMIZABLE, maximizable)
                            as i32,
                    },
                ),
                None => None,
            }),
    {
        self.set_decoration_flag(FLAG_MAXIMIZABLE, maximizable)
    }

    /// Shows or hides the close button.
    pub fn set_closable(&mut self, closable: bool) -> (c: Option<WindowCommand>)
        ensures
            *final(self) == (Window {
                decoration_flags: with_flag(old(self).decoration_flags, FLAG_CLOSABLE, closable),
                ..*old(self)
            }),
            c == (match old(self).target() {
                Some(id) => Some(
                    WindowCommand::SetWindowDecorationFlags {
                        window_id: id,
                        flags: with_flag(old(self).decoration_flags, FLAG_CLOSABLE, closable) as i32,
                    },
                ),
                None => None,
            }),
    {
        self.set_decoration_flag(FLAG_CLOSABLE, closable)
    }

    /// Minimizes or restores the window. Minimizing is refused while the
    /// window is not minimizable; otherwise the mirror takes the intent
    /// before the command goes out.
    pub fn set_minimized(&mut self, minimized: bool) -> (c: Option<WindowCommand>)
        ensures
            minimized && !has_flag(old(self).decoration_flags, FLAG_MINIMIZABLE) ==> *final(self)
                == *old(self) && c is None,
            !(minimized && !has_flag(old(self).decoration_flags, FLAG_MINIMIZABLE)) ==> {
                &&& *final(self) == (Window { minimized, ..*old(self) })
                &&& c == (match old(self).target() {
                    Some(id) => Some(
                        if minimized {
                            WindowCommand::MinimizeWindow { window_id: id }
                        } else {
                            WindowCommand::RestoreWindow { window_id: id }
                        },
                    ),
                    None => None,
                })
            },
    {
        if minimized && !flag_set(self.decoration_flags, FLAG_MINIMIZABLE) {
            return None;
        }
        self.minimized = minimized;
        match self.dispatch_target() {
            Some(id) => Some(
                if minimized {
                    WindowCommand::MinimizeWindow { window_id: id }
                } else {
                    WindowCommand::RestoreWindow { window_id: id }
                },
            ),
            None => None,
        }
    }

    /// Whether the mirror holds the window minimized.
    pub fn is_minimized(&self) -> (r: bool)
        ensures
            r == self.minimized,
    {
        self.minimized
    }

    /// Maximizes or un-maximizes the window. Maximizing is refused while the
    /// window is not maximizable; otherwise the mirror takes the intent.
    pub fn set_maximized(&mut self, maximized: bool) -> (c: Option<WindowCommand>)
        ensures
            maximized && !has_flag(old(self).decoration_flags, FLAG_MAXIMIZABLE) ==> *final(self)
                == *old(self) && c is None,
            !(maximized && !has_flag(old(self).decoration_flags, FLAG_MAXIMIZABLE)) ==> {
                &&& *final(self) == (Window { maximized, ..*old(self) })
                &&& c == (match old(self).target() {
                    Some(id) => Some(
                        if maximized {
                            WindowCommand::MaximizeWindow { window_id: id }
                        } else {
                            WindowCommand::RecoverWindow { window_id: id }
                        },
                    ),
                    None => None,
                })
            },
    {
        if maximized && !flag_set(self.decoration_flags, FLAG_MAXIMIZABLE) {
            return None;
        }
        self.maximized = maximized;
        match self.dispatch_target() {
            Some(id) => Some(
                if maximized {
                    WindowCommand::MaximizeWindow { window_id: id }
                } else {
                    WindowCommand::RecoverWindow { window_id: id }
                },
            ),
            None => None,
        }
    }

    /// Whether the mirror holds the window maximized.
    pub fn is_maximized(&self) -> (r: bool)
        ensures
            r == self.maximized,
    {
        self.maximized
    }

    /// Enters or leaves full screen (`on` is whether a full-screen mode was
    /// asked for). Full screen implies maximized, so both mirror bits follow.
    pub fn set_fullscreen(&mut self, on: bool) -> (c: Option<WindowCommand>)
        ensures
            *final(self) == (Window { fullscreen: on, maximized: on, ..*old(self) }),
            c == (match old(self).target() {
                Some(id) => Some(WindowCommand::SetFullscreen { window_id: id, on }),
                None => None,
            }),
    {
        self.fullscreen = on;
        self.maximized = on;
        match self.dispatch_target() {
            Some(id) => Some(WindowCommand::SetFullscreen { window_id: id, on }),
            None => None,
        }
    }

    /// Whether the mirror holds the window full screen (borderless, on no
    /// particular monitor).
    pub fn fullscreen(&self) -> (r: bool)
        ensures
            r == self.fullscreen,
    {
        self.fullscreen
    }

    /// Writes back a raw window status that the system reported.
    pub fn apply_window_status(&mut self, status: i32)
        ensures
            *final(self) == old(self).after_status(status),
    {
        match WindowStatus::from(status) {
            WindowStatus::FullScreen => {
                self.visible = true;
                self.fullscreen = true;
                self.maximized = true;
                self.minimized = false;
            },
            WindowStatus::Maximize => {
                self.visible = true;
                self.fullscreen = false;
                self.maximized = true;
                self.minimized = false;
            },
            WindowStatus::Minimize => {
                self.visible = false;
                self.fullscreen = false;
                self.maximized = false;
                self.minimized = true;
            },
            WindowStatus::Floating => {
                self.visible = true;
                self.fullscreen = false;
                self.maximized = false;
                self.minimized = false;
            },
            WindowStatus::SplitScreen => {
                self.visible = true;
                self.fullscreen = false;
            },
            WindowStatus::Other => {},
        }
    }

    /// Shows or hides the title bar.
    pub fn set_decorations(&mut self, decorations: bool) -> (c: Option<WindowCommand>)
        ensures
            *final(self) == (Window { decorations, ..*old(self) }),
            c == (match old(self).target() {
                Some(id) => Some(WindowCommand::SetWindowDecorations { window_id: id, decorations }),
                None => None,
            }),
    {
        self.decorations = decorations;
        match self.dispatch_target() {
            Some(id) => Some(WindowCommand::SetWindowDecorations { window_id: id, decorations }),
            None => None,
        }
    }

    /// Asks the window to stay on top (or not); the mirror records the intent.
    pub fn set_always_on_top(&mut self, always_on_top: bool) -> (c: Option<WindowCommand>)
        ensures
            *final(self) == (Window { always_on_top, ..*old(self) }),
            c == (match old(self).target() {
                Some(id) => Some(WindowCommand::SetWindowTopmost { window_id: id, topmost: always_on_top }),
                None => None,
            }),
    {
        self.always_on_top = always_on_top;
        match self.dispatch_target() {
            Some(id) => Some(WindowCommand::SetWindowTopmost { window_id: id, topmost: always_on_top }),
            None => None,
        }
    }

    /// Places the input-method candidate window (physical pixels).
    pub fn set_ime_position(&self, position: PhysicalPosition) -> (c: Option<WindowCommand>)
        ensures
            c == (match self.target() {
                Some(id) => Some(
                    WindowCommand::SetImePosition {
                        window_id: id,
                        x: position.x as i64,
                        y: position.y as i64,
                    },
                ),
                None => None,
            }),
    {
        match self.dispatch_target() {
            Some(id) => Some(
                WindowCommand::SetImePosition { window_id: id, x: position.x as i64, y: position.y as i64 },
            ),
            None => None,
        }
    }

    /// Whether the title bar is shown.
    pub fn is_decorated(&self) -> (r: bool)
        ensures
            r == self.decorations,
    {
        self.decorations
    }

    /// Whether the mirror holds the window visible.
    pub fn is_visible(&self) -> (r: bool)
        ensures
            r == self.visible,
    {
        self.visible
    }

    /// Whether the resize decoration is enabled.
    pub fn is_resizable(&self) -> (r: bool)
        ensures
            r == has_flag(self.decoration_flags, FLAG_RESIZABLE),
    {
        flag_set(self.decoration_flags, FLAG_RESIZABLE)
    }

    /// Whether the minimize button is enabled.
    pub fn is_minimizable(&self) -> (r: bool)
        ensures
            r == has_flag(self.decoration_flags, FLAG_MINIMIZABLE),
    {
        flag_set(self.decoration_flags, FLAG_MINIMIZABLE)
    }

    /// Whether the maximize button is enabled.
    pub fn is_maximizable(&self) -> (r: bool)
        ensures
            r == has_flag(self.decoration_flags, FLAG_MAXIMIZABLE),
    {
        flag_set(self.decoration_flags, FLAG_MAXIMIZABLE)
    }

    /// Whether the close button is enabled.
    pub fn is_closable(&self) -> (r: bool)
        ensures
            r == has_flag(self.decoration_flags, FLAG_CLOSABLE),
    {
        flag_set(self.decoration_flags, FLAG_CLOSABLE)
    }

    /// Sets the cursor icon, as the matching pointer style.
    pub fn set_cursor_icon(&self, icon: CursorIcon) -> (c: Option<WindowCommand>)
        ensures
            c == (match self.target() {
                Some(id) => Some(WindowCommand::SetCursorIcon { window_id: id, style: pointer_style(icon) }),
                None => None,
            }),
    {
        let style = ohos_pointer_style(icon);
        match self.dispatch_target() {
            Some(id) => Some(WindowCommand::SetCursorIcon { window_id: id, style }),
            None => None,
        }
    }

    /// Locks the cursor to the window (or unlocks it). Not supported below
    /// API level 22, for a window without an OS-level id, or while the
    /// bridge is not ready.
    pub fn set_cursor_grab(&self, grab: bool, sdk_api_version: u32) -> (r: Result<WindowCommand, ExternalError>)
        ensures
            sdk_api_version < CURSOR_GRAB_MIN_API || self.target() is None ==> r == Err::<
                WindowCommand,
                ExternalError,
            >(ExternalError::NotSupported),
            !(sdk_api_version < CURSOR_GRAB_MIN_API || self.target() is None) ==> r == Ok::<
                WindowCommand,
                ExternalError,
            >(WindowCommand::SetCursorGrab { window_id: self.window_id->0, grab }),
    {
        if sdk_api_version < CURSOR_GRAB_MIN_API {
            return Err(ExternalError::NotSupported);
        }
        match self.dispatch_target() {
            Some(id) => Ok(WindowCommand::SetCursorGrab { window_id: id, grab }),
            None => Err(ExternalError::NotSupported),
        }
    }

    /// Asks for the user's attention (through a notification).
    pub fn request_user_attention(&self) -> (c: Option<WindowCommand>)
        ensures
            c == (match self.target() {
                Some(id) => Some(WindowCommand::RequestUserAttention { window_id: id }),
                None => None,
            }),
    {
        match self.dispatch_target() {
            Some(id) => Some(WindowCommand::RequestUserAttention { window_id: id }),
            None => None,
        }
    }

    /// Moving the cursor is not supported.
    pub fn set_cursor_position(&self, position: PhysicalPosition) -> (r: Result<(), ExternalError>)
        ensures
            r == Err::<(), ExternalError>(ExternalError::NotSupported),
    {
        Err(ExternalError::NotSupported)
    }

    /// Lets mouse and touch events pass through the window (or not): the
    /// window becomes untouchable while events are ignored. Not supported
    /// for a window without an OS-level id or while the bridge is not ready.
    pub fn set_ignore_cursor_events(&self, ignore: bool) -> (r: Result<WindowCommand, ExternalError>)
        ensures
            r == (match self.target() {
                Some(id) => Ok(WindowCommand::SetWindowTouchable { window_id: id, touchable: !ignore }),
                None => Err(ExternalError::NotSupported),
            }),
    {
        match self.dispatch_target() {
            Some(id) => Ok(WindowCommand::SetWindowTouchable { window_id: id, touchable: !ignore }),
            None => Err(ExternalError::NotSupported),
        }
    }

    /// Shows or hides the cursor; this needs the bridge only.
    pub fn set_cursor_visible(&self, visible: bool) -> (c: Option<WindowCommand>)
        ensures
            c == (if self.bridge_ready {
                Some(WindowCommand::SetCursorVisible { visible })
            } else {
                None
            }),
    {
        if self.bridge_ready {
            Some(WindowCommand::SetCursorVisible { visible })
        } else {
            None
        }
    }

    /// Dragging is started by the window's own title bar, so asking for it
    /// does nothing and succeeds.
    pub fn drag_window(&self) -> (r: Result<(), ExternalError>)
        ensures
            r is Ok,
    {
        Ok(())
    }

    /// A directional drag-resize cannot be started; asking for one enables
    /// edge dragging instead, and always succeeds.
    pub fn drag_resize_window(&self, direction: ResizeDirection) -> (r: Result<Option<WindowCommand>, ExternalError>)
        ensures
            r == Ok::<Option<WindowCommand>, ExternalError>(
                match self.target() {
                    Some(id) => Some(WindowCommand::SetWindowDraggable { window_id: id, draggable: true }),
                    None => None,
                },
            ),
    {
        match self.dispatch_target() {
            Some(id) => Ok(Some(WindowCommand::SetWindowDraggable { window_id: id, draggable: true })),
            None => Ok(None),
        }
    }

    /// Sets the background color; a transparent window keeps no background,
    /// and no color means opaque white.
    pub fn set_background_color(&self, color: Option<(u8, u8, u8, u8)>) -> (c: Option<WindowCommand>)
        ensures
            self.transparent ==> c is None,
            !self.transparent ==> c == (match self.target() {
                Some(id) => Some(
                    WindowCommand::SetWindowBackgroundColor {
                        window_id: id,
                        color: match ohos_color(false, color) {
                            Some(v) => v,
                            None => 0xFFFF_FFFFu32,
                        },
                    },
                ),
                None => None,
            }),
    {
        if self.transparent {
            return None;
        }
        let value = match rgba_to_ohos_color(false, color) {
            Some(v) => v,
            None => 0xFFFF_FFFF,
        };
        match self.dispatch_target() {
            Some(id) => Some(WindowCommand::SetWindowBackgroundColor { window_id: id, color: value }),
            None => None,
        }
    }

    /// The theme in effect under the application's override and the
    /// system's color mode.
    pub fn theme(&self, theme_override: ThemeOverride, system: ColorMode) -> (t: Theme)
        ensures
            t == effective_theme(theme_override, system),
    {
        theme(theme_override, system)
    }

    /// The override to record and the color mode to send when setting a
    /// theme.
    pub fn set_theme(&self, theme: Option<Theme>) -> (c: ThemeChange)
        ensures
            c == crate::style::theme_change(theme),
    {
        set_theme(theme)
    }
}

/// The limits of a size, `0` for none.
pub open spec fn limit_of(size: Option<PhysicalSize>) -> (u32, u32) {
    match size {
        Some(s) => (s.width, s.height),
        None => (0, 0),
    }
}

/// Size limits are not lost to each other: whichever of the minimum and the
/// maximum is set last, the command it sends carries both.
pub proof fn law_size_limits_kept(w: Window, min: Option<PhysicalSize>, max: Option<PhysicalSize>)
    ensures
        w.with_min_inner_size(min).with_max_inner_size(max).limits_command() == (match w.target() {
            Some(id) => Some(
                WindowCommand::SetWindowLimits {
                    window_id: id,
                    min_width: limit_of(min).0 as i64,
                    min_height: limit_of(min).1 as i64,
                    max_width: limit_of(max).0 as i64,
                    max_height: limit_of(max).1 as i64,
                },
            ),
            None => None,
        }),
        w.with_max_inner_size(max).with_min_inner_size(min).limits_command() == w.with_min_inner_size(
            min,
        ).with_max_inner_size(max).limits_command(),
{
}

/// A status written back twice leaves the mirror as writing it once: a
/// write-back states what is, and does not toggle.
pub proof fn law_status_idempotent(w: Window, status: i32)
    ensures
        w.after_status(status).after_status(status) == w.after_status(status),
{
}

/// A write-back of a floating status clears whatever the setters had
/// recorded of full screen, maximized and minimized.
pub proof fn law_floating_status_clears_modes(w: Window)
    ensures
        w.after_status(4).visible,
        !w.after_status(4).fullscreen,
        !w.after_status(4).maximized,
        !w.after_status(4).minimized,
{
}

/// Clearing a decoration bit turns its query false and keeps the other
/// bits, so a window made non-resizable (non-minimizable, non-maximizable)
/// refuses resizing (minimizing, maximizing) from then on.
pub proof fn law_cleared_flag_refuses(flags: u8, flag: u8, other: u8)
    requires
        is_decoration_flag(flag),
        is_decoration_flag(other),
    ensures
        !has_flag(with_flag(flags, flag, false), flag),
        has_flag(with_flag(flags, flag, true), flag),
        other != flag ==> has_flag(with_flag(flags, flag, false), other) == has_flag(flags, other),
{
    lemma_with_flag(flags, flag, other, false);
    lemma_with_flag(flags, flag, other, true);
}

/// At most one main window exists: the first window built without a kind
/// is the main window; once one was created, a window built without a kind
/// becomes a floating sub-window and is created, while a second main window
/// asked for explicitly is refused. Floating sub-windows are never refused.
pub proof fn law_single_main_window(requested: Option<OHOSWindowKind>)
    ensures
        spec_window_kind(None, false) == OHOSWindowKind::UIAbility,
        !creation_refused(spec_window_kind(None, false), false),
        spec_window_kind(None, true) == OHOSWindowKind::Float,
        !creation_refused(spec_window_kind(None, true), true),
        creation_refused(spec_window_kind(Some(OHOSWindowKind::UIAbility), true), true),
        !creation_refused(OHOSWindowKind::Float, true),
        !creation_refused(spec_window_kind(requested, false), false),
{
}

} // verus!
