//! OpenHarmony input events (mouse, axis, touch, key and IME), the window
//! events they become, and the specification of that translation (which
//! `EventLoop` performs).
//!
//! Coordinates, deltas, scales and forces are IEEE-754 single-precision
//! values. The library never computes with them: it carries each one as its
//! bit pattern (`u32`) and decides only on the comparisons that the platform
//! layer makes, stated below exactly over the encoding.

use vstd::prelude::*;

use crate::ids::DeviceId;
use crate::keyboard::{ElementState, Key, KeyCode, KeyLocation, NativeKeyCode};
use crate::keycodes::{key_location, logical_key};


verus! {

/// The encoding of `1.0`.
pub const F32_ONE: u32 = 0x3f80_0000;

/// The encoding of `-1.0`.
pub const F32_MINUS_ONE: u32 = 0xbf80_0000;

/// The encoding of `+0.0`.
pub const F32_ZERO: u32 = 0;

/// Whether an encoding compares equal to `0.0`: `+0.0` or `-0.0`.
pub open spec fn f32_is_zero(b: u32) -> bool {
    b == 0 || b == 0x8000_0000
}

/// Whether an encoding compares equal to `1.0`: only `+1.0` itself.
pub open spec fn f32_is_one(b: u32) -> bool {
    b == F32_ONE
}

/// Whether an encoding compares greater than `1.0`: the positive encodings
/// above that of `1.0`, up to and including `+inf` (NaNs compare false).
pub open spec fn f32_gt_one(b: u32) -> bool {
    F32_ONE < b && b <= 0x7f80_0000
}

pub(crate) fn is_zero_f32(b: u32) -> (r: bool)
    ensures
        r == f32_is_zero(b),
{
    b == 0 || b == 0x8000_0000
}

pub(crate) fn gt_one_f32(b: u32) -> (r: bool)
    ensures
        r == f32_gt_one(b),
{
    F32_ONE < b && b <= 0x7f80_0000
}

/// A mouse button as the platform reports it.
#[derive(Clone, Copy, Debug, PartialEq, Eq, Structural)]
pub enum OhosMouseButton {
    NoneButton,
    LeftButton,
    RightButton,
    MiddleButton,
    BackButton,
    ForwardButton,
}

/// A mouse button of a window event.
#[derive(Clone, Copy, Debug, PartialEq, Eq, Structural)]
pub enum MouseButton {
    Left,
    Right,
    Middle,
    Other(u16),
}

/// What a mouse event reports.
#[derive(Clone, Copy, Debug, PartialEq, Eq, Structural)]
pub enum MouseAction {
    /// No action (the platform's `None`).
    Idle,
    Press,
    Release,
    Move,
    HoverEnter,
    HoverLeave,
}

/// A mouse event: position (encoded), action and button.
#[derive(Clone, Copy, Debug, PartialEq, Eq, Structural)]
pub struct MouseEventData {
    pub x: u32,
    pub y: u32,
    pub action: MouseAction,
    pub button: OhosMouseButton,
}

/// The device that produced an axis event.
#[derive(Clone, Copy, Debug, PartialEq, Eq, Structural)]
pub enum InputSourceType {
    Unknown,
    Mouse,
    TouchScreen,
    Touchpad,
}

/// An axis (scroll or pinch) event: deltas and pinch scale (encoded).
/// A pinch scale of `1.0` means no change and `0.0` means no pinch.
#[derive(Clone, Copy, Debug, PartialEq, Eq, Structural)]
pub struct AxisEventData {
    pub delta_x: u32,
    pub delta_y: u32,
    pub pinch_scale: u32,
    pub source_type: InputSourceType,
}

impl Default for AxisEventData {
    fn default() -> (e: Self)
        ensures
            e == (AxisEventData {
                delta_x: F32_ZERO,
                delta_y: F32_ZERO,
                pinch_scale: F32_ZERO,
                source_type: InputSourceType::Unknown,
            }),
    {
        AxisEventData {
            delta_x: F32_ZERO,
            delta_y: F32_ZERO,
            pinch_scale: F32_ZERO,
            source_type: InputSourceType::Unknown,
        }
    }
}

/// The type of a touch event.
#[derive(Clone, Copy, Debug, PartialEq, Eq, Structural)]
pub enum TouchEventType {
    Down,
    Up,
    Move,
    Cancel,
    Unknown,
}

/// One touch point: its id, position and force (encoded).
#[derive(Clone, Copy, Debug, PartialEq, Eq, Structural)]
pub struct TouchPointData {
    pub id: i32,
    pub x: u32,
    pub y: u32,
    pub force: u32,
}

impl Default for TouchPointData {
    fn default() -> (p: Self)
        ensures
            p == (TouchPointData { id: 0, x: F32_ZERO, y: F32_ZERO, force: F32_ZERO }),
    {
        TouchPointData { id: 0, x: F32_ZERO, y: F32_ZERO, force: F32_ZERO }
    }
}

/// A touch event with all of its touch points.
#[derive(Clone, Debug, PartialEq, Eq)]
pub struct TouchEventData {
    pub event_type: TouchEventType,
    pub device_id: i64,
    pub touch_points: Vec<TouchPointData>,
}

impl Default for TouchEventData {
    fn default() -> (e: Self)
        ensures
            e.event_type == TouchEventType::Unknown,
            e.device_id == 0,
            e.touch_points@.len() == 0,
    {
        TouchEventData { event_type: TouchEventType::Unknown, device_id: 0, touch_points: Vec::new() }
    }
}

/// What a key event reports.
#[derive(Clone, Copy, Debug, PartialEq, Eq, Structural)]
pub enum KeyAction {
    Unknown,
    Down,
    Up,
}

/// A key event: the OpenHarmony key code, the action and the device.
#[derive(Clone, Copy, Debug, PartialEq, Eq, Structural)]
pub struct KeyEventData {
    pub code: i32,
    pub action: KeyAction,
    pub device_id: i64,
}

/// The state of the soft keyboard.
#[derive(Clone, Copy, Debug, PartialEq, Eq, Structural)]
pub enum KeyboardStatus {
    /// No status (the platform's `None`).
    Unset,
    Hide,
    Show,
}

/// An input-method event.
#[derive(Clone, Debug, PartialEq, Eq)]
pub enum ImeEvent {
    TextInputEvent(String),
    BackspaceEvent(i32),
    EnterEvent(i32),
    ImeStatusEvent(KeyboardStatus),
}

/// An input event of the main window.
#[derive(Clone, Debug, PartialEq, Eq)]
pub enum InputEvent {
    TouchEvent(TouchEventData),
    MouseEvent(MouseEventData),
    AxisEvent(AxisEventData),
    KeyEvent(KeyEventData),
    ImeEvent(ImeEvent),
}

/// The phase of a touch.
#[derive(Clone, Copy, Debug, PartialEq, Eq, Structural)]
pub enum TouchPhase {
    Started,
    Moved,
    Ended,
    Cancelled,
}

/// A scroll amount: in lines, or in pixels (encoded singles that the host
/// widens to doubles).
#[derive(Clone, Copy, Debug, PartialEq, Eq, Structural)]
pub enum MouseScrollDelta {
    LineDelta(u32, u32),
    PixelDelta(u32, u32),
}

/// A keyboard event of a window (no text, no platform extra).
#[derive(Clone, Copy, Debug, PartialEq, Eq, Structural)]
pub struct KeyEvent {
    pub state: ElementState,
    pub physical_key: KeyCode,
    pub logical_key: Key,
    pub location: KeyLocation,
    pub repeat: bool,
}

/// An event of one window.
#[derive(Clone, Debug, PartialEq, Eq)]
pub enum WindowEvent {
    /// The cursor moved to the (encoded) position; no modifiers.
    CursorMoved { device_id: DeviceId, x: u32, y: u32 },
    /// A button changed state; no modifiers.
    MouseInput { device_id: DeviceId, state: ElementState, button: MouseButton },
    CursorEntered { device_id: DeviceId },
    CursorLeft { device_id: DeviceId },
    /// A scroll in phase `Moved`; `control` is the only modifier it can carry.
    MouseWheel { device_id: DeviceId, delta: MouseScrollDelta, control: bool },
    /// A touch at the (encoded) position with a normalized (encoded) force.
    Touch { device_id: DeviceId, phase: TouchPhase, x: u32, y: u32, id: u64, force: u32 },
    /// A key event; never synthetic.
    KeyboardInput { device_id: DeviceId, event: KeyEvent },
    ReceivedImeText(String),
    Resized { width: u32, height: u32 },
    Focused(bool),
    /// The scale factor (encoded) changed; the size is the new inner size.
    ScaleFactorChanged { width: u32, height: u32, scale: u32 },
    CloseRequested,
    Destroyed,
}

/// The window-event button of a platform button; none for `NoneButton`.
pub open spec fn spec_mouse_button(b: OhosMouseButton) -> Option<MouseButton> {
    match b {
        OhosMouseButton::LeftButton => Some(MouseButton::Left),
        OhosMouseButton::RightButton => Some(MouseButton::Right),
        OhosMouseButton::MiddleButton => Some(MouseButton::Middle),
        OhosMouseButton::BackButton => Some(MouseButton::Other(4)),
        OhosMouseButton::ForwardButton => Some(MouseButton::Other(5)),
        OhosMouseButton::NoneButton => None,
    }
}

/// Maps a platform mouse button to a window-event button.
pub fn ohos_mouse_button_to_tao(button: OhosMouseButton) -> (b: Option<MouseButton>)
    ensures
        b == spec_mouse_button(button),
{
    match button {
        OhosMouseButton::LeftButton => Some(MouseButton::Left),
        OhosMouseButton::RightButton => Some(MouseButton::Right),
        OhosMouseButton::MiddleButton => Some(MouseButton::Middle),
        OhosMouseButton::BackButton => Some(MouseButton::Other(4)),
        OhosMouseButton::ForwardButton => Some(MouseButton::Other(5)),
        OhosMouseButton::NoneButton => None,
    }
}

/// The events of a mouse event, all from device `0`.
pub open spec fn mouse_events(e: MouseEventData) -> Seq<WindowEvent> {
    let d = DeviceId(0);
    match e.action {
        MouseAction::Move => seq![WindowEvent::CursorMoved { device_id: d, x: e.x, y: e.y }],
        MouseAction::Press => match spec_mouse_button(e.button) {
            Some(b) => seq![
                WindowEvent::MouseInput { device_id: d, state: ElementState::Pressed, button: b },
            ],
            None => seq![],
        },
        MouseAction::Release => match spec_mouse_button(e.button) {
            Some(b) => seq![
                WindowEvent::MouseInput { device_id: d, state: ElementState::Released, button: b },
            ],
            None => seq![],
        },
        MouseAction::HoverEnter => seq![WindowEvent::CursorEntered { device_id: d }],
        MouseAction::HoverLeave => seq![WindowEvent::CursorLeft { device_id: d }],
        MouseAction::Idle => seq![],
    }
}

/// The events of an axis event, all from device `0`: a scroll when either
/// delta is nonzero (in pixels from a touchpad, in lines otherwise), then a
/// control-scroll of one line up (pinch scale above `1.0`) or down (any
/// other scale) when the pinch scale is neither `0.0` nor `1.0`.
pub open spec fn axis_events(e: AxisEventData) -> Seq<WindowEvent> {
    let d = DeviceId(0);
    let scroll = if !f32_is_zero(e.delta_x) || !f32_is_zero(e.delta_y) {
        let delta = if e.source_type == InputSourceType::Touchpad {
            MouseScrollDelta::PixelDelta(e.delta_x, e.delta_y)
        } else {
            MouseScrollDelta::LineDelta(e.delta_x, e.delta_y)
        };
        seq![WindowEvent::MouseWheel { device_id: d, delta, control: false }]
    } else {
        seq![]
    };
    let zoom = if !f32_is_zero(e.pinch_scale) && !f32_is_one(e.pinch_scale) {
        let step = if f32_gt_one(e.pinch_scale) { F32_ONE } else { F32_MINUS_ONE };
        seq![WindowEvent::MouseWheel {
            device_id: d,
            delta: MouseScrollDelta::LineDelta(F32_ZERO, step),
            control: true,
        }]
    } else {
        seq![]
    };
    scroll + zoom
}

/// The touch phase of a touch-event type; none for `Unknown`.
pub open spec fn touch_phase(t: TouchEventType) -> Option<TouchPhase> {
    match t {
        TouchEventType::Down => Some(TouchPhase::Started),
        TouchEventType::Up => Some(TouchPhase::Ended),
        TouchEventType::Move => Some(TouchPhase::Moved),
        TouchEventType::Cancel => Some(TouchPhase::Cancelled),
        TouchEventType::Unknown => None,
    }
}

/// The event of one touch point.
pub open spec fn touch_point_event(device_id: i64, phase: TouchPhase, p: TouchPointData) -> WindowEvent {
    WindowEvent::Touch {
        device_id: DeviceId(device_id as i32),
        phase,
        x: p.x,
        y: p.y,
        id: p.id as u64,
        force: p.force,
    }
}

/// The events of a touch event: one per touch point, in order, unless the
/// type has no phase.
pub open spec fn touch_events(e: TouchEventData) -> Seq<WindowEvent> {
    match touch_phase(e.event_type) {
        Some(phase) => Seq::new(
            e.touch_points@.len(),
            |i: int| touch_point_event(e.device_id, phase, e.touch_points@[i]),
        ),
        None => seq![],
    }
}

/// Whether a key event is an auto-repeat: a press of a key already held.
pub open spec fn is_repeat(pressed: Set<i32>, e: KeyEventData) -> bool {
    e.action == KeyAction::Down && pressed.contains(e.code)
}

/// The held keys after a key event: a press adds the key, a release
/// removes it, anything else leaves the set as it was.
pub open spec fn pressed_after(pressed: Set<i32>, e: KeyEventData) -> Set<i32> {
    match e.action {
        KeyAction::Down => pressed.insert(e.code),
        KeyAction::Up => pressed.remove(e.code),
        KeyAction::Unknown => pressed,
    }
}

/// The event of a key event.
pub open spec fn key_window_event(pressed: Set<i32>, e: KeyEventData) -> WindowEvent {
    WindowEvent::KeyboardInput {
        device_id: DeviceId(e.device_id as i32),
        event: KeyEvent {
            state: if e.action == KeyAction::Down {
                ElementState::Pressed
            } else {
                ElementState::Released
            },
            physical_key: KeyCode::Unidentified(NativeKeyCode::Ohos(e.code)),
            logical_key: logical_key(e.code),
            location: key_location(e.code),
            repeat: is_repeat(pressed, e),
        },
    }
}

/// A key event that the input method stands in for, from device `0`.
pub open spec fn mock_key_event(state: ElementState, logical_key: Key, physical_key: KeyCode) -> WindowEvent {
    WindowEvent::KeyboardInput {
        device_id: DeviceId(0),
        event: KeyEvent { state, physical_key, logical_key, location: KeyLocation::Standard, repeat: false },
    }
}

/// A press and release of Backspace.
pub open spec fn backspace_pair() -> Seq<WindowEvent> {
    seq![
        mock_key_event(ElementState::Pressed, Key::Backspace, KeyCode::Backspace),
        mock_key_event(ElementState::Released, Key::Backspace, KeyCode::Backspace),
    ]
}

/// A press and release of Enter.
pub open spec fn enter_pair() -> Seq<WindowEvent> {
    seq![
        mock_key_event(ElementState::Pressed, Key::Enter, KeyCode::Enter),
        mock_key_event(ElementState::Released, Key::Enter, KeyCode::Enter),
    ]
}

/// The events of an input-method event: text is received as is; a delete
/// becomes Backspace and a commit Enter, each pressed then released; hiding
/// the soft keyboard becomes Enter pressed then released (so that a focused
/// field sees a blur); any other status gives nothing.
pub open spec fn ime_events(e: ImeEvent) -> Seq<WindowEvent> {
    match e {
        ImeEvent::TextInputEvent(s) => seq![WindowEvent::ReceivedImeText(s)],
        ImeEvent::BackspaceEvent(_) => backspace_pair(),
        ImeEvent::EnterEvent(_) => enter_pair(),
        ImeEvent::ImeStatusEvent(KeyboardStatus::Hide) => enter_pair(),
        ImeEvent::ImeStatusEvent(_) => seq![],
    }
}

/// The events of an input event, given the keys held before it.
pub open spec fn input_events(pressed: Set<i32>, e: InputEvent) -> Seq<WindowEvent> {
    match e {
        InputEvent::TouchEvent(t) => touch_events(t),
        InputEvent::MouseEvent(m) => mouse_events(m),
        InputEvent::AxisEvent(a) => axis_events(a),
        InputEvent::KeyEvent(k) => seq![key_window_event(pressed, k)],
        InputEvent::ImeEvent(i) => ime_events(i),
    }
}

/// The keys held after an input event: only key events change them.
pub open spec fn pressed_after_input(pressed: Set<i32>, e: InputEvent) -> Set<i32> {
    match e {
        InputEvent::KeyEvent(k) => pressed_after(pressed, k),
        _ => pressed,
    }
}

pub(crate) fn push_mock_pair(out: &mut Vec<WindowEvent>, logical_key: Key, physical_key: KeyCode)
    ensures
        final(out)@ == old(out)@ + seq![
            mock_key_event(ElementState::Pressed, logical_key, physical_key),
            mock_key_event(ElementState::Released, logical_key, physical_key),
        ],
{
    out.push(mock_key_event_exec(ElementState::Pressed, logical_key, physical_key));
    out.push(mock_key_event_exec(ElementState::Released, logical_key, physical_key));
    proof {
        assert(final(out)@ =~= old(out)@ + seq![
            mock_key_event(ElementState::Pressed, logical_key, physical_key),
            mock_key_event(ElementState::Released, logical_key, physical_key),
        ]);
    }
}

fn mock_key_event_exec(state: ElementState, logical_key: Key, physical_key: KeyCode) -> (ev: WindowEvent)
    ensures
        ev == mock_key_event(state, logical_key, physical_key),
{
    WindowEvent::KeyboardInput {
        device_id: DeviceId(0),
        event: KeyEvent { state, physical_key, logical_key, location: KeyLocation::Standard, repeat: false },
    }
}

/// Holding a key makes its next press an auto-repeat, and releasing it
/// makes the press after that a fresh one; a press never reports a repeat
/// for a key that is not held.
pub proof fn law_key_repeat(pressed: Set<i32>, code: i32, device_id: i64)
    ensures
        ({
            let down = KeyEventData { code, action: KeyAction::Down, device_id };
            let up = KeyEventData { code, action: KeyAction::Up, device_id };
            &&& is_repeat(pressed_after(pressed, down), down)
            &&& !is_repeat(pressed_after(pressed_after(pressed, down), up), down)
            &&& !pressed.contains(code) ==> !is_repeat(pressed, down)
            &&& !is_repeat(pressed, up)
        }),
{
}

/// A press or release of a mouse button reports that same button, as the
/// only event, from device `0`, pressed exactly when the action is a press:
/// the left, right and middle buttons keep their names, the back and
/// forward buttons are buttons 4 and 5, and an event without a button
/// reports nothing. A move reports the cursor at the event's position, an
/// enter or leave reports just that, and an idle event reports nothing.
pub proof fn law_mouse_button_events(e: MouseEventData)
    ensures
        e.action == MouseAction::Move ==> mouse_events(e) == seq![
            WindowEvent::CursorMoved { device_id: DeviceId(0), x: e.x, y: e.y },
        ],
        e.action == MouseAction::HoverEnter ==> mouse_events(e) == seq![
            WindowEvent::CursorEntered { device_id: DeviceId(0) },
        ],
        e.action == MouseAction::HoverLeave ==> mouse_events(e) == seq![
            WindowEvent::CursorLeft { device_id: DeviceId(0) },
        ],
        e.action == MouseAction::Idle ==> mouse_events(e).len() == 0,
        (e.action == MouseAction::Press || e.action == MouseAction::Release) ==> {
            let out = mouse_events(e);
            &&& (e.button == OhosMouseButton::NoneButton <==> out.len() == 0)
            &&& e.button != OhosMouseButton::NoneButton ==> {
                &&& out.len() == 1
                &&& out[0] matches WindowEvent::MouseInput { device_id, state, button }
                &&& device_id == DeviceId(0)
                &&& (state == ElementState::Pressed <==> e.action == MouseAction::Press)
                &&& (state == ElementState::Released <==> e.action == MouseAction::Release)
                &&& (e.button == OhosMouseButton::LeftButton <==> button == MouseButton::Left)
                &&& (e.button == OhosMouseButton::RightButton <==> button == MouseButton::Right)
                &&& (e.button == OhosMouseButton::MiddleButton <==> button == MouseButton::Middle)
                &&& (e.button == OhosMouseButton::BackButton <==> button == MouseButton::Other(4))
                &&& (e.button == OhosMouseButton::ForwardButton <==> button == MouseButton::Other(5))
            }
        },
{
}

/// Two different platform buttons are never reported as the same button.
pub proof fn law_mouse_buttons_distinct(a: OhosMouseButton, b: OhosMouseButton)
    ensures
        a != b && a != OhosMouseButton::NoneButton ==> ohos_button_seen(a) != ohos_button_seen(b),
{
}

/// The button that a press of a platform button reports, if any.
pub open spec fn ohos_button_seen(b: OhosMouseButton) -> Option<MouseButton> {
    let out = mouse_events(MouseEventData { x: 0, y: 0, action: MouseAction::Press, button: b });
    if out.len() > 0 && out[0] is MouseInput {
        Some(out[0]->button)
    } else {
        None
    }
}

/// A pinch whose scale is neither `0.0` nor `1.0` ends the events with one
/// control-scroll of one line, up when the scale is above `1.0` and down
/// otherwise, whatever device it came from; every other event of an axis
/// event is a plain scroll. A pinch of `0.0` or `1.0` gives no
/// control-scroll, and without deltas an axis event gives only the zoom.
/// A nonzero delta comes first, as a scroll by those deltas, in pixels from
/// a touchpad and in lines from any other device.
pub proof fn law_pinch_zoom(e: AxisEventData, source: InputSourceType)
    ensures
        ({
            let out = axis_events(e);
            let pinching = !f32_is_zero(e.pinch_scale) && !f32_is_one(e.pinch_scale);
            let scrolling = !f32_is_zero(e.delta_x) || !f32_is_zero(e.delta_y);
            let zoom = WindowEvent::MouseWheel {
                device_id: DeviceId(0),
                delta: MouseScrollDelta::LineDelta(F32_ZERO, if f32_gt_one(e.pinch_scale) { F32_ONE } else { F32_MINUS_ONE }),
                control: true,
            };
            &&& pinching ==> out.len() >= 1 && out.last() == zoom
            &&& pinching && !scrolling ==> out == seq![zoom]
            &&& out.len() == (if scrolling { 1int } else { 0int }) + (if pinching { 1int } else { 0int })
            &&& forall|i: int| 0 <= i < out.len() ==> (#[trigger] out[i] matches WindowEvent::MouseWheel { control, .. }
                && (control <==> (pinching && i == out.len() - 1)))
            &&& pinching ==> axis_events(AxisEventData { source_type: source, ..e }).last() == out.last()
            &&& scrolling ==> out[0] == WindowEvent::MouseWheel {
                device_id: DeviceId(0),
                delta: if e.source_type == InputSourceType::Touchpad {
                    MouseScrollDelta::PixelDelta(e.delta_x, e.delta_y)
                } else {
                    MouseScrollDelta::LineDelta(e.delta_x, e.delta_y)
                },
                control: false,
            }
        }),
{
}

/// A key event reports, from the event's device, the key's own platform
/// code as its physical key (so different codes give different physical
/// keys), pressed exactly on a key-down.
pub proof fn law_key_event_code(pressed: Set<i32>, e: KeyEventData, other: KeyEventData)
    ensures
        key_window_event(pressed, e) matches WindowEvent::KeyboardInput { device_id, event }
            && device_id == DeviceId(e.device_id as i32)
            && event.physical_key == KeyCode::Unidentified(NativeKeyCode::Ohos(e.code))
            && (event.state == ElementState::Pressed <==> e.action == KeyAction::Down),
        e.code != other.code ==> key_window_event(pressed, e)->event.physical_key
            != key_window_event(pressed, other)->event.physical_key,
{
}

} // verus!
