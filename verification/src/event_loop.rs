//! The main-loop dispatch: how each platform event (input included) becomes
//! the events that the application's handler receives, and the user-event
//! receiver.

use vstd::prelude::*;

use crate::ids::{DeviceId, WindowId};
use crate::input::{
    axis_events, gt_one_f32, ime_events, input_events, is_zero_f32, key_window_event,
    mouse_events, ohos_mouse_button_to_tao, pressed_after, pressed_after_input, push_mock_pair,
    touch_events, touch_phase, touch_point_event, AxisEventData, ImeEvent, InputEvent,
    InputSourceType, KeyAction, KeyEvent, KeyEventData, KeyboardStatus, MouseAction,
    MouseEventData, MouseScrollDelta, TouchEventData, TouchEventType, TouchPhase, WindowEvent,
    F32_MINUS_ONE, F32_ONE, F32_ZERO,
};
use crate::keyboard::{ElementState, Key, KeyCode, NativeKeyCode};
use crate::keycodes::{to_location, to_logical};

use std::collections::HashSet;
use std::sync::mpsc::{Receiver, TryRecvError};
use url::{ParseError, Url};

verus! {

broadcast use vstd::std_specs::hash::group_hash_axioms;

/// The parsed URL type of the `url` crate.
#[verifier::external_type_specification]
#[verifier::external_body]
pub struct ExUrl(Url);

/// The URL parse error of the `url` crate.
#[verifier::external_type_specification]
#[verifier::external_body]
pub struct ExParseError(ParseError);

/// The receiving end of a standard channel.
#[verifier::external_type_specification]
#[verifier::external_body]
#[verifier::reject_recursive_types(T)]
pub struct ExReceiver<T>(Receiver<T>);

/// The error of a failed non-blocking receive.
#[verifier::external_type_specification]
#[verifier::external_body]
pub struct ExTryRecvError(TryRecvError);

/// What `url::Url::parse` returns for a string: an absolute URL, or why
/// there is none. It depends on the string alone.
pub uninterp spec fn parsed_url(input: Seq<char>) -> Result<Url, ParseError>;

/// Calls `url::Url::parse`, which parses an absolute URL with the default
/// options and fails with a `ParseError` where the string holds none. The
/// contract claims only that the result is the one named for the string.
#[verifier::external_body]
fn parse_url(input: &str) -> (r: Result<Url, ParseError>)
    ensures
        r == parsed_url(input@),
{
    Url::parse(input)
}

/// Calls `Receiver::try_recv`, which returns a pending value, or an error
/// when none is pending or every sender is gone. What it returns depends on
/// other threads, so nothing is claimed of it.
#[verifier::external_body]
fn receiver_try_recv<T>(recv: &Receiver<T>) -> (r: Result<T, TryRecvError>) {
    recv.try_recv()
}

/// The URLs of a parse result: the URL, or none when parsing failed.
pub open spec fn urls_of(parsed: Result<Url, ParseError>) -> Seq<Url> {
    match parsed {
        Ok(u) => seq![u],
        Err(_) => seq![],
    }
}

/// The URLs that a re-launch carries: none for an empty URI, else those of
/// its parse.
pub open spec fn want_urls(uri: Seq<char>) -> Seq<Url> {
    if uri.len() == 0 {
        seq![]
    } else {
        urls_of(parsed_url(uri))
    }
}

/// The URLs of a parse result.
pub fn urls_from_parse(parsed: Result<Url, ParseError>) -> (urls: Vec<Url>)
    ensures
        urls@ == urls_of(parsed),
{
    let mut urls: Vec<Url> = Vec::new();
    match parsed {
        Ok(u) => {
            urls.push(u);
        },
        Err(_) => {},
    }
    proof {
        assert(urls@ =~= urls_of(parsed));
    }
    urls
}

/// The URLs that a re-launch with this URI carries.
pub fn new_want_urls(uri: &str) -> (urls: Vec<Url>)
    ensures
        urls@ == want_urls(uri@),
{
    if uri.is_empty() {
        let urls: Vec<Url> = Vec::new();
        proof {
            assert(urls@ =~= want_urls(uri@));
        }
        urls
    } else {
        urls_from_parse(parse_url(uri))
    }
}

/// A platform event of the main loop.
#[derive(Clone, Debug, PartialEq, Eq)]
pub enum MainEvent {
    SurfaceCreate,
    SurfaceDestroy,
    /// A window was resized (its OS-level id and new size).
    WindowResize { window_id: i64, width: i32, height: i32 },
    WindowRedraw,
    /// A window's content rectangle changed (its OS-level id and new size).
    ContentRectChange { window_id: i64, width: i32, height: i32 },
    GainedFocus,
    LostFocus,
    /// The configuration changed; the host adds the content size and the
    /// (encoded) scale it reads at that moment.
    ConfigChanged { content_width: i32, content_height: i32, scale: u32 },
    Start,
    Resume,
    SaveState,
    Pause,
    WindowDestroy,
    Destroy,
    Input(InputEvent),
    /// A re-launch, with the URI it was given (possibly empty).
    NewWant { uri: String },
    /// User events are pending.
    UserEvent,
    /// Any other event.
    Other,
}

/// An event for the application's handler.
#[derive(Clone, Debug)]
pub enum LoopEvent {
    /// New events, from the loop's start.
    NewEventsInit,
    Resumed,
    Suspended,
    WindowEvent { window_id: WindowId, event: WindowEvent },
    RedrawRequested(WindowId),
    LoopDestroyed,
    Opened { urls: Vec<Url> },
    /// Deliver every pending user event here, in order, each followed by
    /// `MainEventsCleared`.
    UserEvents,
    /// Sent after every other event that the handler is given.
    MainEventsCleared,
}

/// An event of the main window.
pub open spec fn main_window_event(event: WindowEvent) -> LoopEvent {
    LoopEvent::WindowEvent { window_id: WindowId(0), event }
}

/// The handler's events for a platform event, given the keys held. Focus,
/// configuration, redraws, destruction of the window stage and input are
/// the main window's (id `0`); resizes go to the window they name.
/// Surface creation starts new events and resumes; showing and resuming
/// resume; saving state, pausing and other events give nothing. (A
/// re-launch always opens, with its URLs, possibly none: see
/// `EventLoop::handle_main_event`.)
pub open spec fn main_events(pressed: Set<i32>, e: MainEvent) -> Seq<LoopEvent> {
    match e {
        MainEvent::SurfaceCreate => seq![LoopEvent::NewEventsInit, LoopEvent::Resumed],
        MainEvent::SurfaceDestroy => seq![LoopEvent::Suspended],
        MainEvent::WindowResize { window_id, width, height } => seq![
            LoopEvent::WindowEvent {
                window_id: WindowId(window_id),
                event: WindowEvent::Resized { width: width as u32, height: height as u32 },
            },
        ],
        MainEvent::WindowRedraw => seq![LoopEvent::RedrawRequested(WindowId(0))],
        MainEvent::ContentRectChange { window_id, width, height } => seq![
            LoopEvent::WindowEvent {
                window_id: WindowId(window_id),
                event: WindowEvent::Resized { width: width as u32, height: height as u32 },
            },
        ],
        MainEvent::GainedFocus => seq![main_window_event(WindowEvent::Focused(true))],
        MainEvent::LostFocus => seq![main_window_event(WindowEvent::Focused(false))],
        MainEvent::ConfigChanged { content_width, content_height, scale } => seq![
            main_window_event(
                WindowEvent::ScaleFactorChanged {
                    width: content_width as u32,
                    height: content_height as u32,
                    scale,
                },
            ),
        ],
        MainEvent::Start => seq![LoopEvent::Resumed],
        MainEvent::Resume => seq![LoopEvent::Resumed],
        MainEvent::SaveState => seq![],
        MainEvent::Pause => seq![],
        MainEvent::WindowDestroy => seq![
            main_window_event(WindowEvent::CloseRequested),
            main_window_event(WindowEvent::Destroyed),
        ],
        MainEvent::Destroy => seq![LoopEvent::LoopDestroyed],
        MainEvent::Input(i) => input_events(pressed, i).map_values(|ev: WindowEvent| main_window_event(ev)),
        MainEvent::NewWant { .. } => seq![],
        MainEvent::UserEvent => seq![LoopEvent::UserEvents],
        MainEvent::Other => seq![],
    }
}

/// The events of the main window, wrapped for the handler, in order.
fn wrap_main_window(events: Vec<WindowEvent>) -> (out: Vec<LoopEvent>)
    ensures
        out@ == events@.map_values(|ev: WindowEvent| main_window_event(ev)),
{
    let ghost orig = events@;
    let mut events = events;
    let mut out: Vec<LoopEvent> = Vec::new();
    while events.len() > 0
        invariant
            out@.len() + events@.len() == orig.len(),
            events@ == orig.subrange(out@.len() as int, orig.len() as int),
            forall|j: int| 0 <= j < out@.len() ==> out@[j] == main_window_event(orig[j]),
        decreases events@.len(),
    {
        let ev = events.remove(0);
        out.push(LoopEvent::WindowEvent { window_id: WindowId(0), event: ev });
    }
    proof {
        assert(out@ =~= orig.map_values(|ev: WindowEvent| main_window_event(ev)));
    }
    out
}

/// Whether the application has focus after a platform event.
pub open spec fn focus_after(has_focus: bool, e: MainEvent) -> bool {
    match e {
        MainEvent::GainedFocus => true,
        MainEvent::LostFocus => false,
        _ => has_focus,
    }
}

/// The keys held after a platform event.
pub open spec fn pressed_after_main(pressed: Set<i32>, e: MainEvent) -> Set<i32> {
    match e {
        MainEvent::Input(i) => pressed_after_input(pressed, i),
        _ => pressed,
    }
}

/// The decision state of the main loop: the keys held (by which a press is
/// told to be an auto-repeat) and whether the application has focus.
pub struct EventLoop {
    pub pressed_keys: HashSet<i32>,
    pub has_focus: bool,
}

impl EventLoop {
    /// The keys held now.
    pub open spec fn pressed(&self) -> Set<i32> {
        self.pressed_keys@
    }

    /// A loop with no key held, with focus.
    pub fn new() -> (l: EventLoop)
        ensures
            l.pressed() == Set::<i32>::empty(),
            l.has_focus,
    {
        EventLoop { pressed_keys: HashSet::new(), has_focus: true }
    }

    /// Whether a key is held.
    pub fn is_pressed(&self, code: i32) -> (r: bool)
        ensures
            r == self.pressed().contains(code),
    {
        self.pressed_keys.contains(&code)
    }

    /// The handler's events for one platform event.
    pub fn handle_main_event(&mut self, e: &MainEvent) -> (out: Vec<LoopEvent>)
        ensures
            e is NewWant ==> (out@.len() == 1 && (out@[0] matches LoopEvent::Opened { urls } && urls@
                == want_urls(e->uri@))),
            !(e is NewWant) ==> out@ == main_events(old(self).pressed(), *e),
            final(self).pressed() == pressed_after_main(old(self).pressed(), *e),
            final(self).has_focus == focus_after(old(self).has_focus, *e),
    {
        let mut out: Vec<LoopEvent> = Vec::new();
        match e {
            MainEvent::SurfaceCreate => {
                out.push(LoopEvent::NewEventsInit);
                out.push(LoopEvent::Resumed);
            },
            MainEvent::SurfaceDestroy => {
                out.push(LoopEvent::Suspended);
            },
            MainEvent::WindowResize { window_id, width, height } => {
                out.push(
                    LoopEvent::WindowEvent {
                        window_id: WindowId(*window_id),
                        event: WindowEvent::Resized { width: *width as u32, height: *height as u32 },
                    },
                );
            },
            MainEvent::WindowRedraw => {
                out.push(LoopEvent::RedrawRequested(WindowId(0)));
            },
            MainEvent::ContentRectChange { window_id, width, height } => {
                out.push(
                    LoopEvent::WindowEvent {
                        window_id: WindowId(*window_id),
                        event: WindowEvent::Resized { width: *width as u32, height: *height as u32 },
                    },
                );
            },
            MainEvent::GainedFocus => {
                self.has_focus = true;
                out.push(LoopEvent::WindowEvent { window_id: WindowId(0), event: WindowEvent::Focused(true) });
            },
            MainEvent::LostFocus => {
                self.has_focus = false;
                out.push(
                    LoopEvent::WindowEvent { window_id: WindowId(0), event: WindowEvent::Focused(false) },
                );
            },
            MainEvent::ConfigChanged { content_width, content_height, scale } => {
                out.push(
                    LoopEvent::WindowEvent {
                        window_id: WindowId(0),
                        event: WindowEvent::ScaleFactorChanged {
                            width: *content_width as u32,
                            height: *content_height as u32,
                            scale: *scale,
                        },
                    },
                );
            },
            MainEvent::Start => {
                out.push(LoopEvent::Resumed);
            },
            MainEvent::Resume => {
                out.push(LoopEvent::Resumed);
            },
            MainEvent::SaveState => {},
            MainEvent::Pause => {},
            MainEvent::WindowDestroy => {
                out.push(LoopEvent::WindowEvent { window_id: WindowId(0), event: WindowEvent::CloseRequested });
                out.push(LoopEvent::WindowEvent { window_id: WindowId(0), event: WindowEvent::Destroyed });
            },
            MainEvent::Destroy => {
                out.push(LoopEvent::LoopDestroyed);
            },
            MainEvent::Input(i) => {
                let events = self.handle_input_event(i);
                out = wrap_main_window(events);
            },
            MainEvent::NewWant { uri } => {
                out.push(LoopEvent::Opened { urls: new_want_urls(uri.as_str()) });
            },
            MainEvent::UserEvent => {
                out.push(LoopEvent::UserEvents);
            },
            MainEvent::Other => {},
        }
        proof {
            if !(e is NewWant) {
                assert(out@ =~= main_events(old(self).pressed(), *e));
            }
        }
        out
    }

    /// The handler's events after a platform event, given whether exit was
    /// asked for: when it was, the loop is destroyed (and the host then
    /// terminates the ability).
    pub fn exit_events(exit: bool) -> (out: Vec<LoopEvent>)
        ensures
            exit ==> out@.len() == 1 && out@[0] is LoopDestroyed,
            !exit ==> out@.len() == 0,
    {
        let mut out: Vec<LoopEvent> = Vec::new();
        if exit {
            out.push(LoopEvent::LoopDestroyed);
        }
        out
    }
}

/// What the handler is given for one event: the event and then
/// `MainEventsCleared`; the user-event marker stands alone, since the host
/// puts in its place each pending user event followed by `MainEventsCleared`.
pub open spec fn delivered(e: LoopEvent) -> Seq<LoopEvent> {
    match e {
        LoopEvent::UserEvents => seq![LoopEvent::UserEvents],
        _ => seq![e, LoopEvent::MainEventsCleared],
    }
}

/// What the handler is given for a sequence of events, in order.
pub open spec fn with_cleared(events: Seq<LoopEvent>) -> Seq<LoopEvent>
    decreases events.len(),
{
    if events.len() == 0 {
        Seq::<LoopEvent>::empty()
    } else {
        with_cleared(events.drop_last()) + delivered(events.last())
    }
}

/// Puts `MainEventsCleared` after every event for the handler.
pub fn with_events_cleared(events: Vec<LoopEvent>) -> (out: Vec<LoopEvent>)
    ensures
        out@ == with_cleared(events@),
{
    let ghost orig = events@;
    let mut events = events;
    let mut out: Vec<LoopEvent> = Vec::new();
    let total: usize = events.len();
    let mut done: usize = 0;
    while events.len() > 0
        invariant
            done + events@.len() == orig.len(),
            orig.len() == total,
            events@ == orig.skip(done as int),
            out@ == with_cleared(orig.take(done as int)),
        decreases events@.len(),
    {
        proof {
            assert(orig.take(done + 1).drop_last() =~= orig.take(done as int));
            assert(orig.take(done + 1).last() == orig[done as int]);
        }
        let ev = events.remove(0);
        match ev {
            LoopEvent::UserEvents => {
                out.push(LoopEvent::UserEvents);
            },
            other => {
                out.push(other);
                out.push(LoopEvent::MainEventsCleared);
            },
        }
        proof {
            assert(events@ =~= orig.skip(done + 1));
        }
        done = done + 1;
    }
    proof {
        assert(orig.take(done as int) =~= orig);
    }
    out
}

/// Delivering two runs of events one after the other gives the handler
/// what delivering them together does: each event is followed by
/// `MainEventsCleared` wherever it stands.
pub proof fn law_cleared_concat(a: Seq<LoopEvent>, b: Seq<LoopEvent>)
    ensures
        with_cleared(a + b) == with_cleared(a) + with_cleared(b),
    decreases b.len(),
{
    if b.len() == 0 {
        assert(a + b =~= a);
        assert(with_cleared(a) + with_cleared(b) =~= with_cleared(a));
    } else {
        law_cleared_concat(a, b.drop_last());
        assert((a + b).drop_last() =~= a + b.drop_last());
        assert((a + b).last() == b.last());
        assert(with_cleared(a + b) =~= with_cleared(a) + with_cleared(b));
    }
}

/// Every event other than the user-event marker reaches the handler
/// followed at once by `MainEventsCleared`: for events without the marker
/// the handler is given twice as many, the `i`-th event at place `2i` and
/// `MainEventsCleared` at place `2i + 1`; the marker alone is given as is.
pub proof fn law_cleared_after_each(events: Seq<LoopEvent>)
    ensures
        with_cleared(seq![LoopEvent::UserEvents]) == seq![LoopEvent::UserEvents],
        (forall|i: int| 0 <= i < events.len() ==> !(#[trigger] events[i] is UserEvents)) ==> {
            let out = with_cleared(events);
            &&& out.len() == 2 * events.len()
            &&& forall|i: int| 0 <= i < events.len() ==> out[2 * i] == events[i] && #[trigger] out[2 * i + 1]
                == LoopEvent::MainEventsCleared
        },
    decreases events.len(),
{
    assert(with_cleared(seq![LoopEvent::UserEvents]) =~= seq![LoopEvent::UserEvents]) by {
        let one = seq![LoopEvent::UserEvents];
        assert(one.drop_last() =~= Seq::<LoopEvent>::empty());
        assert(one.last() == LoopEvent::UserEvents);
        assert(with_cleared(Seq::<LoopEvent>::empty()) == Seq::<LoopEvent>::empty());
        assert(with_cleared(one) == with_cleared(one.drop_last()) + delivered(one.last()));
        assert(Seq::<LoopEvent>::empty() + seq![LoopEvent::UserEvents] =~= one);
    }
    if forall|i: int| 0 <= i < events.len() ==> !(#[trigger] events[i] is UserEvents) {
        if events.len() > 0 {
            let init = events.drop_last();
            assert forall|i: int| 0 <= i < init.len() implies !(#[trigger] init[i] is UserEvents) by {
                assert(init[i] == events[i]);
            }
            law_cleared_after_each(init);
            let last = events.last();
            assert(!(events[events.len() - 1] is UserEvents));
            assert(delivered(last) == seq![last, LoopEvent::MainEventsCleared]);
            let out = with_cleared(events);
            assert(out == with_cleared(init) + delivered(last));
            assert forall|i: int| 0 <= i < events.len() implies out[2 * i] == events[i] && #[trigger] out[2 * i
                + 1] == LoopEvent::MainEventsCleared by {
                if i < init.len() {
                    assert(out[2 * i] == with_cleared(init)[2 * i]);
                    assert(out[2 * i + 1] == with_cleared(init)[2 * i + 1]);
                    assert(init[i] == events[i]);
                }
            }
        }
    }
}

/// A receiver of user events that can hold one value taken ahead.
#[verifier::reject_recursive_types(T)]
pub struct PeekableReceiver<T> {
    recv: Receiver<T>,
    first: Option<T>,
}

impl<T> PeekableReceiver<T> {
    /// The value taken ahead, if any.
    pub closed spec fn peeked(&self) -> Option<T> {
        self.first
    }

    /// Wraps a receiver, with nothing taken ahead.
    pub fn from_recv(recv: Receiver<T>) -> (r: Self)
        ensures
            r.peeked() is None,
    {
        PeekableReceiver { recv, first: None }
    }

    /// Receives without blocking: the value taken ahead first, if any, else
    /// whatever the channel has pending. Afterwards nothing is taken ahead.
    pub fn try_recv(&mut self) -> (r: Result<T, TryRecvError>)
        ensures
            old(self).peeked() matches Some(x) ==> r == Ok::<T, TryRecvError>(x),
            final(self).peeked() is None,
    {
        if let Some(first) = self.first.take() {
            return Ok(first);
        }
        receiver_try_recv(&self.recv)
    }
}

impl EventLoop {
    /// Translates a mouse event.
    pub fn handle_mouse_event(e: &MouseEventData) -> (out: Vec<WindowEvent>)
        ensures
            out@ == mouse_events(*e),
    {
        let d = DeviceId(0);
        let mut out: Vec<WindowEvent> = Vec::new();
        match e.action {
            MouseAction::Move => {
                out.push(WindowEvent::CursorMoved { device_id: d, x: e.x, y: e.y });
            },
            MouseAction::Press => {
                if let Some(button) = ohos_mouse_button_to_tao(e.button) {
                    out.push(
                        WindowEvent::MouseInput { device_id: d, state: ElementState::Pressed, button },
                    );
                }
            },
            MouseAction::Release => {
                if let Some(button) = ohos_mouse_button_to_tao(e.button) {
                    out.push(
                        WindowEvent::MouseInput { device_id: d, state: ElementState::Released, button },
                    );
                }
            },
            MouseAction::HoverEnter => {
                out.push(WindowEvent::CursorEntered { device_id: d });
            },
            MouseAction::HoverLeave => {
                out.push(WindowEvent::CursorLeft { device_id: d });
            },
            MouseAction::Idle => {},
        }
        proof {
            assert(out@ =~= mouse_events(*e));
        }
        out
    }

    /// Translates an axis event.
    pub fn handle_axis_event(e: &AxisEventData) -> (out: Vec<WindowEvent>)
        ensures
            out@ == axis_events(*e),
    {
        let d = DeviceId(0);
        let mut out: Vec<WindowEvent> = Vec::new();
        if !is_zero_f32(e.delta_x) || !is_zero_f32(e.delta_y) {
            let delta = if e.source_type == InputSourceType::Touchpad {
                MouseScrollDelta::PixelDelta(e.delta_x, e.delta_y)
            } else {
                MouseScrollDelta::LineDelta(e.delta_x, e.delta_y)
            };
            out.push(WindowEvent::MouseWheel { device_id: d, delta, control: false });
        }
        if !is_zero_f32(e.pinch_scale) && e.pinch_scale != F32_ONE {
            let step = if gt_one_f32(e.pinch_scale) {
                F32_ONE
            } else {
                F32_MINUS_ONE
            };
            out.push(
                WindowEvent::MouseWheel {
                    device_id: d,
                    delta: MouseScrollDelta::LineDelta(F32_ZERO, step),
                    control: true,
                },
            );
        }
        proof {
            assert(out@ =~= axis_events(*e));
        }
        out
    }

    /// Translates a touch event: one touch per point, in order.
    pub fn handle_touch_event(e: &TouchEventData) -> (out: Vec<WindowEvent>)
        ensures
            out@ == touch_events(*e),
    {
        let phase = match e.event_type {
            TouchEventType::Down => Some(TouchPhase::Started),
            TouchEventType::Up => Some(TouchPhase::Ended),
            TouchEventType::Move => Some(TouchPhase::Moved),
            TouchEventType::Cancel => Some(TouchPhase::Cancelled),
            TouchEventType::Unknown => None,
        };
        let mut out: Vec<WindowEvent> = Vec::new();
        if let Some(phase) = phase {
            let device_id = DeviceId(e.device_id as i32);
            let n = e.touch_points.len();
            for i in 0..n
                invariant
                    n == e.touch_points@.len(),
                    phase == touch_phase(e.event_type)->0,
                    device_id == DeviceId(e.device_id as i32),
                    out@.len() == i,
                    forall|j: int|
                        0 <= j < i ==> out@[j] == touch_point_event(
                            e.device_id,
                            phase,
                            e.touch_points@[j],
                        ),
            {
                let p = e.touch_points[i];
                out.push(
                    WindowEvent::Touch {
                        device_id,
                        phase,
                        x: p.x,
                        y: p.y,
                        id: p.id as u64,
                        force: p.force,
                    },
                );
            }
        }
        proof {
            assert(out@ =~= touch_events(*e));
        }
        out
    }

    /// Translates a key event, telling an auto-repeat from the held keys,
    /// and records the press or release.
    pub fn handle_key_event(&mut self, e: &KeyEventData) -> (ev: WindowEvent)
        ensures
            ev == key_window_event(old(self).pressed(), *e),
            final(self).pressed() == pressed_after(old(self).pressed(), *e),
            final(self).has_focus == old(self).has_focus,
    {
        let state = match e.action {
            KeyAction::Down => ElementState::Pressed,
            KeyAction::Up => ElementState::Released,
            KeyAction::Unknown => ElementState::Released,
        };
        let repeat = match e.action {
            KeyAction::Down => !self.pressed_keys.insert(e.code),
            KeyAction::Up => {
                self.pressed_keys.remove(&e.code);
                false
            },
            KeyAction::Unknown => false,
        };
        WindowEvent::KeyboardInput {
            device_id: DeviceId(e.device_id as i32),
            event: KeyEvent {
                state,
                physical_key: KeyCode::Unidentified(NativeKeyCode::Ohos(e.code)),
                logical_key: to_logical(e.code),
                location: to_location(e.code),
                repeat,
            },
        }
    }

    /// Translates an input-method event.
    pub fn handle_ime_event(e: &ImeEvent) -> (out: Vec<WindowEvent>)
        ensures
            out@ == ime_events(*e),
    {
        let mut out: Vec<WindowEvent> = Vec::new();
        match e {
            ImeEvent::TextInputEvent(s) => {
                out.push(WindowEvent::ReceivedImeText(s.clone()));
            },
            ImeEvent::BackspaceEvent(_) => {
                push_mock_pair(&mut out, Key::Backspace, KeyCode::Backspace);
            },
            ImeEvent::EnterEvent(_) => {
                push_mock_pair(&mut out, Key::Enter, KeyCode::Enter);
            },
            ImeEvent::ImeStatusEvent(KeyboardStatus::Hide) => {
                push_mock_pair(&mut out, Key::Enter, KeyCode::Enter);
            },
            ImeEvent::ImeStatusEvent(_) => {},
        }
        proof {
            assert(out@ =~= ime_events(*e));
        }
        out
    }

    /// Translates an input event of the main window.
    pub fn handle_input_event(&mut self, e: &InputEvent) -> (out: Vec<WindowEvent>)
        ensures
            out@ == input_events(old(self).pressed(), *e),
            final(self).pressed() == pressed_after_input(old(self).pressed(), *e),
            final(self).has_focus == old(self).has_focus,
    {
        match e {
            InputEvent::TouchEvent(t) => Self::handle_touch_event(t),
            InputEvent::MouseEvent(m) => Self::handle_mouse_event(m),
            InputEvent::AxisEvent(a) => Self::handle_axis_event(a),
            InputEvent::KeyEvent(k) => {
                let ev = self.handle_key_event(k);
                let mut out: Vec<WindowEvent> = Vec::new();
                out.push(ev);
                proof {
                    assert(out@ =~= seq![key_window_event(old(self).pressed(), *k)]);
                }
                out
            },
            InputEvent::ImeEvent(i) => Self::handle_ime_event(i),
        }
    }
}


} // verus!
