use std::sync::mpsc;

use tao_ohos::event_loop::{
    new_want_urls, urls_from_parse, with_events_cleared, EventLoop, LoopEvent, MainEvent, PeekableReceiver,
};
use tao_ohos::ids::WindowId;
use tao_ohos::input::{InputEvent, KeyAction, KeyEventData, WindowEvent};
use tao_ohos::keycodes::A;

fn describe(e: &LoopEvent) -> String {
    match e {
        LoopEvent::WindowEvent { window_id, event } => format!("{}:{:?}", window_id.0, event),
        other => format!("{:?}", other),
    }
}

fn run(l: &mut EventLoop, e: MainEvent) -> Vec<String> {
    l.handle_main_event(&e).iter().map(describe).collect()
}

#[test]
fn lifecycle_events() {
    let mut l = EventLoop::new();
    assert_eq!(run(&mut l, MainEvent::SurfaceCreate), vec!["NewEventsInit", "Resumed"]);
    assert_eq!(run(&mut l, MainEvent::SurfaceDestroy), vec!["Suspended"]);
    assert_eq!(run(&mut l, MainEvent::Start), vec!["Resumed"]);
    assert_eq!(run(&mut l, MainEvent::Resume), vec!["Resumed"]);
    assert!(run(&mut l, MainEvent::SaveState).is_empty());
    assert!(run(&mut l, MainEvent::Pause).is_empty());
    assert!(run(&mut l, MainEvent::Other).is_empty());
    assert_eq!(run(&mut l, MainEvent::Destroy), vec!["LoopDestroyed"]);
    assert_eq!(run(&mut l, MainEvent::WindowRedraw), vec!["RedrawRequested(WindowId(0))"]);
    assert_eq!(run(&mut l, MainEvent::UserEvent), vec!["UserEvents"]);
    assert_eq!(run(&mut l, MainEvent::WindowDestroy), vec!["0:CloseRequested", "0:Destroyed"]);
}

#[test]
fn resizes_are_routed_by_window_id() {
    let mut l = EventLoop::new();
    assert_eq!(
        run(&mut l, MainEvent::WindowResize { window_id: 3, width: 640, height: 480 }),
        vec!["3:Resized { width: 640, height: 480 }"]
    );
    assert_eq!(
        run(&mut l, MainEvent::ContentRectChange { window_id: 0, width: 10, height: 20 }),
        vec!["0:Resized { width: 10, height: 20 }"]
    );
}

#[test]
fn focus_changes() {
    let mut l = EventLoop::new();
    assert!(l.has_focus);
    assert_eq!(run(&mut l, MainEvent::LostFocus), vec!["0:Focused(false)"]);
    assert!(!l.has_focus);
    assert_eq!(run(&mut l, MainEvent::GainedFocus), vec!["0:Focused(true)"]);
    assert!(l.has_focus);
}

#[test]
fn config_change_reports_scale() {
    let mut l = EventLoop::new();
    let evs = l.handle_main_event(&MainEvent::ConfigChanged {
        content_width: 1080,
        content_height: 2000,
        scale: 3.25f32.to_bits(),
    });
    match &evs[0] {
        LoopEvent::WindowEvent { window_id, event: WindowEvent::ScaleFactorChanged { width, height, scale } } => {
            assert_eq!(*window_id, WindowId(0));
            assert_eq!((*width, *height), (1080, 2000));
            assert_eq!(f32::from_bits(*scale), 3.25);
        }
        other => panic!("unexpected {other:?}"),
    }
}

#[test]
fn input_goes_to_main_window_and_tracks_keys() {
    let mut l = EventLoop::new();
    let down = MainEvent::Input(InputEvent::KeyEvent(KeyEventData { code: A, action: KeyAction::Down, device_id: 1 }));
    let first = l.handle_main_event(&down);
    let second = l.handle_main_event(&down);
    match (&first[0], &second[0]) {
        (
            LoopEvent::WindowEvent { window_id: w1, event: WindowEvent::KeyboardInput { event: e1, .. } },
            LoopEvent::WindowEvent { window_id: w2, event: WindowEvent::KeyboardInput { event: e2, .. } },
        ) => {
            assert_eq!((*w1, *w2), (WindowId(0), WindowId(0)));
            assert!(!e1.repeat && e2.repeat);
        }
        other => panic!("unexpected {other:?}"),
    }
    assert!(l.is_pressed(A));
}

#[test]
fn new_want_always_opens() {
    let mut l = EventLoop::new();
    let evs = l.handle_main_event(&MainEvent::NewWant { uri: String::new() });
    assert!(matches!(&evs[..], [LoopEvent::Opened { urls }] if urls.is_empty()));
    let evs = l.handle_main_event(&MainEvent::NewWant { uri: "not a url".to_string() });
    assert!(matches!(&evs[..], [LoopEvent::Opened { urls }] if urls.is_empty()));
    let evs = l.handle_main_event(&MainEvent::NewWant { uri: "https://example.com".to_string() });
    match &evs[..] {
        [LoopEvent::Opened { urls }] => {
            assert_eq!(urls.len(), 1);
            assert_eq!(urls[0].as_str(), "https://example.com/");
        }
        other => panic!("unexpected {other:?}"),
    }
}

#[test]
fn want_urls_parse() {
    let urls = new_want_urls("myapp://open/page?x=1");
    assert_eq!(urls.len(), 1);
    assert_eq!(urls[0].scheme(), "myapp");
    assert_eq!(urls[0].query(), Some("x=1"));
    assert!(new_want_urls("").is_empty());
    assert!(urls_from_parse(url::Url::parse("://")).is_empty());
}

#[test]
fn exit_destroys_the_loop() {
    let evs = EventLoop::exit_events(true);
    assert!(matches!(&evs[..], [LoopEvent::LoopDestroyed]));
    assert!(EventLoop::exit_events(false).is_empty());
}

#[test]
fn peekable_receiver_drains_in_order() {
    let (tx, rx) = mpsc::channel();
    let mut r = PeekableReceiver::from_recv(rx);
    assert!(r.try_recv().is_err());
    tx.send(1).unwrap();
    tx.send(2).unwrap();
    assert_eq!(r.try_recv(), Ok(1));
    assert_eq!(r.try_recv(), Ok(2));
    assert_eq!(r.try_recv(), Err(mpsc::TryRecvError::Empty));
    drop(tx);
    assert_eq!(r.try_recv(), Err(mpsc::TryRecvError::Disconnected));
}

#[test]
fn every_event_is_followed_by_main_events_cleared() {
    let mut l = EventLoop::new();
    let out = with_events_cleared(l.handle_main_event(&MainEvent::SurfaceCreate));
    let got: Vec<String> = out.iter().map(describe).collect();
    assert_eq!(got, vec!["NewEventsInit", "MainEventsCleared", "Resumed", "MainEventsCleared"]);
}

#[test]
fn user_event_marker_stands_alone() {
    let out = with_events_cleared(vec![LoopEvent::Suspended, LoopEvent::UserEvents, LoopEvent::LoopDestroyed]);
    let got: Vec<String> = out.iter().map(describe).collect();
    assert_eq!(
        got,
        vec!["Suspended", "MainEventsCleared", "UserEvents", "LoopDestroyed", "MainEventsCleared"]
    );
    assert!(with_events_cleared(Vec::new()).is_empty());
}

#[test]
fn exit_is_followed_by_main_events_cleared() {
    let got: Vec<String> = with_events_cleared(EventLoop::exit_events(true)).iter().map(describe).collect();
    assert_eq!(got, vec!["LoopDestroyed", "MainEventsCleared"]);
}
