use windowing::browser::{BrowserId, IdReply};
use windowing::events::{
    EventKind, Key, KeyModifiers, KeyState, MouseButton, MouseWindowEvent, PressureLevel,
    ScrollLocation, TouchEventType, TouchId, TouchpadPressurePhase, TraversalDirection,
    WebRenderDebugOption, WindowEvent,
};
use windowing::geometry::{DevicePoint, DeviceSize, ScaleFactor};

fn one_of_each() -> Vec<WindowEvent> {
    let point = DevicePoint { x: 10, y: 10 };
    let mods = KeyModifiers { shift: false, control: false, alt: false, meta: false };
    vec![
        WindowEvent::Idle,
        WindowEvent::Refresh,
        WindowEvent::Resize(DeviceSize { width: 800, height: 600 }),
        WindowEvent::TouchpadPressure(
            point,
            PressureLevel::new(500),
            TouchpadPressurePhase::BeforeClick,
        ),
        WindowEvent::LoadUrl(BrowserId { id: 1 }, "https://example.com".to_string()),
        WindowEvent::MouseWindowEventClass(MouseWindowEvent::Click(MouseButton::Left, point)),
        WindowEvent::MouseWindowMoveEventClass(point),
        WindowEvent::Touch(TouchEventType::Down, TouchId { id: 4 }, point),
        WindowEvent::Scroll(ScrollLocation::Delta(point), point, TouchEventType::Move),
        WindowEvent::Zoom(ScaleFactor::new(2, 1)),
        WindowEvent::PinchZoom(ScaleFactor::new(3, 2)),
        WindowEvent::ResetZoom,
        WindowEvent::Navigation(BrowserId { id: 1 }, TraversalDirection::Back),
        WindowEvent::Quit,
        WindowEvent::KeyEvent(Some('a'), Key { code: 65 }, KeyState::Pressed, mods),
        WindowEvent::Reload(BrowserId { id: 1 }),
        WindowEvent::NewBrowser("https://example.com".to_string(), IdReply::empty()),
        WindowEvent::CloseBrowser(BrowserId { id: 1 }),
        WindowEvent::SelectBrowser(BrowserId { id: 1 }),
        WindowEvent::ToggleWebRenderDebug(WebRenderDebugOption::Profiler),
    ]
}

#[test]
fn every_variant_has_a_nonempty_label() {
    for e in one_of_each() {
        assert!(!e.label().is_empty());
    }
}

#[test]
fn consumer_match_is_exhaustive() {
    // A consumer match over the taxonomy with no default arm: adding a
    // variant breaks this match at compile time, so nothing can be
    // silently dropped. Each arm must actually be exercised by the
    // one-of-each enumeration.
    let mut hits = [false; 20];
    for e in one_of_each() {
        let slot = match e {
            WindowEvent::Idle => 0,
            WindowEvent::Refresh => 1,
            WindowEvent::Resize(..) => 2,
            WindowEvent::TouchpadPressure(..) => 3,
            WindowEvent::LoadUrl(..) => 4,
            WindowEvent::MouseWindowEventClass(..) => 5,
            WindowEvent::MouseWindowMoveEventClass(..) => 6,
            WindowEvent::Touch(..) => 7,
            WindowEvent::Scroll(..) => 8,
            WindowEvent::Zoom(..) => 9,
            WindowEvent::PinchZoom(..) => 10,
            WindowEvent::ResetZoom => 11,
            WindowEvent::Navigation(..) => 12,
            WindowEvent::Quit => 13,
            WindowEvent::KeyEvent(..) => 14,
            WindowEvent::Reload(..) => 15,
            WindowEvent::NewBrowser(..) => 16,
            WindowEvent::CloseBrowser(..) => 17,
            WindowEvent::SelectBrowser(..) => 18,
            WindowEvent::ToggleWebRenderDebug(..) => 19,
        };
        assert!(!hits[slot], "variant seen twice");
        hits[slot] = true;
    }
    assert!(hits.iter().all(|h| *h), "some variant was never exercised");
}

#[test]
fn labels_have_expected_values() {
    assert_eq!(WindowEvent::Idle.label(), "Idle");
    assert_eq!(WindowEvent::Refresh.label(), "Refresh");
    assert_eq!(WindowEvent::Resize(DeviceSize { width: 1, height: 1 }).label(), "Resize");
    assert_eq!(WindowEvent::ResetZoom.label(), "ResetZoom");
    assert_eq!(WindowEvent::Quit.label(), "Quit");
    let p = DevicePoint { x: 0, y: 0 };
    assert_eq!(
        WindowEvent::MouseWindowEventClass(MouseWindowEvent::MouseUp(MouseButton::Right, p))
            .label(),
        "Mouse"
    );
    assert_eq!(WindowEvent::MouseWindowMoveEventClass(p).label(), "MouseMove");
    let mods = KeyModifiers { shift: true, control: false, alt: false, meta: false };
    assert_eq!(
        WindowEvent::KeyEvent(None, Key { code: 13 }, KeyState::Released, mods).label(),
        "Key"
    );
    assert_eq!(
        WindowEvent::LoadUrl(BrowserId { id: 0 }, "https://example.com".to_string()).label(),
        "LoadUrl"
    );
    assert_eq!(
        WindowEvent::ToggleWebRenderDebug(WebRenderDebugOption::RenderTargetDebug).label(),
        "ToggleWebRenderDebug"
    );
}

#[test]
fn label_depends_only_on_variant_tag() {
    let a = WindowEvent::Resize(DeviceSize { width: 800, height: 600 });
    let b = WindowEvent::Resize(DeviceSize { width: 1, height: 2 });
    assert_eq!(a.label(), b.label());
    assert_eq!(a.kind(), b.kind());

    let c = WindowEvent::MouseWindowEventClass(MouseWindowEvent::Click(
        MouseButton::Left,
        DevicePoint { x: 10, y: 10 },
    ));
    let d = WindowEvent::MouseWindowEventClass(MouseWindowEvent::MouseDown(
        MouseButton::Middle,
        DevicePoint { x: -5, y: 99 },
    ));
    assert_eq!(c.label(), d.label());

    let e = WindowEvent::LoadUrl(BrowserId { id: 3 }, "https://a.example".to_string());
    let f = WindowEvent::LoadUrl(BrowserId { id: 9 }, "https://b.example".to_string());
    assert_eq!(e.label(), f.label());
}

#[test]
fn kind_separates_the_variants() {
    let kinds: Vec<EventKind> = one_of_each().iter().map(|e| e.kind()).collect();
    for (i, a) in kinds.iter().enumerate() {
        for (j, b) in kinds.iter().enumerate() {
            if i != j {
                assert_ne!(a, b);
            }
        }
    }
}
