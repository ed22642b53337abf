use windowing::browser::{BrowserId, IdReply};
use windowing::event_loop::EventLoop;
use windowing::events::{MouseButton, MouseWindowEvent, WindowEvent};
use windowing::geometry::{DevicePoint, DeviceSize};
use windowing::session::{Outcome, Session, Violation};

fn create_browser(s: &mut Session, url: &str) -> (BrowserId, IdReply) {
    match s.apply(WindowEvent::NewBrowser(url.to_string(), IdReply::empty())) {
        Ok(Outcome::BrowserCreated(id, reply)) => (id, reply),
        other => panic!("creation not accepted: {:?}", other),
    }
}

#[test]
fn new_browser_delivers_exactly_one_id() {
    let mut s = Session::new();
    let (id, mut reply) = create_browser(&mut s, "https://example.com");
    // Exactly one id was delivered on the event's reply channel.
    assert_eq!(reply.received(), Some(id));
    // A second delivery on the same channel is refused and changes nothing.
    assert!(!reply.deliver(BrowserId { id: 99 }));
    assert_eq!(reply.received(), Some(id));
}

#[test]
fn created_ids_are_distinct_and_live() {
    let mut s = Session::new();
    let (a, _) = create_browser(&mut s, "https://a.example");
    let (b, _) = create_browser(&mut s, "https://b.example");
    assert_ne!(a, b);
    assert!(s.is_live(a));
    assert!(s.is_live(b));
}

#[test]
fn event_bearing_closed_id_is_flagged() {
    let mut s = Session::new();
    let (id, _) = create_browser(&mut s, "https://example.com");
    assert_eq!(s.apply(WindowEvent::CloseBrowser(id)), Ok(Outcome::Handled));
    assert!(!s.is_live(id));
    // Any later event bearing the closed id is a contract violation.
    assert_eq!(
        s.apply(WindowEvent::LoadUrl(id, "https://example.com/next".to_string())),
        Err(Violation::ClosedBrowser(id))
    );
    assert_eq!(s.apply(WindowEvent::Reload(id)), Err(Violation::ClosedBrowser(id)));
    assert_eq!(s.apply(WindowEvent::SelectBrowser(id)), Err(Violation::ClosedBrowser(id)));
}

#[test]
fn closing_never_frees_the_id_for_reuse() {
    let mut s = Session::new();
    let (a, _) = create_browser(&mut s, "https://a.example");
    assert_eq!(s.apply(WindowEvent::CloseBrowser(a)), Ok(Outcome::Handled));
    // Later creations hand out fresh ids, never the closed one.
    let (b, _) = create_browser(&mut s, "https://b.example");
    let (c, _) = create_browser(&mut s, "https://c.example");
    assert_ne!(b, a);
    assert_ne!(c, a);
    assert_ne!(b, c);
}

#[test]
fn unknown_id_is_flagged() {
    let mut s = Session::new();
    let ghost_town = BrowserId { id: 41 };
    assert_eq!(s.apply(WindowEvent::Reload(ghost_town)), Err(Violation::UnknownBrowser(ghost_town)));
}

#[test]
fn select_leaves_only_the_second_visible() {
    let mut s = Session::new();
    let (a, _) = create_browser(&mut s, "https://a.example");
    let (b, _) = create_browser(&mut s, "https://b.example");
    assert_eq!(s.apply(WindowEvent::SelectBrowser(a)), Ok(Outcome::Handled));
    assert_eq!(s.visible_browser(), Some(a));
    assert_eq!(s.apply(WindowEvent::SelectBrowser(b)), Ok(Outcome::Handled));
    // Only the second is visible now.
    assert_eq!(s.visible_browser(), Some(b));
    // The first remains alive, hidden, and reselectable.
    assert!(s.is_live(a));
    assert_eq!(s.apply(WindowEvent::SelectBrowser(a)), Ok(Outcome::Handled));
    assert_eq!(s.visible_browser(), Some(a));
}

#[test]
fn closing_the_visible_browser_hides_it() {
    let mut s = Session::new();
    let (a, _) = create_browser(&mut s, "https://a.example");
    assert_eq!(s.apply(WindowEvent::SelectBrowser(a)), Ok(Outcome::Handled));
    assert_eq!(s.apply(WindowEvent::CloseBrowser(a)), Ok(Outcome::Handled));
    assert_eq!(s.visible_browser(), None);
}

#[test]
fn no_event_is_accepted_after_quit() {
    let mut s = Session::new();
    let (id, _) = create_browser(&mut s, "https://example.com");
    assert_eq!(s.apply(WindowEvent::Quit), Ok(Outcome::ShutDown));
    assert!(s.has_quit());
    assert_eq!(s.apply(WindowEvent::Idle), Err(Violation::EventAfterQuit));
    assert_eq!(s.apply(WindowEvent::Reload(id)), Err(Violation::EventAfterQuit));
    assert_eq!(s.apply(WindowEvent::Quit), Err(Violation::EventAfterQuit));
}

#[test]
fn drained_batch_gets_one_answer_per_event() {
    let mut l = EventLoop::new();
    let waker = l.create_waker();
    l.enqueue(WindowEvent::NewBrowser("https://example.com".to_string(), IdReply::empty()));
    l.enqueue(WindowEvent::Refresh);
    l.enqueue(WindowEvent::Reload(BrowserId { id: 123 }));
    waker.wake(&mut l);
    waker.wake(&mut l);

    assert!(l.take_wake());
    let batch = l.drain();
    assert_eq!(batch.len(), 3);

    let mut s = Session::new();
    let results = s.apply_batch(batch);
    assert_eq!(results.len(), 3);
    assert!(matches!(results[0], Ok(Outcome::BrowserCreated(BrowserId { id: 0 }, _))));
    assert_eq!(results[1], Ok(Outcome::Handled));
    assert_eq!(results[2], Err(Violation::UnknownBrowser(BrowserId { id: 123 })));
}

#[test]
fn scenario_full_dispatch_sequence() {
    // A host that allocates ids from 7 on.
    let mut s = Session::starting_at(7);

    // NewBrowser: the reply yields 7 before any later event is processed.
    let (id, reply) = create_browser(&mut s, "https://example.com");
    assert_eq!(id, BrowserId { id: 7 });
    assert_eq!(reply.received(), Some(id));

    assert_eq!(
        s.apply(WindowEvent::LoadUrl(id, "https://example.com".to_string())),
        Ok(Outcome::Handled)
    );
    assert_eq!(
        s.apply(WindowEvent::Resize(DeviceSize { width: 800, height: 600 })),
        Ok(Outcome::Handled)
    );
    assert_eq!(
        s.apply(WindowEvent::MouseWindowEventClass(MouseWindowEvent::Click(
            MouseButton::Left,
            DevicePoint { x: 10, y: 10 },
        ))),
        Ok(Outcome::Handled)
    );
    assert_eq!(s.apply(WindowEvent::CloseBrowser(id)), Ok(Outcome::Handled));

    // Any event referencing 7 after its close is rejected and flagged.
    assert_eq!(
        s.apply(WindowEvent::LoadUrl(id, "https://example.com/again".to_string())),
        Err(Violation::ClosedBrowser(id))
    );

    assert_eq!(s.apply(WindowEvent::Quit), Ok(Outcome::ShutDown));

    // No event after Quit is accepted.
    assert_eq!(s.apply(WindowEvent::Refresh), Err(Violation::EventAfterQuit));
}
