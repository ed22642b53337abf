use windowing::browser::{BrowserId, NavReply};
use windowing::events::{Key, KeyModifiers};
use windowing::geometry::{DeviceSize, DipSize, ScaleFactor, WindowPosition};
use windowing::window::{AnimationState, Cursor, HeadlessWindow, WindowMethods};

fn window() -> HeadlessWindow {
    HeadlessWindow::new(DipSize { width: 800, height: 600 }, ScaleFactor::new(3, 2))
}

fn ctx() -> BrowserId {
    BrowserId { id: 1 }
}

#[test]
fn size_times_hidpi_factor_equals_framebuffer_size() {
    let w = window();
    let size = w.size();
    let f = w.hidpi_factor();
    let fb = w.framebuffer_size();
    // 800 * 3/2 == 1200, 600 * 3/2 == 900, exactly.
    assert_eq!(fb, DeviceSize { width: 1200, height: 900 });
    assert_eq!(size.width as u64 * f.num as u64 / f.den as u64, fb.width as u64);
    assert_eq!(size.height as u64 * f.num as u64 / f.den as u64, fb.height as u64);
}

#[test]
fn framebuffer_rounding_stays_below_one_pixel() {
    // 333 * 3/2 = 499.5: the framebuffer rounds down, and the error stays
    // strictly below one device pixel.
    let w = HeadlessWindow::new(DipSize { width: 333, height: 333 }, ScaleFactor::new(3, 2));
    let size = w.size();
    let f = w.hidpi_factor();
    let fb = w.framebuffer_size();
    assert_eq!(fb.width, 499);
    let exact = size.width as u64 * f.num as u64;
    assert!(fb.width as u64 * (f.den as u64) <= exact);
    assert!(exact - fb.width as u64 * (f.den as u64) < f.den as u64);
}

#[test]
fn window_rect_and_client_window_agree_with_framebuffer() {
    let w = window();
    let fb = w.framebuffer_size();
    let rect = w.window_rect();
    assert_eq!((rect.x, rect.y), (0, 0));
    assert_eq!((rect.width, rect.height), (fb.width, fb.height));
    let (outer, position) = w.client_window(ctx());
    assert_eq!(outer, fb);
    assert_eq!(position, WindowPosition { x: 0, y: 0 });
}

#[test]
fn set_inner_size_round_trips_through_unit_spaces() {
    let mut w = window();
    w.set_inner_size(ctx(), DeviceSize { width: 1500, height: 750 });
    // 1500 * 2/3 == 1000, 750 * 2/3 == 500 density-independent pixels.
    assert_eq!(w.size(), DipSize { width: 1000, height: 500 });
    assert_eq!(w.framebuffer_size(), DeviceSize { width: 1500, height: 750 });
}

#[test]
fn window_control_requests_are_honored() {
    let mut w = window();
    w.set_position(ctx(), WindowPosition { x: -3, y: 42 });
    let (_, position) = w.client_window(ctx());
    assert_eq!(position, WindowPosition { x: -3, y: 42 });

    w.set_fullscreen_state(ctx(), true);
    assert!(w.fullscreen);
    w.set_fullscreen_state(ctx(), false);
    assert!(!w.fullscreen);

    w.set_cursor(Cursor::Grab);
    assert_eq!(w.cursor, Cursor::Grab);

    w.set_animation_state(AnimationState::Animating);
    assert_eq!(w.animation, AnimationState::Animating);
}

#[test]
fn lifecycle_notifications_are_recorded_and_leave_geometry_alone() {
    let mut w = window();
    let before = w.framebuffer_size();

    w.set_page_title(ctx(), Some("A Page".to_string()));
    assert_eq!(w.title, Some("A Page".to_string()));

    w.status(ctx(), Some("Loading...".to_string()));
    assert_eq!(w.status_line, Some("Loading...".to_string()));

    w.load_start(ctx());
    assert!(w.loading);
    w.head_parsed(ctx());
    assert!(w.head_done);
    w.load_end(ctx());
    assert!(!w.loading);

    w.load_error(ctx(), 404, "https://example.com/missing".to_string());
    assert_eq!(w.last_error_code, Some(404));
    assert_eq!(w.last_error_url, Some("https://example.com/missing".to_string()));

    w.set_favicon(ctx(), "https://example.com/icon.png".to_string());
    assert_eq!(w.favicon_url, Some("https://example.com/icon.png".to_string()));

    w.history_changed(
        ctx(),
        vec!["https://a.example".to_string(), "https://b.example".to_string()],
        1,
    );
    assert_eq!(w.history.len(), 2);
    assert_eq!(w.history_index, 1);

    assert_eq!(w.framebuffer_size(), before);
}

#[test]
fn allow_navigation_delivers_exactly_one_decision() {
    let w = window();
    let mut reply = NavReply::empty();
    w.allow_navigation(ctx(), "https://example.com".to_string(), &mut reply);
    assert_eq!(reply.sent, Some(true));
    assert!(reply.resolve_or_deny());
    // The channel is one-shot: a second decision is refused.
    assert!(!reply.deliver(false));
    assert_eq!(reply.sent, Some(true));
}

#[test]
fn navigation_policy_is_answered_as_configured() {
    let mut w = window();
    w.set_navigation_policy(false);
    let mut reply = NavReply::empty();
    w.allow_navigation(ctx(), "https://example.com".to_string(), &mut reply);
    assert_eq!(reply.sent, Some(false));
    assert!(!reply.resolve_or_deny());
}

#[test]
fn unanswered_navigation_reply_reads_as_deny() {
    let reply = NavReply::empty();
    assert!(!reply.resolve_or_deny());
}

#[test]
fn composite_readiness_is_back_pressure_not_an_error() {
    let mut w = window();
    assert!(w.prepare_for_composite(1200, 900));
    w.set_ready(false);
    assert!(!w.prepare_for_composite(1200, 900));
    w.set_ready(true);
    assert!(w.prepare_for_composite(1200, 900));
}

#[test]
fn present_counts_frames() {
    let mut w = window();
    assert_eq!(w.presented, 0);
    w.present();
    w.present();
    assert_eq!(w.presented, 2);
}

#[test]
fn input_and_introspection() {
    let mut w = window();
    let mods = KeyModifiers { shift: false, control: true, alt: false, meta: false };
    w.handle_key(Some(ctx()), Some('r'), Key { code: 82 }, mods);
    assert_eq!(w.last_key, Some(Key { code: 82 }));

    assert!(!w.supports_clipboard());

    // Every holder of the GPU handle sees the same shared context.
    let g1 = w.gl();
    let g2 = w.gl();
    assert_eq!(g1, g2);

    let _waker = w.create_event_loop_waker();
}
