//! The window capability contract: the one interface a compositor holds to
//! every platform-specific windowing backend.
//!
//! [`WindowMethods`] gathers geometry queries, presentation, window
//! control, one-way lifecycle notifications toward the browser chrome,
//! navigation gating, input and cursor control, capability introspection
//! and resource acquisition. Its contract binds every backend to the
//! unit-space law — the size in density-independent units times the hidpi
//! factor is the framebuffer size, up to rounding — and to the one-shot
//! discipline of the navigation reply channel. Backends otherwise degrade
//! silently rather than fail: none of these operations returns an error.
//!
//! [`HeadlessWindow`] is a concrete backend with no platform behind it,
//! proved to meet the whole contract; it also serves as the reference
//! model of what honoring each request means.

use vstd::prelude::*;
use crate::browser::BrowserId;
use crate::browser::NavReply;
use crate::event_loop::EventLoopWaker;
use crate::events::Key;
use crate::events::KeyModifiers;
use crate::geometry::DeviceRect;
use crate::geometry::DeviceSize;
use crate::geometry::DipSize;
use crate::geometry::ScaleFactor;
use crate::geometry::WindowPosition;
use crate::geometry::device_to_dip;
use crate::geometry::dip_size_in_range;
use crate::geometry::dip_to_device;
use crate::geometry::inverse_scaled_len;
use crate::geometry::scaled_size;
use crate::geometry::units_consistent;

verus! {

/// Whether the compositor is currently driving continuous frame
/// production. The host uses it to choose between blocking for input and
/// polling at the refresh rate.
#[derive(Clone, Copy, Debug, PartialEq, Eq, Structural)]
pub enum AnimationState {
    Idle,
    Animating,
}

/// The cursor a window shows.
#[derive(Clone, Copy, Debug, PartialEq, Eq, Structural)]
pub enum Cursor {
    Hidden,
    Arrow,
    Pointer,
    Crosshair,
    Text,
    Wait,
    Grab,
    Grabbing,
    NotAllowed,
    ColResize,
    RowResize,
}

/// A shared handle to the GPU function-pointer table. In a real backend
/// this is reference-counted, torn down only when the last holder releases
/// it; here it is a copyable token naming the shared context, which every
/// holder observes alike.
#[derive(Clone, Copy, Debug, PartialEq, Eq, Structural)]
pub struct GlHandle {
    pub context_id: u64,
}

/// The capability contract a platform backend implements, one
/// implementation per supported platform. The compositor holds a single
/// instance per window behind this interface.
pub trait WindowMethods {
    /// The backend's internal consistency; established by its constructor
    /// and preserved by every operation here.
    spec fn wf(&self) -> bool;

    /// The window size in density-independent units.
    spec fn spec_size(&self) -> DipSize;

    /// The scale between density-independent and device pixels.
    spec fn spec_hidpi(&self) -> ScaleFactor;

    /// The rendering area size in device pixels.
    spec fn spec_framebuffer(&self) -> DeviceSize;

    /// The window's position and size within the rendering area.
    spec fn spec_window_rect(&self) -> DeviceRect;

    /// The outer size of the window, head and borders included.
    spec fn spec_outer_size(&self) -> DeviceSize;

    /// The on-screen position of the window.
    spec fn spec_position(&self) -> WindowPosition;

    /// The fullscreen state last requested.
    spec fn spec_fullscreen(&self) -> bool;

    /// The cursor last set.
    spec fn spec_cursor(&self) -> Cursor;

    /// The animation hint last given.
    spec fn spec_animation_state(&self) -> AnimationState;

    /// Whether a composite pass may proceed right now.
    spec fn spec_ready(&self) -> bool;

    /// Whether this window offers a clipboard.
    spec fn spec_supports_clipboard(&self) -> bool;

    /// The shared GPU context every holder of [`WindowMethods::gl`]'s
    /// handle sees.
    spec fn spec_gl_context(&self) -> u64;

    /// Returns the rendering area size in hardware pixels. Bound by the
    /// unit-space law: it is the density-independent size scaled by the
    /// hidpi factor, up to rounding.
    fn framebuffer_size(&self) -> (s: DeviceSize)
        requires
            self.wf(),
        ensures
            s == self.spec_framebuffer(),
            units_consistent(self.spec_size(), self.spec_hidpi(), s),
    ;

    /// Returns the position and size of the window within the rendering
    /// area.
    fn window_rect(&self) -> (r: DeviceRect)
        requires
            self.wf(),
        ensures
            r == self.spec_window_rect(),
    ;

    /// Returns the size of the window in density-independent "px" units.
    fn size(&self) -> (s: DipSize)
        requires
            self.wf(),
        ensures
            s == self.spec_size(),
    ;

    /// Returns the scale factor of the system: device pixels per
    /// density-independent pixel.
    fn hidpi_factor(&self) -> (f: ScaleFactor)
        requires
            self.wf(),
        ensures
            f == self.spec_hidpi(),
            f.wf(),
    ;

    /// Presents the most recently composited frame to the screen.
    /// Presentation never changes the window's geometry.
    fn present(&mut self)
        requires
            old(self).wf(),
        ensures
            final(self).wf(),
            final(self).spec_size() == old(self).spec_size(),
            final(self).spec_hidpi() == old(self).spec_hidpi(),
            final(self).spec_framebuffer() == old(self).spec_framebuffer(),
    ;

    /// Returns the outer size of the window, with head and borders, and
    /// its position.
    fn client_window(&self, ctx: BrowserId) -> (r: (DeviceSize, WindowPosition))
        requires
            self.wf(),
        ensures
            r.0 == self.spec_outer_size(),
            r.1 == self.spec_position(),
    ;

    /// Requests a new size, in device pixels, for the area inside borders
    /// and head. Best-effort: a backend that cannot honor the request
    /// degrades silently (for example by clamping), but never changes the
    /// scale factor and never breaks its own consistency.
    fn set_inner_size(&mut self, ctx: BrowserId, size: DeviceSize)
        requires
            old(self).wf(),
        ensures
            final(self).wf(),
            final(self).spec_hidpi() == old(self).spec_hidpi(),
    ;

    /// Requests a new window position. Best-effort, as
    /// [`WindowMethods::set_inner_size`] is.
    fn set_position(&mut self, ctx: BrowserId, point: WindowPosition)
        requires
            old(self).wf(),
        ensures
            final(self).wf(),
            final(self).spec_size() == old(self).spec_size(),
            final(self).spec_hidpi() == old(self).spec_hidpi(),
    ;

    /// Sets the fullscreen state.
    fn set_fullscreen_state(&mut self, ctx: BrowserId, state: bool)
        requires
            old(self).wf(),
        ensures
            final(self).wf(),
            final(self).spec_fullscreen() == state,
            final(self).spec_hidpi() == old(self).spec_hidpi(),
    ;

    /// Sets the page title for the current page. A one-way notification
    /// toward the chrome: it must not block, and it never touches the
    /// window's geometry.
    fn set_page_title(&mut self, ctx: BrowserId, title: Option<String>)
        requires
            old(self).wf(),
        ensures
            final(self).wf(),
            final(self).spec_size() == old(self).spec_size(),
            final(self).spec_hidpi() == old(self).spec_hidpi(),
    ;

    /// Displays a status message in the chrome. One-way, like
    /// [`WindowMethods::set_page_title`].
    fn status(&mut self, ctx: BrowserId, message: Option<String>)
        requires
            old(self).wf(),
        ensures
            final(self).wf(),
            final(self).spec_size() == old(self).spec_size(),
            final(self).spec_hidpi() == old(self).spec_hidpi(),
    ;

    /// The browser started loading a frame.
    fn load_start(&mut self, ctx: BrowserId)
        requires
            old(self).wf(),
        ensures
            final(self).wf(),
            final(self).spec_size() == old(self).spec_size(),
            final(self).spec_hidpi() == old(self).spec_hidpi(),
    ;

    /// The browser finished loading a frame.
    fn load_end(&mut self, ctx: BrowserId)
        requires
            old(self).wf(),
        ensures
            final(self).wf(),
            final(self).spec_size() == old(self).spec_size(),
            final(self).spec_hidpi() == old(self).spec_hidpi(),
    ;

    /// The browser failed to load a URL: an error code and the failing
    /// URL, reported upward; recovery is entirely the receiver's business.
    fn load_error(&mut self, ctx: BrowserId, code: u32, url: String)
        requires
            old(self).wf(),
        ensures
            final(self).wf(),
            final(self).spec_size() == old(self).spec_size(),
            final(self).spec_hidpi() == old(self).spec_hidpi(),
    ;

    /// The document's head has finished parsing.
    fn head_parsed(&mut self, ctx: BrowserId)
        requires
            old(self).wf(),
        ensures
            final(self).wf(),
            final(self).spec_size() == old(self).spec_size(),
            final(self).spec_hidpi() == old(self).spec_hidpi(),
    ;

    /// The session history changed: the full entry list and the index of
    /// the current entry.
    fn history_changed(&mut self, ctx: BrowserId, entries: Vec<String>, current: usize)
        requires
            old(self).wf(),
            current < entries@.len(),
        ensures
            final(self).wf(),
            final(self).spec_size() == old(self).spec_size(),
            final(self).spec_hidpi() == old(self).spec_hidpi(),
    ;

    /// Add a favicon for the current page.
    fn set_favicon(&mut self, ctx: BrowserId, url: String)
        requires
            old(self).wf(),
        ensures
            final(self).wf(),
            final(self).spec_size() == old(self).spec_size(),
            final(self).spec_hidpi() == old(self).spec_hidpi(),
    ;

    /// Whether to follow a link: the host delivers exactly one decision on
    /// the reply channel, so the gated navigation never waits for a second
    /// value and is never answered twice.
    fn allow_navigation(&self, ctx: BrowserId, url: String, reply: &mut NavReply)
        requires
            self.wf(),
            old(reply).sent is None,
        ensures
            final(reply).sent is Some,
    ;

    /// Returns a thread-safe handle that wakes the window's event loop
    /// from any thread, at any time.
    fn create_event_loop_waker(&self) -> (w: EventLoopWaker);

    /// Makes the rendering context current for the given target size and
    /// says whether compositing may proceed. `false` is back-pressure, not
    /// an error: the caller skips this composite pass entirely.
    fn prepare_for_composite(&self, width: usize, height: usize) -> (ok: bool)
        requires
            self.wf(),
        ensures
            ok == self.spec_ready(),
    ;

    /// Sets the cursor to be used in the window.
    fn set_cursor(&mut self, cursor: Cursor)
        requires
            old(self).wf(),
        ensures
            final(self).wf(),
            final(self).spec_cursor() == cursor,
            final(self).spec_size() == old(self).spec_size(),
            final(self).spec_hidpi() == old(self).spec_hidpi(),
    ;

    /// Process a key event; the context is absent for chrome-level key
    /// handling not tied to a page.
    fn handle_key(&mut self, ctx: Option<BrowserId>, ch: Option<char>, key: Key, mods: KeyModifiers)
        requires
            old(self).wf(),
        ensures
            final(self).wf(),
            final(self).spec_size() == old(self).spec_size(),
            final(self).spec_hidpi() == old(self).spec_hidpi(),
    ;

    /// Does this window support a clipboard?
    fn supports_clipboard(&self) -> (r: bool)
        requires
            self.wf(),
        ensures
            r == self.spec_supports_clipboard(),
    ;

    /// Returns the shared GPU handle. Every call hands out a handle to the
    /// same context, however many holders there are.
    fn gl(&self) -> (g: GlHandle)
        requires
            self.wf(),
        ensures
            g.context_id == self.spec_gl_context(),
    ;

    /// Hints whether the application is currently animating, so the host
    /// can trade blocking waits for refresh-rate polling. An optimization
    /// hint, not a correctness requirement: ignoring it is conforming, and
    /// the default does exactly that.
    fn set_animation_state(&mut self, state: AnimationState)
        requires
            old(self).wf(),
        ensures
            final(self).wf(),
            final(self).spec_size() == old(self).spec_size(),
            final(self).spec_hidpi() == old(self).spec_hidpi(),
    {
    }
}

/// A backend with no platform behind it: every request is honored
/// literally and recorded, which makes it both a test double and the
/// reference model of the capability contract.
pub struct HeadlessWindow {
    pub dip: DipSize,
    pub scale: ScaleFactor,
    pub position: WindowPosition,
    pub fullscreen: bool,
    pub cursor: Cursor,
    pub animation: AnimationState,
    pub ready: bool,
    pub nav_policy: bool,
    pub clipboard: bool,
    pub gl_context: u64,
    pub presented: u64,
    pub title: Option<String>,
    pub status_line: Option<String>,
    pub favicon_url: Option<String>,
    pub loading: bool,
    pub head_done: bool,
    pub last_error_code: Option<u32>,
    pub last_error_url: Option<String>,
    pub history: Vec<String>,
    pub history_index: usize,
    pub last_key: Option<Key>,
}

impl HeadlessWindow {
    /// A fresh headless window of the given density-independent size and
    /// scale: ready to composite, navigation allowed, nothing recorded
    /// yet.
    pub fn new(dip: DipSize, scale: ScaleFactor) -> (w: HeadlessWindow)
        requires
            scale.wf(),
            dip_size_in_range(dip, scale),
        ensures
            w.wf(),
            w.dip == dip,
            w.scale == scale,
            w.position == (WindowPosition { x: 0, y: 0 }),
            !w.fullscreen,
            w.cursor == Cursor::Arrow,
            w.animation == AnimationState::Idle,
            w.ready,
            w.nav_policy,
            !w.clipboard,
            w.presented == 0,
            w.title is None,
            w.status_line is None,
            w.favicon_url is None,
            !w.loading,
            !w.head_done,
            w.history@.len() == 0,
            w.history_index == 0,
            w.last_key is None,
    {
        HeadlessWindow {
            dip,
            scale,
            position: WindowPosition { x: 0, y: 0 },
            fullscreen: false,
            cursor: Cursor::Arrow,
            animation: AnimationState::Idle,
            ready: true,
            nav_policy: true,
            clipboard: false,
            gl_context: 1,
            presented: 0,
            title: None,
            status_line: None,
            favicon_url: None,
            loading: false,
            head_done: false,
            last_error_code: None,
            last_error_url: None,
            history: Vec::new(),
            history_index: 0,
            last_key: None,
        }
    }

    /// Choose the navigation-gating policy this backend answers with.
    pub fn set_navigation_policy(&mut self, allow: bool)
        requires
            old(self).wf(),
        ensures
            final(self).wf(),
            *final(self) == (HeadlessWindow { nav_policy: allow, ..*old(self) }),
    {
        self.nav_policy = allow;
    }

    /// Mark the window ready or not ready to composite, as a minimized or
    /// context-losing window would.
    pub fn set_ready(&mut self, ready: bool)
        requires
            old(self).wf(),
        ensures
            final(self).wf(),
            *final(self) == (HeadlessWindow { ready, ..*old(self) }),
    {
        self.ready = ready;
    }
}

impl WindowMethods for HeadlessWindow {
    open spec fn wf(&self) -> bool {
        &&& self.scale.wf()
        &&& dip_size_in_range(self.dip, self.scale)
        &&& self.history@.len() == 0 ==> self.history_index == 0
        &&& self.history@.len() > 0 ==> self.history_index < self.history@.len()
    }

    open spec fn spec_size(&self) -> DipSize {
        self.dip
    }

    open spec fn spec_hidpi(&self) -> ScaleFactor {
        self.scale
    }

    open spec fn spec_framebuffer(&self) -> DeviceSize {
        scaled_size(self.dip, self.scale)
    }

    open spec fn spec_window_rect(&self) -> DeviceRect {
        DeviceRect {
            x: 0,
            y: 0,
            width: scaled_size(self.dip, self.scale).width,
            height: scaled_size(self.dip, self.scale).height,
        }
    }

    open spec fn spec_outer_size(&self) -> DeviceSize {
        scaled_size(self.dip, self.scale)
    }

    open spec fn spec_position(&self) -> WindowPosition {
        self.position
    }

    open spec fn spec_fullscreen(&self) -> bool {
        self.fullscreen
    }

    open spec fn spec_cursor(&self) -> Cursor {
        self.cursor
    }

    open spec fn spec_animation_state(&self) -> AnimationState {
        self.animation
    }

    open spec fn spec_ready(&self) -> bool {
        self.ready
    }

    open spec fn spec_supports_clipboard(&self) -> bool {
        self.clipboard
    }

    open spec fn spec_gl_context(&self) -> u64 {
        self.gl_context
    }

    fn framebuffer_size(&self) -> (s: DeviceSize) {
        dip_to_device(self.dip, self.scale)
    }

    fn window_rect(&self) -> (r: DeviceRect) {
        let fb = dip_to_device(self.dip, self.scale);
        DeviceRect { x: 0, y: 0, width: fb.width, height: fb.height }
    }

    fn size(&self) -> (s: DipSize) {
        self.dip
    }

    fn hidpi_factor(&self) -> (f: ScaleFactor) {
        self.scale
    }

    fn present(&mut self)
        ensures
            final(self).presented == (if old(self).presented < u64::MAX {
                old(self).presented + 1
            } else {
                old(self).presented as int
            }),
    {
        if self.presented < u64::MAX {
            self.presented = self.presented + 1;
        }
    }

    fn client_window(&self, _ctx: BrowserId) -> (r: (DeviceSize, WindowPosition)) {
        (dip_to_device(self.dip, self.scale), self.position)
    }

    fn set_inner_size(&mut self, _ctx: BrowserId, size: DeviceSize)
        ensures
            final(self).dip.width == inverse_scaled_len(size.width, old(self).scale),
            final(self).dip.height == inverse_scaled_len(size.height, old(self).scale),
    {
        self.dip = device_to_dip(size, self.scale);
    }

    fn set_position(&mut self, _ctx: BrowserId, point: WindowPosition)
        ensures
            final(self).position == point,
    {
        self.position = point;
    }

    fn set_fullscreen_state(&mut self, _ctx: BrowserId, state: bool) {
        self.fullscreen = state;
    }

    fn set_page_title(&mut self, _ctx: BrowserId, title: Option<String>)
        ensures
            final(self).title == title,
    {
        self.title = title;
    }

    fn status(&mut self, _ctx: BrowserId, message: Option<String>)
        ensures
            final(self).status_line == message,
    {
        self.status_line = message;
    }

    fn load_start(&mut self, _ctx: BrowserId)
        ensures
            final(self).loading,
    {
        self.loading = true;
    }

    fn load_end(&mut self, _ctx: BrowserId)
        ensures
            !final(self).loading,
    {
        self.loading = false;
    }

    fn load_error(&mut self, _ctx: BrowserId, code: u32, url: String)
        ensures
            final(self).last_error_code == Some(code),
            final(self).last_error_url == Some(url),
    {
        self.last_error_code = Some(code);
        self.last_error_url = Some(url);
    }

    fn head_parsed(&mut self, _ctx: BrowserId)
        ensures
            final(self).head_done,
    {
        self.head_done = true;
    }

    fn history_changed(&mut self, _ctx: BrowserId, entries: Vec<String>, current: usize)
        ensures
            final(self).history@ == entries@,
            final(self).history_index == current,
    {
        self.history = entries;
        self.history_index = current;
    }

    fn set_favicon(&mut self, _ctx: BrowserId, url: String)
        ensures
            final(self).favicon_url == Some(url),
    {
        self.favicon_url = Some(url);
    }

    fn allow_navigation(&self, _ctx: BrowserId, _url: String, reply: &mut NavReply)
        ensures
            final(reply).sent == Some(self.nav_policy),
    {
        let _delivered = reply.deliver(self.nav_policy);
    }

    fn create_event_loop_waker(&self) -> (w: EventLoopWaker) {
        EventLoopWaker {}
    }

    fn prepare_for_composite(&self, _width: usize, _height: usize) -> (ok: bool) {
        self.ready
    }

    fn set_cursor(&mut self, cursor: Cursor) {
        self.cursor = cursor;
    }

    fn handle_key(&mut self, _ctx: Option<BrowserId>, _ch: Option<char>, key: Key, _mods: KeyModifiers)
        ensures
            final(self).last_key == Some(key),
    {
        self.last_key = Some(key);
    }

    fn supports_clipboard(&self) -> (r: bool) {
        self.clipboard
    }

    fn gl(&self) -> (g: GlHandle) {
        GlHandle { context_id: self.gl_context }
    }

    fn set_animation_state(&mut self, state: AnimationState)
        ensures
            final(self).animation == state,
    {
        self.animation = state;
    }
}

} // verus!
