//! The closed taxonomy of events the host windowing system delivers to the
//! compositor.
//!
//! Every value is transient and immutable: the platform backend constructs
//! it once, the compositor consumes it exactly once. Each variant has a
//! stable diagnostic label that depends only on the variant tag, never on
//! the payload, so it is safe to log even a malformed event.

use vstd::prelude::*;
use crate::browser::BrowserId;
use crate::browser::IdReply;
use crate::geometry::DevicePoint;
use crate::geometry::DeviceSize;
use crate::geometry::ScaleFactor;

verus! {

/// The button a mouse event was made with.
#[derive(Clone, Copy, Debug, PartialEq, Eq, Structural)]
pub enum MouseButton {
    Left,
    Middle,
    Right,
}

/// One frame of a multi-touch sequence: which edge of the gesture it is.
#[derive(Clone, Copy, Debug, PartialEq, Eq, Structural)]
pub enum TouchEventType {
    Down,
    Move,
    Up,
    Cancel,
}

/// An identifier stable per touch point across its whole
/// down, move, up-or-cancel sequence.
#[derive(Clone, Copy, Debug, PartialEq, Eq, Structural)]
pub struct TouchId {
    pub id: i32,
}

/// The phase of a pressure-sensitive trackpad gesture.
#[derive(Clone, Copy, Debug, PartialEq, Eq, Structural)]
pub enum TouchpadPressurePhase {
    BeforeClick,
    AfterFirstClick,
    AfterSecondClick,
}

/// Trackpad pressure in thousandths of full scale, so that the conceptual
/// range zero to one is held exactly.
#[derive(Clone, Copy, Debug, PartialEq, Eq, Structural)]
pub struct PressureLevel {
    pub millis: u32,
}

impl PressureLevel {
    /// Pressure never exceeds full scale.
    pub open spec fn wf(self) -> bool {
        self.millis <= 1000
    }

    pub fn new(millis: u32) -> (r: PressureLevel)
        requires
            millis <= 1000,
        ensures
            r.millis == millis,
            r.wf(),
    {
        PressureLevel { millis }
    }
}

/// Where a scroll event is in its gesture: a concrete delta, or the start
/// or end marker of a fling.
#[derive(Clone, Copy, Debug, PartialEq, Eq, Structural)]
pub enum ScrollLocation {
    Delta(DevicePoint),
    Start,
    End,
}

/// A platform key code.
#[derive(Clone, Copy, Debug, PartialEq, Eq, Structural)]
pub struct Key {
    pub code: u32,
}

/// Whether a key transition is a press or a release.
#[derive(Clone, Copy, Debug, PartialEq, Eq, Structural)]
pub enum KeyState {
    Pressed,
    Released,
}

/// The modifier keys held during a key event.
#[derive(Clone, Copy, Debug, PartialEq, Eq, Structural)]
pub struct KeyModifiers {
    pub shift: bool,
    pub control: bool,
    pub alt: bool,
    pub meta: bool,
}

/// The direction of a chrome-level history traversal.
#[derive(Clone, Copy, Debug, PartialEq, Eq, Structural)]
pub enum TraversalDirection {
    Back,
    Forward,
}

/// A hit-test-worthy mouse action: a button identifier and a point in
/// device pixels.
#[derive(Clone, Copy, Debug, PartialEq, Eq, Structural)]
pub enum MouseWindowEvent {
    Click(MouseButton, DevicePoint),
    MouseDown(MouseButton, DevicePoint),
    MouseUp(MouseButton, DevicePoint),
}

/// A togglable renderer diagnostic.
#[derive(Clone, Copy, Debug, PartialEq, Eq, Structural)]
pub enum WebRenderDebugOption {
    Profiler,
    TextureCacheDebug,
    RenderTargetDebug,
}

/// An event the windowing system sends to the compositor.
#[derive(Clone)]
pub enum WindowEvent {
    /// Spurious wake: no message arrived, the event loop was only kicked.
    Idle,
    /// Part of the window is dirty and must be redrawn; the host makes its
    /// rendering context current before compositing proceeds.
    Refresh,
    /// The window was resized to this new framebuffer size, in device
    /// pixels.
    Resize(DeviceSize),
    /// Pressure-sensitive trackpad input.
    TouchpadPressure(DevicePoint, PressureLevel, TouchpadPressurePhase),
    /// Navigate the identified top-level browsing context to a new URL.
    LoadUrl(BrowserId, String),
    /// A mouse hit test is to be performed.
    MouseWindowEventClass(MouseWindowEvent),
    /// Pure pointer motion, no button state.
    MouseWindowMoveEventClass(DevicePoint),
    /// One frame of a multi-touch sequence.
    Touch(TouchEventType, TouchId, DevicePoint),
    /// A scroll: the location of the delta, the origin point that
    /// disambiguates scroll start from continuation, and the gesture edge.
    Scroll(ScrollLocation, DevicePoint, TouchEventType),
    /// An absolute pinch or gesture zoom request.
    Zoom(ScaleFactor),
    /// A pinch zoom synthesized from non-touch input.
    PinchZoom(ScaleFactor),
    /// Reset the zoom to one.
    ResetZoom,
    /// Chrome-level history navigation.
    Navigation(BrowserId, TraversalDirection),
    /// Terminal event: the producer enqueues nothing after it.
    Quit,
    /// A raw key transition; the character is absent for non-printable
    /// keys.
    KeyEvent(Option<char>, Key, KeyState, KeyModifiers),
    /// Re-fetch the current document of the identified context.
    Reload(BrowserId),
    /// Create a new top-level browsing context for this URL; the host
    /// delivers exactly one id on the reply channel.
    NewBrowser(String, IdReply),
    /// Destroy the identified context; its id is never reused afterwards.
    CloseBrowser(BrowserId),
    /// Make the identified context the sole visible one; the previously
    /// visible context becomes hidden, not destroyed.
    SelectBrowser(BrowserId),
    /// Flip the named renderer diagnostic.
    ToggleWebRenderDebug(WebRenderDebugOption),
}

/// The variant tag of an event, separated from its payload.
#[derive(Clone, Copy, Debug, PartialEq, Eq, Structural)]
pub enum EventKind {
    Idle,
    Refresh,
    Resize,
    TouchpadPressure,
    LoadUrl,
    Mouse,
    MouseMove,
    Touch,
    Scroll,
    Zoom,
    PinchZoom,
    ResetZoom,
    Navigation,
    Quit,
    Key,
    Reload,
    NewBrowser,
    CloseBrowser,
    SelectBrowser,
    ToggleWebRenderDebug,
}

/// The tag of an event.
pub open spec fn kind_of(e: WindowEvent) -> EventKind {
    match e {
        WindowEvent::Idle => EventKind::Idle,
        WindowEvent::Refresh => EventKind::Refresh,
        WindowEvent::Resize(..) => EventKind::Resize,
        WindowEvent::TouchpadPressure(..) => EventKind::TouchpadPressure,
        WindowEvent::LoadUrl(..) => EventKind::LoadUrl,
        WindowEvent::MouseWindowEventClass(..) => EventKind::Mouse,
        WindowEvent::MouseWindowMoveEventClass(..) => EventKind::MouseMove,
        WindowEvent::Touch(..) => EventKind::Touch,
        WindowEvent::Scroll(..) => EventKind::Scroll,
        WindowEvent::Zoom(..) => EventKind::Zoom,
        WindowEvent::PinchZoom(..) => EventKind::PinchZoom,
        WindowEvent::ResetZoom => EventKind::ResetZoom,
        WindowEvent::Navigation(..) => EventKind::Navigation,
        WindowEvent::Quit => EventKind::Quit,
        WindowEvent::KeyEvent(..) => EventKind::Key,
        WindowEvent::Reload(..) => EventKind::Reload,
        WindowEvent::NewBrowser(..) => EventKind::NewBrowser,
        WindowEvent::CloseBrowser(..) => EventKind::CloseBrowser,
        WindowEvent::SelectBrowser(..) => EventKind::SelectBrowser,
        WindowEvent::ToggleWebRenderDebug(..) => EventKind::ToggleWebRenderDebug,
    }
}

/// The diagnostic label of a variant tag.
pub open spec fn label_of(k: EventKind) -> Seq<char> {
    match k {
        EventKind::Idle => "Idle"@,
        EventKind::Refresh => "Refresh"@,
        EventKind::Resize => "Resize"@,
        EventKind::TouchpadPressure => "TouchpadPressure"@,
        EventKind::LoadUrl => "LoadUrl"@,
        EventKind::Mouse => "Mouse"@,
        EventKind::MouseMove => "MouseMove"@,
        EventKind::Touch => "Touch"@,
        EventKind::Scroll => "Scroll"@,
        EventKind::Zoom => "Zoom"@,
        EventKind::PinchZoom => "PinchZoom"@,
        EventKind::ResetZoom => "ResetZoom"@,
        EventKind::Navigation => "Navigation"@,
        EventKind::Quit => "Quit"@,
        EventKind::Key => "Key"@,
        EventKind::Reload => "Reload"@,
        EventKind::NewBrowser => "NewBrowser"@,
        EventKind::CloseBrowser => "CloseBrowser"@,
        EventKind::SelectBrowser => "SelectBrowser"@,
        EventKind::ToggleWebRenderDebug => "ToggleWebRenderDebug"@,
    }
}

impl WindowEvent {
    /// A well-formed event as a backend constructs it: a fresh reply
    /// channel on a creation request, pressure and zoom payloads in range.
    pub open spec fn wf(self) -> bool {
        match self {
            WindowEvent::NewBrowser(_url, reply) => reply.delivered is None,
            WindowEvent::TouchpadPressure(_point, pressure, _phase) => pressure.wf(),
            WindowEvent::Zoom(factor) => factor.wf(),
            WindowEvent::PinchZoom(factor) => factor.wf(),
            WindowEvent::Idle
            | WindowEvent::Refresh
            | WindowEvent::Resize(..)
            | WindowEvent::LoadUrl(..)
            | WindowEvent::MouseWindowEventClass(..)
            | WindowEvent::MouseWindowMoveEventClass(..)
            | WindowEvent::Touch(..)
            | WindowEvent::Scroll(..)
            | WindowEvent::ResetZoom
            | WindowEvent::Navigation(..)
            | WindowEvent::Quit
            | WindowEvent::KeyEvent(..)
            | WindowEvent::Reload(..)
            | WindowEvent::CloseBrowser(..)
            | WindowEvent::SelectBrowser(..)
            | WindowEvent::ToggleWebRenderDebug(..) => true,
        }
    }

    /// The variant tag of this event.
    pub fn kind(&self) -> (k: EventKind)
        ensures
            k == kind_of(*self),
    {
        match self {
            WindowEvent::Idle => EventKind::Idle,
            WindowEvent::Refresh => EventKind::Refresh,
            WindowEvent::Resize(..) => EventKind::Resize,
            WindowEvent::TouchpadPressure(..) => EventKind::TouchpadPressure,
            WindowEvent::LoadUrl(..) => EventKind::LoadUrl,
            WindowEvent::MouseWindowEventClass(..) => EventKind::Mouse,
            WindowEvent::MouseWindowMoveEventClass(..) => EventKind::MouseMove,
            WindowEvent::Touch(..) => EventKind::Touch,
            WindowEvent::Scroll(..) => EventKind::Scroll,
            WindowEvent::Zoom(..) => EventKind::Zoom,
            WindowEvent::PinchZoom(..) => EventKind::PinchZoom,
            WindowEvent::ResetZoom => EventKind::ResetZoom,
            WindowEvent::Navigation(..) => EventKind::Navigation,
            WindowEvent::Quit => EventKind::Quit,
            WindowEvent::KeyEvent(..) => EventKind::Key,
            WindowEvent::Reload(..) => EventKind::Reload,
            WindowEvent::NewBrowser(..) => EventKind::NewBrowser,
            WindowEvent::CloseBrowser(..) => EventKind::CloseBrowser,
            WindowEvent::SelectBrowser(..) => EventKind::SelectBrowser,
            WindowEvent::ToggleWebRenderDebug(..) => EventKind::ToggleWebRenderDebug,
        }
    }

    /// The diagnostic label of this event: a short identifier of the
    /// variant, independent of the payload, safe to log for any event.
    pub fn label(&self) -> (s: &'static str)
        ensures
            s@ == label_of(kind_of(*self)),
    {
        match self {
            WindowEvent::Idle => "Idle",
            WindowEvent::Refresh => "Refresh",
            WindowEvent::Resize(..) => "Resize",
            WindowEvent::TouchpadPressure(..) => "TouchpadPressure",
            WindowEvent::LoadUrl(..) => "LoadUrl",
            WindowEvent::MouseWindowEventClass(..) => "Mouse",
            WindowEvent::MouseWindowMoveEventClass(..) => "MouseMove",
            WindowEvent::Touch(..) => "Touch",
            WindowEvent::Scroll(..) => "Scroll",
            WindowEvent::Zoom(..) => "Zoom",
            WindowEvent::PinchZoom(..) => "PinchZoom",
            WindowEvent::ResetZoom => "ResetZoom",
            WindowEvent::Navigation(..) => "Navigation",
            WindowEvent::Quit => "Quit",
            WindowEvent::KeyEvent(..) => "Key",
            WindowEvent::Reload(..) => "Reload",
            WindowEvent::NewBrowser(..) => "NewBrowser",
            WindowEvent::CloseBrowser(..) => "CloseBrowser",
            WindowEvent::SelectBrowser(..) => "SelectBrowser",
            WindowEvent::ToggleWebRenderDebug(..) => "ToggleWebRenderDebug",
        }
    }
}

/// Every variant's diagnostic label is defined and non-empty.
pub proof fn lemma_label_nonempty(e: WindowEvent)
    ensures
        label_of(kind_of(e)).len() > 0,
{
    reveal_strlit("Idle");
    reveal_strlit("Refresh");
    reveal_strlit("Resize");
    reveal_strlit("TouchpadPressure");
    reveal_strlit("LoadUrl");
    reveal_strlit("Mouse");
    reveal_strlit("MouseMove");
    reveal_strlit("Touch");
    reveal_strlit("Scroll");
    reveal_strlit("Zoom");
    reveal_strlit("PinchZoom");
    reveal_strlit("ResetZoom");
    reveal_strlit("Navigation");
    reveal_strlit("Quit");
    reveal_strlit("Key");
    reveal_strlit("Reload");
    reveal_strlit("NewBrowser");
    reveal_strlit("CloseBrowser");
    reveal_strlit("SelectBrowser");
    reveal_strlit("ToggleWebRenderDebug");
}

/// The diagnostic label depends only on the variant tag: two events of the
/// same variant carry identical labels, whatever their payloads.
pub proof fn lemma_label_payload_independent(e1: WindowEvent, e2: WindowEvent)
    requires
        kind_of(e1) == kind_of(e2),
    ensures
        label_of(kind_of(e1)) == label_of(kind_of(e2)),
{
}

} // verus!
