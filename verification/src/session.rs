//! The browsing-context lifecycle rules that the event taxonomy promises.
//!
//! The taxonomy's global invariant says: ids are allocated by `NewBrowser`,
//! are globally unique for the process lifetime, are never reused after
//! `CloseBrowser`, and `Quit` is the only event after which no further event
//! may arrive. A [`Session`] tracks exactly that state while the compositor
//! drains events, accepts every event a well-behaved backend may produce,
//! and flags each contract violation — an unknown or closed id, or an event
//! after `Quit` — instead of processing it.

use vstd::prelude::*;
use crate::browser::BrowserId;
use crate::browser::IdReply;
use crate::events::WindowEvent;

verus! {

/// What the compositor loop should do with an accepted event.
#[derive(Clone, Copy, Debug, PartialEq, Eq, Structural)]
pub enum Outcome {
    /// The event was admitted; dispatching it is the loop's business.
    Handled,
    /// A browsing context was created: its fresh id, and the event's reply
    /// channel with that id already delivered on it.
    BrowserCreated(BrowserId, IdReply),
    /// The terminal `Quit` event was accepted; the loop must stop.
    ShutDown,
}

/// A violation of the event contract by the producer.
#[derive(Clone, Copy, Debug, PartialEq, Eq, Structural)]
pub enum Violation {
    /// An event arrived after `Quit`, which promises that none follows.
    EventAfterQuit,
    /// The event bears an id that no `NewBrowser` ever allocated.
    UnknownBrowser(BrowserId),
    /// The event bears an id whose context `CloseBrowser` destroyed.
    ClosedBrowser(BrowserId),
}

/// The mathematical state of a session: the allocation frontier (every id
/// below it has been created), the ids closed so far, the visible context,
/// and whether the terminal event has been accepted.
#[verifier::ext_equal]
pub struct SessionView {
    pub next_id: u64,
    pub closed: Seq<u64>,
    pub visible: Option<u64>,
    pub quit: bool,
}

impl SessionView {
    /// Ids are allocated sequentially, so the ids created so far are
    /// exactly those below the frontier.
    pub open spec fn created(self, id: BrowserId) -> bool {
        id.id < self.next_id
    }

    pub open spec fn is_closed(self, id: BrowserId) -> bool {
        self.closed.contains(id.id)
    }

    /// A context that exists: created and not yet destroyed.
    pub open spec fn live(self, id: BrowserId) -> bool {
        self.created(id) && !self.is_closed(id)
    }

    /// Internal consistency: only created ids are ever closed, and the
    /// visible context, if any, is live.
    pub open spec fn wf(self) -> bool {
        &&& forall|j: int| 0 <= j < self.closed.len() ==> #[trigger] self.closed[j] < self.next_id
        &&& match self.visible {
            Option::Some(v) => v < self.next_id && !self.closed.contains(v),
            Option::None => true,
        }
    }
}

/// The id an event refers to, where it refers to one. `NewBrowser` bears
/// none: its id does not exist until the session allocates it.
pub open spec fn event_target(e: WindowEvent) -> Option<BrowserId> {
    match e {
        WindowEvent::LoadUrl(id, _) => Some(id),
        WindowEvent::Navigation(id, _) => Some(id),
        WindowEvent::Reload(id) => Some(id),
        WindowEvent::CloseBrowser(id) => Some(id),
        WindowEvent::SelectBrowser(id) => Some(id),
        WindowEvent::Idle
        | WindowEvent::Refresh
        | WindowEvent::Resize(..)
        | WindowEvent::TouchpadPressure(..)
        | WindowEvent::MouseWindowEventClass(..)
        | WindowEvent::MouseWindowMoveEventClass(..)
        | WindowEvent::Touch(..)
        | WindowEvent::Scroll(..)
        | WindowEvent::Zoom(..)
        | WindowEvent::PinchZoom(..)
        | WindowEvent::ResetZoom
        | WindowEvent::Quit
        | WindowEvent::KeyEvent(..)
        | WindowEvent::NewBrowser(..)
        | WindowEvent::ToggleWebRenderDebug(..) => Option::None,
    }
}

/// The transition an admitted event makes, once the quit gate and the id
/// checks have passed.
pub open spec fn step_admitted(v: SessionView, e: WindowEvent) -> (SessionView, Result<
    Outcome,
    Violation,
>) {
    match e {
        WindowEvent::NewBrowser(_url, _reply) => {
            let id = BrowserId { id: v.next_id };
            (
                SessionView { next_id: (v.next_id + 1) as u64, ..v },
                Ok(Outcome::BrowserCreated(id, IdReply { delivered: Some(id) })),
            )
        },
        WindowEvent::CloseBrowser(id) => {
            (
                SessionView {
                    closed: v.closed.push(id.id),
                    visible: if v.visible == Some(id.id) {
                        Option::<u64>::None
                    } else {
                        v.visible
                    },
                    ..v
                },
                Ok(Outcome::Handled),
            )
        },
        WindowEvent::SelectBrowser(id) => {
            (SessionView { visible: Some(id.id), ..v }, Ok(Outcome::Handled))
        },
        WindowEvent::Quit => (SessionView { quit: true, ..v }, Ok(Outcome::ShutDown)),
        WindowEvent::Idle
        | WindowEvent::Refresh
        | WindowEvent::Resize(..)
        | WindowEvent::TouchpadPressure(..)
        | WindowEvent::LoadUrl(..)
        | WindowEvent::MouseWindowEventClass(..)
        | WindowEvent::MouseWindowMoveEventClass(..)
        | WindowEvent::Touch(..)
        | WindowEvent::Scroll(..)
        | WindowEvent::Zoom(..)
        | WindowEvent::PinchZoom(..)
        | WindowEvent::ResetZoom
        | WindowEvent::Navigation(..)
        | WindowEvent::KeyEvent(..)
        | WindowEvent::Reload(..)
        | WindowEvent::ToggleWebRenderDebug(..) => (v, Ok(Outcome::Handled)),
    }
}

/// The full transition one event makes on a session: events after `Quit`
/// are refused, an event bearing a closed or never-created id is flagged
/// and changes nothing, and every other event is admitted.
pub open spec fn step(v: SessionView, e: WindowEvent) -> (SessionView, Result<
    Outcome,
    Violation,
>) {
    if v.quit {
        (v, Err(Violation::EventAfterQuit))
    } else {
        match event_target(e) {
            Option::Some(id) => {
                if v.is_closed(id) {
                    (v, Err(Violation::ClosedBrowser(id)))
                } else if !v.created(id) {
                    (v, Err(Violation::UnknownBrowser(id)))
                } else {
                    step_admitted(v, e)
                }
            },
            Option::None => step_admitted(v, e),
        }
    }
}

/// The transitions a whole batch of events makes, in order: the final
/// session state and one result per event.
pub open spec fn step_all(v: SessionView, es: Seq<WindowEvent>) -> (SessionView, Seq<
    Result<Outcome, Violation>,
>)
    decreases es.len(),
{
    if es.len() == 0 {
        (v, Seq::empty())
    } else {
        let first = step(v, es[0]);
        let rest = step_all(first.0, es.drop_first());
        (rest.0, seq![first.1] + rest.1)
    }
}

/// A batch produces exactly one result per event.
pub proof fn lemma_step_all_len(v: SessionView, es: Seq<WindowEvent>)
    ensures
        step_all(v, es).1.len() == es.len(),
    decreases es.len(),
{
    if es.len() > 0 {
        lemma_step_all_len(step(v, es[0]).0, es.drop_first());
    }
}

/// The compositor-side session state. See [`SessionView`] for its
/// mathematical model.
pub struct Session {
    pub next_id: u64,
    pub closed: Vec<u64>,
    pub visible: Option<u64>,
    pub quit: bool,
}

impl View for Session {
    type V = SessionView;

    open spec fn view(&self) -> SessionView {
        SessionView {
            next_id: self.next_id,
            closed: self.closed@,
            visible: self.visible,
            quit: self.quit,
        }
    }
}

impl Session {
    /// A fresh session: no context created, none closed, none visible.
    pub fn new() -> (s: Session)
        ensures
            s@ == (SessionView {
                next_id: 0u64,
                closed: Seq::<u64>::empty(),
                visible: Option::<u64>::None,
                quit: false,
            }),
            s@.wf(),
    {
        Session::starting_at(0)
    }

    /// A fresh session whose allocator hands out ids from `first_id` on.
    /// Ids are opaque, so where the allocation series begins is the
    /// host's business; uniqueness and non-reuse are this session's.
    pub fn starting_at(first_id: u64) -> (s: Session)
        ensures
            s@ == (SessionView {
                next_id: first_id,
                closed: Seq::<u64>::empty(),
                visible: Option::<u64>::None,
                quit: false,
            }),
            s@.wf(),
    {
        let s = Session { next_id: first_id, closed: Vec::new(), visible: None, quit: false };
        proof {
            assert(s@.closed =~= Seq::<u64>::empty());
        }
        s
    }

    /// Whether this id names a live context.
    pub fn is_live(&self, id: BrowserId) -> (r: bool)
        ensures
            r == self@.live(id),
    {
        id.id < self.next_id && !self.closed_contains(id.id)
    }

    /// The currently visible context, if any.
    pub fn visible_browser(&self) -> (r: Option<BrowserId>)
        ensures
            match r {
                Option::Some(id) => self@.visible == Some(id.id),
                Option::None => self@.visible is None,
            },
    {
        match self.visible {
            Option::Some(v) => Some(BrowserId { id: v }),
            Option::None => None,
        }
    }

    /// Whether the terminal event has been accepted.
    pub fn has_quit(&self) -> (r: bool)
        ensures
            r == self@.quit,
    {
        self.quit
    }

    fn closed_contains(&self, id: u64) -> (r: bool)
        ensures
            r == self@.closed.contains(id),
    {
        let mut i: usize = 0;
        while i < self.closed.len()
            invariant
                i <= self.closed@.len(),
                forall|j: int| 0 <= j < i ==> self.closed@[j] != id,
            decreases self.closed@.len() - i,
        {
            if self.closed[i] == id {
                return true;
            }
            i += 1;
        }
        false
    }

    /// Consume one event, in the order the loop drained it. The session
    /// advances exactly as [`step`] says: a well-behaved event is admitted
    /// and its outcome returned; an event violating the taxonomy's global
    /// invariant is flagged and leaves the session unchanged.
    pub fn apply(&mut self, e: WindowEvent) -> (r: Result<Outcome, Violation>)
        requires
            old(self)@.wf(),
            old(self).next_id < u64::MAX,
            e.wf(),
        ensures
            final(self)@.wf(),
            final(self)@ == step(old(self)@, e).0,
            r == step(old(self)@, e).1,
    {
        let ghost e0 = e;
        if self.quit {
            return Err(Violation::EventAfterQuit);
        }
        match &e {
            WindowEvent::LoadUrl(id, _)
            | WindowEvent::Navigation(id, _)
            | WindowEvent::Reload(id)
            | WindowEvent::CloseBrowser(id)
            | WindowEvent::SelectBrowser(id) => {
                if self.closed_contains(id.id) {
                    return Err(Violation::ClosedBrowser(*id));
                }
                if id.id >= self.next_id {
                    return Err(Violation::UnknownBrowser(*id));
                }
            },
            WindowEvent::Idle
            | WindowEvent::Refresh
            | WindowEvent::Resize(..)
            | WindowEvent::TouchpadPressure(..)
            | WindowEvent::MouseWindowEventClass(..)
            | WindowEvent::MouseWindowMoveEventClass(..)
            | WindowEvent::Touch(..)
            | WindowEvent::Scroll(..)
            | WindowEvent::Zoom(..)
            | WindowEvent::PinchZoom(..)
            | WindowEvent::ResetZoom
            | WindowEvent::Quit
            | WindowEvent::KeyEvent(..)
            | WindowEvent::NewBrowser(..)
            | WindowEvent::ToggleWebRenderDebug(..) => {},
        }
        match e {
            WindowEvent::NewBrowser(_url, mut reply) => {
                let id = BrowserId { id: self.next_id };
                self.next_id = self.next_id + 1;
                let _delivered = reply.deliver(id);
                proof {
                    assert(self@ =~= step(old(self)@, e0).0);
                }
                Ok(Outcome::BrowserCreated(id, reply))
            },
            WindowEvent::CloseBrowser(id) => {
                self.closed.push(id.id);
                match self.visible {
                    Option::Some(v) => {
                        if v == id.id {
                            self.visible = None;
                        }
                    },
                    Option::None => {},
                }
                proof {
                    lemma_push_contains(old(self)@.closed, id.id);
                    assert(self@ =~= step(old(self)@, e0).0);
                }
                Ok(Outcome::Handled)
            },
            WindowEvent::SelectBrowser(id) => {
                self.visible = Some(id.id);
                proof {
                    assert(self@ =~= step(old(self)@, e0).0);
                }
                Ok(Outcome::Handled)
            },
            WindowEvent::Quit => {
                self.quit = true;
                proof {
                    assert(self@ =~= step(old(self)@, e0).0);
                }
                Ok(Outcome::ShutDown)
            },
            WindowEvent::Idle
            | WindowEvent::Refresh
            | WindowEvent::Resize(..)
            | WindowEvent::TouchpadPressure(..)
            | WindowEvent::LoadUrl(..)
            | WindowEvent::MouseWindowEventClass(..)
            | WindowEvent::MouseWindowMoveEventClass(..)
            | WindowEvent::Touch(..)
            | WindowEvent::Scroll(..)
            | WindowEvent::Zoom(..)
            | WindowEvent::PinchZoom(..)
            | WindowEvent::ResetZoom
            | WindowEvent::Navigation(..)
            | WindowEvent::KeyEvent(..)
            | WindowEvent::Reload(..)
            | WindowEvent::ToggleWebRenderDebug(..) => {
                proof {
                    assert(self@ =~= step(old(self)@, e0).0);
                }
                Ok(Outcome::Handled)
            },
        }
    }

    /// Consume a drained batch of events in order, as the compositor's
    /// loop does after a wake: each event is processed exactly once and
    /// answered exactly once, with the session advancing as [`step_all`]
    /// says.
    pub fn apply_batch(&mut self, events: Vec<WindowEvent>) -> (results: Vec<
        Result<Outcome, Violation>,
    >)
        requires
            old(self)@.wf(),
            old(self).next_id + events@.len() <= u64::MAX,
            forall|j: int| 0 <= j < events@.len() ==> (#[trigger] events@[j]).wf(),
        ensures
            final(self)@.wf(),
            final(self)@ == step_all(old(self)@, events@).0,
            results@ == step_all(old(self)@, events@).1,
            results@.len() == events@.len(),
    {
        let ghost all = events@;
        let ghost total = step_all(old(self)@, events@);
        let mut events = events;
        let mut results: Vec<Result<Outcome, Violation>> = Vec::new();
        while events.len() > 0
            invariant
                self@.wf(),
                self.next_id + events@.len() <= u64::MAX,
                forall|j: int| 0 <= j < events@.len() ==> (#[trigger] events@[j]).wf(),
                total == step_all(old(self)@, all),
                total.0 == step_all(self@, events@).0,
                total.1 == results@ + step_all(self@, events@).1,
            decreases events@.len(),
        {
            let ghost before = self@;
            let ghost remaining = events@;
            let e = events.remove(0);
            proof {
                assert(events@ =~= remaining.drop_first());
            }
            let r = self.apply(e);
            results.push(r);
            proof {
                let rest = step_all(self@, events@);
                assert(step_all(before, remaining).1 =~= seq![r] + rest.1);
                assert(total.1 =~= results@ + rest.1);
            }
        }
        proof {
            assert(total.1 =~= results@);
            lemma_step_all_len(old(self)@, all);
        }
        results
    }
}  // impl Session

/// Pushing one element changes membership by exactly that element.
proof fn lemma_push_contains(s: Seq<u64>, v: u64)
    ensures
        forall|x: u64| #[trigger] s.push(v).contains(x) <==> (s.contains(x) || x == v),
{
    assert forall|x: u64| #[trigger] s.push(v).contains(x) implies (s.contains(x) || x == v) by {
        let i = choose|i: int| 0 <= i < s.push(v).len() && s.push(v)[i] == x;
        if i < s.len() {
            assert(s[i] == x);
        }
    };
    assert forall|x: u64| (s.contains(x) || x == v) implies #[trigger] s.push(v).contains(x) by {
        if s.contains(x) {
            let i = choose|i: int| 0 <= i < s.len() && s[i] == x;
            assert(s.push(v)[i] == x);
        } else {
            assert(s.push(v)[s.len() as int] == x);
        }
    };
}

/// An id, once closed, stays closed under every further event: no event can
/// resurrect a destroyed context, so its id is never reused.
pub proof fn lemma_closed_is_permanent(v: SessionView, e: WindowEvent, id: BrowserId)
    requires
        v.is_closed(id),
    ensures
        step(v, e).0.is_closed(id),
{
    match e {
        WindowEvent::CloseBrowser(c) => {
            if !v.quit && !v.is_closed(c) && v.created(c) {
                lemma_push_contains(v.closed, c.id);
            }
        },
        _ => {},
    }
}

/// The allocation frontier never retreats and created ids stay created:
/// together with [`lemma_closed_is_permanent`], no id is ever handed out
/// twice, and a destroyed context's id is never brought back.
pub proof fn lemma_created_is_permanent(v: SessionView, e: WindowEvent, id: BrowserId)
    requires
        v.created(id),
        v.next_id < u64::MAX,
    ensures
        step(v, e).0.created(id),
        step(v, e).0.next_id >= v.next_id,
{
}

/// Any event bearing a closed id is flagged as a violation and leaves the
/// session unchanged.
pub proof fn lemma_event_on_closed_id_rejected(v: SessionView, e: WindowEvent, id: BrowserId)
    requires
        !v.quit,
        event_target(e) == Some(id),
        v.is_closed(id),
    ensures
        step(v, e).1 == Result::<Outcome, Violation>::Err(Violation::ClosedBrowser(id)),
        step(v, e).0 == v,
{
}

/// Creating a browsing context allocates a fresh id — one never created
/// before, hence never closed — and delivers exactly that id, exactly once,
/// on the event's reply channel.
pub proof fn lemma_new_browser_fresh(v: SessionView, url: String, reply: IdReply)
    requires
        v.wf(),
        !v.quit,
        v.next_id < u64::MAX,
    ensures
        ({
            let (v2, r) = step(v, WindowEvent::NewBrowser(url, reply));
            &&& r matches Ok(Outcome::BrowserCreated(id, out)) ==> {
                &&& !v.created(id)
                &&& v2.created(id)
                &&& !v2.is_closed(id)
                &&& out.delivered == Some(id)
            }
            &&& r is Ok
        }),
{
    let (v2, r) = step(v, WindowEvent::NewBrowser(url, reply));
    let id = BrowserId { id: v.next_id };
    if v2.is_closed(id) {
        let j = choose|j: int| 0 <= j < v2.closed.len() && v2.closed[j] == id.id;
        assert(v.closed[j] < v.next_id);
    }
}

/// Selecting two contexts in sequence leaves only the second visible; the
/// first remains alive and can be selected again.
pub proof fn lemma_select_keeps_previous_alive(v: SessionView, a: BrowserId, b: BrowserId)
    requires
        v.wf(),
        !v.quit,
        v.live(a),
        v.live(b),
    ensures
        ({
            let v1 = step(v, WindowEvent::SelectBrowser(a)).0;
            let v2 = step(v1, WindowEvent::SelectBrowser(b)).0;
            &&& v2.visible == Some(b.id)
            &&& v2.live(a)
            &&& step(v2, WindowEvent::SelectBrowser(a)).1 is Ok
            &&& step(v2, WindowEvent::SelectBrowser(a)).0.visible == Some(a.id)
        }),
{
}

/// Quit is terminal: once accepted, every further event — whatever it is —
/// is refused, and the session no longer changes.
pub proof fn lemma_quit_is_terminal(v: SessionView, e: WindowEvent)
    requires
        !v.quit,
    ensures
        step(v, WindowEvent::Quit).1 == Result::<Outcome, Violation>::Ok(Outcome::ShutDown),
        step(step(v, WindowEvent::Quit).0, e).1 == Result::<Outcome, Violation>::Err(
            Violation::EventAfterQuit,
        ),
        step(step(v, WindowEvent::Quit).0, e).0 == step(v, WindowEvent::Quit).0,
{
}

} // verus!
