//! A wake-and-drain model of the compositor's event loop.
//!
//! The platform backend marshals taxonomy values into the loop's queue; the
//! compositor drains the queue on its own thread, one event at a time. The
//! one mandated concurrency primitive is the event-loop waker: a handle
//! that forces a blocked loop to resume draining. Waking is idempotent —
//! any number of wakes before the next drain collapse to one effective
//! wake, never to zero — and a wake aimed at a loop that has already shut
//! down is a harmless no-op. In a multi-threaded host the waker owns a
//! thread-safe handle to the loop's wake flag; here the loop state is
//! passed to it explicitly, so that the wake protocol itself is what is
//! verified.

use vstd::prelude::*;
use crate::events::WindowEvent;

verus! {

/// The mathematical state of the event loop: the pending events in arrival
/// order, whether a wake is pending, and whether the loop has shut down.
#[verifier::ext_equal]
pub struct LoopState {
    pub queue: Seq<WindowEvent>,
    pub wake_pending: bool,
    pub shut_down: bool,
}

/// What one wake does: it marks a wake pending and touches nothing else.
pub open spec fn wake_spec(v: LoopState) -> LoopState {
    LoopState { wake_pending: true, ..v }
}

/// What enqueueing one event does: the event joins the back of the queue
/// and the loop is woken so that it will drain.
pub open spec fn enqueue_spec(v: LoopState, e: WindowEvent) -> LoopState {
    LoopState { queue: v.queue.push(e), wake_pending: true, ..v }
}

/// What one drain does: every pending event leaves, in arrival order, and
/// the pending wake is consumed.
pub open spec fn drain_spec(v: LoopState) -> (LoopState, Seq<WindowEvent>) {
    (LoopState { queue: Seq::empty(), wake_pending: false, ..v }, v.queue)
}

/// `n` wakes in a row.
pub open spec fn wake_many(v: LoopState, n: nat) -> LoopState
    decreases n,
{
    if n == 0 {
        v
    } else {
        wake_spec(wake_many(v, (n - 1) as nat))
    }
}

/// A whole sequence of events enqueued in order.
pub open spec fn enqueue_all(v: LoopState, es: Seq<WindowEvent>) -> LoopState
    decreases es.len(),
{
    if es.len() == 0 {
        v
    } else {
        enqueue_all(enqueue_spec(v, es[0]), es.drop_first())
    }
}

/// The compositor's event queue and wake flag.
pub struct EventLoop {
    pub queue: Vec<WindowEvent>,
    pub wake_pending: bool,
    pub shut_down: bool,
}

impl View for EventLoop {
    type V = LoopState;

    open spec fn view(&self) -> LoopState {
        LoopState {
            queue: self.queue@,
            wake_pending: self.wake_pending,
            shut_down: self.shut_down,
        }
    }
}

/// A handle that forces a blocked event loop to resume draining. Any
/// number of wakers may exist at once and each is effective; the handle
/// carries no state of its own, so it stays valid however long it is held.
#[derive(Clone, Copy)]
pub struct EventLoopWaker {}

impl EventLoopWaker {
    /// Wake the loop. Idempotent — see [`lemma_wake_idempotent`] — and
    /// harmless on a loop that has already shut down: it only marks the
    /// wake flag, which a shut-down loop never acts on.
    pub fn wake(&self, l: &mut EventLoop)
        ensures
            final(l)@ == wake_spec(old(l)@),
    {
        l.wake_pending = true;
        proof {
            assert(l@ =~= wake_spec(old(l)@));
        }
    }
}

impl EventLoop {
    /// A fresh loop: nothing queued, no wake pending, not shut down.
    pub fn new() -> (l: EventLoop)
        ensures
            l@ == (LoopState {
                queue: Seq::<WindowEvent>::empty(),
                wake_pending: false,
                shut_down: false,
            }),
    {
        let l = EventLoop { queue: Vec::new(), wake_pending: false, shut_down: false };
        proof {
            assert(l@ =~= LoopState {
                queue: Seq::<WindowEvent>::empty(),
                wake_pending: false,
                shut_down: false,
            });
        }
        l
    }

    /// A waker for this loop, usable from any thread and at any time.
    pub fn create_waker(&self) -> (w: EventLoopWaker) {
        EventLoopWaker {  }
    }

    /// Enqueue one translated event and wake the loop.
    pub fn enqueue(&mut self, e: WindowEvent)
        ensures
            final(self)@ == enqueue_spec(old(self)@, e),
    {
        self.queue.push(e);
        self.wake_pending = true;
        proof {
            assert(self@ =~= enqueue_spec(old(self)@, e));
        }
    }

    /// The blocking wait's exit test: report whether a wake was pending
    /// and consume it.
    pub fn take_wake(&mut self) -> (was_pending: bool)
        ensures
            was_pending == old(self)@.wake_pending,
            final(self)@ == (LoopState { wake_pending: false, ..old(self)@ }),
    {
        let was: bool = self.wake_pending;
        self.wake_pending = false;
        proof {
            assert(self@ =~= LoopState { wake_pending: false, ..old(self)@ });
        }
        was
    }

    /// Drain the queue: every pending event leaves exactly once, in
    /// arrival order, and the pending wake is consumed.
    pub fn drain(&mut self) -> (out: Vec<WindowEvent>)
        ensures
            out@ == old(self)@.queue,
            final(self)@ == drain_spec(old(self)@).0,
            out@ == drain_spec(old(self)@).1,
    {
        self.wake_pending = false;
        let mut out: Vec<WindowEvent> = Vec::new();
        core::mem::swap(&mut self.queue, &mut out);
        proof {
            assert(self@ =~= drain_spec(old(self)@).0);
        }
        out
    }

    /// Number of pending events.
    pub fn pending(&self) -> (n: usize)
        ensures
            n == self@.queue.len(),
    {
        self.queue.len()
    }

    /// Mark the loop shut down; later wakes stay harmless no-ops.
    pub fn shutdown(&mut self)
        ensures
            final(self)@ == (LoopState { shut_down: true, ..old(self)@ }),
    {
        self.shut_down = true;
        proof {
            assert(self@ =~= LoopState { shut_down: true, ..old(self)@ });
        }
    }
}

/// Waker idempotence: invoking the waker any positive number of times
/// before the loop drains is exactly one effective wake — the loop wakes at
/// least once, and the queue is untouched.
pub proof fn lemma_wake_idempotent(v: LoopState, n: nat)
    requires
        n >= 1,
    ensures
        wake_many(v, n) == wake_spec(v),
        wake_many(v, n).wake_pending,
        wake_many(v, n).queue == v.queue,
    decreases n,
{
    if n == 1 {
        assert(wake_many(v, 0) == v);
        assert(wake_many(v, 1) == wake_spec(wake_many(v, 0)));
    } else {
        lemma_wake_idempotent(v, (n - 1) as nat);
        assert(wake_spec(wake_spec(v)) =~= wake_spec(v));
    }
}

/// Enqueueing a batch appends it to the queue in arrival order, and any
/// non-empty batch leaves a wake pending.
pub proof fn lemma_enqueue_all_appends(v: LoopState, es: Seq<WindowEvent>)
    ensures
        enqueue_all(v, es).queue == v.queue + es,
        enqueue_all(v, es).wake_pending == (v.wake_pending || es.len() > 0),
        enqueue_all(v, es).shut_down == v.shut_down,
    decreases es.len(),
{
    if es.len() == 0 {
        assert(v.queue + es =~= v.queue);
    } else {
        lemma_enqueue_all_appends(enqueue_spec(v, es[0]), es.drop_first());
        assert(v.queue.push(es[0]) + es.drop_first() =~= v.queue + es);
    }
}

/// No loss, no duplication: whatever events were pending plus whatever a
/// backend enqueued since, and however many times the waker fired in
/// between, one drain hands out exactly those events, once each, in order.
pub proof fn lemma_drain_exactly_once(v: LoopState, es: Seq<WindowEvent>, n: nat)
    requires
        n >= 1,
    ensures
        drain_spec(wake_many(enqueue_all(v, es), n)).1 == v.queue + es,
        drain_spec(wake_many(enqueue_all(v, es), n)).0.queue == Seq::<WindowEvent>::empty(),
{
    lemma_enqueue_all_appends(v, es);
    lemma_wake_idempotent(enqueue_all(v, es), n);
}

} // verus!
