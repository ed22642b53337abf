//! Browsing-context identifiers and the one-shot reply channels through
//! which the host answers the compositor.
//!
//! A top-level browsing context is one independently navigable page, named
//! by an opaque id that is allocated when the context is created and never
//! reused after it is closed. Two requests cross the boundary with a reply
//! channel attached: creating a browsing context (answered with the new id)
//! and gating a navigation (answered with a yes/no decision). Both channels
//! are single-producer, single-consumer and one-shot: the sender delivers
//! exactly one value, and a second delivery is refused rather than applied.

use vstd::prelude::*;

verus! {

/// An opaque identifier of one top-level browsing context, globally unique
/// for the process lifetime.
#[derive(Clone, Copy, Debug, PartialEq, Eq, Structural)]
pub struct BrowserId {
    pub id: u64,
}

/// A one-shot reply channel carrying the id of a newly created browsing
/// context. `delivered` holds the value the sender has put in, if any.
#[derive(Clone, Copy, Debug, PartialEq, Eq, Structural)]
pub struct IdReply {
    pub delivered: Option<BrowserId>,
}

/// What one delivery attempt does to an id reply channel: the first attempt
/// fills the slot and succeeds; every later attempt leaves it unchanged and
/// fails.
pub open spec fn id_deliver_spec(r: IdReply, id: BrowserId) -> (IdReply, bool) {
    if r.delivered is None {
        (IdReply { delivered: Some(id) }, true)
    } else {
        (r, false)
    }
}

impl IdReply {
    /// A fresh channel on which nothing has been delivered yet.
    pub fn empty() -> (r: IdReply)
        ensures
            r.delivered is None,
    {
        IdReply { delivered: None }
    }

    /// Deliver an id on this channel. Succeeds exactly once: the first
    /// delivery fills the slot, every later attempt is refused and leaves
    /// the first value in place.
    pub fn deliver(&mut self, id: BrowserId) -> (ok: bool)
        ensures
            *final(self) == id_deliver_spec(*old(self), id).0,
            ok == id_deliver_spec(*old(self), id).1,
    {
        match self.delivered {
            Option::None => {
                self.delivered = Some(id);
                true
            },
            Option::Some(_) => false,
        }
    }

    /// The value delivered so far, if any.
    pub fn received(&self) -> (r: Option<BrowserId>)
        ensures
            r == self.delivered,
    {
        self.delivered
    }
}

/// On a fresh channel, the first delivery succeeds and every later attempt
/// is refused: whatever id is offered afterwards, the channel still holds
/// the first one. A reply channel therefore yields exactly one id.
pub proof fn lemma_id_reply_delivers_exactly_once(r0: IdReply, a: BrowserId, b: BrowserId)
    requires
        r0.delivered is None,
    ensures
        id_deliver_spec(r0, a).1,
        id_deliver_spec(r0, a).0.delivered == Some(a),
        !id_deliver_spec(id_deliver_spec(r0, a).0, b).1,
        id_deliver_spec(id_deliver_spec(r0, a).0, b).0.delivered == Some(a),
{
}

/// A one-shot reply channel carrying a navigation decision.
#[derive(Clone, Copy, Debug, PartialEq, Eq, Structural)]
pub struct NavReply {
    pub sent: Option<bool>,
}

/// What one delivery attempt does to a navigation reply channel.
pub open spec fn nav_deliver_spec(r: NavReply, allow: bool) -> (NavReply, bool) {
    if r.sent is None {
        (NavReply { sent: Some(allow) }, true)
    } else {
        (r, false)
    }
}

impl NavReply {
    /// A fresh channel on which no decision has been delivered yet.
    pub fn empty() -> (r: NavReply)
        ensures
            r.sent is None,
    {
        NavReply { sent: None }
    }

    /// Deliver the navigation decision. Succeeds exactly once, as
    /// [`IdReply::deliver`] does.
    pub fn deliver(&mut self, allow: bool) -> (ok: bool)
        ensures
            *final(self) == nav_deliver_spec(*old(self), allow).0,
            ok == nav_deliver_spec(*old(self), allow).1,
    {
        match self.sent {
            Option::None => {
                self.sent = Some(allow);
                true
            },
            Option::Some(_) => false,
        }
    }

    /// Read the decision under the default-deny policy: a navigation is
    /// allowed only when an explicit positive decision has arrived. An
    /// unanswered or dropped reply reads as a denial, so a missing answer
    /// can never let a navigation through, and never hangs the caller.
    pub fn resolve_or_deny(&self) -> (allow: bool)
        ensures
            allow == (self.sent == Some(true)),
    {
        match self.sent {
            Option::Some(v) => v,
            Option::None => false,
        }
    }
}

} // verus!
