//! The boundary contract between a rendering engine's compositor and its host
//! windowing system.
//!
//! The crate defines the closed taxonomy of events the host delivers to the
//! compositor ([`events`]), the capability interface the compositor uses to
//! query and control the host window ([`window`]), the one-shot reply channels
//! through which the host answers the compositor ([`browser`]), a session
//! model that enforces the browsing-context lifecycle rules the taxonomy
//! promises ([`session`]), a wake-and-drain model of the compositor's event
//! loop ([`event_loop`]), and the exact pixel-unit arithmetic relating
//! density-independent and device-pixel geometry ([`geometry`]).

pub mod browser;
pub mod event_loop;
pub mod events;
pub mod geometry;
pub mod session;
pub mod window;
