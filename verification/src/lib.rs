//! A Matrix client state machine that performs no I/O.
//!
//! The client takes the responses of a homeserver and keeps, for every room
//! of the user, what the events of the room add up to.  It calls nobody: what
//! it owes a subscriber, the crypto engine or the state store comes back from
//! its operations as values, and the caller carries them out.
//!
//! * [`client`] holds the client and its operations on single events;
//!   [`fold`] takes whole sync responses in; [`encryption`] decides what the
//!   crypto engine is asked.
//! * [`model`] is the client as a mathematical value: every contract of the
//!   client is stated over it.  [`laws`] proves what holds of it whatever the
//!   client receives.
//! * [`room`] and [`room_member`] hold the state of a room; [`events`] and
//!   [`sync`] are the events and responses as plain data.
//! * [`id_map`], [`snapshot`] and [`text`] are the tools of the rest.

pub mod client;
pub mod emitter;
pub mod encryption;
pub mod error;
pub mod events;
pub mod fold;
pub mod id_map;
pub mod identifiers;
pub mod laws;
pub mod model;
pub mod room;
pub mod room_member;
pub mod session;
pub mod snapshot;
pub mod state;
pub mod sync;
pub mod text;
