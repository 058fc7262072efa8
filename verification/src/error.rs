//! What can go wrong.

use vstd::prelude::*;

verus! {

/// Why the client refused an operation.
#[derive(Clone, Copy, Debug, PartialEq, Eq, Structural)]
pub enum Error {
    /// The operation needs a session, and the client has none.
    NotLoggedIn,
    /// The operation needs the crypto engine, and the client has none.
    NoCryptoEngine,
    /// The operation names a room that the user has not joined.
    NoSuchRoom,
}

/// An event of a sync response could not be read.
#[derive(Clone, Copy, Debug, PartialEq, Eq, Structural)]
pub struct DeserializationError;

} // verus!
