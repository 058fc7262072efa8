//! Identifiers.  The client treats them as opaque text.

use vstd::prelude::*;

verus! {

/// The id of a room, such as `!room:example.org`.
pub type RoomId = String;

/// The id of a user, such as `@alice:example.org`.
pub type UserId = String;

/// The id of a device.
pub type DeviceId = String;

/// The id of an event.
pub type EventId = String;

} // verus!
