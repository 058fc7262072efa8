//! A sync response, as plain data.

use crate::error::DeserializationError;
use crate::events::{
    AnyStrippedStateEvent, AnyStrippedStateEventView, NonRoomEvent, NonRoomEventView,
    PresenceEvent, PresenceEventView, RoomEvent, RoomEventView, StateEvent, StateEventView,
};
use crate::identifiers::{DeviceId, RoomId, UserId};
use crate::room::{RoomSummary, RoomSummaryView, UnreadNotificationsCount};
use vstd::prelude::*;

verus! {

/// An event as it arrived.  Not every event of a response can be read: one
/// that cannot is kept in its place, and the client skips it.
#[derive(Clone, Debug, PartialEq, Eq)]
pub struct EventJson<T> {
    event: Option<T>,
}

impl<T: DeepView> DeepView for EventJson<T> {
    type V = Option<T::V>;

    open spec fn deep_view(&self) -> Option<T::V> {
        self.parsed().deep_view()
    }
}

impl<T> EventJson<T> {
    /// The event, where it could be read.
    pub closed spec fn parsed(&self) -> Option<T> {
        self.event
    }

    /// An event that was read.
    pub fn new(event: T) -> (json: Self)
        ensures
            json.parsed() == Some(event),
    {
        EventJson { event: Some(event) }
    }

    /// An event that was read, or the place of one that could not be.
    pub fn from_option(event: Option<T>) -> (json: Self)
        ensures
            json.parsed() == event,
    {
        EventJson { event }
    }

    /// The place of an event that could not be read.
    pub fn unreadable() -> (json: Self)
        ensures
            json.parsed() == None::<T>,
    {
        EventJson { event: None }
    }

    /// The event, or an error where it could not be read.
    pub fn deserialize(&self) -> (r: core::result::Result<&T, DeserializationError>)
        ensures
            match r {
                Ok(event) => self.parsed() == Some(*event),
                Err(_) => self.parsed() is None,
            },
    {
        match &self.event {
            Some(event) => Ok(event),
            None => Err(DeserializationError),
        }
    }
}

/// An event of the timeline of a joined room, with what the crypto engine
/// made of it.
#[derive(Clone, Debug, PartialEq, Eq)]
pub struct TimelineEvent {
    /// The event as the server sent it.
    pub event: EventJson<RoomEvent>,
    /// The event that the crypto engine found inside, where `event` is
    /// encrypted and the engine could decrypt it.
    pub decrypted: Option<RoomEvent>,
}

/// The model of [`TimelineEvent`].
pub struct TimelineEventView {
    pub event: Option<RoomEventView>,
    pub decrypted: Option<RoomEventView>,
}

impl DeepView for TimelineEvent {
    type V = TimelineEventView;

    open spec fn deep_view(&self) -> TimelineEventView {
        TimelineEventView { event: self.event.deep_view(), decrypted: self.decrypted.deep_view() }
    }
}

/// What a sync response holds of a room that the user has joined.
#[derive(Clone, Debug, PartialEq, Eq)]
pub struct JoinedRoom {
    /// The room.
    pub room_id: RoomId,
    /// The state of the room before the timeline.
    pub state: Vec<EventJson<StateEvent>>,
    /// The new events of the room.
    pub timeline: Vec<TimelineEvent>,
    /// The account data of the room.
    pub account_data: Vec<EventJson<NonRoomEvent>>,
    /// Transient events of the room.
    pub ephemeral: Vec<EventJson<NonRoomEvent>>,
    /// The summary of the room.
    pub summary: RoomSummary,
    /// The counts of unread notifications.
    pub unread_notifications: UnreadNotificationsCount,
}

/// The model of [`JoinedRoom`].
pub struct JoinedRoomView {
    pub room_id: Seq<char>,
    pub state: Seq<Option<StateEventView>>,
    pub timeline: Seq<TimelineEventView>,
    pub account_data: Seq<Option<NonRoomEventView>>,
    pub ephemeral: Seq<Option<NonRoomEventView>>,
    pub summary: RoomSummaryView,
    pub unread_notifications: UnreadNotificationsCount,
}

impl DeepView for JoinedRoom {
    type V = JoinedRoomView;

    open spec fn deep_view(&self) -> JoinedRoomView {
        JoinedRoomView {
            room_id: self.room_id@,
            state: self.state.deep_view(),
            timeline: self.timeline.deep_view(),
            account_data: self.account_data.deep_view(),
            ephemeral: self.ephemeral.deep_view(),
            summary: self.summary.deep_view(),
            unread_notifications: self.unread_notifications,
        }
    }
}

/// What a sync response holds of a room that the user is invited to.
#[derive(Clone, Debug, PartialEq, Eq)]
pub struct InvitedRoom {
    /// The room.
    pub room_id: RoomId,
    /// The reduced state of the room.
    pub invite_state: Vec<EventJson<AnyStrippedStateEvent>>,
}

/// The model of [`InvitedRoom`].
pub struct InvitedRoomView {
    pub room_id: Seq<char>,
    pub invite_state: Seq<Option<AnyStrippedStateEventView>>,
}

impl DeepView for InvitedRoom {
    type V = InvitedRoomView;

    open spec fn deep_view(&self) -> InvitedRoomView {
        InvitedRoomView { room_id: self.room_id@, invite_state: self.invite_state.deep_view() }
    }
}

/// What a sync response holds of a room that the user has left.
#[derive(Clone, Debug, PartialEq, Eq)]
pub struct LeftRoom {
    /// The room.
    pub room_id: RoomId,
    /// The state of the room before the timeline.
    pub state: Vec<EventJson<StateEvent>>,
    /// The events of the room up to the point where the user left.
    pub timeline: Vec<EventJson<RoomEvent>>,
}

/// The model of [`LeftRoom`].
pub struct LeftRoomView {
    pub room_id: Seq<char>,
    pub state: Seq<Option<StateEventView>>,
    pub timeline: Seq<Option<RoomEventView>>,
}

impl DeepView for LeftRoom {
    type V = LeftRoomView;

    open spec fn deep_view(&self) -> LeftRoomView {
        LeftRoomView {
            room_id: self.room_id@,
            state: self.state.deep_view(),
            timeline: self.timeline.deep_view(),
        }
    }
}

/// The rooms of a sync response, by section, each section in the order of
/// the response.
#[derive(Clone, Debug, PartialEq, Eq)]
pub struct Rooms {
    /// The rooms that the user has joined.
    pub join: Vec<JoinedRoom>,
    /// The rooms that the user is invited to.
    pub invite: Vec<InvitedRoom>,
    /// The rooms that the user has left.
    pub leave: Vec<LeftRoom>,
}

/// The model of [`Rooms`].
pub struct RoomsView {
    pub join: Seq<JoinedRoomView>,
    pub invite: Seq<InvitedRoomView>,
    pub leave: Seq<LeftRoomView>,
}

impl DeepView for Rooms {
    type V = RoomsView;

    open spec fn deep_view(&self) -> RoomsView {
        RoomsView {
            join: self.join.deep_view(),
            invite: self.invite.deep_view(),
            leave: self.leave.deep_view(),
        }
    }
}

/// The response to a sync request.
#[derive(Clone, Debug, PartialEq, Eq)]
pub struct SyncResponse {
    /// The token to hand to the next sync request.
    pub next_batch: String,
    /// What changed in the rooms.
    pub rooms: Rooms,
    /// The presence of other users.
    pub presence: Vec<EventJson<PresenceEvent>>,
}

impl SyncResponse {
    /// Whether the response holds a room in any of its sections.
    pub open spec fn has_rooms(&self) -> bool {
        self.rooms.join.len() > 0 || self.rooms.invite.len() > 0 || self.rooms.leave.len() > 0
    }
}

/// The model of [`SyncResponse`].
pub struct SyncResponseView {
    pub next_batch: Seq<char>,
    pub rooms: RoomsView,
    pub presence: Seq<Option<PresenceEventView>>,
}

impl DeepView for SyncResponse {
    type V = SyncResponseView;

    open spec fn deep_view(&self) -> SyncResponseView {
        SyncResponseView {
            next_batch: self.next_batch@,
            rooms: self.rooms.deep_view(),
            presence: self.presence.deep_view(),
        }
    }
}

/// The response to a login request.
#[derive(Clone, Debug, PartialEq, Eq)]
pub struct LoginResponse {
    /// The token that authenticates further requests.
    pub access_token: String,
    /// The device that was logged in.
    pub device_id: DeviceId,
    /// The user that was logged in.
    pub user_id: UserId,
}

} // verus!
