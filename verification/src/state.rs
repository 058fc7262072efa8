//! What a state store keeps for the client.

use crate::events::{Ruleset, RulesetView};
use crate::room::{Room, RoomView};
use crate::snapshot::{all_wf, snapshot_list, snapshot_option, Snapshot};
use vstd::prelude::*;

verus! {

#[derive(Clone, Debug, PartialEq, Eq)]
/// The part of the client state that is persisted beside the rooms.
pub struct ClientState {
    /// The token of the last sync response.
    pub sync_token: Option<String>,
    /// The users that the account ignores.
    pub ignored_users: Vec<String>,
    /// The push rules of the account.
    pub push_ruleset: Option<Ruleset>,
}

/// The model of [`ClientState`].
pub struct ClientStateView {
    pub sync_token: Option<Seq<char>>,
    pub ignored_users: Seq<Seq<char>>,
    pub push_ruleset: Option<RulesetView>,
}

impl DeepView for ClientState {
    type V = ClientStateView;

    open spec fn deep_view(&self) -> ClientStateView {
        ClientStateView {
            sync_token: self.sync_token.deep_view(),
            ignored_users: self.ignored_users.deep_view(),
            push_ruleset: self.push_ruleset.deep_view(),
        }
    }
}

impl Snapshot for ClientState {
    open spec fn wf(&self) -> bool {
        true
    }

    fn snapshot(&self) -> (copy: Self) {
        ClientState {
            sync_token: snapshot_option(&self.sync_token),
            ignored_users: snapshot_list(&self.ignored_users),
            push_ruleset: snapshot_option(&self.push_ruleset),
        }
    }
}

/// The rooms of a client, by the section of the sync response that last
/// delivered them.
#[derive(Clone, Debug)]
pub struct AllRooms {
    /// The rooms that the user has joined.
    pub joined: Vec<Room>,
    /// The rooms that the user is invited to.
    pub invited: Vec<Room>,
    /// The rooms that the user has left.
    pub left: Vec<Room>,
}

/// The model of [`AllRooms`].
pub struct AllRoomsView {
    pub joined: Seq<RoomView>,
    pub invited: Seq<RoomView>,
    pub left: Seq<RoomView>,
}

impl DeepView for AllRooms {
    type V = AllRoomsView;

    open spec fn deep_view(&self) -> AllRoomsView {
        AllRoomsView {
            joined: self.joined.deep_view(),
            invited: self.invited.deep_view(),
            left: self.left.deep_view(),
        }
    }
}

impl AllRooms {
    /// Whether every room is valid.
    pub open spec fn wf(&self) -> bool {
        all_wf(self.joined@) && all_wf(self.invited@) && all_wf(self.left@)
    }
}

/// What a state store returned when it was asked for the last snapshot.
#[derive(Clone, Debug)]
pub struct StoredState {
    /// The client state.
    pub client_state: ClientState,
    /// The rooms.
    pub rooms: AllRooms,
}

/// The model of [`StoredState`].
pub struct StoredStateView {
    pub client_state: ClientStateView,
    pub rooms: AllRoomsView,
}

impl DeepView for StoredState {
    type V = StoredStateView;

    open spec fn deep_view(&self) -> StoredStateView {
        StoredStateView {
            client_state: self.client_state.deep_view(),
            rooms: self.rooms.deep_view(),
        }
    }
}

/// A room, tagged with the section of the sync response that delivered it.
#[derive(Clone, Debug, PartialEq, Eq)]
pub enum RoomState<R> {
    /// A room from the `join` section.
    Joined(R),
    /// A room from the `leave` section.
    Left(R),
    /// A room from the `invite` section.
    Invited(R),
}

/// Names one of the three sets of rooms of a client.
#[derive(Clone, Copy, Debug, PartialEq, Eq, Structural)]
pub enum RoomStateType {
    /// The rooms that the user has joined.
    Joined,
    /// The rooms that the user has left.
    Left,
    /// The rooms that the user is invited to.
    Invited,
}

impl<R: DeepView> DeepView for RoomState<R> {
    type V = RoomState<R::V>;

    open spec fn deep_view(&self) -> RoomState<R::V> {
        match self {
            RoomState::Joined(r) => RoomState::Joined(r.deep_view()),
            RoomState::Left(r) => RoomState::Left(r.deep_view()),
            RoomState::Invited(r) => RoomState::Invited(r.deep_view()),
        }
    }
}

impl RoomStateType {
    /// Tags a room with this kind.
    pub open spec fn tag<R>(self, room: R) -> RoomState<R> {
        match self {
            RoomStateType::Joined => RoomState::Joined(room),
            RoomStateType::Left => RoomState::Left(room),
            RoomStateType::Invited => RoomState::Invited(room),
        }
    }
}

} // verus!
