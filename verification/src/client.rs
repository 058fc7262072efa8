//! The client: a state machine that is fed responses and events.
//!
//! The client performs no I/O and calls nobody.  What it owes a subscriber,
//! the crypto engine or the state store comes back from its operations as a
//! list of [`Action`]s, in the order in which they are to be carried out.

use crate::emitter::{
    account_data_callback, state_callback, stripped_state_callback, timeline_callback, Action,
    Callback, CallbackView, Emission,
};
use crate::error::Error;
use crate::events::{
    AnyStrippedStateEvent, IgnoredUserListEvent, NonRoomEvent, PresenceEvent, PushRulesEvent,
    RoomEvent, Ruleset, StateEvent,
};
use crate::id_map::IdMap;
use crate::identifiers::{RoomId, UserId};
use crate::model::ClientView;
use crate::room::{Room, RoomSummary, UnreadNotificationsCount};
use crate::session::Session;
use crate::snapshot::{all_wf, same_list, snapshot_list, snapshot_option, Snapshot};
use crate::state::{ClientState, StoredState};
pub use crate::state::{RoomState, RoomStateType};
use crate::sync::{LoginResponse, TimelineEvent};
use vstd::prelude::*;

verus! {

/// The token of a sync response.
pub type Token = String;

/// A client that performs no I/O.
///
/// It is changed by the responses and events that it receives, and by
/// nothing else.
#[derive(Clone, Debug)]
pub struct BaseClient {
    session: Option<Session>,
    sync_token: Option<Token>,
    joined_rooms: IdMap<Room>,
    invited_rooms: IdMap<Room>,
    left_rooms: IdMap<Room>,
    ignored_users: Vec<UserId>,
    push_ruleset: Option<Ruleset>,
    event_emitter: bool,
    state_store: bool,
    needs_state_store_sync: bool,
}

impl View for BaseClient {
    type V = ClientView;

    closed spec fn view(&self) -> ClientView {
        ClientView {
            session: self.session.deep_view(),
            sync_token: self.sync_token.deep_view(),
            joined_rooms: self.joined_rooms.deep_view(),
            invited_rooms: self.invited_rooms.deep_view(),
            left_rooms: self.left_rooms.deep_view(),
            ignored_users: self.ignored_users.deep_view(),
            push_ruleset: self.push_ruleset.deep_view(),
            event_emitter: self.event_emitter,
            state_store: self.state_store,
            needs_state_store_sync: self.needs_state_store_sync,
        }
    }
}

impl BaseClient {
    /// The representation is sound.
    pub closed spec fn inv(&self) -> bool {
        self.joined_rooms.wf() && self.invited_rooms.wf() && self.left_rooms.wf()
    }

    /// The client is valid: its representation is sound, no room is in two
    /// of its three sets, every room is stored under its own id, and only a
    /// client with a store and a session has loaded from a store.
    pub open spec fn wf(&self) -> bool {
        self.inv() && self@.wf()
    }

    /// A new client.
    ///
    /// `session` is the session of an earlier login, if there was one.
    pub fn new(session: Option<Session>) -> (r: Result<BaseClient, Error>)
        ensures
            r matches Ok(client) && client.wf() && client@ == ClientView::new(
                session.deep_view(),
                false,
            ),
    {
        BaseClient::new_helper(session, false)
    }

    /// A new client whose state is persisted.
    ///
    /// `session` is the session of an earlier login, if there was one.  The
    /// store itself stays with the caller: the client asks for what is to be
    /// written by [`Action::StoreRoomState`] and [`Action::StoreClientState`].
    pub fn new_with_state_store(session: Option<Session>) -> (r: Result<BaseClient, Error>)
        ensures
            r matches Ok(client) && client.wf() && client@ == ClientView::new(
                session.deep_view(),
                true,
            ),
    {
        BaseClient::new_helper(session, true)
    }

    fn new_helper(session: Option<Session>, store: bool) -> (r: Result<BaseClient, Error>)
        ensures
            r matches Ok(client) && client.wf() && client@ == ClientView::new(
                session.deep_view(),
                store,
            ),
    {
        let client = BaseClient {
            session,
            sync_token: None,
            joined_rooms: IdMap::new(),
            invited_rooms: IdMap::new(),
            left_rooms: IdMap::new(),
            ignored_users: Vec::new(),
            push_ruleset: None,
            event_emitter: false,
            state_store: store,
            needs_state_store_sync: true,
        };
        assert(client@.ignored_users =~= Seq::empty());
        Ok(client)
    }

    /// The session of the client.
    pub fn session(&self) -> (session: &Option<Session>)
        ensures
            session.deep_view() == self@.session,
    {
        &self.session
    }

    /// Whether the client is logged in.
    pub fn logged_in(&self) -> (b: bool)
        ensures
            b == (self@.session is Some),
    {
        self.session.is_some()
    }

    /// Notes that a subscriber is installed.  From now on the client asks
    /// for the callbacks that events are owed.
    pub fn add_event_emitter(&mut self)
        ensures
            final(self)@ == (ClientView { event_emitter: true, ..old(self)@ }),
            old(self).wf() ==> final(self).wf(),
    {
        self.event_emitter = true;
        proof {
            if old(self).wf() {
                old(self)@.lemma_same_rooms(self@);
            }
        }
    }

    /// Whether a subscriber is installed.
    pub fn has_event_emitter(&self) -> (b: bool)
        ensures
            b == self@.event_emitter,
    {
        self.event_emitter
    }

    /// Whether a state store is configured.
    pub fn has_state_store(&self) -> (b: bool)
        ensures
            b == self@.state_store,
    {
        self.state_store
    }

    /// Whether the state of the store has been loaded into the client.
    pub fn is_state_store_synced(&self) -> (b: bool)
        ensures
            b == !self@.needs_state_store_sync,
    {
        !self.needs_state_store_sync
    }

    /// The token of the last sync response, if the client has received one.
    pub fn sync_token(&self) -> (token: Option<String>)
        ensures
            token.deep_view() == self@.sync_token,
    {
        snapshot_option(&self.sync_token)
    }

    /// Whether `token` is the token of the last sync response.
    pub fn holds_token(&self, token: &String) -> (b: bool)
        ensures
            b == (self@.sync_token == Some(token@)),
    {
        match &self.sync_token {
            Some(held) => *held == *token,
            None => false,
        }
    }

    /// Stores the token of a sync response.
    pub(crate) fn set_sync_token(&mut self, token: &String)
        ensures
            final(self)@ == (ClientView { sync_token: Some(token@), ..old(self)@ }),
            old(self).wf() ==> final(self).wf(),
    {
        self.sync_token = Some(token.clone());
        proof {
            if old(self).wf() {
                old(self)@.lemma_same_rooms(self@);
            }
        }
    }

    /// The users that the account ignores.
    pub fn ignored_users(&self) -> (users: &Vec<UserId>)
        ensures
            users.deep_view() == self@.ignored_users,
    {
        &self.ignored_users
    }

    /// The push rules of the account.
    pub fn push_ruleset(&self) -> (rules: &Option<Ruleset>)
        ensures
            rules.deep_view() == self@.push_ruleset,
    {
        &self.push_ruleset
    }

    /// What is persisted of the client beside the rooms.
    pub fn client_state(&self) -> (state: ClientState)
        ensures
            state.deep_view() == self@.client_state(),
    {
        ClientState {
            sync_token: snapshot_option(&self.sync_token),
            ignored_users: snapshot_list(&self.ignored_users),
            push_ruleset: snapshot_option(&self.push_ruleset),
        }
    }

    /// Takes the session of a login response.  The crypto engine, which is
    /// bound to a user and a device, has to be replaced by one for the new
    /// session.
    pub fn receive_login_response(&mut self, response: &LoginResponse) -> (r: Result<(), Error>)
        ensures
            r is Ok,
            final(self)@ == (ClientView {
                session: Some(
                    crate::session::SessionView {
                        access_token: response.access_token@,
                        user_id: response.user_id@,
                        device_id: response.device_id@,
                    },
                ),
                ..old(self)@
            }),
            old(self).wf() ==> final(self).wf(),
    {
        self.session = Some(
            Session {
                access_token: response.access_token.clone(),
                device_id: response.device_id.clone(),
                user_id: response.user_id.clone(),
            },
        );
        proof {
            if old(self).wf() {
                old(self)@.lemma_same_rooms(self@);
            }
        }
        Ok(())
    }

    /// The joined room `room_id`.
    pub fn get_joined_room(&self, room_id: &RoomId) -> (r: Option<&Room>)
        requires
            self.wf(),
        ensures
            match r {
                Some(room) => self@.joined_rooms.contains_key(room_id@) && room@
                    == self@.joined_rooms[room_id@] && room.wf(),
                None => !self@.joined_rooms.contains_key(room_id@),
            },
    {
        self.joined_rooms.get(room_id)
    }

    /// The rooms that the user has joined.
    pub fn joined_rooms(&self) -> (rooms: &IdMap<Room>)
        requires
            self.wf(),
        ensures
            rooms.wf(),
            rooms@ == self@.joined_rooms,
    {
        &self.joined_rooms
    }

    /// The room `room_id` that the user is invited to.
    pub fn get_invited_room(&self, room_id: &RoomId) -> (r: Option<&Room>)
        requires
            self.wf(),
        ensures
            match r {
                Some(room) => self@.invited_rooms.contains_key(room_id@) && room@
                    == self@.invited_rooms[room_id@] && room.wf(),
                None => !self@.invited_rooms.contains_key(room_id@),
            },
    {
        self.invited_rooms.get(room_id)
    }

    /// The rooms that the user is invited to.
    pub fn invited_rooms(&self) -> (rooms: &IdMap<Room>)
        requires
            self.wf(),
        ensures
            rooms.wf(),
            rooms@ == self@.invited_rooms,
    {
        &self.invited_rooms
    }

    /// The room `room_id` that the user has left.
    pub fn get_left_room(&self, room_id: &RoomId) -> (r: Option<&Room>)
        requires
            self.wf(),
        ensures
            match r {
                Some(room) => self@.left_rooms.contains_key(room_id@) && room@
                    == self@.left_rooms[room_id@] && room.wf(),
                None => !self@.left_rooms.contains_key(room_id@),
            },
    {
        self.left_rooms.get(room_id)
    }

    /// The rooms that the user has left.
    pub fn left_rooms(&self) -> (rooms: &IdMap<Room>)
        requires
            self.wf(),
        ensures
            rooms.wf(),
            rooms@ == self@.left_rooms,
    {
        &self.left_rooms
    }

    /// Takes the room `room_id` out of the set of `kind`.
    fn take_room(&mut self, kind: RoomStateType, room_id: &RoomId) -> (r: Option<Room>)
        requires
            old(self).wf(),
        ensures
            final(self).wf(),
            final(self)@ == old(self)@.with_rooms(kind, old(self)@.rooms(kind).remove(room_id@)),
            match r {
                Some(room) => old(self)@.rooms(kind).contains_key(room_id@)
                    && room@ == old(self)@.rooms(kind)[room_id@] && room.wf(),
                None => !old(self)@.rooms(kind).contains_key(room_id@),
            },
    {
        let room = match kind {
            RoomStateType::Joined => self.joined_rooms.remove(room_id),
            RoomStateType::Invited => self.invited_rooms.remove(room_id),
            RoomStateType::Left => self.left_rooms.remove(room_id),
        };
        proof {
            assert forall|id: Seq<char>| #[trigger] self@.occurrences(id) <= 1 by {
                assert(old(self)@.occurrences(id) <= 1);
            }
        }
        room
    }

    /// Puts `room` into the set of `kind`, which is the only set that may
    /// hold its id.
    fn put_room(&mut self, kind: RoomStateType, room_id: &RoomId, room: Room)
        requires
            old(self).wf(),
            room.wf(),
            room@.room_id == room_id@,
            old(self)@.without_room(room_id@).with_rooms(kind, old(self)@.rooms(kind))
                == old(self)@,
        ensures
            final(self).wf(),
            final(self)@ == old(self)@.with_room(kind, room_id@, room@),
    {
        match kind {
            RoomStateType::Joined => self.joined_rooms.insert(room_id.clone(), room),
            RoomStateType::Invited => self.invited_rooms.insert(room_id.clone(), room),
            RoomStateType::Left => self.left_rooms.insert(room_id.clone(), room),
        }
        proof {
            assert forall|id: Seq<char>| #[trigger] self@.occurrences(id) <= 1 by {
                assert(old(self)@.occurrences(id) <= 1);
                assert(old(self)@.without_room(room_id@).occurrences(id) <= 1);
            }
        }
    }

    /// Makes `room_id` a room of `kind`: takes it out of the other two
    /// sets, then adds a fresh room to the set of `kind` unless it is there
    /// already.
    fn get_or_create_room(&mut self, kind: RoomStateType, room_id: &RoomId) -> (r: Result<(), Error>)
        requires
            old(self).wf(),
        ensures
            final(self).wf(),
            match r {
                Ok(_) => old(self)@.session is Some
                    && final(self)@ == old(self)@.get_or_create_room(kind, room_id@)
                    && final(self)@.rooms(kind).contains_key(room_id@)
                    && final(self)@.without_room(room_id@).with_rooms(
                    kind,
                    final(self)@.rooms(kind),
                ) == final(self)@,
                Err(e) => e == Error::NotLoggedIn && old(self)@.session is None && final(self)@
                    == old(self)@,
            },
    {
        let own_user_id = match &self.session {
            Some(session) => session.user_id.clone(),
            None => {
                return Err(Error::NotLoggedIn);
            },
        };
        match kind {
            RoomStateType::Joined => {
                self.invited_rooms.remove(room_id);
                self.left_rooms.remove(room_id);
                if !self.joined_rooms.contains_key(room_id) {
                    self.joined_rooms.insert(room_id.clone(), Room::new(room_id, &own_user_id));
                }
            },
            RoomStateType::Invited => {
                self.joined_rooms.remove(room_id);
                self.left_rooms.remove(room_id);
                if !self.invited_rooms.contains_key(room_id) {
                    self.invited_rooms.insert(room_id.clone(), Room::new(room_id, &own_user_id));
                }
            },
            RoomStateType::Left => {
                self.invited_rooms.remove(room_id);
                self.joined_rooms.remove(room_id);
                if !self.left_rooms.contains_key(room_id) {
                    self.left_rooms.insert(room_id.clone(), Room::new(room_id, &own_user_id));
                }
            },
        }
        proof {
            let target = old(self)@.get_or_create_room(kind, room_id@);
            assert(self@.joined_rooms =~= target.joined_rooms);
            assert(self@.invited_rooms =~= target.invited_rooms);
            assert(self@.left_rooms =~= target.left_rooms);
            assert forall|id: Seq<char>| #[trigger] self@.occurrences(id) <= 1 by {
                assert(old(self)@.occurrences(id) <= 1);
            }
            let alone = self@.without_room(room_id@).with_rooms(kind, self@.rooms(kind));
            assert(alone.joined_rooms =~= self@.joined_rooms);
            assert(alone.invited_rooms =~= self@.invited_rooms);
            assert(alone.left_rooms =~= self@.left_rooms);
        }
        Ok(())
    }

    /// Makes `room_id` a joined room: takes it out of the invited and the
    /// left rooms, then adds a fresh room to the joined rooms unless it is
    /// there already.
    pub fn get_or_create_joined_room(&mut self, room_id: &RoomId) -> (r: Result<(), Error>)
        requires
            old(self).wf(),
        ensures
            final(self).wf(),
            match r {
                Ok(_) => old(self)@.session is Some
                    && final(self)@ == old(self)@.get_or_create_room(
                    RoomStateType::Joined,
                    room_id@,
                ),
                Err(e) => e == Error::NotLoggedIn && old(self)@.session is None && final(self)@
                    == old(self)@,
            },
    {
        self.get_or_create_room(RoomStateType::Joined, room_id)
    }

    /// Makes `room_id` an invited room: takes it out of the joined and the
    /// left rooms, then adds a fresh room to the invited rooms unless it is
    /// there already.
    pub fn get_or_create_invited_room(&mut self, room_id: &RoomId) -> (r: Result<(), Error>)
        requires
            old(self).wf(),
        ensures
            final(self).wf(),
            match r {
                Ok(_) => old(self)@.session is Some
                    && final(self)@ == old(self)@.get_or_create_room(
                    RoomStateType::Invited,
                    room_id@,
                ),
                Err(e) => e == Error::NotLoggedIn && old(self)@.session is None && final(self)@
                    == old(self)@,
            },
    {
        self.get_or_create_room(RoomStateType::Invited, room_id)
    }

    /// Makes `room_id` a left room: takes it out of the invited and the
    /// joined rooms, then adds a fresh room to the left rooms unless it is
    /// there already.
    pub fn get_or_create_left_room(&mut self, room_id: &RoomId) -> (r: Result<(), Error>)
        requires
            old(self).wf(),
        ensures
            final(self).wf(),
            match r {
                Ok(_) => old(self)@.session is Some
                    && final(self)@ == old(self)@.get_or_create_room(
                    RoomStateType::Left,
                    room_id@,
                ),
                Err(e) => e == Error::NotLoggedIn && old(self)@.session is None && final(self)@
                    == old(self)@,
            },
    {
        self.get_or_create_room(RoomStateType::Left, room_id)
    }

    /// Takes a list of ignored users.  Returns whether the list differs
    /// from the one that the client had; where it does not, the client is
    /// left as it is.
    pub fn handle_ignored_users(&mut self, event: &IgnoredUserListEvent) -> (changed: bool)
        ensures
            final(self)@ == old(self)@.handle_ignored_users(event.deep_view()),
            changed == (final(self)@ != old(self)@),
            changed == (old(self)@.ignored_users != event.deep_view().ignored_users),
            old(self).wf() ==> final(self).wf(),
    {
        if same_list(&self.ignored_users, &event.ignored_users) {
            false
        } else {
            self.ignored_users = snapshot_list(&event.ignored_users);
            proof {
                if old(self).wf() {
                    old(self)@.lemma_same_rooms(self@);
                }
            }
            true
        }
    }

    /// Replaces the push rules.  Always reports a change: the rules are not
    /// compared.
    pub fn handle_push_rules(&mut self, event: &PushRulesEvent) -> (changed: bool)
        ensures
            final(self)@ == old(self)@.handle_push_rules(event.deep_view()),
            changed,
            old(self).wf() ==> final(self).wf(),
    {
        self.push_ruleset = Some(event.global.snapshot());
        proof {
            if old(self).wf() {
                old(self)@.lemma_same_rooms(self@);
            }
        }
        true
    }
}

impl BaseClient {
    /// Applies a state event to the room `room_id`, which is made a room
    /// of `kind`.  Returns whether the room changed.
    fn receive_state_event(&mut self, kind: RoomStateType, room_id: &RoomId, event: &StateEvent) -> (r:
        Result<bool, Error>)
        requires
            old(self).wf(),
        ensures
            final(self).wf(),
            match r {
                Ok(changed) => old(self)@.session is Some && ({
                    let created = old(self)@.get_or_create_room(kind, room_id@);
                    &&& final(self)@ == created.with_room(
                        kind,
                        room_id@,
                        created.rooms(kind)[room_id@].with_state_event(event.deep_view()),
                    )
                    &&& changed == (final(self)@ != created)
                }),
                Err(e) => e == Error::NotLoggedIn && old(self)@.session is None && final(self)@
                    == old(self)@,
            },
    {
        match self.get_or_create_room(kind, room_id) {
            Ok(_) => {},
            Err(e) => {
                return Err(e);
            },
        }
        let ghost created = self@;
        match self.take_room(kind, room_id) {
            Some(room) => {
                let mut room = room;
                let changed = room.receive_state_event(event);
                self.put_room(kind, room_id, room);
                proof {
                    created.lemma_room_replaced(kind, room_id@, room@);
                }
                Ok(changed)
            },
            None => Ok(false),
        }
    }

    /// Applies a state event of a joined room.  Returns whether the room
    /// changed.  Whatever the event, the room is a joined room afterwards.
    pub fn receive_joined_state_event(&mut self, room_id: &RoomId, event: &StateEvent) -> (r: Result<bool, Error>)
        requires
            old(self).wf(),
        ensures
            final(self).wf(),
            match r {
                Ok(changed) => old(self)@.session is Some
                    && final(self)@ == old(self)@.receive_joined_state_event(room_id@, event.deep_view())
                    && changed == (final(self)@ != old(self)@.get_or_create_room(
                    RoomStateType::Joined,
                    room_id@,
                )),
                Err(e) => e == Error::NotLoggedIn && old(self)@.session is None && final(self)@
                    == old(self)@,
            },
    {
        self.receive_state_event(RoomStateType::Joined, room_id, event)
    }

    /// Applies an event of the reduced state of a room that the user is
    /// invited to.  Returns whether the room changed.  Whatever the event,
    /// the room is an invited room afterwards.
    pub fn receive_invite_state_event(&mut self, room_id: &RoomId, event: &AnyStrippedStateEvent) -> (r: Result<bool, Error>)
        requires
            old(self).wf(),
        ensures
            final(self).wf(),
            match r {
                Ok(changed) => old(self)@.session is Some
                    && final(self)@ == old(self)@.receive_invite_state_event(room_id@, event.deep_view())
                    && changed == (final(self)@ != old(self)@.get_or_create_room(
                    RoomStateType::Invited,
                    room_id@,
                )),
                Err(e) => e == Error::NotLoggedIn && old(self)@.session is None && final(self)@
                    == old(self)@,
            },
    {
        match self.get_or_create_room(RoomStateType::Invited, room_id) {
            Ok(_) => {},
            Err(e) => {
                return Err(e);
            },
        }
        let ghost created = self@;
        match self.take_room(RoomStateType::Invited, room_id) {
            Some(room) => {
                let mut room = room;
                let changed = room.receive_stripped_state_event(event);
                self.put_room(RoomStateType::Invited, room_id, room);
                proof {
                    created.lemma_room_replaced(RoomStateType::Invited, room_id@, room@);
                }
                Ok(changed)
            },
            None => Ok(false),
        }
    }

    /// Applies a state event of a room that the user has left.  Returns
    /// whether the room changed.  Whatever the event, the room is a left
    /// room afterwards.
    pub fn receive_left_state_event(&mut self, room_id: &RoomId, event: &StateEvent) -> (r: Result<bool, Error>)
        requires
            old(self).wf(),
        ensures
            final(self).wf(),
            match r {
                Ok(changed) => old(self)@.session is Some
                    && final(self)@ == old(self)@.receive_left_state_event(room_id@, event.deep_view())
                    && changed == (final(self)@ != old(self)@.get_or_create_room(
                    RoomStateType::Left,
                    room_id@,
                )),
                Err(e) => e == Error::NotLoggedIn && old(self)@.session is None && final(self)@
                    == old(self)@,
            },
    {
        self.receive_state_event(RoomStateType::Left, room_id, event)
    }

    /// Applies an event of a timeline to the room `room_id`, which is made
    /// a room of `kind`.  Returns whether the room changed.
    fn receive_timeline_event(&mut self, kind: RoomStateType, room_id: &RoomId, event: &RoomEvent) -> (r:
        Result<bool, Error>)
        requires
            old(self).wf(),
        ensures
            final(self).wf(),
            final(self)@.session == old(self)@.session,
            match r {
                Ok(changed) => old(self)@.session is Some && ({
                    let created = old(self)@.get_or_create_room(kind, room_id@);
                    &&& final(self)@ == created.with_room(
                        kind,
                        room_id@,
                        created.rooms(kind)[room_id@].with_timeline_event(event.deep_view()),
                    )
                    &&& changed == (final(self)@ != created)
                }),
                Err(e) => e == Error::NotLoggedIn && old(self)@.session is None && final(self)@
                    == old(self)@,
            },
    {
        match self.get_or_create_room(kind, room_id) {
            Ok(_) => {},
            Err(e) => {
                return Err(e);
            },
        }
        let ghost created = self@;
        match self.take_room(kind, room_id) {
            Some(room) => {
                let mut room = room;
                let changed = room.receive_timeline_event(event);
                self.put_room(kind, room_id, room);
                proof {
                    created.lemma_room_replaced(kind, room_id@, room@);
                }
                Ok(changed)
            },
            None => Ok(false),
        }
    }

    /// Applies an event of the timeline of a room that the user has left.
    /// Returns whether the room changed.  An event that could not be read
    /// changes nothing; any other makes the room a left room.
    pub fn receive_left_timeline_event(
        &mut self,
        room_id: &RoomId,
        event: &crate::sync::EventJson<RoomEvent>,
    ) -> (r: Result<bool, Error>)
        requires
            old(self).wf(),
        ensures
            final(self).wf(),
            final(self)@.session == old(self)@.session,
            match r {
                Ok(changed) => (event.deep_view() is None || old(self)@.session is Some)
                    && final(self)@ == old(self)@.receive_left_timeline_event(
                    room_id@,
                    event.deep_view(),
                ) && changed == (event.deep_view() is Some
                    && final(self)@ != old(self)@.get_or_create_room(
                    RoomStateType::Left,
                    room_id@,
                )),
                Err(e) => e == Error::NotLoggedIn && event.deep_view() is Some
                    && old(self)@.session is None && final(self)@ == old(self)@,
            },
    {
        match event.deserialize() {
            Ok(e) => self.receive_timeline_event(RoomStateType::Left, room_id, e),
            Err(_) => Ok(false),
        }
    }

    /// Applies an event of the timeline of a joined room.
    ///
    /// Where the event is encrypted, the client has a crypto engine and the
    /// engine could decrypt the event, the decrypted event is applied in its
    /// place and handed back; else the event itself is applied and `None` is
    /// handed back.  The second result says whether the room changed.  An
    /// event that could not be read changes nothing; any other makes the
    /// room a joined room.
    pub fn receive_joined_timeline_event<'a>(
        &mut self,
        room_id: &RoomId,
        event: &'a TimelineEvent,
    ) -> (r: Result<(Option<&'a RoomEvent>, bool), Error>)
        requires
            old(self).wf(),
        ensures
            final(self).wf(),
            final(self)@.session == old(self)@.session,
            match r {
                Ok((decrypted, changed)) => (event.deep_view().event is None
                    || old(self)@.session is Some)
                    && final(self)@ == old(self)@.receive_joined_timeline_event(
                    room_id@,
                    event.deep_view(),
                ) && decrypted.deep_view() == (if old(self)@.takes_decrypted(event.deep_view()) {
                    event.deep_view().decrypted
                } else {
                    None
                }) && changed == (event.deep_view().event is Some
                    && final(self)@ != old(self)@.get_or_create_room(
                    RoomStateType::Joined,
                    room_id@,
                )),
                Err(e) => e == Error::NotLoggedIn && event.deep_view().event is Some
                    && old(self)@.session is None && final(self)@ == old(self)@,
            },
    {
        match event.event.deserialize() {
            Ok(e) => {
                let decrypted: Option<&'a RoomEvent> = match e {
                    RoomEvent::RoomEncrypted(_) => {
                        if self.session.is_some() {
                            event.decrypted.as_ref()
                        } else {
                            None
                        }
                    },
                    _ => None,
                };
                let applied: &RoomEvent = match decrypted {
                    Some(d) => d,
                    None => e,
                };
                assert(Some(applied.deep_view()) == old(self)@.effective_timeline_event(
                    event.deep_view(),
                ));
                match self.receive_timeline_event(RoomStateType::Joined, room_id, applied) {
                    Ok(changed) => Ok((decrypted, changed)),
                    Err(e) => Err(e),
                }
            },
            Err(_) => Ok((None, false)),
        }
    }

    /// Applies a presence event to the joined room `room_id`.  Returns
    /// whether the room changed; a room that is not joined does not.
    pub fn receive_presence_event(&mut self, room_id: &RoomId, event: &PresenceEvent) -> (changed:
        bool)
        requires
            old(self).wf(),
        ensures
            final(self).wf(),
            final(self)@ == old(self)@.receive_presence_event(room_id@, event.deep_view()),
            changed == (final(self)@ != old(self)@),
    {
        match self.take_room(RoomStateType::Joined, room_id) {
            Some(room) => {
                let mut room = room;
                let changed = room.receive_presence_event(event);
                proof {
                    old(self)@.lemma_room_taken(RoomStateType::Joined, room_id@);
                }
                self.put_room(RoomStateType::Joined, room_id, room);
                proof {
                    old(self)@.lemma_room_replaced(RoomStateType::Joined, room_id@, room@);
                }
                changed
            },
            None => {
                assert(self@.joined_rooms =~= old(self)@.joined_rooms);
                false
            },
        }
    }

    /// Applies an event of the account data of the joined room `room_id`.
    /// Returns whether the event counts as a change.
    pub fn receive_account_data_event(&mut self, room_id: &RoomId, event: &NonRoomEvent) -> (changed:
        bool)
        requires
            old(self).wf(),
        ensures
            final(self).wf(),
            final(self)@ == old(self)@.receive_account_data_event(room_id@, event.deep_view()),
            changed == old(self)@.account_data_event_changes(room_id@, event.deep_view()),
    {
        match event {
            NonRoomEvent::IgnoredUserList(iu) => self.handle_ignored_users(iu),
            NonRoomEvent::Presence(p) => self.receive_presence_event(room_id, p),
            NonRoomEvent::PushRules(pr) => self.handle_push_rules(pr),
            _ => false,
        }
    }

    /// Applies a transient event of the joined room `room_id`.  Returns
    /// whether the event counts as a change.
    pub fn receive_ephemeral_event(&mut self, room_id: &RoomId, event: &NonRoomEvent) -> (changed:
        bool)
        requires
            old(self).wf(),
        ensures
            final(self).wf(),
            final(self)@ == old(self)@.receive_account_data_event(room_id@, event.deep_view()),
            changed == old(self)@.account_data_event_changes(room_id@, event.deep_view()),
    {
        self.receive_account_data_event(room_id, event)
    }
}

impl BaseClient {
    /// A copy of the room `room_id` of the set that `room_state` names,
    /// tagged with that set.
    pub fn tagged_room(&self, room_id: &RoomId, room_state: RoomStateType) -> (r: Option<
        RoomState<Room>,
    >)
        requires
            self.wf(),
        ensures
            r.deep_view() == (if self@.rooms(room_state).contains_key(room_id@) {
                Some(room_state.tag(self@.rooms(room_state)[room_id@]))
            } else {
                None
            }),
            r matches Some(tagged) ==> match tagged {
                RoomState::Joined(room) => room.wf(),
                RoomState::Invited(room) => room.wf(),
                RoomState::Left(room) => room.wf(),
            },
    {
        match room_state {
            RoomStateType::Invited => {
                match self.get_invited_room(room_id) {
                    Some(room) => Some(RoomState::Invited(room.snapshot())),
                    None => None,
                }
            },
            RoomStateType::Joined => {
                match self.get_joined_room(room_id) {
                    Some(room) => Some(RoomState::Joined(room.snapshot())),
                    None => None,
                }
            },
            RoomStateType::Left => {
                match self.get_left_room(room_id) {
                    Some(room) => Some(RoomState::Left(room.snapshot())),
                    None => None,
                }
            },
        }
    }

    /// The call that the subscriber is owed for `callback`, if any: none
    /// where no subscriber is installed or the room is not in the set that
    /// `room_state` names.
    fn emit<'a>(
        &self,
        room_id: &RoomId,
        callback: Option<Callback<'a>>,
        room_state: RoomStateType,
    ) -> (r: Option<Emission<'a>>)
        requires
            self.wf(),
        ensures
            r.deep_view() == self@.emission(room_id@, room_state, callback.deep_view()),
    {
        if !self.event_emitter {
            return None;
        }
        let callback = match callback {
            Some(callback) => callback,
            None => {
                return None;
            },
        };
        match self.tagged_room(room_id, room_state) {
            Some(room) => Some(Emission { room, callback }),
            None => None,
        }
    }

    /// The call that the subscriber is owed for an event of a timeline.
    ///
    /// None is owed where no subscriber is installed, where the room is not
    /// in the set that `room_state` names, or where the event is of a kind
    /// that has no callback.  The room of the call is the room as it is now.
    pub fn emit_timeline_event<'a>(
        &self,
        room_id: &RoomId,
        event: &'a RoomEvent,
        room_state: RoomStateType,
    ) -> (r: Option<Emission<'a>>)
        requires
            self.wf(),
        ensures
            r.deep_view() == self@.emission(
                room_id@,
                room_state,
                timeline_callback(event.deep_view()),
            ),
    {
        self.emit(room_id, Callback::for_timeline_event(event), room_state)
    }

    /// The call that the subscriber is owed for an event of the state of a
    /// room.
    ///
    /// None is owed where no subscriber is installed, where the room is not
    /// in the set that `room_state` names, or where the event is of a kind
    /// that has no callback.  The room of the call is the room as it is now.
    pub fn emit_state_event<'a>(
        &self,
        room_id: &RoomId,
        event: &'a StateEvent,
        room_state: RoomStateType,
    ) -> (r: Option<Emission<'a>>)
        requires
            self.wf(),
        ensures
            r.deep_view() == self@.emission(
                room_id@,
                room_state,
                state_callback(event.deep_view()),
            ),
    {
        self.emit(room_id, Callback::for_state_event(event), room_state)
    }

    /// The call that the subscriber is owed for an event of the reduced
    /// state of an invitation.
    ///
    /// None is owed where no subscriber is installed, where the room is not
    /// in the set that `room_state` names, or where the event is of a kind
    /// that has no callback.  The room of the call is the room as it is now.
    pub fn emit_stripped_state_event<'a>(
        &self,
        room_id: &RoomId,
        event: &'a AnyStrippedStateEvent,
        room_state: RoomStateType,
    ) -> (r: Option<Emission<'a>>)
        requires
            self.wf(),
        ensures
            r.deep_view() == self@.emission(
                room_id@,
                room_state,
                stripped_state_callback(event.deep_view()),
            ),
    {
        self.emit(room_id, Callback::for_stripped_state_event(event), room_state)
    }

    /// The call that the subscriber is owed for an event of the account
    /// data of a room.
    ///
    /// None is owed where no subscriber is installed, where the room is not
    /// in the set that `room_state` names, or where the event is of a kind
    /// that has no callback.  The room of the call is the room as it is now.
    pub fn emit_account_data_event<'a>(
        &self,
        room_id: &RoomId,
        event: &'a NonRoomEvent,
        room_state: RoomStateType,
    ) -> (r: Option<Emission<'a>>)
        requires
            self.wf(),
        ensures
            r.deep_view() == self@.emission(
                room_id@,
                room_state,
                account_data_callback(event.deep_view()),
            ),
    {
        self.emit(room_id, Callback::for_account_data_event(event), room_state)
    }

    /// The call that the subscriber is owed for a transient event of a
    /// room.  Transient events go to the callbacks of the account data.
    ///
    /// None is owed where no subscriber is installed, where the room is not
    /// in the set that `room_state` names, or where the event is of a kind
    /// that has no callback.  The room of the call is the room as it is now.
    pub fn emit_ephemeral_event<'a>(
        &self,
        room_id: &RoomId,
        event: &'a NonRoomEvent,
        room_state: RoomStateType,
    ) -> (r: Option<Emission<'a>>)
        requires
            self.wf(),
        ensures
            r.deep_view() == self@.emission(
                room_id@,
                room_state,
                account_data_callback(event.deep_view()),
            ),
    {
        self.emit_account_data_event(room_id, event, room_state)
    }

    /// The call that the subscriber is owed for a presence event of the
    /// response.
    ///
    /// None is owed where no subscriber is installed or where the room is
    /// not in the set that `room_state` names.  The room of the call is the
    /// room as it is now.
    pub fn emit_presence_event<'a>(
        &self,
        room_id: &RoomId,
        event: &'a PresenceEvent,
        room_state: RoomStateType,
    ) -> (r: Option<Emission<'a>>)
        requires
            self.wf(),
        ensures
            r.deep_view() == self@.emission(
                room_id@,
                room_state,
                Some(CallbackView::PresenceEvent(event.deep_view())),
            ),
    {
        self.emit(room_id, Some(Callback::PresenceEvent(event)), room_state)
    }

    /// The members of the joined room `room_id`, where the room is
    /// encrypted: the users whose devices the crypto engine has to track.
    pub fn tracked_users(&self, room_id: &RoomId) -> (r: Option<Vec<UserId>>)
        requires
            self.wf(),
        ensures
            match r {
                Some(users) => self@.joined_rooms.contains_key(room_id@)
                    && self@.joined_rooms[room_id@].encrypted && users.deep_view().to_set()
                    == self@.joined_rooms[room_id@].members.dom()
                    && users.deep_view().no_duplicates(),
                None => !self@.joined_rooms.contains_key(room_id@)
                    || !self@.joined_rooms[room_id@].encrypted,
            },
    {
        match self.joined_rooms.get(room_id) {
            Some(room) => {
                if room.is_encrypted() {
                    Some(room.members.keys())
                } else {
                    None
                }
            },
            None => None,
        }
    }

    /// Takes the summary and the counts of unread notifications of the
    /// joined room `room_id`.  A room that is not joined is left alone.
    pub fn set_joined_room_summary(
        &mut self,
        room_id: &RoomId,
        summary: &RoomSummary,
        unread_notifications: &UnreadNotificationsCount,
    )
        requires
            old(self).wf(),
        ensures
            final(self).wf(),
            final(self)@ == (if old(self)@.joined_rooms.contains_key(room_id@) {
                old(self)@.with_room(
                    RoomStateType::Joined,
                    room_id@,
                    old(self)@.joined_rooms[room_id@].with_summary(summary.deep_view()).with_unread(
                        *unread_notifications,
                    ),
                )
            } else {
                old(self)@
            }),
    {
        match self.take_room(RoomStateType::Joined, room_id) {
            Some(room) => {
                let mut room = room;
                room.set_room_summary(summary);
                room.set_unread_notice_count(unread_notifications);
                proof {
                    old(self)@.lemma_room_taken(RoomStateType::Joined, room_id@);
                }
                self.put_room(RoomStateType::Joined, room_id, room);
                proof {
                    old(self)@.lemma_room_replaced(RoomStateType::Joined, room_id@, room@);
                }
            },
            None => {
                assert(self@.joined_rooms =~= old(self)@.joined_rooms);
            },
        }
    }
}

impl BaseClient {
    /// Puts `room` among the rooms of `kind`, under its own id, and takes
    /// the id out of the other two sets.
    fn restore_room(&mut self, kind: RoomStateType, room: Room)
        requires
            old(self).wf(),
            room.wf(),
        ensures
            final(self).wf(),
            final(self)@ == old(self)@.restore_room(kind, room@),
    {
        self.joined_rooms.remove(&room.room_id);
        self.invited_rooms.remove(&room.room_id);
        self.left_rooms.remove(&room.room_id);
        let room_id = room.room_id.clone();
        match kind {
            RoomStateType::Joined => self.joined_rooms.insert(room_id, room),
            RoomStateType::Invited => self.invited_rooms.insert(room_id, room),
            RoomStateType::Left => self.left_rooms.insert(room_id, room),
        }
        proof {
            let target = old(self)@.restore_room(kind, room@);
            assert(self@.joined_rooms =~= target.joined_rooms);
            assert(self@.invited_rooms =~= target.invited_rooms);
            assert(self@.left_rooms =~= target.left_rooms);
            assert forall|id: Seq<char>| #[trigger] self@.occurrences(id) <= 1 by {
                assert(old(self)@.occurrences(id) <= 1);
            }
        }
    }

    /// Puts copies of `rooms` among the rooms of `kind`, in order.
    fn restore_rooms(&mut self, kind: RoomStateType, rooms: &Vec<Room>)
        requires
            old(self).wf(),
            all_wf(rooms@),
        ensures
            final(self).wf(),
            final(self)@ == old(self)@.restore_rooms(kind, rooms.deep_view()),
    {
        let ghost start = self@;
        let ghost all = rooms.deep_view();
        let mut i: usize = 0;
        while i < rooms.len()
            invariant
                self.wf(),
                all_wf(rooms@),
                i <= rooms.len(),
                all == rooms.deep_view(),
                self@ == start.restore_rooms(kind, all.take(i as int)),
            decreases rooms.len() - i,
        {
            proof {
                assert(all.take(i + 1).drop_last() =~= all.take(i as int));
                assert(all.take(i + 1).last() == rooms[i as int].deep_view());
            }
            self.restore_room(kind, rooms[i].snapshot());
            i = i + 1;
        }
        assert(all.take(rooms.len() as int) =~= all);
    }

    /// Takes the state that the store holds.
    ///
    /// `stored` is what the store returned, `None` where it holds no client
    /// state.  A client without a store or without a session loads nothing.
    /// Returns whether the state was loaded: `false` without a store,
    /// without a session, and after a store without client state, when a
    /// first sync is due.
    pub fn sync_with_state_store(&mut self, stored: Option<&StoredState>) -> (r: Result<bool, Error>)
        requires
            old(self).wf(),
            stored matches Some(s) ==> s.rooms.wf(),
        ensures
            final(self).wf(),
            final(self)@ == old(self)@.sync_with_state_store(stored.deep_view()),
            r matches Ok(synced) && synced == (old(self)@.loads_from_store() && stored is Some),
    {
        if !self.state_store || self.session.is_none() {
            return Ok(!self.needs_state_store_sync);
        }
        match stored {
            Some(s) => {
                self.sync_token = snapshot_option(&s.client_state.sync_token);
                self.ignored_users = snapshot_list(&s.client_state.ignored_users);
                self.push_ruleset = snapshot_option(&s.client_state.push_ruleset);
                self.joined_rooms = IdMap::new();
                self.invited_rooms = IdMap::new();
                self.left_rooms = IdMap::new();
                self.needs_state_store_sync = false;
                self.restore_rooms(RoomStateType::Joined, &s.rooms.joined);
                self.restore_rooms(RoomStateType::Invited, &s.rooms.invited);
                self.restore_rooms(RoomStateType::Left, &s.rooms.left);
                Ok(true)
            },
            None => Ok(false),
        }
    }

    /// What the store is to write so that it holds the room `room_id` as it
    /// is now: the room, tagged with the set that it is in.  Nothing is to
    /// be written where no store is configured or the client does not know
    /// the room.
    pub fn store_room_state(&self, room_id: &RoomId) -> (r: Result<Option<RoomState<Room>>, Error>)
        requires
            self.wf(),
        ensures
            r matches Ok(request) && request.deep_view() == (if self@.state_store {
                self@.find_room(room_id@)
            } else {
                None
            }),
    {
        if !self.state_store {
            return Ok(None);
        }
        match self.tagged_room(room_id, RoomStateType::Joined) {
            Some(room) => {
                return Ok(Some(room));
            },
            None => {},
        }
        match self.tagged_room(room_id, RoomStateType::Invited) {
            Some(room) => {
                return Ok(Some(room));
            },
            None => {},
        }
        Ok(self.tagged_room(room_id, RoomStateType::Left))
    }
}

} // verus!
