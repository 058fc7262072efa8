//! The client as a mathematical value, and what each operation makes of it.
//!
//! The contracts of the client are stated over [`ClientView`]: a value with
//! three maps from room ids to rooms, the sync token, the ignored users and
//! the push rules.  The functions here say what an event, a room of a sync
//! response and a whole response turn such a value into, and which requests
//! to the subscriber, the crypto engine and the store come out on the way.

use crate::emitter::{
    account_data_callback, state_callback, stripped_state_callback, timeline_callback,
    ActionView, CallbackView, EmissionView,
};
use crate::events::{
    AnyStrippedStateEventView, IgnoredUserListEventView, NonRoomEventView, PresenceEventView,
    PushRulesEventView, RoomEventView, RulesetView, StateEventView,
};
use crate::room::{effective_event, RoomView};
use crate::session::SessionView;
use crate::state::{ClientStateView, RoomState, RoomStateType, StoredStateView};
use crate::sync::{
    InvitedRoomView, JoinedRoomView, LeftRoomView, SyncResponseView, TimelineEventView,
};
use vstd::prelude::*;

verus! {

/// The model of a client.
#[verifier::ext_equal]
pub struct ClientView {
    /// The session, once the user has logged in.
    pub session: Option<SessionView>,
    /// The token of the last sync response that was received.
    pub sync_token: Option<Seq<char>>,
    /// The rooms that the user has joined.
    pub joined_rooms: Map<Seq<char>, RoomView>,
    /// The rooms that the user is invited to.
    pub invited_rooms: Map<Seq<char>, RoomView>,
    /// The rooms that the user has left.
    pub left_rooms: Map<Seq<char>, RoomView>,
    /// The users that the account ignores.
    pub ignored_users: Seq<Seq<char>>,
    /// The push rules of the account.
    pub push_ruleset: Option<RulesetView>,
    /// Whether a subscriber is installed.
    pub event_emitter: bool,
    /// Whether a state store is configured.
    pub state_store: bool,
    /// Whether the state has yet to be loaded from the store.
    pub needs_state_store_sync: bool,
}

/// Whether every room of `rooms` is stored under its own id.
pub open spec fn keyed_by_id(rooms: Map<Seq<char>, RoomView>) -> bool {
    forall|id: Seq<char>| #[trigger] rooms.contains_key(id) ==> rooms[id].room_id == id
}

impl ClientView {
    /// A client that has received nothing yet.
    pub open spec fn new(session: Option<SessionView>, state_store: bool) -> ClientView {
        ClientView {
            session,
            sync_token: None,
            joined_rooms: Map::empty(),
            invited_rooms: Map::empty(),
            left_rooms: Map::empty(),
            ignored_users: Seq::empty(),
            push_ruleset: None,
            event_emitter: false,
            state_store,
            needs_state_store_sync: true,
        }
    }

    /// How many of the three sets of rooms hold `room_id`.
    pub open spec fn occurrences(self, room_id: Seq<char>) -> nat {
        (if self.joined_rooms.contains_key(room_id) {
            1nat
        } else {
            0nat
        }) + (if self.invited_rooms.contains_key(room_id) {
            1nat
        } else {
            0nat
        }) + (if self.left_rooms.contains_key(room_id) {
            1nat
        } else {
            0nat
        })
    }

    /// No room is in two of the three sets, every room is stored under its
    /// own id, and only a client that loads from a store has loaded from
    /// one.
    pub open spec fn wf(self) -> bool {
        &&& forall|id: Seq<char>| #[trigger] self.occurrences(id) <= 1
        &&& keyed_by_id(self.joined_rooms)
        &&& keyed_by_id(self.invited_rooms)
        &&& keyed_by_id(self.left_rooms)
        &&& !self.needs_state_store_sync ==> self.state_store && self.session is Some
    }

    /// Validity speaks of the rooms, and of whether the client has loaded
    /// from a store.
    pub proof fn lemma_same_rooms(self, other: ClientView)
        requires
            self.wf(),
            other.joined_rooms == self.joined_rooms,
            other.invited_rooms == self.invited_rooms,
            other.left_rooms == self.left_rooms,
            other.needs_state_store_sync == self.needs_state_store_sync,
            other.state_store == self.state_store,
            self.session is Some ==> other.session is Some,
        ensures
            other.wf(),
    {
        assert forall|id: Seq<char>| #[trigger] other.occurrences(id) <= 1 by {
            assert(self.occurrences(id) <= 1);
        }
    }

    /// Whether `other` has the session, the sync token and the settings of
    /// this client: all but the rooms, the ignored users and the push
    /// rules.
    pub open spec fn same_settings(self, other: ClientView) -> bool {
        &&& other.session == self.session
        &&& other.sync_token == self.sync_token
        &&& other.event_emitter == self.event_emitter
        &&& other.state_store == self.state_store
        &&& other.needs_state_store_sync == self.needs_state_store_sync
    }

    /// Taking a room out of its set and putting a room with the same id
    /// back replaces the room; the client differs afterwards if and only if
    /// the room does.
    pub proof fn lemma_room_replaced(self, kind: RoomStateType, room_id: Seq<char>, room: RoomView)
        requires
            self.rooms(kind).contains_key(room_id),
        ensures
            self.with_rooms(kind, self.rooms(kind).remove(room_id)).with_room(kind, room_id, room)
                == self.with_room(kind, room_id, room),
            (self.with_room(kind, room_id, room) != self) == (room != self.rooms(kind)[room_id]),
    {
        let taken = self.with_rooms(kind, self.rooms(kind).remove(room_id));
        let put = taken.with_room(kind, room_id, room);
        let direct = self.with_room(kind, room_id, room);
        assert(put.rooms(kind) =~= direct.rooms(kind));
        assert(put =~= direct);
        if room == self.rooms(kind)[room_id] {
            assert(direct.rooms(kind) =~= self.rooms(kind));
            assert(direct =~= self);
        } else {
            assert(direct.rooms(kind)[room_id] != self.rooms(kind)[room_id]);
        }
    }

    /// In a valid client, a room that was taken out of its set is in no
    /// set.
    pub proof fn lemma_room_taken(self, kind: RoomStateType, room_id: Seq<char>)
        requires
            self.wf(),
            self.rooms(kind).contains_key(room_id),
        ensures
            ({
                let taken = self.with_rooms(kind, self.rooms(kind).remove(room_id));
                taken.without_room(room_id).with_rooms(kind, taken.rooms(kind)) == taken
            }),
    {
        let taken = self.with_rooms(kind, self.rooms(kind).remove(room_id));
        let alone = taken.without_room(room_id).with_rooms(kind, taken.rooms(kind));
        assert(self.occurrences(room_id) <= 1);
        assert(alone.joined_rooms =~= taken.joined_rooms);
        assert(alone.invited_rooms =~= taken.invited_rooms);
        assert(alone.left_rooms =~= taken.left_rooms);
    }

    /// The user of the session.
    pub open spec fn own_user_id(self) -> Seq<char>
        recommends
            self.session is Some,
    {
        self.session->0.user_id
    }

    /// The set of rooms that `kind` names.
    pub open spec fn rooms(self, kind: RoomStateType) -> Map<Seq<char>, RoomView> {
        match kind {
            RoomStateType::Joined => self.joined_rooms,
            RoomStateType::Invited => self.invited_rooms,
            RoomStateType::Left => self.left_rooms,
        }
    }

    /// The client with `rooms` as the set that `kind` names.
    pub open spec fn with_rooms(
        self,
        kind: RoomStateType,
        rooms: Map<Seq<char>, RoomView>,
    ) -> ClientView {
        match kind {
            RoomStateType::Joined => ClientView { joined_rooms: rooms, ..self },
            RoomStateType::Invited => ClientView { invited_rooms: rooms, ..self },
            RoomStateType::Left => ClientView { left_rooms: rooms, ..self },
        }
    }

    /// The client after `room_id` was delivered in the section of `kind`
    /// rooms: the room is taken out of the other two sets and, where the set
    /// of `kind` does not hold it yet, a fresh room is put there.
    pub open spec fn get_or_create_room(self, kind: RoomStateType, room_id: Seq<char>) -> ClientView {
        let evicted = ClientView {
            joined_rooms: self.joined_rooms.remove(room_id),
            invited_rooms: self.invited_rooms.remove(room_id),
            left_rooms: self.left_rooms.remove(room_id),
            ..self
        };
        let room = if self.rooms(kind).contains_key(room_id) {
            self.rooms(kind)[room_id]
        } else {
            RoomView::new(room_id, self.own_user_id())
        };
        evicted.with_rooms(kind, evicted.rooms(kind).insert(room_id, room))
    }

    /// The client with `room` in the place of the room `room_id` of the set
    /// of `kind`.
    pub open spec fn with_room(self, kind: RoomStateType, room_id: Seq<char>, room: RoomView) -> ClientView {
        self.with_rooms(kind, self.rooms(kind).insert(room_id, room))
    }

    /// The client after a state event of a joined room.
    pub open spec fn receive_joined_state_event(self, room_id: Seq<char>, event: StateEventView) -> ClientView {
        let created = self.get_or_create_room(RoomStateType::Joined, room_id);
        created.with_room(
            RoomStateType::Joined,
            room_id,
            created.joined_rooms[room_id].with_state_event(event),
        )
    }

    /// The client after a state event of a left room.
    pub open spec fn receive_left_state_event(self, room_id: Seq<char>, event: StateEventView) -> ClientView {
        let created = self.get_or_create_room(RoomStateType::Left, room_id);
        created.with_room(
            RoomStateType::Left,
            room_id,
            created.left_rooms[room_id].with_state_event(event),
        )
    }

    /// The client after an event of the reduced state of an invitation.
    pub open spec fn receive_invite_state_event(
        self,
        room_id: Seq<char>,
        event: AnyStrippedStateEventView,
    ) -> ClientView {
        let created = self.get_or_create_room(RoomStateType::Invited, room_id);
        created.with_room(
            RoomStateType::Invited,
            room_id,
            created.invited_rooms[room_id].with_stripped_state_event(event),
        )
    }

    /// The client after an event of the timeline of a left room.  An event
    /// that could not be read changes nothing.
    pub open spec fn receive_left_timeline_event(
        self,
        room_id: Seq<char>,
        event: Option<RoomEventView>,
    ) -> ClientView {
        match event {
            Some(e) => {
                let created = self.get_or_create_room(RoomStateType::Left, room_id);
                created.with_room(
                    RoomStateType::Left,
                    room_id,
                    created.left_rooms[room_id].with_timeline_event(e),
                )
            },
            None => self,
        }
    }

    /// The event that stands for `event` from here on: what the crypto
    /// engine found inside, where the event is encrypted, the client has a
    /// crypto engine and the engine could decrypt; else the event itself.
    /// `None` where the event could not be read.
    pub open spec fn effective_timeline_event(self, event: TimelineEventView) -> Option<RoomEventView> {
        effective_event(event, self.session is Some)
    }

    /// Whether the client takes the decrypted form of `event`.
    pub open spec fn takes_decrypted(self, event: TimelineEventView) -> bool {
        event.event matches Some(RoomEventView::RoomEncrypted(_)) && self.session is Some
            && event.decrypted is Some
    }

    /// The client after an event of the timeline of a joined room.
    pub open spec fn receive_joined_timeline_event(self, room_id: Seq<char>, event: TimelineEventView) -> ClientView {
        match self.effective_timeline_event(event) {
            Some(e) => {
                let created = self.get_or_create_room(RoomStateType::Joined, room_id);
                created.with_room(
                    RoomStateType::Joined,
                    room_id,
                    created.joined_rooms[room_id].with_timeline_event(e),
                )
            },
            None => self,
        }
    }

    /// The client after a presence event that came with the joined room
    /// `room_id`.
    pub open spec fn receive_presence_event(self, room_id: Seq<char>, event: PresenceEventView) -> ClientView {
        if self.joined_rooms.contains_key(room_id) {
            self.with_room(
                RoomStateType::Joined,
                room_id,
                self.joined_rooms[room_id].with_presence_event(event),
            )
        } else {
            self
        }
    }

    /// The client after a list of ignored users.
    pub open spec fn handle_ignored_users(self, event: IgnoredUserListEventView) -> ClientView {
        ClientView { ignored_users: event.ignored_users, ..self }
    }

    /// The client after new push rules.
    pub open spec fn handle_push_rules(self, event: PushRulesEventView) -> ClientView {
        ClientView { push_ruleset: Some(event.global), ..self }
    }

    /// The client after an event of the account data, or of the transient
    /// data, of the joined room `room_id`.
    pub open spec fn receive_account_data_event(self, room_id: Seq<char>, event: NonRoomEventView) -> ClientView {
        match event {
            NonRoomEventView::IgnoredUserList(e) => self.handle_ignored_users(e),
            NonRoomEventView::Presence(e) => self.receive_presence_event(room_id, e),
            NonRoomEventView::PushRules(e) => self.handle_push_rules(e),
            _ => self,
        }
    }

    /// Whether an event of the account data counts as a change.  New push
    /// rules always do; every other event does if it changes the client.
    pub open spec fn account_data_event_changes(self, room_id: Seq<char>, event: NonRoomEventView) -> bool {
        match event {
            NonRoomEventView::PushRules(_) => true,
            _ => self.receive_account_data_event(room_id, event) != self,
        }
    }

    /// The call that a subscriber is owed for `callback`, on behalf of the
    /// room `room_id` of the set of `kind`.  None is owed where no
    /// subscriber is installed, where the set does not hold the room, or
    /// where the event has no callback.
    pub open spec fn emission(
        self,
        room_id: Seq<char>,
        kind: RoomStateType,
        callback: Option<CallbackView>,
    ) -> Option<EmissionView> {
        if self.event_emitter && self.rooms(kind).contains_key(room_id) && callback is Some {
            Some(EmissionView { room: kind.tag(self.rooms(kind)[room_id]), callback: callback->0 })
        } else {
            None
        }
    }

    /// The client without the room `room_id`.
    pub open spec fn without_room(self, room_id: Seq<char>) -> ClientView {
        ClientView {
            joined_rooms: self.joined_rooms.remove(room_id),
            invited_rooms: self.invited_rooms.remove(room_id),
            left_rooms: self.left_rooms.remove(room_id),
            ..self
        }
    }

    /// The client with `room` as a room of `kind`, and of no other kind.
    pub open spec fn restore_room(self, kind: RoomStateType, room: RoomView) -> ClientView {
        self.without_room(room.room_id).with_room(kind, room.room_id, room)
    }

    /// The client with `rooms` as rooms of `kind`, one after the other.  A
    /// later room replaces an earlier room with the same id.
    pub open spec fn restore_rooms(self, kind: RoomStateType, rooms: Seq<RoomView>) -> ClientView
        decreases rooms.len(),
    {
        if rooms.len() == 0 {
            self
        } else {
            self.restore_rooms(kind, rooms.drop_last()).restore_room(kind, rooms.last())
        }
    }

    /// Whether the client loads its state from a store: it does if a store
    /// is configured and the user is logged in.
    pub open spec fn loads_from_store(self) -> bool {
        self.state_store && self.session is Some
    }

    /// The client after it was handed what the store holds.  `None` stands
    /// for a store that holds no client state.
    ///
    /// The rooms of the store replace those of the client.  They are taken
    /// in one by one, the joined rooms first, then the invited rooms, then
    /// the left rooms, so that a room that the store holds twice ends up in
    /// one set only.
    pub open spec fn sync_with_state_store(self, stored: Option<StoredStateView>) -> ClientView {
        if self.loads_from_store() && stored is Some {
            let s = stored->0;
            (ClientView {
                sync_token: s.client_state.sync_token,
                ignored_users: s.client_state.ignored_users,
                push_ruleset: s.client_state.push_ruleset,
                joined_rooms: Map::empty(),
                invited_rooms: Map::empty(),
                left_rooms: Map::empty(),
                needs_state_store_sync: false,
                ..self
            }).restore_rooms(RoomStateType::Joined, s.rooms.joined).restore_rooms(
                RoomStateType::Invited,
                s.rooms.invited,
            ).restore_rooms(RoomStateType::Left, s.rooms.left)
        } else {
            self
        }
    }

    /// The room `room_id`, tagged with the set that holds it.
    pub open spec fn find_room(self, room_id: Seq<char>) -> Option<RoomState<RoomView>> {
        if self.joined_rooms.contains_key(room_id) {
            Some(RoomState::Joined(self.joined_rooms[room_id]))
        } else if self.invited_rooms.contains_key(room_id) {
            Some(RoomState::Invited(self.invited_rooms[room_id]))
        } else if self.left_rooms.contains_key(room_id) {
            Some(RoomState::Left(self.left_rooms[room_id]))
        } else {
            None
        }
    }

    /// The joined room `room_id` as a delivery in the `join` section finds
    /// it: the room that the client holds as joined, or a fresh room.
    pub open spec fn joined_or_fresh(self, room_id: Seq<char>) -> RoomView {
        self.get_or_create_room(RoomStateType::Joined, room_id).joined_rooms[room_id]
    }

    /// What is persisted of the client beside the rooms.
    pub open spec fn client_state(self) -> ClientStateView {
        ClientStateView {
            sync_token: self.sync_token,
            ignored_users: self.ignored_users,
            push_ruleset: self.push_ruleset,
        }
    }
}

/// A sync response that is being folded into a client: the client so far,
/// whether anything has changed, and the requests so far.
#[verifier::ext_equal]
pub struct FoldView {
    /// The client so far.
    pub client: ClientView,
    /// Whether anything has changed: while a room is folded in, whether an
    /// event of that room has; between the rooms of a section, whether a
    /// room of the section has.
    pub updated: bool,
    /// The requests so far, oldest first.
    pub actions: Seq<ActionView>,
}

impl FoldView {
    /// The fold with one more call of the subscriber, where one is owed.
    pub open spec fn emit(self, emission: Option<EmissionView>) -> FoldView {
        match emission {
            Some(e) => FoldView { actions: self.actions.push(ActionView::Emit(e)), ..self },
            None => self,
        }
    }

    /// The fold after a state event was applied to a room of `kind`, which
    /// is joined or left.  An event that could not be read is skipped.
    pub open spec fn state_event(
        self,
        kind: RoomStateType,
        room_id: Seq<char>,
        event: Option<StateEventView>,
    ) -> FoldView {
        match event {
            Some(e) => {
                let client = if kind == RoomStateType::Left {
                    self.client.receive_left_state_event(room_id, e)
                } else {
                    self.client.receive_joined_state_event(room_id, e)
                };
                FoldView {
                    client,
                    updated: self.updated || client != self.client.get_or_create_room(
                        kind,
                        room_id,
                    ),
                    ..self
                }
            },
            None => self,
        }
    }

    /// The fold after the state events of a room were applied, in order.
    pub open spec fn state(
        self,
        kind: RoomStateType,
        room_id: Seq<char>,
        events: Seq<Option<StateEventView>>,
    ) -> FoldView
        decreases events.len(),
    {
        if events.len() == 0 {
            self
        } else {
            self.state(kind, room_id, events.drop_last()).state_event(kind, room_id, events.last())
        }
    }

    /// The fold after a state event was announced to the subscriber.
    pub open spec fn emit_state_event(
        self,
        kind: RoomStateType,
        room_id: Seq<char>,
        event: Option<StateEventView>,
    ) -> FoldView {
        match event {
            Some(e) => self.emit(self.client.emission(room_id, kind, state_callback(e))),
            None => self,
        }
    }

    /// The fold after the state events of a room were announced, in order.
    pub open spec fn emit_state(
        self,
        kind: RoomStateType,
        room_id: Seq<char>,
        events: Seq<Option<StateEventView>>,
    ) -> FoldView
        decreases events.len(),
    {
        if events.len() == 0 {
            self
        } else {
            self.emit_state(kind, room_id, events.drop_last()).emit_state_event(
                kind,
                room_id,
                events.last(),
            )
        }
    }

    /// The fold after the crypto engine was told of the members of the
    /// joined room `room_id`, which it is if the room is encrypted.
    pub open spec fn track_users(self, room_id: Seq<char>) -> FoldView {
        if self.client.joined_rooms[room_id].encrypted {
            FoldView {
                actions: self.actions.push(
                    ActionView::UpdateTrackedUsers(
                        self.client.joined_rooms[room_id].members.dom(),
                    ),
                ),
                ..self
            }
        } else {
            self
        }
    }

    /// The fold after an event of the timeline of a joined room was applied
    /// and announced.  The subscriber sees the decrypted form of an event
    /// where the client took it, and the room as it is after the event.
    pub open spec fn joined_timeline_event(self, room_id: Seq<char>, event: TimelineEventView) -> FoldView {
        let client = self.client.receive_joined_timeline_event(room_id, event);
        let applied = FoldView {
            client,
            updated: self.updated || (event.event is Some && client
                != self.client.get_or_create_room(RoomStateType::Joined, room_id)),
            ..self
        };
        match self.client.effective_timeline_event(event) {
            Some(e) => applied.emit(
                client.emission(room_id, RoomStateType::Joined, timeline_callback(e)),
            ),
            None => applied,
        }
    }

    /// The fold after the timeline of a joined room, in order.
    pub open spec fn joined_timeline(self, room_id: Seq<char>, events: Seq<TimelineEventView>) -> FoldView
        decreases events.len(),
    {
        if events.len() == 0 {
            self
        } else {
            self.joined_timeline(room_id, events.drop_last()).joined_timeline_event(
                room_id,
                events.last(),
            )
        }
    }

    /// The fold after an event of the account data, or of the transient
    /// data, of a joined room was applied and announced.
    pub open spec fn account_data_event(self, room_id: Seq<char>, event: Option<NonRoomEventView>) -> FoldView {
        match event {
            Some(e) => {
                let client = self.client.receive_account_data_event(room_id, e);
                (FoldView {
                    client,
                    updated: self.updated || self.client.account_data_event_changes(room_id, e),
                    ..self
                }).emit(client.emission(room_id, RoomStateType::Joined, account_data_callback(e)))
            },
            None => self,
        }
    }

    /// The fold after the account data, or the transient data, of a joined
    /// room, in order.
    pub open spec fn account_data(self, room_id: Seq<char>, events: Seq<Option<NonRoomEventView>>) -> FoldView
        decreases events.len(),
    {
        if events.len() == 0 {
            self
        } else {
            self.account_data(room_id, events.drop_last()).account_data_event(
                room_id,
                events.last(),
            )
        }
    }

    /// The fold after a presence event of the response was applied to a
    /// joined room and announced.
    pub open spec fn presence_event(self, room_id: Seq<char>, event: Option<PresenceEventView>) -> FoldView {
        match event {
            Some(e) => {
                let client = self.client.receive_presence_event(room_id, e);
                (FoldView {
                    client,
                    updated: self.updated || client != self.client,
                    ..self
                }).emit(
                    client.emission(
                        room_id,
                        RoomStateType::Joined,
                        Some(CallbackView::PresenceEvent(e)),
                    ),
                )
            },
            None => self,
        }
    }

    /// The fold after the presence events of the response were applied to
    /// a joined room, in order.
    pub open spec fn presence(self, room_id: Seq<char>, events: Seq<Option<PresenceEventView>>) -> FoldView
        decreases events.len(),
    {
        if events.len() == 0 {
            self
        } else {
            self.presence(room_id, events.drop_last()).presence_event(room_id, events.last())
        }
    }

    /// The fold after the store was asked to persist the room `room_id`,
    /// which it is if an event of the room has changed anything and a store
    /// is configured.
    pub open spec fn store_room(self, kind: RoomStateType, room_id: Seq<char>) -> FoldView {
        if self.updated && self.client.state_store {
            FoldView {
                actions: self.actions.push(
                    ActionView::StoreRoomState(kind.tag(self.client.rooms(kind)[room_id])),
                ),
                ..self
            }
        } else {
            self
        }
    }

    /// The fold with the room `room_id` made a room of `kind`.
    pub open spec fn created(self, kind: RoomStateType, room_id: Seq<char>) -> FoldView {
        FoldView { client: self.client.get_or_create_room(kind, room_id), ..self }
    }

    /// The fold after the summary and the unread counts of a joined room
    /// were taken.
    pub open spec fn summarized(self, room: JoinedRoomView) -> FoldView {
        FoldView {
            client: self.client.with_room(
                RoomStateType::Joined,
                room.room_id,
                self.client.joined_rooms[room.room_id].with_summary(room.summary).with_unread(
                    room.unread_notifications,
                ),
            ),
            ..self
        }
    }

    /// The fold with the mark that nothing has changed yet.
    pub open spec fn unchanged(self) -> FoldView {
        FoldView { updated: false, ..self }
    }

    /// The fold after a room of a section: the room was folded in as `own`
    /// says, and the section has changed if it had before or the room has.
    pub open spec fn after_room(self, own: FoldView) -> FoldView {
        FoldView { updated: self.updated || own.updated, ..own }
    }

    /// What one joined room of the response is folded into, taken by
    /// itself: its state is applied, the room is made a joined room, the
    /// crypto engine is told of the members, the summary is taken, the
    /// state is announced, then the timeline, the account data, the
    /// presence events of the response and the transient events are applied
    /// and announced, and at last the room is persisted if one of these
    /// events has changed anything.
    pub open spec fn own_joined_room(
        self,
        room: JoinedRoomView,
        presence: Seq<Option<PresenceEventView>>,
    ) -> FoldView {
        let id = room.room_id;
        self.unchanged().state(RoomStateType::Joined, id, room.state).created(
            RoomStateType::Joined,
            id,
        ).track_users(id).summarized(room).emit_state(
            RoomStateType::Joined,
            id,
            room.state,
        ).joined_timeline(id, room.timeline).account_data(id, room.account_data).presence(
            id,
            presence,
        ).account_data(id, room.ephemeral).store_room(RoomStateType::Joined, id)
    }

    /// The fold after one joined room of the response.
    pub open spec fn joined_room(self, room: JoinedRoomView, presence: Seq<Option<PresenceEventView>>) -> FoldView {
        self.after_room(self.own_joined_room(room, presence))
    }

    /// The fold after the joined rooms of the response, in order.
    pub open spec fn joined_rooms(
        self,
        rooms: Seq<JoinedRoomView>,
        presence: Seq<Option<PresenceEventView>>,
    ) -> FoldView
        decreases rooms.len(),
    {
        if rooms.len() == 0 {
            self
        } else {
            self.joined_rooms(rooms.drop_last(), presence).joined_room(rooms.last(), presence)
        }
    }

    /// The fold after an event of the reduced state of an invitation was
    /// applied.  An event that could not be read is skipped.
    pub open spec fn invite_state_event(
        self,
        room_id: Seq<char>,
        event: Option<AnyStrippedStateEventView>,
    ) -> FoldView {
        match event {
            Some(e) => {
                let client = self.client.receive_invite_state_event(room_id, e);
                FoldView {
                    client,
                    updated: self.updated || client != self.client.get_or_create_room(
                        RoomStateType::Invited,
                        room_id,
                    ),
                    ..self
                }
            },
            None => self,
        }
    }

    /// The fold after the reduced state of an invitation was applied, in
    /// order.
    pub open spec fn invite_state(
        self,
        room_id: Seq<char>,
        events: Seq<Option<AnyStrippedStateEventView>>,
    ) -> FoldView
        decreases events.len(),
    {
        if events.len() == 0 {
            self
        } else {
            self.invite_state(room_id, events.drop_last()).invite_state_event(
                room_id,
                events.last(),
            )
        }
    }

    /// The fold after an event of the reduced state of an invitation was
    /// announced.
    pub open spec fn emit_stripped_state_event(
        self,
        room_id: Seq<char>,
        event: Option<AnyStrippedStateEventView>,
    ) -> FoldView {
        match event {
            Some(e) => self.emit(
                self.client.emission(room_id, RoomStateType::Invited, stripped_state_callback(e)),
            ),
            None => self,
        }
    }

    /// The fold after the reduced state of an invitation was announced, in
    /// order.
    pub open spec fn emit_stripped_state(
        self,
        room_id: Seq<char>,
        events: Seq<Option<AnyStrippedStateEventView>>,
    ) -> FoldView
        decreases events.len(),
    {
        if events.len() == 0 {
            self
        } else {
            self.emit_stripped_state(room_id, events.drop_last()).emit_stripped_state_event(
                room_id,
                events.last(),
            )
        }
    }

    /// What one invitation of the response is folded into, taken by
    /// itself: its state is applied, the room is made an invited room, the
    /// state is announced, and the room is persisted if one of these events
    /// has changed anything.
    pub open spec fn own_invited_room(self, room: InvitedRoomView) -> FoldView {
        let id = room.room_id;
        self.unchanged().invite_state(id, room.invite_state).created(
            RoomStateType::Invited,
            id,
        ).emit_stripped_state(id, room.invite_state).store_room(RoomStateType::Invited, id)
    }

    /// The fold after one invitation of the response.
    pub open spec fn invited_room(self, room: InvitedRoomView) -> FoldView {
        self.after_room(self.own_invited_room(room))
    }

    /// The fold after the invitations of the response, in order.
    pub open spec fn invited_rooms(self, rooms: Seq<InvitedRoomView>) -> FoldView
        decreases rooms.len(),
    {
        if rooms.len() == 0 {
            self
        } else {
            self.invited_rooms(rooms.drop_last()).invited_room(rooms.last())
        }
    }

    /// The fold after an event of the timeline of a left room was applied
    /// and announced.
    pub open spec fn left_timeline_event(self, room_id: Seq<char>, event: Option<RoomEventView>) -> FoldView {
        let client = self.client.receive_left_timeline_event(room_id, event);
        let applied = FoldView {
            client,
            updated: self.updated || (event is Some && client != self.client.get_or_create_room(
                RoomStateType::Left,
                room_id,
            )),
            ..self
        };
        match event {
            Some(e) => applied.emit(
                client.emission(room_id, RoomStateType::Left, timeline_callback(e)),
            ),
            None => applied,
        }
    }

    /// The fold after the timeline of a left room, in order.
    pub open spec fn left_timeline(self, room_id: Seq<char>, events: Seq<Option<RoomEventView>>) -> FoldView
        decreases events.len(),
    {
        if events.len() == 0 {
            self
        } else {
            self.left_timeline(room_id, events.drop_last()).left_timeline_event(
                room_id,
                events.last(),
            )
        }
    }

    /// What one left room of the response is folded into, taken by itself:
    /// its state is applied, the room is made a left room, the state is
    /// announced, the timeline is applied and announced, and the room is
    /// persisted if one of these events has changed anything.
    pub open spec fn own_left_room(self, room: LeftRoomView) -> FoldView {
        let id = room.room_id;
        self.unchanged().state(RoomStateType::Left, id, room.state).created(
            RoomStateType::Left,
            id,
        ).emit_state(RoomStateType::Left, id, room.state).left_timeline(
            id,
            room.timeline,
        ).store_room(RoomStateType::Left, id)
    }

    /// The fold after one left room of the response.
    pub open spec fn left_room(self, room: LeftRoomView) -> FoldView {
        self.after_room(self.own_left_room(room))
    }

    /// The fold after the left rooms of the response, in order.
    pub open spec fn left_rooms(self, rooms: Seq<LeftRoomView>) -> FoldView
        decreases rooms.len(),
    {
        if rooms.len() == 0 {
            self
        } else {
            self.left_rooms(rooms.drop_last()).left_room(rooms.last())
        }
    }

    /// The fold after the store was asked to persist the client state,
    /// which it is if a store is configured.
    pub open spec fn store_client(self) -> FoldView {
        if self.client.state_store {
            FoldView {
                actions: self.actions.push(
                    ActionView::StoreClientState(self.client.client_state()),
                ),
                ..self
            }
        } else {
            self
        }
    }
}

impl ClientView {
    /// Whether `response` is the response that the client received last.
    pub open spec fn already_received(self, response: SyncResponseView) -> bool {
        self.sync_token == Some(response.next_batch)
    }

    /// The client with the token of `response`.
    pub open spec fn with_token_of(self, response: SyncResponseView) -> ClientView {
        ClientView { sync_token: Some(response.next_batch), ..self }
    }

    /// What a response makes of a client that can take it in, and the
    /// requests that come out.  A response that the client has received
    /// before changes nothing and asks for nothing.
    pub open spec fn receive_sync_response(self, response: SyncResponseView) -> FoldView {
        if self.already_received(response) {
            FoldView { client: self, updated: false, actions: Seq::empty() }
        } else {
            self.fold_sync_response(response)
        }
    }

    /// What a new response makes of the client, and the requests that come
    /// out: the token is taken first, then the joined rooms, the invitations
    /// and the left rooms are folded in, and at last the client state is
    /// persisted.
    pub open spec fn fold_sync_response(self, response: SyncResponseView) -> FoldView {
        (FoldView {
            client: self.with_token_of(response),
            updated: false,
            actions: Seq::empty(),
        }).joined_rooms(response.rooms.join, response.presence).unchanged().invited_rooms(
            response.rooms.invite,
        ).unchanged().left_rooms(response.rooms.leave).store_client()
    }
}

} // verus!
