//! Folding a sync response into the client.
//!
//! A response is folded section by section: the joined rooms, then the
//! invitations, then the left rooms, each room in the order of the response,
//! and within a room the state before the timeline.  A room is persisted if
//! and only if one of its own events has changed something.  Every step is
//! stated over [`FoldView`], which says what the step makes of the client and
//! which requests it adds.

use crate::client::BaseClient;
use crate::emitter::{Action, ActionView, Emission};
use crate::error::Error;
use crate::events::{AnyStrippedStateEvent, NonRoomEvent, PresenceEvent, RoomEvent, StateEvent};
use crate::identifiers::RoomId;
use crate::laws::lemma_fold_keeps_settings;
use crate::model::{ClientView, FoldView};
use crate::state::RoomStateType;
use crate::sync::{EventJson, SyncResponse, TimelineEvent};
use vstd::prelude::*;

verus! {

/// The fold that a client, a flag and a list of requests stand for.
pub open spec fn fold_of<'a>(client: &BaseClient, updated: bool, actions: &Vec<Action<'a>>) -> FoldView {
    FoldView { client: client@, updated, actions: actions.deep_view() }
}

/// Adds a request to the end of the list.
fn push_action<'a>(actions: &mut Vec<Action<'a>>, action: Action<'a>)
    ensures
        final(actions).deep_view() == old(actions).deep_view().push(action.deep_view()),
{
    actions.push(action);
    assert(actions.deep_view() =~= old(actions).deep_view().push(action.deep_view()));
}

/// Adds a call of the subscriber to the end of the list, where one is owed.
fn push_emission<'a>(
    actions: &mut Vec<Action<'a>>,
    emission: Option<Emission<'a>>,
    Ghost(fold): Ghost<FoldView>,
)
    requires
        fold.actions == old(actions).deep_view(),
    ensures
        final(actions).deep_view() == fold.emit(emission.deep_view()).actions,
{
    match emission {
        Some(e) => push_action(actions, Action::Emit(e)),
        None => {},
    }
}

impl BaseClient {
    /// Applies the state events of a joined or left room, in order.
    fn fold_state(
        &mut self,
        kind: RoomStateType,
        room_id: &RoomId,
        events: &Vec<EventJson<StateEvent>>,
        updated: bool,
        Ghost(actions): Ghost<Seq<ActionView>>,
    ) -> (now: bool)
        requires
            old(self).wf(),
            old(self)@.session is Some,
            kind != RoomStateType::Invited,
        ensures
            final(self).wf(),
            final(self)@.session is Some,
            (FoldView { client: final(self)@, updated: now, actions }) == (FoldView {
                client: old(self)@,
                updated,
                actions,
            }).state(kind, room_id@, events.deep_view()),
    {
        let ghost start = FoldView { client: self@, updated, actions };
        let ghost all = events.deep_view();
        let mut now = updated;
        let mut i: usize = 0;
        while i < events.len()
            invariant
                self.wf(),
                self@.session is Some,
                kind != RoomStateType::Invited,
                i <= events.len(),
                all == events.deep_view(),
                (FoldView { client: self@, updated: now, actions }) == start.state(
                    kind,
                    room_id@,
                    all.take(i as int),
                ),
            decreases events.len() - i,
        {
            proof {
                assert(all.take(i + 1).drop_last() =~= all.take(i as int));
                assert(all.take(i + 1).last() == events[i as int].deep_view());
            }
            match events[i].deserialize() {
                Ok(e) => {
                    let r = match kind {
                        RoomStateType::Left => self.receive_left_state_event(room_id, e),
                        _ => self.receive_joined_state_event(room_id, e),
                    };
                    match r {
                        Ok(changed) => {
                            if changed {
                                now = true;
                            }
                        },
                        Err(_) => {},
                    }
                },
                Err(_) => {},
            }
            i = i + 1;
        }
        assert(all.take(events.len() as int) =~= all);
        now
    }

    /// Announces the state events of a room, in order.
    fn emit_state_events<'a>(
        &self,
        kind: RoomStateType,
        room_id: &RoomId,
        events: &'a Vec<EventJson<StateEvent>>,
        actions: &mut Vec<Action<'a>>,
        Ghost(updated): Ghost<bool>,
    )
        requires
            self.wf(),
        ensures
            fold_of(self, updated, final(actions)) == fold_of(self, updated, old(actions)).emit_state(
                kind,
                room_id@,
                events.deep_view(),
            ),
    {
        let ghost start = fold_of(self, updated, actions);
        let ghost all = events.deep_view();
        let mut i: usize = 0;
        while i < events.len()
            invariant
                self.wf(),
                i <= events.len(),
                all == events.deep_view(),
                fold_of(self, updated, actions) == start.emit_state(
                    kind,
                    room_id@,
                    all.take(i as int),
                ),
            decreases events.len() - i,
        {
            proof {
                assert(all.take(i + 1).drop_last() =~= all.take(i as int));
                assert(all.take(i + 1).last() == events[i as int].deep_view());
            }
            match events[i].deserialize() {
                Ok(e) => {
                    let emission = self.emit_state_event(room_id, e, kind);
                    push_emission(actions, emission, Ghost(fold_of(self, updated, actions)));
                },
                Err(_) => {},
            }
            i = i + 1;
        }
        assert(all.take(events.len() as int) =~= all);
    }

    /// Applies and announces the timeline of a joined room, in order.
    fn fold_joined_timeline<'a>(
        &mut self,
        room_id: &RoomId,
        events: &'a Vec<TimelineEvent>,
        updated: bool,
        actions: &mut Vec<Action<'a>>,
    ) -> (now: bool)
        requires
            old(self).wf(),
            old(self)@.session is Some,
            old(self)@.joined_rooms.contains_key(room_id@),
        ensures
            final(self).wf(),
            final(self)@.session is Some,
            final(self)@.joined_rooms.contains_key(room_id@),
            fold_of(final(self), now, final(actions)) == fold_of(
                old(self),
                updated,
                old(actions),
            ).joined_timeline(room_id@, events.deep_view()),
    {
        let ghost start = fold_of(self, updated, actions);
        let ghost all = events.deep_view();
        let mut now = updated;
        let mut i: usize = 0;
        while i < events.len()
            invariant
                self.wf(),
                self@.session is Some,
                self@.joined_rooms.contains_key(room_id@),
                i <= events.len(),
                all == events.deep_view(),
                fold_of(self, now, actions) == start.joined_timeline(room_id@, all.take(i as int)),
            decreases events.len() - i,
        {
            proof {
                assert(all.take(i + 1).drop_last() =~= all.take(i as int));
                assert(all.take(i + 1).last() == events[i as int].deep_view());
            }
            let ghost before = self@;
            let decrypted = match self.receive_joined_timeline_event(room_id, &events[i]) {
                Ok((decrypted, changed)) => {
                    if changed {
                        now = true;
                    }
                    decrypted
                },
                Err(_) => None,
            };
            let shown: Option<&RoomEvent> = match decrypted {
                Some(e) => Some(e),
                None => match events[i].event.deserialize() {
                    Ok(e) => Some(e),
                    Err(_) => None,
                },
            };
            assert(shown.deep_view() == before.effective_timeline_event(events[i as int].deep_view()));
            match shown {
                Some(e) => {
                    let emission = self.emit_timeline_event(room_id, e, RoomStateType::Joined);
                    push_emission(actions, emission, Ghost(fold_of(self, now, actions)));
                },
                None => {},
            }
            i = i + 1;
        }
        assert(all.take(events.len() as int) =~= all);
        now
    }

    /// Applies and announces the account data of a joined room, or its
    /// transient events where `transient` says so, in order.
    fn fold_account_data<'a>(
        &mut self,
        room_id: &RoomId,
        events: &'a Vec<EventJson<NonRoomEvent>>,
        transient: bool,
        updated: bool,
        actions: &mut Vec<Action<'a>>,
    ) -> (now: bool)
        requires
            old(self).wf(),
            old(self)@.session is Some,
            old(self)@.joined_rooms.contains_key(room_id@),
        ensures
            final(self).wf(),
            final(self)@.session is Some,
            final(self)@.joined_rooms.contains_key(room_id@),
            fold_of(final(self), now, final(actions)) == fold_of(
                old(self),
                updated,
                old(actions),
            ).account_data(room_id@, events.deep_view()),
    {
        let ghost start = fold_of(self, updated, actions);
        let ghost all = events.deep_view();
        let mut now = updated;
        let mut i: usize = 0;
        while i < events.len()
            invariant
                self.wf(),
                self@.session is Some,
                self@.joined_rooms.contains_key(room_id@),
                i <= events.len(),
                all == events.deep_view(),
                fold_of(self, now, actions) == start.account_data(room_id@, all.take(i as int)),
            decreases events.len() - i,
        {
            proof {
                assert(all.take(i + 1).drop_last() =~= all.take(i as int));
                assert(all.take(i + 1).last() == events[i as int].deep_view());
            }
            match events[i].deserialize() {
                Ok(e) => {
                    let changed = if transient {
                        self.receive_ephemeral_event(room_id, e)
                    } else {
                        self.receive_account_data_event(room_id, e)
                    };
                    if changed {
                        now = true;
                    }
                    let emission = if transient {
                        self.emit_ephemeral_event(room_id, e, RoomStateType::Joined)
                    } else {
                        self.emit_account_data_event(room_id, e, RoomStateType::Joined)
                    };
                    push_emission(actions, emission, Ghost(fold_of(self, now, actions)));
                },
                Err(_) => {},
            }
            i = i + 1;
        }
        assert(all.take(events.len() as int) =~= all);
        now
    }

    /// Applies the presence events of the response to a joined room and
    /// announces them, in order.
    fn fold_presence<'a>(
        &mut self,
        room_id: &RoomId,
        events: &'a Vec<EventJson<PresenceEvent>>,
        updated: bool,
        actions: &mut Vec<Action<'a>>,
    ) -> (now: bool)
        requires
            old(self).wf(),
            old(self)@.session is Some,
            old(self)@.joined_rooms.contains_key(room_id@),
        ensures
            final(self).wf(),
            final(self)@.session is Some,
            final(self)@.joined_rooms.contains_key(room_id@),
            fold_of(final(self), now, final(actions)) == fold_of(
                old(self),
                updated,
                old(actions),
            ).presence(room_id@, events.deep_view()),
    {
        let ghost start = fold_of(self, updated, actions);
        let ghost all = events.deep_view();
        let mut now = updated;
        let mut i: usize = 0;
        while i < events.len()
            invariant
                self.wf(),
                self@.session is Some,
                self@.joined_rooms.contains_key(room_id@),
                i <= events.len(),
                all == events.deep_view(),
                fold_of(self, now, actions) == start.presence(room_id@, all.take(i as int)),
            decreases events.len() - i,
        {
            proof {
                assert(all.take(i + 1).drop_last() =~= all.take(i as int));
                assert(all.take(i + 1).last() == events[i as int].deep_view());
            }
            match events[i].deserialize() {
                Ok(e) => {
                    if self.receive_presence_event(room_id, e) {
                        now = true;
                    }
                    let emission = self.emit_presence_event(room_id, e, RoomStateType::Joined);
                    push_emission(actions, emission, Ghost(fold_of(self, now, actions)));
                },
                Err(_) => {},
            }
            i = i + 1;
        }
        assert(all.take(events.len() as int) =~= all);
        now
    }

    /// Asks the store to persist a room, if an event of the room has changed
    /// anything and a store is configured.
    fn store_updated_room<'a>(
        &self,
        kind: RoomStateType,
        room_id: &RoomId,
        updated: bool,
        actions: &mut Vec<Action<'a>>,
    )
        requires
            self.wf(),
            self@.rooms(kind).contains_key(room_id@),
        ensures
            fold_of(self, updated, final(actions)) == fold_of(self, updated, old(actions)).store_room(
                kind,
                room_id@,
            ),
    {
        if updated && self.has_state_store() {
            match self.tagged_room(room_id, kind) {
                Some(room) => push_action(actions, Action::StoreRoomState(room)),
                None => {},
            }
        }
    }

    /// Folds the joined rooms of a response into the client, in the order
    /// of the response.
    ///
    /// Of each room the state is applied first and the room is made a
    /// joined room; the crypto engine is told of the members of an encrypted
    /// room; the summary is taken and the state is announced; the timeline,
    /// the account data, the presence events of the response and the
    /// transient events are applied and announced; and the room is persisted
    /// if one of its own events has changed anything.  Returns whether a
    /// room of the section has changed.  Without a session a room cannot be
    /// taken in: the client and the requests are then left as they are.
    pub fn iter_joined_rooms<'a>(&mut self, response: &'a SyncResponse, actions: &mut Vec<Action<'a>>) -> (r:
        Result<bool, Error>)
        requires
            old(self).wf(),
        ensures
            final(self).wf(),
            (final(self)@.session is Some) == (old(self)@.session is Some),
            match r {
                Ok(updated) => (old(self)@.session is Some || response.rooms.join.len() == 0)
                    && fold_of(final(self), updated, final(actions)) == fold_of(
                    old(self),
                    false,
                    old(actions),
                ).joined_rooms(response.deep_view().rooms.join, response.deep_view().presence),
                Err(e) => e == Error::NotLoggedIn && old(self)@.session is None
                    && response.rooms.join.len() > 0 && final(self)@ == old(self)@
                    && final(actions).deep_view() == old(actions).deep_view(),
            },
    {
        let ghost start = fold_of(self, false, actions);
        let ghost all = response.deep_view().rooms.join;
        let ghost presence = response.deep_view().presence;
        if response.rooms.join.len() == 0 {
            return Ok(false);
        }
        if !self.logged_in() {
            return Err(Error::NotLoggedIn);
        }
        let mut updated = false;
        let mut i: usize = 0;
        while i < response.rooms.join.len()
            invariant
                self.wf(),
                self@.session is Some,
                i <= response.rooms.join.len(),
                all == response.deep_view().rooms.join,
                presence == response.deep_view().presence,
                fold_of(self, updated, actions) == start.joined_rooms(all.take(i as int), presence),
            decreases response.rooms.join.len() - i,
        {
            let room = &response.rooms.join[i];
            proof {
                assert(all.take(i + 1).drop_last() =~= all.take(i as int));
                assert(all.take(i + 1).last() == room.deep_view());
            }
            let changed = self.fold_state(
                RoomStateType::Joined,
                &room.room_id,
                &room.state,
                false,
                Ghost(actions.deep_view()),
            );
            let _ = self.get_or_create_joined_room(&room.room_id);
            let ghost created = fold_of(self, changed, actions);
            match self.tracked_users(&room.room_id) {
                Some(users) => push_action(actions, Action::UpdateTrackedUsers(users)),
                None => {},
            }
            assert(fold_of(self, changed, actions) == created.track_users(room.room_id@));
            self.set_joined_room_summary(&room.room_id, &room.summary, &room.unread_notifications);
            self.emit_state_events(
                RoomStateType::Joined,
                &room.room_id,
                &room.state,
                actions,
                Ghost(changed),
            );
            let changed = self.fold_joined_timeline(&room.room_id, &room.timeline, changed, actions);
            let changed = self.fold_account_data(
                &room.room_id,
                &room.account_data,
                false,
                changed,
                actions,
            );
            let changed = self.fold_presence(&room.room_id, &response.presence, changed, actions);
            let changed = self.fold_account_data(
                &room.room_id,
                &room.ephemeral,
                true,
                changed,
                actions,
            );
            self.store_updated_room(RoomStateType::Joined, &room.room_id, changed, actions);
            if changed {
                updated = true;
            }
            i = i + 1;
        }
        assert(all.take(response.rooms.join.len() as int) =~= all);
        Ok(updated)
    }

    /// Applies the reduced state of an invitation, in order.
    fn fold_invite_state(
        &mut self,
        room_id: &RoomId,
        events: &Vec<EventJson<AnyStrippedStateEvent>>,
        updated: bool,
        Ghost(actions): Ghost<Seq<ActionView>>,
    ) -> (now: bool)
        requires
            old(self).wf(),
            old(self)@.session is Some,
        ensures
            final(self).wf(),
            final(self)@.session is Some,
            (FoldView { client: final(self)@, updated: now, actions }) == (FoldView {
                client: old(self)@,
                updated,
                actions,
            }).invite_state(room_id@, events.deep_view()),
    {
        let ghost start = FoldView { client: self@, updated, actions };
        let ghost all = events.deep_view();
        let mut now = updated;
        let mut i: usize = 0;
        while i < events.len()
            invariant
                self.wf(),
                self@.session is Some,
                i <= events.len(),
                all == events.deep_view(),
                (FoldView { client: self@, updated: now, actions }) == start.invite_state(
                    room_id@,
                    all.take(i as int),
                ),
            decreases events.len() - i,
        {
            proof {
                assert(all.take(i + 1).drop_last() =~= all.take(i as int));
                assert(all.take(i + 1).last() == events[i as int].deep_view());
            }
            match events[i].deserialize() {
                Ok(e) => {
                    match self.receive_invite_state_event(room_id, e) {
                        Ok(changed) => {
                            if changed {
                                now = true;
                            }
                        },
                        Err(_) => {},
                    }
                },
                Err(_) => {},
            }
            i = i + 1;
        }
        assert(all.take(events.len() as int) =~= all);
        now
    }

    /// Announces the reduced state of an invitation, in order.
    fn emit_stripped_state_events<'a>(
        &self,
        room_id: &RoomId,
        events: &'a Vec<EventJson<AnyStrippedStateEvent>>,
        actions: &mut Vec<Action<'a>>,
        Ghost(updated): Ghost<bool>,
    )
        requires
            self.wf(),
        ensures
            fold_of(self, updated, final(actions)) == fold_of(
                self,
                updated,
                old(actions),
            ).emit_stripped_state(room_id@, events.deep_view()),
    {
        let ghost start = fold_of(self, updated, actions);
        let ghost all = events.deep_view();
        let mut i: usize = 0;
        while i < events.len()
            invariant
                self.wf(),
                i <= events.len(),
                all == events.deep_view(),
                fold_of(self, updated, actions) == start.emit_stripped_state(
                    room_id@,
                    all.take(i as int),
                ),
            decreases events.len() - i,
        {
            proof {
                assert(all.take(i + 1).drop_last() =~= all.take(i as int));
                assert(all.take(i + 1).last() == events[i as int].deep_view());
            }
            match events[i].deserialize() {
                Ok(e) => {
                    let emission = self.emit_stripped_state_event(
                        room_id,
                        e,
                        RoomStateType::Invited,
                    );
                    push_emission(actions, emission, Ghost(fold_of(self, updated, actions)));
                },
                Err(_) => {},
            }
            i = i + 1;
        }
        assert(all.take(events.len() as int) =~= all);
    }

    /// Applies and announces the timeline of a left room, in order.
    fn fold_left_timeline<'a>(
        &mut self,
        room_id: &RoomId,
        events: &'a Vec<EventJson<RoomEvent>>,
        updated: bool,
        actions: &mut Vec<Action<'a>>,
    ) -> (now: bool)
        requires
            old(self).wf(),
            old(self)@.session is Some,
            old(self)@.left_rooms.contains_key(room_id@),
        ensures
            final(self).wf(),
            final(self)@.session is Some,
            final(self)@.left_rooms.contains_key(room_id@),
            fold_of(final(self), now, final(actions)) == fold_of(
                old(self),
                updated,
                old(actions),
            ).left_timeline(room_id@, events.deep_view()),
    {
        let ghost start = fold_of(self, updated, actions);
        let ghost all = events.deep_view();
        let mut now = updated;
        let mut i: usize = 0;
        while i < events.len()
            invariant
                self.wf(),
                self@.session is Some,
                self@.left_rooms.contains_key(room_id@),
                i <= events.len(),
                all == events.deep_view(),
                fold_of(self, now, actions) == start.left_timeline(room_id@, all.take(i as int)),
            decreases events.len() - i,
        {
            proof {
                assert(all.take(i + 1).drop_last() =~= all.take(i as int));
                assert(all.take(i + 1).last() == events[i as int].deep_view());
            }
            match self.receive_left_timeline_event(room_id, &events[i]) {
                Ok(changed) => {
                    if changed {
                        now = true;
                    }
                },
                Err(_) => {},
            }
            match events[i].deserialize() {
                Ok(e) => {
                    let emission = self.emit_timeline_event(room_id, e, RoomStateType::Left);
                    push_emission(actions, emission, Ghost(fold_of(self, now, actions)));
                },
                Err(_) => {},
            }
            i = i + 1;
        }
        assert(all.take(events.len() as int) =~= all);
        now
    }

    /// Folds the left rooms of a response into the client, in the order of
    /// the response.
    ///
    /// Of each room the state is applied first and the room is made a left
    /// room; the state is announced; the timeline is applied and announced;
    /// and the room is persisted if one of its own events has changed
    /// anything.  Returns whether a room of the section has changed.
    /// Without a session a room cannot be taken in: the client and the
    /// requests are then left as they are.
    pub fn iter_left_rooms<'a>(&mut self, response: &'a SyncResponse, actions: &mut Vec<Action<'a>>) -> (r:
        Result<bool, Error>)
        requires
            old(self).wf(),
        ensures
            final(self).wf(),
            (final(self)@.session is Some) == (old(self)@.session is Some),
            match r {
                Ok(updated) => (old(self)@.session is Some || response.rooms.leave.len() == 0)
                    && fold_of(final(self), updated, final(actions)) == fold_of(
                    old(self),
                    false,
                    old(actions),
                ).left_rooms(response.deep_view().rooms.leave),
                Err(e) => e == Error::NotLoggedIn && old(self)@.session is None
                    && response.rooms.leave.len() > 0 && final(self)@ == old(self)@
                    && final(actions).deep_view() == old(actions).deep_view(),
            },
    {
        let ghost start = fold_of(self, false, actions);
        let ghost all = response.deep_view().rooms.leave;
        if response.rooms.leave.len() == 0 {
            return Ok(false);
        }
        if !self.logged_in() {
            return Err(Error::NotLoggedIn);
        }
        let mut updated = false;
        let mut i: usize = 0;
        while i < response.rooms.leave.len()
            invariant
                self.wf(),
                self@.session is Some,
                i <= response.rooms.leave.len(),
                all == response.deep_view().rooms.leave,
                fold_of(self, updated, actions) == start.left_rooms(all.take(i as int)),
            decreases response.rooms.leave.len() - i,
        {
            let room = &response.rooms.leave[i];
            proof {
                assert(all.take(i + 1).drop_last() =~= all.take(i as int));
                assert(all.take(i + 1).last() == room.deep_view());
            }
            let changed = self.fold_state(
                RoomStateType::Left,
                &room.room_id,
                &room.state,
                false,
                Ghost(actions.deep_view()),
            );
            let _ = self.get_or_create_left_room(&room.room_id);
            self.emit_state_events(
                RoomStateType::Left,
                &room.room_id,
                &room.state,
                actions,
                Ghost(changed),
            );
            let changed = self.fold_left_timeline(&room.room_id, &room.timeline, changed, actions);
            self.store_updated_room(RoomStateType::Left, &room.room_id, changed, actions);
            if changed {
                updated = true;
            }
            i = i + 1;
        }
        assert(all.take(response.rooms.leave.len() as int) =~= all);
        Ok(updated)
    }

    /// Folds the invitations of a response into the client, in the order
    /// of the response.
    ///
    /// Of each invitation the reduced state is applied first and the room is
    /// made an invited room; the state is announced; and the room is
    /// persisted if one of its own events has changed anything.  Returns
    /// whether a room of the section has changed.  Without a session a room
    /// cannot be taken in: the client and the requests are then left as
    /// they are.
    pub fn iter_invited_rooms<'a>(&mut self, response: &'a SyncResponse, actions: &mut Vec<Action<'a>>) -> (r:
        Result<bool, Error>)
        requires
            old(self).wf(),
        ensures
            final(self).wf(),
            (final(self)@.session is Some) == (old(self)@.session is Some),
            match r {
                Ok(updated) => (old(self)@.session is Some || response.rooms.invite.len() == 0)
                    && fold_of(final(self), updated, final(actions)) == fold_of(
                    old(self),
                    false,
                    old(actions),
                ).invited_rooms(response.deep_view().rooms.invite),
                Err(e) => e == Error::NotLoggedIn && old(self)@.session is None
                    && response.rooms.invite.len() > 0 && final(self)@ == old(self)@
                    && final(actions).deep_view() == old(actions).deep_view(),
            },
    {
        let ghost start = fold_of(self, false, actions);
        let ghost all = response.deep_view().rooms.invite;
        if response.rooms.invite.len() == 0 {
            return Ok(false);
        }
        if !self.logged_in() {
            return Err(Error::NotLoggedIn);
        }
        let mut updated = false;
        let mut i: usize = 0;
        while i < response.rooms.invite.len()
            invariant
                self.wf(),
                self@.session is Some,
                i <= response.rooms.invite.len(),
                all == response.deep_view().rooms.invite,
                fold_of(self, updated, actions) == start.invited_rooms(all.take(i as int)),
            decreases response.rooms.invite.len() - i,
        {
            let room = &response.rooms.invite[i];
            proof {
                assert(all.take(i + 1).drop_last() =~= all.take(i as int));
                assert(all.take(i + 1).last() == room.deep_view());
            }
            let changed = self.fold_invite_state(
                &room.room_id,
                &room.invite_state,
                false,
                Ghost(actions.deep_view()),
            );
            let _ = self.get_or_create_invited_room(&room.room_id);
            self.emit_stripped_state_events(
                &room.room_id,
                &room.invite_state,
                actions,
                Ghost(changed),
            );
            self.store_updated_room(RoomStateType::Invited, &room.room_id, changed, actions);
            if changed {
                updated = true;
            }
            i = i + 1;
        }
        assert(all.take(response.rooms.invite.len() as int) =~= all);
        Ok(updated)
    }

    /// Takes a sync response in.
    ///
    /// A response with the token that the client holds has been received
    /// before: nothing happens and nothing is asked for.  Of any other
    /// response the token is stored first; then the joined rooms, the
    /// invitations and the left rooms are folded in; and at last the store
    /// is asked to persist the client state.  The requests come back in the
    /// order in which they are to be carried out.
    ///
    /// A client without a session cannot take rooms in.  It refuses a
    /// response that holds rooms and stays as it is, so that the response
    /// can be handed in again after the login.
    pub fn receive_sync_response<'a>(&mut self, response: &'a SyncResponse) -> (r: Result<
        Vec<Action<'a>>,
        Error,
    >)
        requires
            old(self).wf(),
        ensures
            final(self).wf(),
            r is Ok ==> final(self)@.sync_token == Some(response.next_batch@),
            match r {
                Ok(actions) => if old(self)@.already_received(response.deep_view()) {
                    final(self)@ == old(self)@ && actions.deep_view() == Seq::<ActionView>::empty()
                } else {
                    (old(self)@.session is Some || !response.has_rooms()) && (FoldView {
                        client: final(self)@,
                        updated: old(self)@.fold_sync_response(response.deep_view()).updated,
                        actions: actions.deep_view(),
                    }) == old(self)@.fold_sync_response(response.deep_view())
                },
                Err(e) => e == Error::NotLoggedIn && !old(self)@.already_received(
                    response.deep_view(),
                ) && old(self)@.session is None && response.has_rooms() && final(self)@ == old(self)@,
            },
    {
        let mut actions: Vec<Action<'a>> = Vec::new();
        assert(actions.deep_view() =~= Seq::<ActionView>::empty());
        if self.holds_token(&response.next_batch) {
            return Ok(actions);
        }
        if !self.logged_in() && (response.rooms.join.len() > 0 || response.rooms.invite.len() > 0
            || response.rooms.leave.len() > 0) {
            return Err(Error::NotLoggedIn);
        }
        self.set_sync_token(&response.next_batch);
        let ghost view = response.deep_view();
        let ghost started = fold_of(self, false, &actions);
        assert(started == (FoldView {
            client: old(self)@.with_token_of(view),
            updated: false,
            actions: Seq::empty(),
        }));
        let joined = self.iter_joined_rooms(response, &mut actions);
        let ghost after_joined = started.joined_rooms(view.rooms.join, view.presence);
        assert(joined is Ok);
        assert(fold_of(self, false, &actions) == after_joined.unchanged());
        let invited = self.iter_invited_rooms(response, &mut actions);
        let ghost after_invited = after_joined.unchanged().invited_rooms(view.rooms.invite);
        assert(invited is Ok);
        assert(fold_of(self, false, &actions) == after_invited.unchanged());
        let left = self.iter_left_rooms(response, &mut actions);
        let ghost after_left = after_invited.unchanged().left_rooms(view.rooms.leave);
        assert(left is Ok);
        assert(fold_of(self, after_left.updated, &actions) == after_left);
        if self.has_state_store() {
            let state = self.client_state();
            push_action(&mut actions, Action::StoreClientState(state));
        }
        assert(fold_of(self, after_left.updated, &actions) == after_left.store_client());
        assert(after_left.store_client() == old(self)@.fold_sync_response(view));
        proof {
            lemma_fold_keeps_settings(old(self)@, view);
        }
        Ok(actions)
    }
}

} // verus!
