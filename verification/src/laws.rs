//! What holds of the client whatever it receives.

use crate::emitter::{
    account_data_callback, state_callback, timeline_callback, ActionView, CallbackView,
};
use crate::events::{
    AnyStrippedStateEventView, IgnoredUserListEventView, NonRoomEventView, PresenceEventView,
    RoomEventView, StateEventView,
};
use crate::model::{ClientView, FoldView};
use crate::room::RoomView;
use crate::state::{RoomState, RoomStateType};
use crate::sync::{
    InvitedRoomView, JoinedRoomView, LeftRoomView, SyncResponseView, TimelineEventView,
};
use vstd::prelude::*;

verus! {

/// A room is in at most one of the three sets of a valid client.
pub proof fn lemma_single_bucket(client: ClientView, room_id: Seq<char>)
    requires
        client.wf(),
    ensures
        !(client.joined_rooms.contains_key(room_id) && client.invited_rooms.contains_key(room_id)),
        !(client.joined_rooms.contains_key(room_id) && client.left_rooms.contains_key(room_id)),
        !(client.invited_rooms.contains_key(room_id) && client.left_rooms.contains_key(room_id)),
{
    assert(client.occurrences(room_id) <= 1);
}

/// A room that was delivered in one section of a response is in the set of
/// that section afterwards and in no other, whatever sets held it before.
pub proof fn lemma_delivery_moves_room(client: ClientView, kind: RoomStateType, room_id: Seq<char>)
    ensures
        client.get_or_create_room(kind, room_id).rooms(kind).contains_key(room_id),
        client.get_or_create_room(kind, room_id).occurrences(room_id) == 1,
        client.rooms(kind).contains_key(room_id) ==> client.get_or_create_room(
            kind,
            room_id,
        ).rooms(kind)[room_id] == client.rooms(kind)[room_id],
{
}

/// A delivery keeps a valid client valid.
pub proof fn lemma_delivery_keeps_valid(client: ClientView, kind: RoomStateType, room_id: Seq<char>)
    requires
        client.wf(),
    ensures
        client.get_or_create_room(kind, room_id).wf(),
{
    let after = client.get_or_create_room(kind, room_id);
    assert forall|id: Seq<char>| #[trigger] after.occurrences(id) <= 1 by {
        assert(client.occurrences(id) <= 1);
    }
}

/// Applying a state event twice gives the room that applying it once
/// gives: state that the server sends again does no harm.
pub proof fn lemma_state_event_idempotent(room: RoomView, event: StateEventView)
    ensures
        room.with_state_event(event).with_state_event(event) == room.with_state_event(event),
{
    let once = room.with_state_event(event);
    let twice = once.with_state_event(event);
    assert(twice.members =~= once.members);
    assert(twice =~= once);
}

/// Applying an event of a timeline twice gives the room that applying it
/// once gives.
pub proof fn lemma_timeline_event_idempotent(room: RoomView, event: RoomEventView)
    ensures
        room.with_timeline_event(event).with_timeline_event(event) == room.with_timeline_event(
            event,
        ),
{
    let once = room.with_timeline_event(event);
    let twice = once.with_timeline_event(event);
    assert(twice.members =~= once.members);
    assert(twice =~= once);
}

/// No event changes the id of a room.
pub proof fn lemma_events_keep_room_id(room: RoomView)
    ensures
        forall|e: StateEventView| (#[trigger] room.with_state_event(e)).room_id == room.room_id,
        forall|e: RoomEventView| (#[trigger] room.with_timeline_event(e)).room_id == room.room_id,
        forall|e: AnyStrippedStateEventView|
            (#[trigger] room.with_stripped_state_event(e)).room_id == room.room_id,
        forall|e: PresenceEventView| (#[trigger] room.with_presence_event(e)).room_id == room.room_id,
{
}

/// What the state of a joined room of a response makes of the room depends
/// on the room and on the state alone, not on the rest of the client.
pub proof fn lemma_state_is_local(fold: FoldView, room_id: Seq<char>, events: Seq<Option<StateEventView>>)
    ensures
        fold.state(RoomStateType::Joined, room_id, events).client.joined_or_fresh(room_id)
            == fold.client.joined_or_fresh(room_id).with_state_events(events),
    decreases events.len(),
{
    if events.len() > 0 {
        lemma_state_is_local(fold, room_id, events.drop_last());
    }
}

/// The members of whom the crypto engine is told while a joined room is
/// folded in can be foreseen from the room and its state: they are the
/// members of the room to which the state has been applied.
pub proof fn lemma_tracked_users_foreseen(fold: FoldView, room: JoinedRoomView)
    ensures
        fold.unchanged().state(RoomStateType::Joined, room.room_id, room.state).created(
            RoomStateType::Joined,
            room.room_id,
        ).client.joined_rooms[room.room_id] == fold.client.joined_or_fresh(
            room.room_id,
        ).with_state_events(room.state),
{
    lemma_state_is_local(fold.unchanged(), room.room_id, room.state);
}

/// What the timeline of a joined room makes of the room depends on the
/// room, on the timeline and on whether the client has a crypto engine, and
/// on nothing else.
pub proof fn lemma_timeline_is_local(fold: FoldView, room_id: Seq<char>, events: Seq<TimelineEventView>)
    requires
        fold.client.joined_rooms.contains_key(room_id),
    ensures
        ({
            let after = fold.joined_timeline(room_id, events).client;
            &&& after.session == fold.client.session
            &&& after.joined_rooms.contains_key(room_id)
            &&& after.joined_rooms[room_id] == fold.client.joined_rooms[room_id].with_timeline_events(
                events,
                fold.client.session is Some,
            )
        }),
    decreases events.len(),
{
    if events.len() > 0 {
        lemma_timeline_is_local(fold, room_id, events.drop_last());
    }
}

/// What the account data, or the transient events, of a joined room make
/// of the room depends on the room and on these events alone.
pub proof fn lemma_account_data_is_local(
    fold: FoldView,
    room_id: Seq<char>,
    events: Seq<Option<NonRoomEventView>>,
)
    requires
        fold.client.joined_rooms.contains_key(room_id),
    ensures
        ({
            let after = fold.account_data(room_id, events).client;
            &&& after.session == fold.client.session
            &&& after.joined_rooms.contains_key(room_id)
            &&& after.joined_rooms[room_id]
                == fold.client.joined_rooms[room_id].with_account_data_events(events)
        }),
    decreases events.len(),
{
    if events.len() > 0 {
        lemma_account_data_is_local(fold, room_id, events.drop_last());
    }
}

/// What the presence events of a response make of a joined room depends
/// on the room and on these events alone.
pub proof fn lemma_presence_is_local(
    fold: FoldView,
    room_id: Seq<char>,
    events: Seq<Option<PresenceEventView>>,
)
    requires
        fold.client.joined_rooms.contains_key(room_id),
    ensures
        ({
            let after = fold.presence(room_id, events).client;
            &&& after.session == fold.client.session
            &&& after.joined_rooms.contains_key(room_id)
            &&& after.joined_rooms[room_id]
                == fold.client.joined_rooms[room_id].with_presence_events(events)
        }),
    decreases events.len(),
{
    if events.len() > 0 {
        lemma_presence_is_local(fold, room_id, events.drop_last());
    }
}

/// What a response makes of a joined room depends on the room as the
/// client held it, on what the response holds of the room, and on whether
/// the client has a crypto engine; not on the token, on the other rooms or
/// on anything else that the client holds.
pub proof fn lemma_joined_room_is_local(
    fold: FoldView,
    room: JoinedRoomView,
    presence: Seq<Option<PresenceEventView>>,
)
    ensures
        ({
            let after = fold.joined_room(room, presence).client;
            &&& after.session == fold.client.session
            &&& after.joined_rooms.contains_key(room.room_id)
            &&& after.joined_rooms[room.room_id] == fold.client.joined_or_fresh(
                room.room_id,
            ).after_joined_room(room, presence, fold.client.session is Some)
        }),
{
    let id = room.room_id;
    let a = fold.unchanged().state(RoomStateType::Joined, id, room.state);
    lemma_state_is_local(fold.unchanged(), id, room.state);
    lemma_state_keeps_settings(fold.unchanged(), RoomStateType::Joined, id, room.state);
    let b = a.created(RoomStateType::Joined, id).track_users(id).summarized(room);
    let c = b.emit_state(RoomStateType::Joined, id, room.state);
    lemma_emit_state_keeps_client(b, RoomStateType::Joined, id, room.state);
    let d = c.joined_timeline(id, room.timeline);
    lemma_timeline_is_local(c, id, room.timeline);
    let e = d.account_data(id, room.account_data);
    lemma_account_data_is_local(d, id, room.account_data);
    let f = e.presence(id, presence);
    lemma_presence_is_local(e, id, presence);
    lemma_account_data_is_local(f, id, room.ephemeral);
}

/// After a crash between the write of the token and the write of a room,
/// the store holds the new token and the room as it was.  A client that
/// loads this state and is then sent the lost events of the room again ends
/// up with the room that a client holds that never crashed: a joined room is
/// folded in alike by any two clients that have the same session and hold
/// the same room, whatever token and whatever other rooms they hold.
pub proof fn lemma_replay_restores_room(
    healthy: FoldView,
    restored: FoldView,
    room: JoinedRoomView,
    presence: Seq<Option<PresenceEventView>>,
)
    requires
        restored.client.session == healthy.client.session,
        restored.client.joined_or_fresh(room.room_id) == healthy.client.joined_or_fresh(
            room.room_id,
        ),
    ensures
        restored.joined_room(room, presence).client.joined_rooms.contains_key(room.room_id),
        restored.joined_room(room, presence).client.joined_rooms[room.room_id]
            == healthy.joined_room(room, presence).client.joined_rooms[room.room_id],
{
    lemma_joined_room_is_local(healthy, room, presence);
    lemma_joined_room_is_local(restored, room, presence);
}

/// The same for whole responses that hold one joined room.  `lost` is the
/// response whose token reached the store and whose room did not; `replay`
/// is a later response that holds of the room what `lost` held.  The client
/// that has loaded the store and taken `replay` in holds the room as the
/// client does that took `lost` in without a crash, holds it as a joined
/// room only, and holds the token of `replay`.
pub proof fn lemma_replay_after_crash(
    before: ClientView,
    restored: ClientView,
    lost: SyncResponseView,
    replay: SyncResponseView,
    room: JoinedRoomView,
)
    requires
        restored.wf(),
        restored.session == before.session,
        restored.joined_or_fresh(room.room_id) == before.joined_or_fresh(room.room_id),
        !before.already_received(lost),
        !restored.already_received(replay),
        lost.rooms.join == seq![room],
        lost.rooms.invite.len() == 0,
        lost.rooms.leave.len() == 0,
        replay.rooms.join == seq![room],
        replay.rooms.invite.len() == 0,
        replay.rooms.leave.len() == 0,
        replay.presence == lost.presence,
    ensures
        ({
            let healthy = before.receive_sync_response(lost).client;
            let recovered = restored.receive_sync_response(replay).client;
            &&& recovered.joined_rooms.contains_key(room.room_id)
            &&& recovered.joined_rooms[room.room_id] == healthy.joined_rooms[room.room_id]
            &&& !recovered.invited_rooms.contains_key(room.room_id)
            &&& !recovered.left_rooms.contains_key(room.room_id)
            &&& recovered.sync_token == Some(replay.next_batch)
        }),
{
    let rooms = seq![room];
    assert(rooms.drop_last() =~= Seq::<JoinedRoomView>::empty());
    assert(rooms.last() == room);
    let healthy_start = FoldView {
        client: before.with_token_of(lost),
        updated: false,
        actions: Seq::empty(),
    };
    let restored_start = FoldView {
        client: restored.with_token_of(replay),
        updated: false,
        actions: Seq::empty(),
    };
    assert(healthy_start.joined_rooms(rooms.drop_last(), lost.presence) == healthy_start);
    assert(restored_start.joined_rooms(rooms.drop_last(), lost.presence) == restored_start);
    assert(healthy_start.joined_rooms(rooms, lost.presence) == healthy_start.joined_room(
        room,
        lost.presence,
    ));
    assert(restored_start.joined_rooms(rooms, lost.presence) == restored_start.joined_room(
        room,
        lost.presence,
    ));
    lemma_replay_restores_room(healthy_start, restored_start, room, lost.presence);
    lemma_response_keeps_valid(restored, replay);
    lemma_cursor_follows_response(restored, replay);
    let recovered = restored.receive_sync_response(replay).client;
    assert(recovered.occurrences(room.room_id) <= 1);
}

/// A list of ignored users that equals the list of the client changes
/// nothing and does not count as a change, so that it causes no write.
pub proof fn lemma_same_ignored_users(fold: FoldView, room_id: Seq<char>, event: IgnoredUserListEventView)
    requires
        event.ignored_users == fold.client.ignored_users,
    ensures
        ({
            let after = fold.account_data_event(
                room_id,
                Some(NonRoomEventView::IgnoredUserList(event)),
            );
            &&& after.client == fold.client
            &&& after.updated == fold.updated
            &&& !fold.client.account_data_event_changes(
                room_id,
                NonRoomEventView::IgnoredUserList(event),
            )
        }),
{
    let e = NonRoomEventView::IgnoredUserList(event);
    assert(fold.client.receive_account_data_event(room_id, e) =~= fold.client);
}

/// The store is asked to persist a room only where an event of the room
/// has counted as a change.
pub proof fn lemma_no_write_without_change(fold: FoldView, kind: RoomStateType, room_id: Seq<char>)
    requires
        !fold.updated,
    ensures
        fold.store_room(kind, room_id) == fold,
{
}

/// Whether a joined room is persisted does not depend on what happened to
/// the rooms before it: the room is folded in alike whether or not an
/// earlier room of the section has changed.
pub proof fn lemma_write_is_the_rooms_own(
    fold: FoldView,
    earlier: bool,
    room: JoinedRoomView,
    presence: Seq<Option<PresenceEventView>>,
)
    ensures
        (FoldView { updated: earlier, ..fold }).own_joined_room(room, presence)
            == fold.own_joined_room(room, presence),
        (FoldView { updated: earlier, ..fold }).joined_room(room, presence).actions
            == fold.joined_room(room, presence).actions,
{
    assert((FoldView { updated: earlier, ..fold }).unchanged() == fold.unchanged());
}

/// A joined room that comes without events is not persisted, whatever has
/// happened to the rooms before it in the section: the only request that it
/// can add is the one to the crypto engine.
pub proof fn lemma_quiet_room_is_not_written(fold: FoldView, room: JoinedRoomView)
    requires
        room.state.len() == 0,
        room.timeline.len() == 0,
        room.account_data.len() == 0,
        room.ephemeral.len() == 0,
    ensures
        ({
            let after = fold.joined_room(room, Seq::empty());
            &&& after.updated == fold.updated
            &&& after.actions == fold.created(RoomStateType::Joined, room.room_id).track_users(
                room.room_id,
            ).actions
        }),
{
}

/// The subscriber sees an event of the timeline of a joined room with the
/// room as it is after the event: the call carries the joined room of the
/// client to which the event has been applied.
pub proof fn lemma_timeline_emission_after_apply(fold: FoldView, room_id: Seq<char>, event: TimelineEventView)
    requires
        fold.client.event_emitter,
        fold.client.effective_timeline_event(event) matches Some(e) && timeline_callback(e) is Some,
    ensures
        ({
            let e = fold.client.effective_timeline_event(event)->0;
            let after = fold.joined_timeline_event(room_id, event);
            let created = fold.client.get_or_create_room(RoomStateType::Joined, room_id);
            &&& after.client.joined_rooms[room_id] == created.joined_rooms[room_id].with_timeline_event(
                e,
            )
            &&& after.actions == fold.actions.push(
                ActionView::Emit(
                    crate::emitter::EmissionView {
                        room: RoomState::Joined(after.client.joined_rooms[room_id]),
                        callback: timeline_callback(e)->0,
                    },
                ),
            )
        }),
{
}

/// The subscriber sees a state event with the room as the client holds it
/// when the event is announced, which is after the state of the room has
/// been applied.
pub proof fn lemma_state_emission_shows_current_room(
    fold: FoldView,
    kind: RoomStateType,
    room_id: Seq<char>,
    event: StateEventView,
)
    requires
        fold.client.event_emitter,
        fold.client.rooms(kind).contains_key(room_id),
        state_callback(event) is Some,
    ensures
        ({
            let after = fold.emit_state_event(kind, room_id, Some(event));
            &&& after.client == fold.client
            &&& after.actions == fold.actions.push(
                ActionView::Emit(
                    crate::emitter::EmissionView {
                        room: kind.tag(fold.client.rooms(kind)[room_id]),
                        callback: state_callback(event)->0,
                    },
                ),
            )
        }),
{
}

/// The subscriber sees an event of the account data of a joined room with
/// the room as it is after the event.
pub proof fn lemma_account_data_emission_after_apply(fold: FoldView, room_id: Seq<char>, event: NonRoomEventView)
    requires
        fold.client.event_emitter,
        fold.client.joined_rooms.contains_key(room_id),
        account_data_callback(event) is Some,
    ensures
        ({
            let after = fold.account_data_event(room_id, Some(event));
            &&& after.client == fold.client.receive_account_data_event(room_id, event)
            &&& after.client.joined_rooms.contains_key(room_id)
            &&& after.actions == fold.actions.push(
                ActionView::Emit(
                    crate::emitter::EmissionView {
                        room: RoomState::Joined(after.client.joined_rooms[room_id]),
                        callback: account_data_callback(event)->0,
                    },
                ),
            )
        }),
{
}

/// The subscriber sees a presence event with the joined room as it is
/// after the event.
pub proof fn lemma_presence_emission_after_apply(fold: FoldView, room_id: Seq<char>, event: PresenceEventView)
    requires
        fold.client.event_emitter,
        fold.client.joined_rooms.contains_key(room_id),
    ensures
        ({
            let after = fold.presence_event(room_id, Some(event));
            &&& after.client.joined_rooms[room_id]
                == fold.client.joined_rooms[room_id].with_presence_event(event)
            &&& after.actions == fold.actions.push(
                ActionView::Emit(
                    crate::emitter::EmissionView {
                        room: RoomState::Joined(after.client.joined_rooms[room_id]),
                        callback: CallbackView::PresenceEvent(event),
                    },
                ),
            )
        }),
{
}

/// Replacing a room by a room with the same id keeps a valid client
/// valid.
pub proof fn lemma_replacement_keeps_valid(
    client: ClientView,
    kind: RoomStateType,
    room_id: Seq<char>,
    room: RoomView,
)
    requires
        client.wf(),
        client.rooms(kind).contains_key(room_id),
        room.room_id == room_id,
    ensures
        client.with_room(kind, room_id, room).wf(),
        client.with_room(kind, room_id, room).rooms(kind).contains_key(room_id),
{
    let after = client.with_room(kind, room_id, room);
    assert forall|id: Seq<char>| #[trigger] after.occurrences(id) <= 1 by {
        assert(client.occurrences(id) <= 1);
    }
}

proof fn lemma_state_event_keeps_valid(
    fold: FoldView,
    kind: RoomStateType,
    room_id: Seq<char>,
    event: Option<StateEventView>,
)
    requires
        fold.client.wf(),
    ensures
        fold.state_event(kind, room_id, event).client.wf(),
{
    if let Some(e) = event {
        let k = if kind == RoomStateType::Left {
            RoomStateType::Left
        } else {
            RoomStateType::Joined
        };
        let created = fold.client.get_or_create_room(k, room_id);
        lemma_delivery_keeps_valid(fold.client, k, room_id);
        lemma_events_keep_room_id(created.rooms(k)[room_id]);
        lemma_replacement_keeps_valid(
            created,
            k,
            room_id,
            created.rooms(k)[room_id].with_state_event(e),
        );
    }
}

proof fn lemma_state_keeps_valid(
    fold: FoldView,
    kind: RoomStateType,
    room_id: Seq<char>,
    events: Seq<Option<StateEventView>>,
)
    requires
        fold.client.wf(),
    ensures
        fold.state(kind, room_id, events).client.wf(),
    decreases events.len(),
{
    if events.len() > 0 {
        lemma_state_keeps_valid(fold, kind, room_id, events.drop_last());
        lemma_state_event_keeps_valid(
            fold.state(kind, room_id, events.drop_last()),
            kind,
            room_id,
            events.last(),
        );
    }
}

proof fn lemma_joined_timeline_keeps_valid(fold: FoldView, room_id: Seq<char>, events: Seq<TimelineEventView>)
    requires
        fold.client.wf(),
        fold.client.joined_rooms.contains_key(room_id),
    ensures
        fold.joined_timeline(room_id, events).client.wf(),
        fold.joined_timeline(room_id, events).client.joined_rooms.contains_key(room_id),
    decreases events.len(),
{
    if events.len() > 0 {
        lemma_joined_timeline_keeps_valid(fold, room_id, events.drop_last());
        let before = fold.joined_timeline(room_id, events.drop_last());
        if let Some(e) = before.client.effective_timeline_event(events.last()) {
            let created = before.client.get_or_create_room(RoomStateType::Joined, room_id);
            lemma_delivery_keeps_valid(before.client, RoomStateType::Joined, room_id);
            lemma_events_keep_room_id(created.joined_rooms[room_id]);
            lemma_replacement_keeps_valid(
                created,
                RoomStateType::Joined,
                room_id,
                created.joined_rooms[room_id].with_timeline_event(e),
            );
        }
    }
}

proof fn lemma_presence_event_keeps_valid(client: ClientView, room_id: Seq<char>, event: PresenceEventView)
    requires
        client.wf(),
    ensures
        client.receive_presence_event(room_id, event).wf(),
        client.joined_rooms.contains_key(room_id) ==> client.receive_presence_event(
            room_id,
            event,
        ).joined_rooms.contains_key(room_id),
{
    if client.joined_rooms.contains_key(room_id) {
        lemma_events_keep_room_id(client.joined_rooms[room_id]);
        lemma_replacement_keeps_valid(
            client,
            RoomStateType::Joined,
            room_id,
            client.joined_rooms[room_id].with_presence_event(event),
        );
    }
}

proof fn lemma_account_data_keeps_valid(
    fold: FoldView,
    room_id: Seq<char>,
    events: Seq<Option<NonRoomEventView>>,
)
    requires
        fold.client.wf(),
        fold.client.joined_rooms.contains_key(room_id),
    ensures
        fold.account_data(room_id, events).client.wf(),
        fold.account_data(room_id, events).client.joined_rooms.contains_key(room_id),
    decreases events.len(),
{
    if events.len() > 0 {
        lemma_account_data_keeps_valid(fold, room_id, events.drop_last());
        let before = fold.account_data(room_id, events.drop_last());
        match events.last() {
            Some(NonRoomEventView::Presence(e)) => {
                lemma_presence_event_keeps_valid(before.client, room_id, e);
            },
            Some(e) => {
                before.client.lemma_same_rooms(before.client.receive_account_data_event(room_id, e));
            },
            None => {},
        }
    }
}

proof fn lemma_presence_keeps_valid(
    fold: FoldView,
    room_id: Seq<char>,
    events: Seq<Option<PresenceEventView>>,
)
    requires
        fold.client.wf(),
        fold.client.joined_rooms.contains_key(room_id),
    ensures
        fold.presence(room_id, events).client.wf(),
        fold.presence(room_id, events).client.joined_rooms.contains_key(room_id),
    decreases events.len(),
{
    if events.len() > 0 {
        lemma_presence_keeps_valid(fold, room_id, events.drop_last());
        let before = fold.presence(room_id, events.drop_last());
        if let Some(e) = events.last() {
            lemma_presence_event_keeps_valid(before.client, room_id, e);
        }
    }
}

proof fn lemma_joined_room_keeps_valid(
    fold: FoldView,
    room: JoinedRoomView,
    presence: Seq<Option<PresenceEventView>>,
)
    requires
        fold.client.wf(),
    ensures
        fold.joined_room(room, presence).client.wf(),
{
    let id = room.room_id;
    let a = fold.unchanged().state(RoomStateType::Joined, id, room.state);
    lemma_state_keeps_valid(fold.unchanged(), RoomStateType::Joined, id, room.state);
    let b = a.created(RoomStateType::Joined, id).track_users(id);
    lemma_delivery_keeps_valid(a.client, RoomStateType::Joined, id);
    let c = b.summarized(room);
    lemma_replacement_keeps_valid(
        b.client,
        RoomStateType::Joined,
        id,
        b.client.joined_rooms[id].with_summary(room.summary).with_unread(
            room.unread_notifications,
        ),
    );
    let d = c.emit_state(RoomStateType::Joined, id, room.state);
    lemma_emit_state_keeps_client(c, RoomStateType::Joined, id, room.state);
    let e = d.joined_timeline(id, room.timeline);
    lemma_joined_timeline_keeps_valid(d, id, room.timeline);
    let f = e.account_data(id, room.account_data);
    lemma_account_data_keeps_valid(e, id, room.account_data);
    let g = f.presence(id, presence);
    lemma_presence_keeps_valid(f, id, presence);
    lemma_account_data_keeps_valid(g, id, room.ephemeral);
}

proof fn lemma_joined_rooms_keep_valid(
    fold: FoldView,
    rooms: Seq<JoinedRoomView>,
    presence: Seq<Option<PresenceEventView>>,
)
    requires
        fold.client.wf(),
    ensures
        fold.joined_rooms(rooms, presence).client.wf(),
    decreases rooms.len(),
{
    if rooms.len() > 0 {
        lemma_joined_rooms_keep_valid(fold, rooms.drop_last(), presence);
        lemma_joined_room_keeps_valid(
            fold.joined_rooms(rooms.drop_last(), presence),
            rooms.last(),
            presence,
        );
    }
}

proof fn lemma_invite_state_keeps_valid(
    fold: FoldView,
    room_id: Seq<char>,
    events: Seq<Option<AnyStrippedStateEventView>>,
)
    requires
        fold.client.wf(),
    ensures
        fold.invite_state(room_id, events).client.wf(),
    decreases events.len(),
{
    if events.len() > 0 {
        lemma_invite_state_keeps_valid(fold, room_id, events.drop_last());
        let before = fold.invite_state(room_id, events.drop_last());
        if let Some(e) = events.last() {
            let created = before.client.get_or_create_room(RoomStateType::Invited, room_id);
            lemma_delivery_keeps_valid(before.client, RoomStateType::Invited, room_id);
            lemma_events_keep_room_id(created.invited_rooms[room_id]);
            lemma_replacement_keeps_valid(
                created,
                RoomStateType::Invited,
                room_id,
                created.invited_rooms[room_id].with_stripped_state_event(e),
            );
        }
    }
}

proof fn lemma_invited_rooms_keep_valid(fold: FoldView, rooms: Seq<InvitedRoomView>)
    requires
        fold.client.wf(),
    ensures
        fold.invited_rooms(rooms).client.wf(),
    decreases rooms.len(),
{
    if rooms.len() > 0 {
        lemma_invited_rooms_keep_valid(fold, rooms.drop_last());
        let before = fold.invited_rooms(rooms.drop_last());
        let room = rooms.last();
        let id = room.room_id;
        let a = before.unchanged().invite_state(id, room.invite_state);
        lemma_invite_state_keeps_valid(before.unchanged(), id, room.invite_state);
        let b = a.created(RoomStateType::Invited, id);
        lemma_delivery_keeps_valid(a.client, RoomStateType::Invited, id);
        lemma_emit_stripped_state_keeps_client(b, id, room.invite_state);
    }
}

proof fn lemma_left_timeline_keeps_valid(
    fold: FoldView,
    room_id: Seq<char>,
    events: Seq<Option<RoomEventView>>,
)
    requires
        fold.client.wf(),
    ensures
        fold.left_timeline(room_id, events).client.wf(),
    decreases events.len(),
{
    if events.len() > 0 {
        lemma_left_timeline_keeps_valid(fold, room_id, events.drop_last());
        let before = fold.left_timeline(room_id, events.drop_last());
        if let Some(e) = events.last() {
            let created = before.client.get_or_create_room(RoomStateType::Left, room_id);
            lemma_delivery_keeps_valid(before.client, RoomStateType::Left, room_id);
            lemma_events_keep_room_id(created.left_rooms[room_id]);
            lemma_replacement_keeps_valid(
                created,
                RoomStateType::Left,
                room_id,
                created.left_rooms[room_id].with_timeline_event(e),
            );
        }
    }
}

proof fn lemma_left_rooms_keep_valid(fold: FoldView, rooms: Seq<LeftRoomView>)
    requires
        fold.client.wf(),
    ensures
        fold.left_rooms(rooms).client.wf(),
    decreases rooms.len(),
{
    if rooms.len() > 0 {
        lemma_left_rooms_keep_valid(fold, rooms.drop_last());
        let before = fold.left_rooms(rooms.drop_last());
        let room = rooms.last();
        let id = room.room_id;
        let a = before.unchanged().state(RoomStateType::Left, id, room.state);
        lemma_state_keeps_valid(before.unchanged(), RoomStateType::Left, id, room.state);
        let b = a.created(RoomStateType::Left, id);
        lemma_delivery_keeps_valid(a.client, RoomStateType::Left, id);
        let c = b.emit_state(RoomStateType::Left, id, room.state);
        lemma_emit_state_keeps_client(b, RoomStateType::Left, id, room.state);
        lemma_left_timeline_keeps_valid(c, id, room.timeline);
    }
}

/// Whatever a response holds, it leaves a valid client valid: after the
/// response, as before it, no room is in two of the three sets.
pub proof fn lemma_response_keeps_valid(client: ClientView, response: SyncResponseView)
    requires
        client.wf(),
    ensures
        client.receive_sync_response(response).client.wf(),
{
    if !client.already_received(response) {
        let start = FoldView {
            client: client.with_token_of(response),
            updated: false,
            actions: Seq::empty(),
        };
        client.lemma_same_rooms(start.client);
        let a = start.joined_rooms(response.rooms.join, response.presence);
        lemma_joined_rooms_keep_valid(start, response.rooms.join, response.presence);
        let b = a.unchanged().invited_rooms(response.rooms.invite);
        lemma_invited_rooms_keep_valid(a.unchanged(), response.rooms.invite);
        lemma_left_rooms_keep_valid(b.unchanged(), response.rooms.leave);
    }
}

proof fn lemma_state_keeps_settings(
    fold: FoldView,
    kind: RoomStateType,
    room_id: Seq<char>,
    events: Seq<Option<StateEventView>>,
)
    ensures
        fold.client.same_settings(fold.state(kind, room_id, events).client),
    decreases events.len(),
{
    if events.len() > 0 {
        lemma_state_keeps_settings(fold, kind, room_id, events.drop_last());
    }
}

proof fn lemma_emit_state_keeps_client(
    fold: FoldView,
    kind: RoomStateType,
    room_id: Seq<char>,
    events: Seq<Option<StateEventView>>,
)
    ensures
        fold.emit_state(kind, room_id, events).client == fold.client,
        fold.emit_state(kind, room_id, events).updated == fold.updated,
    decreases events.len(),
{
    if events.len() > 0 {
        lemma_emit_state_keeps_client(fold, kind, room_id, events.drop_last());
    }
}

proof fn lemma_joined_timeline_keeps_settings(fold: FoldView, room_id: Seq<char>, events: Seq<TimelineEventView>)
    ensures
        fold.client.same_settings(fold.joined_timeline(room_id, events).client),
    decreases events.len(),
{
    if events.len() > 0 {
        lemma_joined_timeline_keeps_settings(fold, room_id, events.drop_last());
    }
}

proof fn lemma_account_data_keeps_settings(
    fold: FoldView,
    room_id: Seq<char>,
    events: Seq<Option<NonRoomEventView>>,
)
    ensures
        fold.client.same_settings(fold.account_data(room_id, events).client),
    decreases events.len(),
{
    if events.len() > 0 {
        lemma_account_data_keeps_settings(fold, room_id, events.drop_last());
    }
}

proof fn lemma_presence_keeps_settings(
    fold: FoldView,
    room_id: Seq<char>,
    events: Seq<Option<PresenceEventView>>,
)
    ensures
        fold.client.same_settings(fold.presence(room_id, events).client),
    decreases events.len(),
{
    if events.len() > 0 {
        lemma_presence_keeps_settings(fold, room_id, events.drop_last());
    }
}

proof fn lemma_invite_state_keeps_settings(
    fold: FoldView,
    room_id: Seq<char>,
    events: Seq<Option<AnyStrippedStateEventView>>,
)
    ensures
        fold.client.same_settings(fold.invite_state(room_id, events).client),
    decreases events.len(),
{
    if events.len() > 0 {
        lemma_invite_state_keeps_settings(fold, room_id, events.drop_last());
    }
}

proof fn lemma_emit_stripped_state_keeps_client(
    fold: FoldView,
    room_id: Seq<char>,
    events: Seq<Option<AnyStrippedStateEventView>>,
)
    ensures
        fold.emit_stripped_state(room_id, events).client == fold.client,
    decreases events.len(),
{
    if events.len() > 0 {
        lemma_emit_stripped_state_keeps_client(fold, room_id, events.drop_last());
    }
}

proof fn lemma_left_timeline_keeps_settings(
    fold: FoldView,
    room_id: Seq<char>,
    events: Seq<Option<RoomEventView>>,
)
    ensures
        fold.client.same_settings(fold.left_timeline(room_id, events).client),
    decreases events.len(),
{
    if events.len() > 0 {
        lemma_left_timeline_keeps_settings(fold, room_id, events.drop_last());
    }
}

proof fn lemma_joined_room_keeps_settings(
    fold: FoldView,
    room: JoinedRoomView,
    presence: Seq<Option<PresenceEventView>>,
)
    ensures
        fold.client.same_settings(fold.joined_room(room, presence).client),
{
    let id = room.room_id;
    let a = fold.unchanged().state(RoomStateType::Joined, id, room.state);
    lemma_state_keeps_settings(fold.unchanged(), RoomStateType::Joined, id, room.state);
    let b = a.created(RoomStateType::Joined, id).track_users(id).summarized(room);
    let c = b.emit_state(RoomStateType::Joined, id, room.state);
    lemma_emit_state_keeps_client(b, RoomStateType::Joined, id, room.state);
    let d = c.joined_timeline(id, room.timeline);
    lemma_joined_timeline_keeps_settings(c, id, room.timeline);
    let e = d.account_data(id, room.account_data);
    lemma_account_data_keeps_settings(d, id, room.account_data);
    let f = e.presence(id, presence);
    lemma_presence_keeps_settings(e, id, presence);
    let g = f.account_data(id, room.ephemeral);
    lemma_account_data_keeps_settings(f, id, room.ephemeral);
}

proof fn lemma_joined_rooms_keep_settings(
    fold: FoldView,
    rooms: Seq<JoinedRoomView>,
    presence: Seq<Option<PresenceEventView>>,
)
    ensures
        fold.client.same_settings(fold.joined_rooms(rooms, presence).client),
    decreases rooms.len(),
{
    if rooms.len() > 0 {
        lemma_joined_rooms_keep_settings(fold, rooms.drop_last(), presence);
        lemma_joined_room_keeps_settings(
            fold.joined_rooms(rooms.drop_last(), presence),
            rooms.last(),
            presence,
        );
    }
}

proof fn lemma_invited_room_keeps_settings(fold: FoldView, room: InvitedRoomView)
    ensures
        fold.client.same_settings(fold.invited_room(room).client),
{
    let id = room.room_id;
    let a = fold.unchanged().invite_state(id, room.invite_state);
    lemma_invite_state_keeps_settings(fold.unchanged(), id, room.invite_state);
    let b = a.created(RoomStateType::Invited, id);
    lemma_emit_stripped_state_keeps_client(b, id, room.invite_state);
}

proof fn lemma_invited_rooms_keep_settings(fold: FoldView, rooms: Seq<InvitedRoomView>)
    ensures
        fold.client.same_settings(fold.invited_rooms(rooms).client),
    decreases rooms.len(),
{
    if rooms.len() > 0 {
        lemma_invited_rooms_keep_settings(fold, rooms.drop_last());
        lemma_invited_room_keeps_settings(fold.invited_rooms(rooms.drop_last()), rooms.last());
    }
}

proof fn lemma_left_room_keeps_settings(fold: FoldView, room: LeftRoomView)
    ensures
        fold.client.same_settings(fold.left_room(room).client),
{
    let id = room.room_id;
    let a = fold.unchanged().state(RoomStateType::Left, id, room.state);
    lemma_state_keeps_settings(fold.unchanged(), RoomStateType::Left, id, room.state);
    let b = a.created(RoomStateType::Left, id);
    let c = b.emit_state(RoomStateType::Left, id, room.state);
    lemma_emit_state_keeps_client(b, RoomStateType::Left, id, room.state);
    lemma_left_timeline_keeps_settings(c, id, room.timeline);
}

proof fn lemma_left_rooms_keep_settings(fold: FoldView, rooms: Seq<LeftRoomView>)
    ensures
        fold.client.same_settings(fold.left_rooms(rooms).client),
    decreases rooms.len(),
{
    if rooms.len() > 0 {
        lemma_left_rooms_keep_settings(fold, rooms.drop_last());
        lemma_left_room_keeps_settings(fold.left_rooms(rooms.drop_last()), rooms.last());
    }
}

/// Folding a response in changes the rooms, the ignored users and the push
/// rules, and nothing else: the session, the settings and the token that was
/// stored at the start stay.
pub proof fn lemma_fold_keeps_settings(client: ClientView, response: SyncResponseView)
    ensures
        client.with_token_of(response).same_settings(client.fold_sync_response(response).client),
{
    let start = FoldView {
        client: client.with_token_of(response),
        updated: false,
        actions: Seq::empty(),
    };
    let a = start.joined_rooms(response.rooms.join, response.presence);
    lemma_joined_rooms_keep_settings(start, response.rooms.join, response.presence);
    let b = a.unchanged().invited_rooms(response.rooms.invite);
    lemma_invited_rooms_keep_settings(a.unchanged(), response.rooms.invite);
    let c = b.unchanged().left_rooms(response.rooms.leave);
    lemma_left_rooms_keep_settings(b.unchanged(), response.rooms.leave);
}

/// After a response the client holds the token of the response.
pub proof fn lemma_cursor_follows_response(client: ClientView, response: SyncResponseView)
    ensures
        client.receive_sync_response(response).client.sync_token == Some(response.next_batch),
{
    lemma_fold_keeps_settings(client, response);
}

/// A response that comes twice in a row is taken in once: the second time
/// the client stays as it is, and neither the subscriber nor the crypto
/// engine nor the store is asked for anything.
pub proof fn lemma_repeated_response(client: ClientView, response: SyncResponseView)
    ensures
        ({
            let once = client.receive_sync_response(response).client;
            let twice = once.receive_sync_response(response);
            &&& twice.client == once
            &&& twice.actions == Seq::<ActionView>::empty()
        }),
{
    lemma_cursor_follows_response(client, response);
}

} // verus!
