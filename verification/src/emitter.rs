//! What the client asks of a subscriber, of the crypto engine and of the
//! state store.
//!
//! The client calls nobody.  An operation that owes a subscriber a callback,
//! or the store a write, returns the request as a value, and the caller
//! carries it out once the operation has returned: no callback ever runs
//! while the client is being changed.

use crate::events::{
    AliasesEvent, AliasesEventView, AnyStrippedStateEvent, AnyStrippedStateEventView, AvatarEvent,
    AvatarEventView, CanonicalAliasEvent, CanonicalAliasEventView, EncryptedEvent,
    EncryptedEventView, FeedbackEvent, FeedbackEventView, FullyReadEvent, FullyReadEventView,
    IgnoredUserListEvent, IgnoredUserListEventView, JoinRulesEvent, JoinRulesEventView,
    MemberEvent, MemberEventView, MessageEvent, MessageEventView, NameEvent, NameEventView,
    NonRoomEvent, NonRoomEventView, PowerLevelsEvent, PowerLevelsEventView, PresenceEvent,
    PresenceEventView, PushRulesEvent, PushRulesEventView, RedactionEvent, RedactionEventView,
    RoomEvent, RoomEventView, StateEvent, StateEventView, TombstoneEvent, TombstoneEventView,
};
use crate::identifiers::UserId;
use crate::room::{Room, RoomView};
use crate::state::{ClientState, ClientStateView, RoomState};
use vstd::prelude::*;

verus! {

/// One call of a subscriber: which of its callbacks is owed, and the event that
/// the callback is handed.
#[derive(Clone, Copy, Debug, PartialEq, Eq)]
pub enum Callback<'a> {
    /// The timeline of a room holds a membership change.
    RoomMember(&'a MemberEvent),
    /// The timeline of a room holds a new name.
    RoomName(&'a NameEvent),
    /// The timeline of a room holds a new canonical alias.
    RoomCanonicalAlias(&'a CanonicalAliasEvent),
    /// The timeline of a room holds new aliases.
    RoomAliases(&'a AliasesEvent),
    /// The timeline of a room holds a new avatar.
    RoomAvatar(&'a AvatarEvent),
    /// The timeline of a room holds a message.
    RoomMessage(&'a MessageEvent),
    /// The timeline of a room holds feedback on a message.
    RoomMessageFeedback(&'a FeedbackEvent),
    /// The timeline of a room holds a redaction.
    RoomRedaction(&'a RedactionEvent),
    /// The timeline of a room holds new power levels.
    RoomPowerLevels(&'a PowerLevelsEvent),
    /// The timeline of a room holds the replacement of the room.
    RoomTombstone(&'a TombstoneEvent),
    /// The timeline of a room holds an event that is still encrypted.
    RoomEncrypted(&'a EncryptedEvent),
    /// The state of a room holds the membership of a user.
    StateMember(&'a MemberEvent),
    /// The state of a room holds the name.
    StateName(&'a NameEvent),
    /// The state of a room holds the canonical alias.
    StateCanonicalAlias(&'a CanonicalAliasEvent),
    /// The state of a room holds the aliases.
    StateAliases(&'a AliasesEvent),
    /// The state of a room holds the avatar.
    StateAvatar(&'a AvatarEvent),
    /// The state of a room holds the power levels.
    StatePowerLevels(&'a PowerLevelsEvent),
    /// The state of a room holds the join rules.
    StateJoinRules(&'a JoinRulesEvent),
    /// The reduced state of an invitation holds the membership of a user.
    StrippedStateMember(&'a MemberEvent),
    /// The reduced state of an invitation holds the name.
    StrippedStateName(&'a NameEvent),
    /// The reduced state of an invitation holds the canonical alias.
    StrippedStateCanonicalAlias(&'a CanonicalAliasEvent),
    /// The reduced state of an invitation holds the aliases.
    StrippedStateAliases(&'a AliasesEvent),
    /// The reduced state of an invitation holds the avatar.
    StrippedStateAvatar(&'a AvatarEvent),
    /// The reduced state of an invitation holds the power levels.
    StrippedStatePowerLevels(&'a PowerLevelsEvent),
    /// The reduced state of an invitation holds the join rules.
    StrippedStateJoinRules(&'a JoinRulesEvent),
    /// The account data or the transient data of a room hold the presence of a
    /// user.
    AccountPresence(&'a PresenceEvent),
    /// The account data or the transient data of a room hold the ignored users.
    AccountIgnoredUsers(&'a IgnoredUserListEvent),
    /// The account data or the transient data of a room hold the push rules.
    AccountPushRules(&'a PushRulesEvent),
    /// The account data or the transient data of a room hold a read marker.
    AccountDataFullyRead(&'a FullyReadEvent),
    /// The response holds the presence of a user.
    PresenceEvent(&'a PresenceEvent),
}

/// The model of [`Callback`].
pub enum CallbackView {
    RoomMember(MemberEventView),
    RoomName(NameEventView),
    RoomCanonicalAlias(CanonicalAliasEventView),
    RoomAliases(AliasesEventView),
    RoomAvatar(AvatarEventView),
    RoomMessage(MessageEventView),
    RoomMessageFeedback(FeedbackEventView),
    RoomRedaction(RedactionEventView),
    RoomPowerLevels(PowerLevelsEventView),
    RoomTombstone(TombstoneEventView),
    RoomEncrypted(EncryptedEventView),
    StateMember(MemberEventView),
    StateName(NameEventView),
    StateCanonicalAlias(CanonicalAliasEventView),
    StateAliases(AliasesEventView),
    StateAvatar(AvatarEventView),
    StatePowerLevels(PowerLevelsEventView),
    StateJoinRules(JoinRulesEventView),
    StrippedStateMember(MemberEventView),
    StrippedStateName(NameEventView),
    StrippedStateCanonicalAlias(CanonicalAliasEventView),
    StrippedStateAliases(AliasesEventView),
    StrippedStateAvatar(AvatarEventView),
    StrippedStatePowerLevels(PowerLevelsEventView),
    StrippedStateJoinRules(JoinRulesEventView),
    AccountPresence(PresenceEventView),
    AccountIgnoredUsers(IgnoredUserListEventView),
    AccountPushRules(PushRulesEventView),
    AccountDataFullyRead(FullyReadEventView),
    PresenceEvent(PresenceEventView),
}

impl<'a> DeepView for Callback<'a> {
    type V = CallbackView;

    open spec fn deep_view(&self) -> CallbackView {
        match self {
            Callback::RoomMember(e) => CallbackView::RoomMember(e.deep_view()),
            Callback::RoomName(e) => CallbackView::RoomName(e.deep_view()),
            Callback::RoomCanonicalAlias(e) => CallbackView::RoomCanonicalAlias(e.deep_view()),
            Callback::RoomAliases(e) => CallbackView::RoomAliases(e.deep_view()),
            Callback::RoomAvatar(e) => CallbackView::RoomAvatar(e.deep_view()),
            Callback::RoomMessage(e) => CallbackView::RoomMessage(e.deep_view()),
            Callback::RoomMessageFeedback(e) => CallbackView::RoomMessageFeedback(e.deep_view()),
            Callback::RoomRedaction(e) => CallbackView::RoomRedaction(e.deep_view()),
            Callback::RoomPowerLevels(e) => CallbackView::RoomPowerLevels(e.deep_view()),
            Callback::RoomTombstone(e) => CallbackView::RoomTombstone(e.deep_view()),
            Callback::RoomEncrypted(e) => CallbackView::RoomEncrypted(e.deep_view()),
            Callback::StateMember(e) => CallbackView::StateMember(e.deep_view()),
            Callback::StateName(e) => CallbackView::StateName(e.deep_view()),
            Callback::StateCanonicalAlias(e) => CallbackView::StateCanonicalAlias(e.deep_view()),
            Callback::StateAliases(e) => CallbackView::StateAliases(e.deep_view()),
            Callback::StateAvatar(e) => CallbackView::StateAvatar(e.deep_view()),
            Callback::StatePowerLevels(e) => CallbackView::StatePowerLevels(e.deep_view()),
            Callback::StateJoinRules(e) => CallbackView::StateJoinRules(e.deep_view()),
            Callback::StrippedStateMember(e) => CallbackView::StrippedStateMember(e.deep_view()),
            Callback::StrippedStateName(e) => CallbackView::StrippedStateName(e.deep_view()),
            Callback::StrippedStateCanonicalAlias(e) => CallbackView::StrippedStateCanonicalAlias(e.deep_view()),
            Callback::StrippedStateAliases(e) => CallbackView::StrippedStateAliases(e.deep_view()),
            Callback::StrippedStateAvatar(e) => CallbackView::StrippedStateAvatar(e.deep_view()),
            Callback::StrippedStatePowerLevels(e) => CallbackView::StrippedStatePowerLevels(e.deep_view()),
            Callback::StrippedStateJoinRules(e) => CallbackView::StrippedStateJoinRules(e.deep_view()),
            Callback::AccountPresence(e) => CallbackView::AccountPresence(e.deep_view()),
            Callback::AccountIgnoredUsers(e) => CallbackView::AccountIgnoredUsers(e.deep_view()),
            Callback::AccountPushRules(e) => CallbackView::AccountPushRules(e.deep_view()),
            Callback::AccountDataFullyRead(e) => CallbackView::AccountDataFullyRead(e.deep_view()),
            Callback::PresenceEvent(e) => CallbackView::PresenceEvent(e.deep_view()),
        }
    }
}

/// The callback that an event of a timeline is owed, if any.
pub open spec fn timeline_callback(event: RoomEventView) -> Option<CallbackView> {
    match event {
        RoomEventView::RoomMember(e) => Some(CallbackView::RoomMember(e)),
        RoomEventView::RoomName(e) => Some(CallbackView::RoomName(e)),
        RoomEventView::RoomCanonicalAlias(e) => Some(CallbackView::RoomCanonicalAlias(e)),
        RoomEventView::RoomAliases(e) => Some(CallbackView::RoomAliases(e)),
        RoomEventView::RoomAvatar(e) => Some(CallbackView::RoomAvatar(e)),
        RoomEventView::RoomMessage(e) => Some(CallbackView::RoomMessage(e)),
        RoomEventView::RoomMessageFeedback(e) => Some(CallbackView::RoomMessageFeedback(e)),
        RoomEventView::RoomRedaction(e) => Some(CallbackView::RoomRedaction(e)),
        RoomEventView::RoomPowerLevels(e) => Some(CallbackView::RoomPowerLevels(e)),
        RoomEventView::RoomTombstone(e) => Some(CallbackView::RoomTombstone(e)),
        RoomEventView::RoomEncrypted(e) => Some(CallbackView::RoomEncrypted(e)),
        _ => None,
    }
}

/// The callback that an event of the state of a room is owed, if any.  A
/// tombstone goes to the callback of the timeline.
pub open spec fn state_callback(event: StateEventView) -> Option<CallbackView> {
    match event {
        StateEventView::RoomMember(e) => Some(CallbackView::StateMember(e)),
        StateEventView::RoomName(e) => Some(CallbackView::StateName(e)),
        StateEventView::RoomCanonicalAlias(e) => Some(CallbackView::StateCanonicalAlias(e)),
        StateEventView::RoomAliases(e) => Some(CallbackView::StateAliases(e)),
        StateEventView::RoomAvatar(e) => Some(CallbackView::StateAvatar(e)),
        StateEventView::RoomPowerLevels(e) => Some(CallbackView::StatePowerLevels(e)),
        StateEventView::RoomJoinRules(e) => Some(CallbackView::StateJoinRules(e)),
        StateEventView::RoomTombstone(e) => Some(CallbackView::RoomTombstone(e)),
        _ => None,
    }
}

/// The callback that an event of the reduced state of an invitation is owed, if
/// any.
pub open spec fn stripped_state_callback(event: AnyStrippedStateEventView) -> Option<CallbackView> {
    match event {
        AnyStrippedStateEventView::RoomMember(e) => Some(CallbackView::StrippedStateMember(e)),
        AnyStrippedStateEventView::RoomName(e) => Some(CallbackView::StrippedStateName(e)),
        AnyStrippedStateEventView::RoomCanonicalAlias(e) => Some(CallbackView::StrippedStateCanonicalAlias(e)),
        AnyStrippedStateEventView::RoomAliases(e) => Some(CallbackView::StrippedStateAliases(e)),
        AnyStrippedStateEventView::RoomAvatar(e) => Some(CallbackView::StrippedStateAvatar(e)),
        AnyStrippedStateEventView::RoomPowerLevels(e) => Some(CallbackView::StrippedStatePowerLevels(e)),
        AnyStrippedStateEventView::RoomJoinRules(e) => Some(CallbackView::StrippedStateJoinRules(e)),
        _ => None,
    }
}

/// The callback that an event of the account data of a room is owed, if any.
/// Transient events of a room go to the same callbacks.
pub open spec fn account_data_callback(event: NonRoomEventView) -> Option<CallbackView> {
    match event {
        NonRoomEventView::Presence(e) => Some(CallbackView::AccountPresence(e)),
        NonRoomEventView::IgnoredUserList(e) => Some(CallbackView::AccountIgnoredUsers(e)),
        NonRoomEventView::PushRules(e) => Some(CallbackView::AccountPushRules(e)),
        NonRoomEventView::FullyRead(e) => Some(CallbackView::AccountDataFullyRead(e)),
        _ => None,
    }
}

impl<'a> Callback<'a> {
    /// The callback that an event of a timeline is owed, if any.
    pub fn for_timeline_event(event: &'a RoomEvent) -> (callback: Option<Callback<'a>>)
        ensures
            callback.deep_view() == timeline_callback(event.deep_view()),
    {
        match event {
            RoomEvent::RoomMember(e) => Some(Callback::RoomMember(e)),
            RoomEvent::RoomName(e) => Some(Callback::RoomName(e)),
            RoomEvent::RoomCanonicalAlias(e) => Some(Callback::RoomCanonicalAlias(e)),
            RoomEvent::RoomAliases(e) => Some(Callback::RoomAliases(e)),
            RoomEvent::RoomAvatar(e) => Some(Callback::RoomAvatar(e)),
            RoomEvent::RoomMessage(e) => Some(Callback::RoomMessage(e)),
            RoomEvent::RoomMessageFeedback(e) => Some(Callback::RoomMessageFeedback(e)),
            RoomEvent::RoomRedaction(e) => Some(Callback::RoomRedaction(e)),
            RoomEvent::RoomPowerLevels(e) => Some(Callback::RoomPowerLevels(e)),
            RoomEvent::RoomTombstone(e) => Some(Callback::RoomTombstone(e)),
            RoomEvent::RoomEncrypted(e) => Some(Callback::RoomEncrypted(e)),
            _ => None,
        }
    }

    /// The callback that an event of the state of a room is owed, if any.
    pub fn for_state_event(event: &'a StateEvent) -> (callback: Option<Callback<'a>>)
        ensures
            callback.deep_view() == state_callback(event.deep_view()),
    {
        match event {
            StateEvent::RoomMember(e) => Some(Callback::StateMember(e)),
            StateEvent::RoomName(e) => Some(Callback::StateName(e)),
            StateEvent::RoomCanonicalAlias(e) => Some(Callback::StateCanonicalAlias(e)),
            StateEvent::RoomAliases(e) => Some(Callback::StateAliases(e)),
            StateEvent::RoomAvatar(e) => Some(Callback::StateAvatar(e)),
            StateEvent::RoomPowerLevels(e) => Some(Callback::StatePowerLevels(e)),
            StateEvent::RoomJoinRules(e) => Some(Callback::StateJoinRules(e)),
            StateEvent::RoomTombstone(e) => Some(Callback::RoomTombstone(e)),
            _ => None,
        }
    }

    /// The callback that an event of the reduced state of an invitation is
    /// owed, if any.
    pub fn for_stripped_state_event(event: &'a AnyStrippedStateEvent) -> (callback: Option<Callback<'a>>)
        ensures
            callback.deep_view() == stripped_state_callback(event.deep_view()),
    {
        match event {
            AnyStrippedStateEvent::RoomMember(e) => Some(Callback::StrippedStateMember(e)),
            AnyStrippedStateEvent::RoomName(e) => Some(Callback::StrippedStateName(e)),
            AnyStrippedStateEvent::RoomCanonicalAlias(e) => Some(Callback::StrippedStateCanonicalAlias(e)),
            AnyStrippedStateEvent::RoomAliases(e) => Some(Callback::StrippedStateAliases(e)),
            AnyStrippedStateEvent::RoomAvatar(e) => Some(Callback::StrippedStateAvatar(e)),
            AnyStrippedStateEvent::RoomPowerLevels(e) => Some(Callback::StrippedStatePowerLevels(e)),
            AnyStrippedStateEvent::RoomJoinRules(e) => Some(Callback::StrippedStateJoinRules(e)),
            _ => None,
        }
    }

    /// The callback that an event of the account data or of the transient data
    /// of a room is owed, if any.
    pub fn for_account_data_event(event: &'a NonRoomEvent) -> (callback: Option<Callback<'a>>)
        ensures
            callback.deep_view() == account_data_callback(event.deep_view()),
    {
        match event {
            NonRoomEvent::Presence(e) => Some(Callback::AccountPresence(e)),
            NonRoomEvent::IgnoredUserList(e) => Some(Callback::AccountIgnoredUsers(e)),
            NonRoomEvent::PushRules(e) => Some(Callback::AccountPushRules(e)),
            NonRoomEvent::FullyRead(e) => Some(Callback::AccountDataFullyRead(e)),
            _ => None,
        }
    }
}

/// A call that a subscriber is owed: the callback with its event, and the
/// room as it was right after the event was applied, tagged with the set of
/// rooms that it was in.
#[derive(Clone, Debug)]
pub struct Emission<'a> {
    /// The room, as it was when the event had been applied.
    pub room: RoomState<Room>,
    /// The callback and its event.
    pub callback: Callback<'a>,
}

/// The model of [`Emission`].
pub struct EmissionView {
    pub room: RoomState<RoomView>,
    pub callback: CallbackView,
}

impl<'a> DeepView for Emission<'a> {
    type V = EmissionView;

    open spec fn deep_view(&self) -> EmissionView {
        EmissionView { room: self.room.deep_view(), callback: self.callback.deep_view() }
    }
}

/// Something that the client asks its surroundings to do.  The requests of
/// one operation come in the order in which they are to be carried out.
#[derive(Clone, Debug)]
pub enum Action<'a> {
    /// Call the subscriber.
    Emit(Emission<'a>),
    /// Tell the crypto engine who the members of an encrypted room are.
    UpdateTrackedUsers(Vec<UserId>),
    /// Persist a room.
    StoreRoomState(RoomState<Room>),
    /// Persist the client state.
    StoreClientState(ClientState),
}

/// The model of [`Action`].  The users to track are a set: the order in
/// which the request lists them means nothing.
pub enum ActionView {
    Emit(EmissionView),
    UpdateTrackedUsers(Set<Seq<char>>),
    StoreRoomState(RoomState<RoomView>),
    StoreClientState(ClientStateView),
}

impl<'a> DeepView for Action<'a> {
    type V = ActionView;

    open spec fn deep_view(&self) -> ActionView {
        match self {
            Action::Emit(e) => ActionView::Emit(e.deep_view()),
            Action::UpdateTrackedUsers(users) => ActionView::UpdateTrackedUsers(
                users.deep_view().to_set(),
            ),
            Action::StoreRoomState(room) => ActionView::StoreRoomState(room.deep_view()),
            Action::StoreClientState(state) => ActionView::StoreClientState(state.deep_view()),
        }
    }
}

} // verus!
