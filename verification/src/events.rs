//! The events that a sync response carries, as plain data.
//!
//! Each type holds what the client reads from an event of its kind and what
//! a subscriber is handed.  The model of a type replaces every string by its
//! sequence of characters and every list by a sequence.

use crate::snapshot::{snapshot_list, Snapshot};
use vstd::prelude::*;

verus! {

/// The membership of a user in a room.
#[derive(Clone, Copy, Debug, PartialEq, Eq, Structural)]
pub enum MembershipState {
    /// The user is banned.
    Ban,
    /// The user has been invited.
    Invite,
    /// The user has joined.
    Join,
    /// The user has asked to join.
    Knock,
    /// The user has left.
    Leave,
}

/// Who may join a room.
#[derive(Clone, Copy, Debug, PartialEq, Eq, Structural)]
pub enum JoinRule {
    /// Only invited users.
    Invite,
    /// Users may ask to be invited.
    Knock,
    /// Reserved.
    Private,
    /// Anyone.
    Public,
}

/// Whether a user is around.
#[derive(Clone, Copy, Debug, PartialEq, Eq, Structural)]
pub enum PresenceState {
    /// Not connected.
    Offline,
    /// Connected and active.
    Online,
    /// Connected but idle.
    Unavailable,
}

/// The power that each kind of action in a room requires.
#[derive(Clone, Copy, Debug, PartialEq, Eq, Structural)]
pub struct PowerLevels {
    /// The level required to ban a user.
    pub ban: i64,
    /// The default level required to send message events.
    pub events_default: i64,
    /// The level required to invite a user.
    pub invite: i64,
    /// The level required to kick a user.
    pub kick: i64,
    /// The level required to redact an event.
    pub redact: i64,
    /// The default level required to send state events.
    pub state_default: i64,
    /// The level of a user that the event does not list.
    pub users_default: i64,
    /// The level required to notify the whole room.
    pub notifications_room: i64,
}

#[derive(Clone, Debug, PartialEq, Eq)]
/// An `m.room.member` event: the membership of one user.
pub struct MemberEvent {
    /// The user who sent the event.
    pub sender: String,
    /// The user whose membership the event sets.
    pub state_key: String,
    /// The new membership.
    pub membership: MembershipState,
    /// The display name of the user, if any.
    pub displayname: Option<String>,
    /// The avatar of the user, if any.
    pub avatar_url: Option<String>,
}

/// The model of [`MemberEvent`].
pub struct MemberEventView {
    pub sender: Seq<char>,
    pub state_key: Seq<char>,
    pub membership: MembershipState,
    pub displayname: Option<Seq<char>>,
    pub avatar_url: Option<Seq<char>>,
}

impl DeepView for MemberEvent {
    type V = MemberEventView;

    open spec fn deep_view(&self) -> MemberEventView {
        MemberEventView {
            sender: self.sender@,
            state_key: self.state_key@,
            membership: self.membership,
            displayname: self.displayname.deep_view(),
            avatar_url: self.avatar_url.deep_view(),
        }
    }
}

#[derive(Clone, Debug, PartialEq, Eq)]
/// An `m.room.name` event.
pub struct NameEvent {
    /// The id of the event.  The events of an invitation have none.
    pub event_id: Option<String>,
    /// The name of the room; absent where the event carries none.
    pub name: Option<String>,
}

/// The model of [`NameEvent`].
pub struct NameEventView {
    pub event_id: Option<Seq<char>>,
    pub name: Option<Seq<char>>,
}

impl DeepView for NameEvent {
    type V = NameEventView;

    open spec fn deep_view(&self) -> NameEventView {
        NameEventView {
            event_id: self.event_id.deep_view(),
            name: self.name.deep_view(),
        }
    }
}

#[derive(Clone, Debug, PartialEq, Eq)]
/// An `m.room.canonical_alias` event.
pub struct CanonicalAliasEvent {
    /// The id of the event.  The events of an invitation have none.
    pub event_id: Option<String>,
    /// The canonical alias; absent where the event carries none.
    pub alias: Option<String>,
}

/// The model of [`CanonicalAliasEvent`].
pub struct CanonicalAliasEventView {
    pub event_id: Option<Seq<char>>,
    pub alias: Option<Seq<char>>,
}

impl DeepView for CanonicalAliasEvent {
    type V = CanonicalAliasEventView;

    open spec fn deep_view(&self) -> CanonicalAliasEventView {
        CanonicalAliasEventView {
            event_id: self.event_id.deep_view(),
            alias: self.alias.deep_view(),
        }
    }
}

#[derive(Clone, Debug, PartialEq, Eq)]
/// An `m.room.aliases` event.
pub struct AliasesEvent {
    /// The aliases of the room.
    pub aliases: Vec<String>,
}

/// The model of [`AliasesEvent`].
pub struct AliasesEventView {
    pub aliases: Seq<Seq<char>>,
}

impl DeepView for AliasesEvent {
    type V = AliasesEventView;

    open spec fn deep_view(&self) -> AliasesEventView {
        AliasesEventView {
            aliases: self.aliases.deep_view(),
        }
    }
}

#[derive(Clone, Debug, PartialEq, Eq)]
/// An `m.room.avatar` event.
pub struct AvatarEvent {
    /// The id of the event.  The events of an invitation have none.
    pub event_id: Option<String>,
    /// Where the picture is.
    pub url: String,
}

/// The model of [`AvatarEvent`].
pub struct AvatarEventView {
    pub event_id: Option<Seq<char>>,
    pub url: Seq<char>,
}

impl DeepView for AvatarEvent {
    type V = AvatarEventView;

    open spec fn deep_view(&self) -> AvatarEventView {
        AvatarEventView {
            event_id: self.event_id.deep_view(),
            url: self.url@,
        }
    }
}

#[derive(Clone, Debug, PartialEq, Eq)]
/// An `m.room.topic` event.
pub struct TopicEvent {
    /// The id of the event.  The events of an invitation have none.
    pub event_id: Option<String>,
    /// The topic of the room.
    pub topic: String,
}

/// The model of [`TopicEvent`].
pub struct TopicEventView {
    pub event_id: Option<Seq<char>>,
    pub topic: Seq<char>,
}

impl DeepView for TopicEvent {
    type V = TopicEventView;

    open spec fn deep_view(&self) -> TopicEventView {
        TopicEventView {
            event_id: self.event_id.deep_view(),
            topic: self.topic@,
        }
    }
}

#[derive(Clone, Debug, PartialEq, Eq)]
/// The power level of one user, as a power levels event lists it.
pub struct UserPower {
    /// The user.
    pub user_id: String,
    /// The level of the user.
    pub power: i64,
}

/// The model of [`UserPower`].
pub struct UserPowerView {
    pub user_id: Seq<char>,
    pub power: i64,
}

impl DeepView for UserPower {
    type V = UserPowerView;

    open spec fn deep_view(&self) -> UserPowerView {
        UserPowerView {
            user_id: self.user_id@,
            power: self.power,
        }
    }
}

#[derive(Clone, Debug, PartialEq, Eq)]
/// An `m.room.power_levels` event.
pub struct PowerLevelsEvent {
    /// The levels that actions require.
    pub levels: PowerLevels,
    /// The levels of single users.  Where a user is listed twice the later
    /// entry counts.
    pub users: Vec<UserPower>,
}

/// The model of [`PowerLevelsEvent`].
pub struct PowerLevelsEventView {
    pub levels: PowerLevels,
    pub users: Seq<UserPowerView>,
}

impl DeepView for PowerLevelsEvent {
    type V = PowerLevelsEventView;

    open spec fn deep_view(&self) -> PowerLevelsEventView {
        PowerLevelsEventView {
            levels: self.levels,
            users: self.users.deep_view(),
        }
    }
}

#[derive(Clone, Debug, PartialEq, Eq)]
/// An `m.room.join_rules` event.
pub struct JoinRulesEvent {
    /// Who may join.
    pub join_rule: JoinRule,
}

/// The model of [`JoinRulesEvent`].
pub struct JoinRulesEventView {
    pub join_rule: JoinRule,
}

impl DeepView for JoinRulesEvent {
    type V = JoinRulesEventView;

    open spec fn deep_view(&self) -> JoinRulesEventView {
        JoinRulesEventView {
            join_rule: self.join_rule,
        }
    }
}

#[derive(Clone, Debug, PartialEq, Eq)]
/// An `m.room.tombstone` event: the room has been replaced.
pub struct TombstoneEvent {
    /// A message of the server.
    pub body: String,
    /// The room that is now active.
    pub replacement_room: String,
}

/// The model of [`TombstoneEvent`].
pub struct TombstoneEventView {
    pub body: Seq<char>,
    pub replacement_room: Seq<char>,
}

impl DeepView for TombstoneEvent {
    type V = TombstoneEventView;

    open spec fn deep_view(&self) -> TombstoneEventView {
        TombstoneEventView {
            body: self.body@,
            replacement_room: self.replacement_room@,
        }
    }
}

#[derive(Clone, Debug, PartialEq, Eq)]
/// An `m.room.encryption` event: the room is encrypted from here on.
pub struct EncryptionEvent {
    /// The algorithm that the room uses.
    pub algorithm: String,
}

/// The model of [`EncryptionEvent`].
pub struct EncryptionEventView {
    pub algorithm: Seq<char>,
}

impl DeepView for EncryptionEvent {
    type V = EncryptionEventView;

    open spec fn deep_view(&self) -> EncryptionEventView {
        EncryptionEventView {
            algorithm: self.algorithm@,
        }
    }
}

#[derive(Clone, Debug, PartialEq, Eq)]
/// An `m.room.message` event.
pub struct MessageEvent {
    /// The user who sent the message.
    pub sender: String,
    /// The id of the event.
    pub event_id: String,
    /// The text of the message.
    pub body: String,
}

/// The model of [`MessageEvent`].
pub struct MessageEventView {
    pub sender: Seq<char>,
    pub event_id: Seq<char>,
    pub body: Seq<char>,
}

impl DeepView for MessageEvent {
    type V = MessageEventView;

    open spec fn deep_view(&self) -> MessageEventView {
        MessageEventView {
            sender: self.sender@,
            event_id: self.event_id@,
            body: self.body@,
        }
    }
}

#[derive(Clone, Debug, PartialEq, Eq)]
/// An `m.room.message.feedback` event.
pub struct FeedbackEvent {
    /// The user who sent the feedback.
    pub sender: String,
    /// The event that the feedback is about.
    pub target_event_id: String,
}

/// The model of [`FeedbackEvent`].
pub struct FeedbackEventView {
    pub sender: Seq<char>,
    pub target_event_id: Seq<char>,
}

impl DeepView for FeedbackEvent {
    type V = FeedbackEventView;

    open spec fn deep_view(&self) -> FeedbackEventView {
        FeedbackEventView {
            sender: self.sender@,
            target_event_id: self.target_event_id@,
        }
    }
}

#[derive(Clone, Debug, PartialEq, Eq)]
/// An `m.room.redaction` event.
pub struct RedactionEvent {
    /// The user who redacted.
    pub sender: String,
    /// The id of the event that was redacted.
    pub redacts: String,
    /// Why it was redacted.
    pub reason: Option<String>,
}

/// The model of [`RedactionEvent`].
pub struct RedactionEventView {
    pub sender: Seq<char>,
    pub redacts: Seq<char>,
    pub reason: Option<Seq<char>>,
}

impl DeepView for RedactionEvent {
    type V = RedactionEventView;

    open spec fn deep_view(&self) -> RedactionEventView {
        RedactionEventView {
            sender: self.sender@,
            redacts: self.redacts@,
            reason: self.reason.deep_view(),
        }
    }
}

#[derive(Clone, Debug, PartialEq, Eq)]
/// An `m.room.encrypted` event: an envelope around another event.
pub struct EncryptedEvent {
    /// The user who sent the event.
    pub sender: String,
    /// The id of the event.
    pub event_id: String,
    /// The room of the event.  The server leaves it out of sync responses.
    pub room_id: Option<String>,
    /// The encrypted payload.
    pub ciphertext: String,
}

/// The model of [`EncryptedEvent`].
pub struct EncryptedEventView {
    pub sender: Seq<char>,
    pub event_id: Seq<char>,
    pub room_id: Option<Seq<char>>,
    pub ciphertext: Seq<char>,
}

impl DeepView for EncryptedEvent {
    type V = EncryptedEventView;

    open spec fn deep_view(&self) -> EncryptedEventView {
        EncryptedEventView {
            sender: self.sender@,
            event_id: self.event_id@,
            room_id: self.room_id.deep_view(),
            ciphertext: self.ciphertext@,
        }
    }
}

#[derive(Clone, Debug, PartialEq, Eq)]
/// An `m.presence` event.
pub struct PresenceEvent {
    /// The user whose presence this is.
    pub sender: String,
    /// Whether the user is around.
    pub presence: PresenceState,
    /// The display name of the user.
    pub displayname: Option<String>,
    /// The avatar of the user.
    pub avatar_url: Option<String>,
    /// A status message.
    pub status_msg: Option<String>,
    /// Whether the user is active right now.
    pub currently_active: Option<bool>,
    /// Milliseconds since the user was last active.
    pub last_active_ago: Option<u64>,
}

/// The model of [`PresenceEvent`].
pub struct PresenceEventView {
    pub sender: Seq<char>,
    pub presence: PresenceState,
    pub displayname: Option<Seq<char>>,
    pub avatar_url: Option<Seq<char>>,
    pub status_msg: Option<Seq<char>>,
    pub currently_active: Option<bool>,
    pub last_active_ago: Option<u64>,
}

impl DeepView for PresenceEvent {
    type V = PresenceEventView;

    open spec fn deep_view(&self) -> PresenceEventView {
        PresenceEventView {
            sender: self.sender@,
            presence: self.presence,
            displayname: self.displayname.deep_view(),
            avatar_url: self.avatar_url.deep_view(),
            status_msg: self.status_msg.deep_view(),
            currently_active: self.currently_active,
            last_active_ago: self.last_active_ago,
        }
    }
}

#[derive(Clone, Debug, PartialEq, Eq)]
/// An `m.ignored_user_list` event.
pub struct IgnoredUserListEvent {
    /// The users that the account ignores.
    pub ignored_users: Vec<String>,
}

/// The model of [`IgnoredUserListEvent`].
pub struct IgnoredUserListEventView {
    pub ignored_users: Seq<Seq<char>>,
}

impl DeepView for IgnoredUserListEvent {
    type V = IgnoredUserListEventView;

    open spec fn deep_view(&self) -> IgnoredUserListEventView {
        IgnoredUserListEventView {
            ignored_users: self.ignored_users.deep_view(),
        }
    }
}

#[derive(Clone, Debug, PartialEq, Eq)]
/// The push rules of an account, each rule by its id.
pub struct Ruleset {
    /// Rules that match on the content of a message.
    pub content: Vec<String>,
    /// Rules that come before all others.
    pub override_rules: Vec<String>,
    /// Rules for single rooms.
    pub room: Vec<String>,
    /// Rules for single senders.
    pub sender: Vec<String>,
    /// Rules that come after all others.
    pub underride: Vec<String>,
}

/// The model of [`Ruleset`].
pub struct RulesetView {
    pub content: Seq<Seq<char>>,
    pub override_rules: Seq<Seq<char>>,
    pub room: Seq<Seq<char>>,
    pub sender: Seq<Seq<char>>,
    pub underride: Seq<Seq<char>>,
}

impl DeepView for Ruleset {
    type V = RulesetView;

    open spec fn deep_view(&self) -> RulesetView {
        RulesetView {
            content: self.content.deep_view(),
            override_rules: self.override_rules.deep_view(),
            room: self.room.deep_view(),
            sender: self.sender.deep_view(),
            underride: self.underride.deep_view(),
        }
    }
}

impl Snapshot for Ruleset {
    open spec fn wf(&self) -> bool {
        true
    }

    fn snapshot(&self) -> (copy: Self) {
        Ruleset {
            content: snapshot_list(&self.content),
            override_rules: snapshot_list(&self.override_rules),
            room: snapshot_list(&self.room),
            sender: snapshot_list(&self.sender),
            underride: snapshot_list(&self.underride),
        }
    }
}

#[derive(Clone, Debug, PartialEq, Eq)]
/// An `m.push_rules` event.
pub struct PushRulesEvent {
    /// The rules of the account.
    pub global: Ruleset,
}

/// The model of [`PushRulesEvent`].
pub struct PushRulesEventView {
    pub global: RulesetView,
}

impl DeepView for PushRulesEvent {
    type V = PushRulesEventView;

    open spec fn deep_view(&self) -> PushRulesEventView {
        PushRulesEventView {
            global: self.global.deep_view(),
        }
    }
}

#[derive(Clone, Debug, PartialEq, Eq)]
/// An `m.fully_read` event: how far the user has read a room.
pub struct FullyReadEvent {
    /// The room.
    pub room_id: String,
    /// The last event that the user has read.
    pub event_id: String,
}

/// The model of [`FullyReadEvent`].
pub struct FullyReadEventView {
    pub room_id: Seq<char>,
    pub event_id: Seq<char>,
}

impl DeepView for FullyReadEvent {
    type V = FullyReadEventView;

    open spec fn deep_view(&self) -> FullyReadEventView {
        FullyReadEventView {
            room_id: self.room_id@,
            event_id: self.event_id@,
        }
    }
}

#[derive(Clone, Debug, PartialEq, Eq)]
/// An event of the timeline of a room.
pub enum RoomEvent {
    /// A membership change.
    RoomMember(MemberEvent),
    /// A new name.
    RoomName(NameEvent),
    /// A new canonical alias.
    RoomCanonicalAlias(CanonicalAliasEvent),
    /// New aliases.
    RoomAliases(AliasesEvent),
    /// A new avatar.
    RoomAvatar(AvatarEvent),
    /// A new topic.
    RoomTopic(TopicEvent),
    /// A message.
    RoomMessage(MessageEvent),
    /// Feedback on a message.
    RoomMessageFeedback(FeedbackEvent),
    /// A redaction.
    RoomRedaction(RedactionEvent),
    /// New power levels.
    RoomPowerLevels(PowerLevelsEvent),
    /// New join rules.
    RoomJoinRules(JoinRulesEvent),
    /// The room was replaced.
    RoomTombstone(TombstoneEvent),
    /// Encryption was switched on.
    RoomEncryption(EncryptionEvent),
    /// An encrypted event.
    RoomEncrypted(EncryptedEvent),
    /// An event of a kind that the client does not look at.
    Other,
}

/// The model of [`RoomEvent`].
pub enum RoomEventView {
    RoomMember(MemberEventView),
    RoomName(NameEventView),
    RoomCanonicalAlias(CanonicalAliasEventView),
    RoomAliases(AliasesEventView),
    RoomAvatar(AvatarEventView),
    RoomTopic(TopicEventView),
    RoomMessage(MessageEventView),
    RoomMessageFeedback(FeedbackEventView),
    RoomRedaction(RedactionEventView),
    RoomPowerLevels(PowerLevelsEventView),
    RoomJoinRules(JoinRulesEventView),
    RoomTombstone(TombstoneEventView),
    RoomEncryption(EncryptionEventView),
    RoomEncrypted(EncryptedEventView),
    Other,
}

impl DeepView for RoomEvent {
    type V = RoomEventView;

    open spec fn deep_view(&self) -> RoomEventView {
        match self {
            RoomEvent::RoomMember(e) => RoomEventView::RoomMember(e.deep_view()),
            RoomEvent::RoomName(e) => RoomEventView::RoomName(e.deep_view()),
            RoomEvent::RoomCanonicalAlias(e) => RoomEventView::RoomCanonicalAlias(e.deep_view()),
            RoomEvent::RoomAliases(e) => RoomEventView::RoomAliases(e.deep_view()),
            RoomEvent::RoomAvatar(e) => RoomEventView::RoomAvatar(e.deep_view()),
            RoomEvent::RoomTopic(e) => RoomEventView::RoomTopic(e.deep_view()),
            RoomEvent::RoomMessage(e) => RoomEventView::RoomMessage(e.deep_view()),
            RoomEvent::RoomMessageFeedback(e) => RoomEventView::RoomMessageFeedback(e.deep_view()),
            RoomEvent::RoomRedaction(e) => RoomEventView::RoomRedaction(e.deep_view()),
            RoomEvent::RoomPowerLevels(e) => RoomEventView::RoomPowerLevels(e.deep_view()),
            RoomEvent::RoomJoinRules(e) => RoomEventView::RoomJoinRules(e.deep_view()),
            RoomEvent::RoomTombstone(e) => RoomEventView::RoomTombstone(e.deep_view()),
            RoomEvent::RoomEncryption(e) => RoomEventView::RoomEncryption(e.deep_view()),
            RoomEvent::RoomEncrypted(e) => RoomEventView::RoomEncrypted(e.deep_view()),
            RoomEvent::Other => RoomEventView::Other,
        }
    }
}

#[derive(Clone, Debug, PartialEq, Eq)]
/// An event of the state of a room.
pub enum StateEvent {
    /// The membership of a user.
    RoomMember(MemberEvent),
    /// The name.
    RoomName(NameEvent),
    /// The canonical alias.
    RoomCanonicalAlias(CanonicalAliasEvent),
    /// The aliases.
    RoomAliases(AliasesEvent),
    /// The avatar.
    RoomAvatar(AvatarEvent),
    /// The topic.
    RoomTopic(TopicEvent),
    /// The power levels.
    RoomPowerLevels(PowerLevelsEvent),
    /// The join rules.
    RoomJoinRules(JoinRulesEvent),
    /// The room was replaced.
    RoomTombstone(TombstoneEvent),
    /// Encryption was switched on.
    RoomEncryption(EncryptionEvent),
    /// An event of a kind that the client does not look at.
    Other,
}

/// The model of [`StateEvent`].
pub enum StateEventView {
    RoomMember(MemberEventView),
    RoomName(NameEventView),
    RoomCanonicalAlias(CanonicalAliasEventView),
    RoomAliases(AliasesEventView),
    RoomAvatar(AvatarEventView),
    RoomTopic(TopicEventView),
    RoomPowerLevels(PowerLevelsEventView),
    RoomJoinRules(JoinRulesEventView),
    RoomTombstone(TombstoneEventView),
    RoomEncryption(EncryptionEventView),
    Other,
}

impl DeepView for StateEvent {
    type V = StateEventView;

    open spec fn deep_view(&self) -> StateEventView {
        match self {
            StateEvent::RoomMember(e) => StateEventView::RoomMember(e.deep_view()),
            StateEvent::RoomName(e) => StateEventView::RoomName(e.deep_view()),
            StateEvent::RoomCanonicalAlias(e) => StateEventView::RoomCanonicalAlias(e.deep_view()),
            StateEvent::RoomAliases(e) => StateEventView::RoomAliases(e.deep_view()),
            StateEvent::RoomAvatar(e) => StateEventView::RoomAvatar(e.deep_view()),
            StateEvent::RoomTopic(e) => StateEventView::RoomTopic(e.deep_view()),
            StateEvent::RoomPowerLevels(e) => StateEventView::RoomPowerLevels(e.deep_view()),
            StateEvent::RoomJoinRules(e) => StateEventView::RoomJoinRules(e.deep_view()),
            StateEvent::RoomTombstone(e) => StateEventView::RoomTombstone(e.deep_view()),
            StateEvent::RoomEncryption(e) => StateEventView::RoomEncryption(e.deep_view()),
            StateEvent::Other => StateEventView::Other,
        }
    }
}

#[derive(Clone, Debug, PartialEq, Eq)]
/// An event of the reduced state that comes with an invitation.
pub enum AnyStrippedStateEvent {
    /// The membership of a user.
    RoomMember(MemberEvent),
    /// The name.
    RoomName(NameEvent),
    /// The canonical alias.
    RoomCanonicalAlias(CanonicalAliasEvent),
    /// The aliases.
    RoomAliases(AliasesEvent),
    /// The avatar.
    RoomAvatar(AvatarEvent),
    /// The topic.
    RoomTopic(TopicEvent),
    /// The power levels.
    RoomPowerLevels(PowerLevelsEvent),
    /// The join rules.
    RoomJoinRules(JoinRulesEvent),
    /// An event of a kind that the client does not look at.
    Other,
}

/// The model of [`AnyStrippedStateEvent`].
pub enum AnyStrippedStateEventView {
    RoomMember(MemberEventView),
    RoomName(NameEventView),
    RoomCanonicalAlias(CanonicalAliasEventView),
    RoomAliases(AliasesEventView),
    RoomAvatar(AvatarEventView),
    RoomTopic(TopicEventView),
    RoomPowerLevels(PowerLevelsEventView),
    RoomJoinRules(JoinRulesEventView),
    Other,
}

impl DeepView for AnyStrippedStateEvent {
    type V = AnyStrippedStateEventView;

    open spec fn deep_view(&self) -> AnyStrippedStateEventView {
        match self {
            AnyStrippedStateEvent::RoomMember(e) => AnyStrippedStateEventView::RoomMember(e.deep_view()),
            AnyStrippedStateEvent::RoomName(e) => AnyStrippedStateEventView::RoomName(e.deep_view()),
            AnyStrippedStateEvent::RoomCanonicalAlias(e) => AnyStrippedStateEventView::RoomCanonicalAlias(e.deep_view()),
            AnyStrippedStateEvent::RoomAliases(e) => AnyStrippedStateEventView::RoomAliases(e.deep_view()),
            AnyStrippedStateEvent::RoomAvatar(e) => AnyStrippedStateEventView::RoomAvatar(e.deep_view()),
            AnyStrippedStateEvent::RoomTopic(e) => AnyStrippedStateEventView::RoomTopic(e.deep_view()),
            AnyStrippedStateEvent::RoomPowerLevels(e) => AnyStrippedStateEventView::RoomPowerLevels(e.deep_view()),
            AnyStrippedStateEvent::RoomJoinRules(e) => AnyStrippedStateEventView::RoomJoinRules(e.deep_view()),
            AnyStrippedStateEvent::Other => AnyStrippedStateEventView::Other,
        }
    }
}

#[derive(Clone, Debug, PartialEq, Eq)]
/// An event that belongs to no timeline: account data or ephemeral data.
pub enum NonRoomEvent {
    /// The presence of a user.
    Presence(PresenceEvent),
    /// The users that the account ignores.
    IgnoredUserList(IgnoredUserListEvent),
    /// The push rules of the account.
    PushRules(PushRulesEvent),
    /// How far the user has read.
    FullyRead(FullyReadEvent),
    /// An event of a kind that the client does not look at.
    Other,
}

/// The model of [`NonRoomEvent`].
pub enum NonRoomEventView {
    Presence(PresenceEventView),
    IgnoredUserList(IgnoredUserListEventView),
    PushRules(PushRulesEventView),
    FullyRead(FullyReadEventView),
    Other,
}

impl DeepView for NonRoomEvent {
    type V = NonRoomEventView;

    open spec fn deep_view(&self) -> NonRoomEventView {
        match self {
            NonRoomEvent::Presence(e) => NonRoomEventView::Presence(e.deep_view()),
            NonRoomEvent::IgnoredUserList(e) => NonRoomEventView::IgnoredUserList(e.deep_view()),
            NonRoomEvent::PushRules(e) => NonRoomEventView::PushRules(e.deep_view()),
            NonRoomEvent::FullyRead(e) => NonRoomEventView::FullyRead(e.deep_view()),
            NonRoomEvent::Other => NonRoomEventView::Other,
        }
    }
}

} // verus!
