//! The state of one room, and how events change it.
//!
//! Every operation that applies an event reports whether the room changed,
//! and it reports so exactly: `true` if and only if the model of the room
//! after the event differs from the model before it.

use crate::events::{
    AliasesEvent, AliasesEventView, AnyStrippedStateEvent, AnyStrippedStateEventView, AvatarEvent,
    AvatarEventView, CanonicalAliasEvent, CanonicalAliasEventView, JoinRule, JoinRulesEvent,
    JoinRulesEventView, MemberEvent, MemberEventView, MembershipState, NameEvent, NameEventView,
    NonRoomEventView, PowerLevels, PowerLevelsEvent, PowerLevelsEventView, PresenceEvent, PresenceEventView,
    RedactionEvent, RedactionEventView, RoomEvent, RoomEventView, StateEvent, StateEventView,
    TombstoneEvent, TombstoneEventView, TopicEvent, TopicEventView, UserPower, UserPowerView,
};
use crate::id_map::IdMap;
use crate::sync::{JoinedRoomView, TimelineEventView};
use crate::identifiers::{EventId, RoomId, UserId};
use crate::room_member::{RoomMember, RoomMemberView};
use crate::snapshot::{
    same_list, same_option, snapshot_list, snapshot_option, SameModel, Snapshot,
};
use crate::text::{append_decimal, decimal};
use vstd::prelude::*;
use vstd::string::*;

verus! {

/// That a room was replaced by another.
#[derive(Clone, Debug, PartialEq, Eq)]
pub struct Tombstone {
    /// A message of the server.
    pub body: String,
    /// The room that is now active.
    pub replacement: RoomId,
}

/// The model of [`Tombstone`].
pub struct TombstoneView {
    pub body: Seq<char>,
    pub replacement: Seq<char>,
}

impl DeepView for Tombstone {
    type V = TombstoneView;

    open spec fn deep_view(&self) -> TombstoneView {
        TombstoneView { body: self.body@, replacement: self.replacement@ }
    }
}

impl Snapshot for Tombstone {
    open spec fn wf(&self) -> bool {
        true
    }

    fn snapshot(&self) -> (copy: Self) {
        Tombstone { body: self.body.clone(), replacement: self.replacement.clone() }
    }
}

impl SameModel for Tombstone {
    fn same(&self, other: &Self) -> (b: bool) {
        self.body.same(&other.body) && self.replacement.same(&other.replacement)
    }
}

/// What the server says of the size of a room, for rooms without a name.
#[derive(Clone, Debug, PartialEq, Eq)]
pub struct RoomSummary {
    /// A few members after whom the room can be named.
    pub heroes: Vec<UserId>,
    /// How many users have joined.
    pub joined_member_count: Option<u64>,
    /// How many users are invited.
    pub invited_member_count: Option<u64>,
}

/// The model of [`RoomSummary`].
pub struct RoomSummaryView {
    pub heroes: Seq<Seq<char>>,
    pub joined_member_count: Option<u64>,
    pub invited_member_count: Option<u64>,
}

impl DeepView for RoomSummary {
    type V = RoomSummaryView;

    open spec fn deep_view(&self) -> RoomSummaryView {
        RoomSummaryView {
            heroes: self.heroes.deep_view(),
            joined_member_count: self.joined_member_count,
            invited_member_count: self.invited_member_count,
        }
    }
}

/// How many notifications of a room are unread.
#[derive(Clone, Copy, Debug, PartialEq, Eq, Structural)]
pub struct UnreadNotificationsCount {
    /// Unread notifications that are highlighted.
    pub highlight_count: Option<u64>,
    /// Unread notifications in all.
    pub notification_count: Option<u64>,
}

/// A room as the client knows it.
#[derive(Clone, Debug)]
pub struct Room {
    /// The id of the room.
    pub room_id: RoomId,
    /// The user whose client this is.
    pub own_user_id: UserId,
    /// The name from the last `m.room.name` event.
    pub name: Option<String>,
    /// The event that gave the room its name.
    pub name_event: Option<EventId>,
    /// The canonical alias.
    pub canonical_alias: Option<String>,
    /// The event that gave the room its canonical alias.
    pub canonical_alias_event: Option<EventId>,
    /// The aliases.
    pub aliases: Vec<String>,
    /// The topic.
    pub topic: Option<String>,
    /// The event that gave the room its topic.
    pub topic_event: Option<EventId>,
    /// The avatar.
    pub avatar_url: Option<String>,
    /// The event that gave the room its avatar.
    pub avatar_event: Option<EventId>,
    /// Who may join.
    pub join_rule: Option<JoinRule>,
    /// The members, by user id.
    pub members: IdMap<RoomMember>,
    /// The power that actions require.
    pub power_levels: Option<PowerLevels>,
    /// Whether an `m.room.encryption` event was seen.
    pub encrypted: bool,
    /// Unread notifications that are highlighted.
    pub unread_highlight: Option<u64>,
    /// Unread notifications in all.
    pub unread_notifications: Option<u64>,
    /// A few members after whom the room is named where it has no name.
    pub heroes: Vec<UserId>,
    /// How many users have joined, as the server counts.
    pub joined_member_count: Option<u64>,
    /// How many users are invited, as the server counts.
    pub invited_member_count: Option<u64>,
    /// Set once the room has been replaced.
    pub tombstone: Option<Tombstone>,
}

/// The model of [`Room`].
#[verifier::ext_equal]
pub struct RoomView {
    pub room_id: Seq<char>,
    pub own_user_id: Seq<char>,
    pub name: Option<Seq<char>>,
    pub name_event: Option<Seq<char>>,
    pub canonical_alias: Option<Seq<char>>,
    pub canonical_alias_event: Option<Seq<char>>,
    pub aliases: Seq<Seq<char>>,
    pub topic: Option<Seq<char>>,
    pub topic_event: Option<Seq<char>>,
    pub avatar_url: Option<Seq<char>>,
    pub avatar_event: Option<Seq<char>>,
    pub join_rule: Option<JoinRule>,
    pub members: Map<Seq<char>, RoomMemberView>,
    pub power_levels: Option<PowerLevels>,
    pub encrypted: bool,
    pub unread_highlight: Option<u64>,
    pub unread_notifications: Option<u64>,
    pub heroes: Seq<Seq<char>>,
    pub joined_member_count: Option<u64>,
    pub invited_member_count: Option<u64>,
    pub tombstone: Option<TombstoneView>,
}

impl DeepView for Room {
    type V = RoomView;

    open spec fn deep_view(&self) -> RoomView {
        RoomView {
            room_id: self.room_id@,
            own_user_id: self.own_user_id@,
            name: self.name.deep_view(),
            name_event: self.name_event.deep_view(),
            canonical_alias: self.canonical_alias.deep_view(),
            canonical_alias_event: self.canonical_alias_event.deep_view(),
            aliases: self.aliases.deep_view(),
            topic: self.topic.deep_view(),
            topic_event: self.topic_event.deep_view(),
            avatar_url: self.avatar_url.deep_view(),
            avatar_event: self.avatar_event.deep_view(),
            join_rule: self.join_rule,
            members: self.members.deep_view(),
            power_levels: self.power_levels,
            encrypted: self.encrypted,
            unread_highlight: self.unread_highlight,
            unread_notifications: self.unread_notifications,
            heroes: self.heroes.deep_view(),
            joined_member_count: self.joined_member_count,
            invited_member_count: self.invited_member_count,
            tombstone: self.tombstone.deep_view(),
        }
    }
}

impl View for Room {
    type V = RoomView;

    open spec fn view(&self) -> RoomView {
        self.deep_view()
    }
}

impl Snapshot for Room {
    open spec fn wf(&self) -> bool {
        self.members.wf()
    }

    fn snapshot(&self) -> (copy: Self) {
        Room {
            room_id: self.room_id.clone(),
            own_user_id: self.own_user_id.clone(),
            name: snapshot_option(&self.name),
            name_event: snapshot_option(&self.name_event),
            canonical_alias: snapshot_option(&self.canonical_alias),
            canonical_alias_event: snapshot_option(&self.canonical_alias_event),
            aliases: snapshot_list(&self.aliases),
            topic: snapshot_option(&self.topic),
            topic_event: snapshot_option(&self.topic_event),
            avatar_url: snapshot_option(&self.avatar_url),
            avatar_event: snapshot_option(&self.avatar_event),
            join_rule: self.join_rule,
            members: self.members.snapshot(),
            power_levels: self.power_levels,
            encrypted: self.encrypted,
            unread_highlight: self.unread_highlight,
            unread_notifications: self.unread_notifications,
            heroes: snapshot_list(&self.heroes),
            joined_member_count: self.joined_member_count,
            invited_member_count: self.invited_member_count,
            tombstone: snapshot_option(&self.tombstone),
        }
    }
}

/// The event that stands for an event of the timeline of a joined room:
/// what the crypto engine found inside, where the event is encrypted, the
/// client has an engine and the engine could decrypt; else the event
/// itself.  `None` where the event could not be read.
pub open spec fn effective_event(event: TimelineEventView, engine: bool) -> Option<RoomEventView> {
    match event.event {
        Some(RoomEventView::RoomEncrypted(e)) => if engine && event.decrypted is Some {
            event.decrypted
        } else {
            event.event
        },
        other => other,
    }
}

/// The power levels that a list names, by user.  A later entry of a user
/// replaces an earlier one.
pub open spec fn power_map(users: Seq<UserPowerView>) -> Map<Seq<char>, i64>
    decreases users.len(),
{
    if users.len() == 0 {
        Map::empty()
    } else {
        power_map(users.drop_last()).insert(users.last().user_id, users.last().power)
    }
}

/// Whether `k` is among the first `i` entries of `ks`.
spec fn listed_before(ks: Seq<Seq<char>>, i: int, k: Seq<char>) -> bool {
    exists|j: int| 0 <= j < i && #[trigger] ks[j] == k
}

/// The level that `users` gives to `user`, if it names the user.
fn find_power(users: &Vec<UserPower>, user: &String) -> (found: Option<i64>)
    ensures
        match found {
            Some(p) => power_map(users.deep_view()).contains_key(user@) && power_map(
                users.deep_view(),
            )[user@] == p,
            None => !power_map(users.deep_view()).contains_key(user@),
        },
{
    let mut found: Option<i64> = None;
    let mut i: usize = 0;
    while i < users.len()
        invariant
            i <= users.len(),
            match found {
                Some(p) => power_map(users.deep_view().take(i as int)).contains_key(user@)
                    && power_map(users.deep_view().take(i as int))[user@] == p,
                None => !power_map(users.deep_view().take(i as int)).contains_key(user@),
            },
        decreases users.len() - i,
    {
        proof {
            let s = users.deep_view();
            assert(s.take(i + 1).drop_last() =~= s.take(i as int));
            assert(s.take(i + 1).last() == users[i as int].deep_view());
        }
        if users[i].user_id.same(user) {
            found = Some(users[i].power);
        }
        i = i + 1;
    }
    assert(users.deep_view().take(users.len() as int) =~= users.deep_view());
    found
}

impl RoomView {
    /// A room of which nothing is known but its id.
    pub open spec fn new(room_id: Seq<char>, own_user_id: Seq<char>) -> RoomView {
        RoomView {
            room_id,
            own_user_id,
            name: None,
            name_event: None,
            canonical_alias: None,
            canonical_alias_event: None,
            aliases: Seq::empty(),
            topic: None,
            topic_event: None,
            avatar_url: None,
            avatar_event: None,
            join_rule: None,
            members: Map::empty(),
            power_levels: None,
            encrypted: false,
            unread_highlight: None,
            unread_notifications: None,
            heroes: Seq::empty(),
            joined_member_count: None,
            invited_member_count: None,
            tombstone: None,
        }
    }

    /// A membership event updates the record of a known user, and adds a
    /// record for an unknown user who joins or is invited.
    pub open spec fn with_member_event(self, event: MemberEventView) -> RoomView {
        if self.members.contains_key(event.state_key) {
            RoomView {
                members: self.members.insert(
                    event.state_key,
                    self.members[event.state_key].with_membership(event),
                ),
                ..self
            }
        } else if event.membership == MembershipState::Join || event.membership
            == MembershipState::Invite {
            RoomView {
                members: self.members.insert(event.state_key, RoomMemberView::from_event(event)),
                ..self
            }
        } else {
            self
        }
    }

    /// A name event that carries a name sets it.
    pub open spec fn with_name_event(self, event: NameEventView) -> RoomView {
        match event.name {
            Some(name) => RoomView { name: Some(name), name_event: event.event_id, ..self },
            None => self,
        }
    }

    /// A canonical alias event that carries an alias sets it.
    pub open spec fn with_canonical_alias_event(self, event: CanonicalAliasEventView) -> RoomView {
        match event.alias {
            Some(alias) => RoomView {
                canonical_alias: Some(alias),
                canonical_alias_event: event.event_id,
                ..self
            },
            None => self,
        }
    }

    /// An aliases event replaces the aliases.
    pub open spec fn with_aliases_event(self, event: AliasesEventView) -> RoomView {
        RoomView { aliases: event.aliases, ..self }
    }

    /// An avatar event sets the avatar.
    pub open spec fn with_avatar_event(self, event: AvatarEventView) -> RoomView {
        RoomView { avatar_url: Some(event.url), avatar_event: event.event_id, ..self }
    }

    /// A topic event sets the topic.
    pub open spec fn with_topic_event(self, event: TopicEventView) -> RoomView {
        RoomView { topic: Some(event.topic), topic_event: event.event_id, ..self }
    }

    /// A redaction takes back what the redacted event gave the room: its
    /// name, its canonical alias, its topic or its avatar.  The redaction
    /// of any other event leaves the room as it is.
    pub open spec fn with_redaction_event(self, event: RedactionEventView) -> RoomView {
        let id = Some(event.redacts);
        RoomView {
            name: if self.name_event == id {
                None
            } else {
                self.name
            },
            name_event: if self.name_event == id {
                None
            } else {
                self.name_event
            },
            canonical_alias: if self.canonical_alias_event == id {
                None
            } else {
                self.canonical_alias
            },
            canonical_alias_event: if self.canonical_alias_event == id {
                None
            } else {
                self.canonical_alias_event
            },
            topic: if self.topic_event == id {
                None
            } else {
                self.topic
            },
            topic_event: if self.topic_event == id {
                None
            } else {
                self.topic_event
            },
            avatar_url: if self.avatar_event == id {
                None
            } else {
                self.avatar_url
            },
            avatar_event: if self.avatar_event == id {
                None
            } else {
                self.avatar_event
            },
            ..self
        }
    }

    /// A join rules event sets the rule.
    pub open spec fn with_join_rules_event(self, event: JoinRulesEventView) -> RoomView {
        RoomView { join_rule: Some(event.join_rule), ..self }
    }

    /// A power levels event sets the levels of the room, and the level of
    /// every member that it names.
    pub open spec fn with_power_levels_event(self, event: PowerLevelsEventView) -> RoomView {
        let powers = power_map(event.users);
        RoomView {
            power_levels: Some(event.levels),
            members: Map::new(
                |user: Seq<char>| self.members.contains_key(user),
                |user: Seq<char>|
                    if powers.contains_key(user) {
                        self.members[user].with_power(powers[user])
                    } else {
                        self.members[user]
                    },
            ),
            ..self
        }
    }

    /// A tombstone event marks the room as replaced.
    pub open spec fn with_tombstone_event(self, event: TombstoneEventView) -> RoomView {
        RoomView {
            tombstone: Some(
                TombstoneView { body: event.body, replacement: event.replacement_room },
            ),
            ..self
        }
    }

    /// An encryption event marks the room as encrypted.
    pub open spec fn with_encryption_event(self) -> RoomView {
        RoomView { encrypted: true, ..self }
    }

    /// A presence event updates the record of its sender, if the sender is a
    /// member.
    pub open spec fn with_presence_event(self, event: PresenceEventView) -> RoomView {
        if self.members.contains_key(event.sender) {
            RoomView {
                members: self.members.insert(
                    event.sender,
                    self.members[event.sender].with_presence(event),
                ),
                ..self
            }
        } else {
            self
        }
    }

    /// The room with the heroes and the counts of a summary.
    pub open spec fn with_summary(self, summary: RoomSummaryView) -> RoomView {
        RoomView {
            heroes: summary.heroes,
            joined_member_count: summary.joined_member_count,
            invited_member_count: summary.invited_member_count,
            ..self
        }
    }

    /// The room with the given counts of unread notifications.
    pub open spec fn with_unread(self, counts: UnreadNotificationsCount) -> RoomView {
        RoomView {
            unread_highlight: counts.highlight_count,
            unread_notifications: counts.notification_count,
            ..self
        }
    }

    /// The name of a hero: the display name, where the hero is a member
    /// with one, else the user id.
    pub open spec fn hero_name(self, hero: Seq<char>) -> Seq<char> {
        if self.members.contains_key(hero) && self.members[hero].display_name is Some {
            self.members[hero].display_name->0
        } else {
            hero
        }
    }

    /// The names of `heroes`, in order, with `", "` between them.
    pub open spec fn hero_names(self, heroes: Seq<Seq<char>>) -> Seq<char>
        decreases heroes.len(),
    {
        if heroes.len() == 0 {
            Seq::empty()
        } else if heroes.len() == 1 {
            self.hero_name(heroes[0])
        } else {
            self.hero_names(heroes.drop_last()) + ", "@ + self.hero_name(heroes.last())
        }
    }

    /// How many users have joined or are invited, as the server counts.
    pub open spec fn member_count(self) -> nat {
        (match self.joined_member_count {
            Some(n) => n as nat,
            None => 0nat,
        }) + (match self.invited_member_count {
            Some(n) => n as nat,
            None => 0nat,
        })
    }

    /// How many members the room has beside the user and the heroes.
    pub open spec fn others(self) -> int {
        self.member_count() - 1 - self.heroes.len()
    }

    /// The name to show for the room.
    ///
    /// It is the name of the room; without one the canonical alias; without
    /// one the first alias; without one the names of the heroes, with
    /// `", "` between them and, where the room has more members than the
    /// user and the heroes, `", and N others"` behind them, `N` being the
    /// number of those members; and without heroes `"Empty room"`.
    pub open spec fn display_name(self) -> Seq<char> {
        if self.name is Some {
            self.name->0
        } else if self.canonical_alias is Some {
            self.canonical_alias->0
        } else if self.aliases.len() > 0 {
            self.aliases[0]
        } else if self.heroes.len() > 0 {
            if self.others() > 0 {
                self.hero_names(self.heroes) + ", and "@ + decimal(self.others() as nat)
                    + " others"@
            } else {
                self.hero_names(self.heroes)
            }
        } else {
            "Empty room"@
        }
    }

    /// The room after a state event.
    pub open spec fn with_state_event(self, event: StateEventView) -> RoomView {
        match event {
            StateEventView::RoomMember(e) => self.with_member_event(e),
            StateEventView::RoomName(e) => self.with_name_event(e),
            StateEventView::RoomCanonicalAlias(e) => self.with_canonical_alias_event(e),
            StateEventView::RoomAliases(e) => self.with_aliases_event(e),
            StateEventView::RoomAvatar(e) => self.with_avatar_event(e),
            StateEventView::RoomTopic(e) => self.with_topic_event(e),
            StateEventView::RoomPowerLevels(e) => self.with_power_levels_event(e),
            StateEventView::RoomJoinRules(e) => self.with_join_rules_event(e),
            StateEventView::RoomTombstone(e) => self.with_tombstone_event(e),
            StateEventView::RoomEncryption(_) => self.with_encryption_event(),
            StateEventView::Other => self,
        }
    }

    /// The room after a list of state events, in order.  An event that
    /// could not be read is skipped.
    pub open spec fn with_state_events(self, events: Seq<Option<StateEventView>>) -> RoomView
        decreases events.len(),
    {
        if events.len() == 0 {
            self
        } else {
            let before = self.with_state_events(events.drop_last());
            match events.last() {
                Some(e) => before.with_state_event(e),
                None => before,
            }
        }
    }

    /// The room after the timeline of a joined room, in order.  An event
    /// counts in the form that `effective_event` gives it; an event that
    /// could not be read is skipped.
    pub open spec fn with_timeline_events(self, events: Seq<TimelineEventView>, engine: bool) -> RoomView
        decreases events.len(),
    {
        if events.len() == 0 {
            self
        } else {
            let before = self.with_timeline_events(events.drop_last(), engine);
            match effective_event(events.last(), engine) {
                Some(e) => before.with_timeline_event(e),
                None => before,
            }
        }
    }

    /// The room after the account data, or the transient events, of a
    /// joined room, in order.  Of these only presence events touch the
    /// room.
    pub open spec fn with_account_data_events(self, events: Seq<Option<NonRoomEventView>>) -> RoomView
        decreases events.len(),
    {
        if events.len() == 0 {
            self
        } else {
            let before = self.with_account_data_events(events.drop_last());
            match events.last() {
                Some(NonRoomEventView::Presence(e)) => before.with_presence_event(e),
                _ => before,
            }
        }
    }

    /// The room after a list of presence events, in order.
    pub open spec fn with_presence_events(self, events: Seq<Option<PresenceEventView>>) -> RoomView
        decreases events.len(),
    {
        if events.len() == 0 {
            self
        } else {
            let before = self.with_presence_events(events.drop_last());
            match events.last() {
                Some(e) => before.with_presence_event(e),
                None => before,
            }
        }
    }

    /// The room after everything that a response holds of it as a joined
    /// room: the state, the summary and the unread counts, the timeline,
    /// the account data, the presence events of the response and the
    /// transient events.
    pub open spec fn after_joined_room(
        self,
        room: JoinedRoomView,
        presence: Seq<Option<PresenceEventView>>,
        engine: bool,
    ) -> RoomView {
        self.with_state_events(room.state).with_summary(room.summary).with_unread(
            room.unread_notifications,
        ).with_timeline_events(room.timeline, engine).with_account_data_events(
            room.account_data,
        ).with_presence_events(presence).with_account_data_events(room.ephemeral)
    }

    /// The room after an event of the reduced state of an invitation.
    pub open spec fn with_stripped_state_event(self, event: AnyStrippedStateEventView) -> RoomView {
        match event {
            AnyStrippedStateEventView::RoomMember(e) => self.with_member_event(e),
            AnyStrippedStateEventView::RoomName(e) => self.with_name_event(e),
            AnyStrippedStateEventView::RoomCanonicalAlias(e) => self.with_canonical_alias_event(e),
            AnyStrippedStateEventView::RoomAliases(e) => self.with_aliases_event(e),
            AnyStrippedStateEventView::RoomAvatar(e) => self.with_avatar_event(e),
            AnyStrippedStateEventView::RoomTopic(e) => self.with_topic_event(e),
            AnyStrippedStateEventView::RoomPowerLevels(e) => self.with_power_levels_event(e),
            AnyStrippedStateEventView::RoomJoinRules(e) => self.with_join_rules_event(e),
            AnyStrippedStateEventView::Other => self,
        }
    }

    /// The room after an event of its timeline.  Messages, feedback and
    /// encrypted events leave the room as it is.
    pub open spec fn with_timeline_event(self, event: RoomEventView) -> RoomView {
        match event {
            RoomEventView::RoomMember(e) => self.with_member_event(e),
            RoomEventView::RoomName(e) => self.with_name_event(e),
            RoomEventView::RoomCanonicalAlias(e) => self.with_canonical_alias_event(e),
            RoomEventView::RoomAliases(e) => self.with_aliases_event(e),
            RoomEventView::RoomAvatar(e) => self.with_avatar_event(e),
            RoomEventView::RoomTopic(e) => self.with_topic_event(e),
            RoomEventView::RoomPowerLevels(e) => self.with_power_levels_event(e),
            RoomEventView::RoomJoinRules(e) => self.with_join_rules_event(e),
            RoomEventView::RoomTombstone(e) => self.with_tombstone_event(e),
            RoomEventView::RoomEncryption(_) => self.with_encryption_event(),
            RoomEventView::RoomMessage(_) => self,
            RoomEventView::RoomMessageFeedback(_) => self,
            RoomEventView::RoomRedaction(e) => self.with_redaction_event(e),
            RoomEventView::RoomEncrypted(_) => self,
            RoomEventView::Other => self,
        }
    }
}

impl Room {
    /// A room of which nothing is known but its id.
    pub fn new(room_id: &RoomId, own_user_id: &UserId) -> (room: Room)
        ensures
            room.wf(),
            room@ == RoomView::new(room_id@, own_user_id@),
    {
        Room {
            room_id: room_id.clone(),
            own_user_id: own_user_id.clone(),
            name: None,
            name_event: None,
            canonical_alias: None,
            canonical_alias_event: None,
            aliases: Vec::new(),
            topic: None,
            topic_event: None,
            avatar_url: None,
            avatar_event: None,
            join_rule: None,
            members: IdMap::new(),
            power_levels: None,
            encrypted: false,
            unread_highlight: None,
            unread_notifications: None,
            heroes: Vec::new(),
            joined_member_count: None,
            invited_member_count: None,
            tombstone: None,
        }
    }

    /// The names of the heroes, in order, with `", "` between them.
    fn hero_names(&self) -> (names: String)
        requires
            self.wf(),
        ensures
            names@ == self@.hero_names(self@.heroes),
    {
        let ghost all = self@.heroes;
        let mut names = String::new();
        let mut i: usize = 0;
        while i < self.heroes.len()
            invariant
                self.wf(),
                i <= self.heroes.len(),
                all == self@.heroes,
                names@ == self@.hero_names(all.take(i as int)),
            decreases self.heroes.len() - i,
        {
            proof {
                assert(all.take(i + 1).drop_last() =~= all.take(i as int));
                assert(all.take(i + 1).last() == self.heroes[i as int]@);
                assert(all.take(i + 1)[0] == all[0]);
            }
            if i > 0 {
                names.append(", ");
            }
            let hero = &self.heroes[i];
            match self.members.get(hero) {
                Some(member) => {
                    match &member.display_name {
                        Some(name) => names.append(name.as_str()),
                        None => names.append(hero.as_str()),
                    }
                },
                None => names.append(hero.as_str()),
            }
            assert(names@ =~= self@.hero_names(all.take(i + 1)));
            i = i + 1;
        }
        assert(all.take(self.heroes.len() as int) =~= all);
        names
    }

    /// The name to show for the room.
    pub fn calculate_name(&self) -> (name: String)
        requires
            self.wf(),
        ensures
            name@ == self@.display_name(),
    {
        match &self.name {
            Some(name) => {
                return name.clone();
            },
            None => {},
        }
        match &self.canonical_alias {
            Some(alias) => {
                return alias.clone();
            },
            None => {},
        }
        if self.aliases.len() > 0 {
            return self.aliases[0].clone();
        }
        if self.heroes.len() == 0 {
            return "Empty room".to_owned();
        }
        let joined: u128 = match self.joined_member_count {
            Some(n) => n as u128,
            None => 0,
        };
        let invited: u128 = match self.invited_member_count {
            Some(n) => n as u128,
            None => 0,
        };
        let known: u128 = self.heroes.len() as u128 + 1;
        let mut name = self.hero_names();
        if joined + invited > known {
            name.append(", and ");
            append_decimal(&mut name, joined + invited - known);
            name.append(" others");
        }
        name
    }

    /// Whether the room is encrypted.
    pub fn is_encrypted(&self) -> (b: bool)
        ensures
            b == self@.encrypted,
    {
        self.encrypted
    }

    /// Applies a membership event.  Returns whether the room changed.
    pub fn handle_membership(&mut self, event: &MemberEvent) -> (changed: bool)
        requires
            old(self).wf(),
        ensures
            final(self).wf(),
            final(self)@ == old(self)@.with_member_event(event.deep_view()),
            changed == (final(self)@ != old(self)@),
    {
        match self.members.remove(&event.state_key) {
            Some(member) => {
                let mut member = member;
                let changed = member.update_member(event);
                self.members.insert(event.state_key.clone(), member);
                proof {
                    let k = event.state_key@;
                    assert(self@.members =~= old(self)@.members.insert(
                        k,
                        old(self)@.members[k].with_membership(event.deep_view()),
                    ));
                    if !changed {
                        assert(self@.members =~= old(self)@.members);
                    } else {
                        assert(self@.members[k] != old(self)@.members[k]);
                    }
                }
                changed
            },
            None => {
                assert(self@.members =~= old(self)@.members);
                match event.membership {
                    MembershipState::Join | MembershipState::Invite => {
                        self.members.insert(event.state_key.clone(), RoomMember::new(event));
                        assert(self@.members.contains_key(event.state_key@));
                        true
                    },
                    _ => false,
                }
            },
        }
    }

    /// Applies a name event.  Returns whether the room changed.
    pub fn handle_room_name(&mut self, event: &NameEvent) -> (changed: bool)
        requires
            old(self).wf(),
        ensures
            final(self).wf(),
            final(self)@ == old(self)@.with_name_event(event.deep_view()),
            changed == (final(self)@ != old(self)@),
    {
        match &event.name {
            Some(_) => {
                if same_option(&self.name, &event.name) && same_option(
                    &self.name_event,
                    &event.event_id,
                ) {
                    false
                } else {
                    self.name = snapshot_option(&event.name);
                    self.name_event = snapshot_option(&event.event_id);
                    true
                }
            },
            None => false,
        }
    }

    /// Applies a canonical alias event.  Returns whether the room changed.
    pub fn handle_canonical(&mut self, event: &CanonicalAliasEvent) -> (changed: bool)
        requires
            old(self).wf(),
        ensures
            final(self).wf(),
            final(self)@ == old(self)@.with_canonical_alias_event(event.deep_view()),
            changed == (final(self)@ != old(self)@),
    {
        match &event.alias {
            Some(_) => {
                if same_option(&self.canonical_alias, &event.alias) && same_option(
                    &self.canonical_alias_event,
                    &event.event_id,
                ) {
                    false
                } else {
                    self.canonical_alias = snapshot_option(&event.alias);
                    self.canonical_alias_event = snapshot_option(&event.event_id);
                    true
                }
            },
            None => false,
        }
    }

    /// Applies an aliases event.  Returns whether the room changed.
    pub fn handle_room_aliases(&mut self, event: &AliasesEvent) -> (changed: bool)
        requires
            old(self).wf(),
        ensures
            final(self).wf(),
            final(self)@ == old(self)@.with_aliases_event(event.deep_view()),
            changed == (final(self)@ != old(self)@),
    {
        if same_list(&self.aliases, &event.aliases) {
            false
        } else {
            self.aliases = snapshot_list(&event.aliases);
            true
        }
    }

    /// Applies an avatar event.  Returns whether the room changed.
    pub fn handle_room_avatar(&mut self, event: &AvatarEvent) -> (changed: bool)
        requires
            old(self).wf(),
        ensures
            final(self).wf(),
            final(self)@ == old(self)@.with_avatar_event(event.deep_view()),
            changed == (final(self)@ != old(self)@),
    {
        let url = Some(event.url.clone());
        if same_option(&self.avatar_url, &url) && same_option(&self.avatar_event, &event.event_id) {
            false
        } else {
            self.avatar_url = url;
            self.avatar_event = snapshot_option(&event.event_id);
            true
        }
    }

    /// Applies a topic event.  Returns whether the room changed.
    pub fn handle_room_topic(&mut self, event: &TopicEvent) -> (changed: bool)
        requires
            old(self).wf(),
        ensures
            final(self).wf(),
            final(self)@ == old(self)@.with_topic_event(event.deep_view()),
            changed == (final(self)@ != old(self)@),
    {
        let topic = Some(event.topic.clone());
        if same_option(&self.topic, &topic) && same_option(&self.topic_event, &event.event_id) {
            false
        } else {
            self.topic = topic;
            self.topic_event = snapshot_option(&event.event_id);
            true
        }
    }

    /// Applies a redaction.  Returns whether the room changed.
    pub fn handle_redaction(&mut self, event: &RedactionEvent) -> (changed: bool)
        requires
            old(self).wf(),
        ensures
            final(self).wf(),
            final(self)@ == old(self)@.with_redaction_event(event.deep_view()),
            changed == (final(self)@ != old(self)@),
    {
        let id = Some(event.redacts.clone());
        let mut changed = false;
        if same_option(&self.name_event, &id) {
            self.name = None;
            self.name_event = None;
            changed = true;
        }
        if same_option(&self.canonical_alias_event, &id) {
            self.canonical_alias = None;
            self.canonical_alias_event = None;
            changed = true;
        }
        if same_option(&self.topic_event, &id) {
            self.topic = None;
            self.topic_event = None;
            changed = true;
        }
        if same_option(&self.avatar_event, &id) {
            self.avatar_url = None;
            self.avatar_event = None;
            changed = true;
        }
        changed
    }

    /// Applies a join rules event.  Returns whether the room changed.
    pub fn handle_join_rules(&mut self, event: &JoinRulesEvent) -> (changed: bool)
        requires
            old(self).wf(),
        ensures
            final(self).wf(),
            final(self)@ == old(self)@.with_join_rules_event(event.deep_view()),
            changed == (final(self)@ != old(self)@),
    {
        let changed = self.join_rule != Some(event.join_rule);
        self.join_rule = Some(event.join_rule);
        changed
    }

    /// Applies a tombstone event.  Returns whether the room changed.
    pub fn handle_tombstone(&mut self, event: &TombstoneEvent) -> (changed: bool)
        requires
            old(self).wf(),
        ensures
            final(self).wf(),
            final(self)@ == old(self)@.with_tombstone_event(event.deep_view()),
            changed == (final(self)@ != old(self)@),
    {
        let tombstone = Some(
            Tombstone {
                body: event.body.clone(),
                replacement: event.replacement_room.clone(),
            },
        );
        if same_option(&self.tombstone, &tombstone) {
            false
        } else {
            self.tombstone = tombstone;
            true
        }
    }

    /// Applies an encryption event.  Returns whether the room changed.
    pub fn handle_encryption_event(&mut self) -> (changed: bool)
        requires
            old(self).wf(),
        ensures
            final(self).wf(),
            final(self)@ == old(self)@.with_encryption_event(),
            changed == (final(self)@ != old(self)@),
    {
        let changed = !self.encrypted;
        self.encrypted = true;
        changed
    }

    /// Applies a power levels event.  Returns whether the room changed.
    pub fn handle_power_level(&mut self, event: &PowerLevelsEvent) -> (changed: bool)
        requires
            old(self).wf(),
        ensures
            final(self).wf(),
            final(self)@ == old(self)@.with_power_levels_event(event.deep_view()),
            changed == (final(self)@ != old(self)@),
    {
        let ghost before = self@;
        let ghost powers = power_map(event.users.deep_view());
        let levels_changed = self.power_levels != Some(event.levels);
        let mut changed = levels_changed;
        self.power_levels = Some(event.levels);
        let keys = self.members.keys();
        let ghost ks = keys.deep_view();
        let mut i: usize = 0;
        while i < keys.len()
            invariant
                self.wf(),
                i <= keys.len(),
                ks == keys.deep_view(),
                ks.no_duplicates(),
                ks.to_set() == before.members.dom(),
                powers == power_map(event.users.deep_view()),
                self@ == (RoomView {
                    members: self@.members,
                    power_levels: Some(event.levels),
                    ..before
                }),
                self@.members.dom() == before.members.dom(),
                forall|k: Seq<char>| #[trigger]
                    before.members.contains_key(k) ==> self@.members[k] == (if listed_before(
                        ks,
                        i as int,
                        k,
                    ) && powers.contains_key(k) {
                        before.members[k].with_power(powers[k])
                    } else {
                        before.members[k]
                    }),
                changed == (levels_changed || exists|j: int|
                    0 <= j < i && powers.contains_key(#[trigger] ks[j])
                        && before.members[ks[j]].power_level != Some(powers[ks[j]])),
            decreases keys.len() - i,
        {
            let ghost k = ks[i as int];
            let ghost was = self@.members;
            let ghost had = changed;
            proof {
                assert(ks.to_set().contains(k));
                assert(before.members.contains_key(k));
                assert(!listed_before(ks, i as int, k));
            }
            match find_power(&event.users, &keys[i]) {
                Some(p) => {
                    match self.members.remove(&keys[i]) {
                        Some(member) => {
                            let mut member = member;
                            if member.update_power(p) {
                                changed = true;
                            }
                            self.members.insert(keys[i].clone(), member);
                            assert(self@.members =~= was.insert(
                                k,
                                before.members[k].with_power(p),
                            ));
                        },
                        None => {},
                    }
                },
                None => {},
            }
            proof {
                assert(self@.members.dom() =~= before.members.dom());
                assert forall|x: Seq<char>| #[trigger]
                    before.members.contains_key(x) implies self@.members[x] == (if listed_before(
                    ks,
                    i + 1,
                    x,
                ) && powers.contains_key(x) {
                    before.members[x].with_power(powers[x])
                } else {
                    before.members[x]
                }) by {
                    if x == k {
                        assert(ks[i as int] == x);
                    } else {
                        if listed_before(ks, i + 1, x) {
                            let j = choose|j: int| 0 <= j < i + 1 && #[trigger] ks[j] == x;
                            assert(0 <= j < i && ks[j] == x);
                        }
                        if listed_before(ks, i as int, x) {
                            let j = choose|j: int| 0 <= j < i && #[trigger] ks[j] == x;
                            assert(0 <= j < i + 1 && ks[j] == x);
                        }
                    }
                }
                let now = powers.contains_key(k) && before.members[k].power_level != Some(
                    powers[k],
                );
                assert(changed == (had || now));
                if now {
                    assert(powers.contains_key(ks[i as int]));
                }
            }
            i = i + 1;
        }
        proof {
            let target = before.with_power_levels_event(event.deep_view());
            assert forall|x: Seq<char>| before.members.contains_key(x) implies listed_before(
                ks,
                keys.len() as int,
                x,
            ) by {
                assert(ks.to_set().contains(x));
                let j = choose|j: int| 0 <= j < ks.len() && ks[j] == x;
                assert(ks[j] == x);
            }
            assert(self@.members =~= target.members);
            assert(self@ == target);
            if !changed {
                assert forall|x: Seq<char>| before.members.contains_key(x) implies
                    #[trigger] self@.members[x] == before.members[x] by {
                    if powers.contains_key(x) {
                        let j = choose|j: int| 0 <= j < ks.len() && #[trigger] ks[j] == x;
                        assert(powers.contains_key(ks[j]));
                    }
                }
                assert(self@.members =~= before.members);
                assert(self@ == before);
            } else if !levels_changed {
                let j = choose|j: int|
                    0 <= j < keys.len() && powers.contains_key(#[trigger] ks[j])
                        && before.members[ks[j]].power_level != Some(powers[ks[j]]);
                assert(ks.to_set().contains(ks[j]));
                assert(before.members.contains_key(ks[j]));
                assert(self@.members[ks[j]] != before.members[ks[j]]);
            }
        }
        changed
    }

    /// Applies a state event.  Returns whether the room changed.
    pub fn receive_state_event(&mut self, event: &StateEvent) -> (changed: bool)
        requires
            old(self).wf(),
        ensures
            final(self).wf(),
            final(self)@ == old(self)@.with_state_event(event.deep_view()),
            changed == (final(self)@ != old(self)@),
    {
        match event {
            StateEvent::RoomMember(e) => self.handle_membership(e),
            StateEvent::RoomName(e) => self.handle_room_name(e),
            StateEvent::RoomCanonicalAlias(e) => self.handle_canonical(e),
            StateEvent::RoomAliases(e) => self.handle_room_aliases(e),
            StateEvent::RoomAvatar(e) => self.handle_room_avatar(e),
            StateEvent::RoomTopic(e) => self.handle_room_topic(e),
            StateEvent::RoomPowerLevels(e) => self.handle_power_level(e),
            StateEvent::RoomJoinRules(e) => self.handle_join_rules(e),
            StateEvent::RoomTombstone(e) => self.handle_tombstone(e),
            StateEvent::RoomEncryption(_) => self.handle_encryption_event(),
            StateEvent::Other => false,
        }
    }

    /// Applies an event of the reduced state of an invitation.  Returns
    /// whether the room changed.
    pub fn receive_stripped_state_event(&mut self, event: &AnyStrippedStateEvent) -> (changed: bool)
        requires
            old(self).wf(),
        ensures
            final(self).wf(),
            final(self)@ == old(self)@.with_stripped_state_event(event.deep_view()),
            changed == (final(self)@ != old(self)@),
    {
        match event {
            AnyStrippedStateEvent::RoomMember(e) => self.handle_membership(e),
            AnyStrippedStateEvent::RoomName(e) => self.handle_room_name(e),
            AnyStrippedStateEvent::RoomCanonicalAlias(e) => self.handle_canonical(e),
            AnyStrippedStateEvent::RoomAliases(e) => self.handle_room_aliases(e),
            AnyStrippedStateEvent::RoomAvatar(e) => self.handle_room_avatar(e),
            AnyStrippedStateEvent::RoomTopic(e) => self.handle_room_topic(e),
            AnyStrippedStateEvent::RoomPowerLevels(e) => self.handle_power_level(e),
            AnyStrippedStateEvent::RoomJoinRules(e) => self.handle_join_rules(e),
            AnyStrippedStateEvent::Other => false,
        }
    }

    /// Applies an event of the timeline.  Returns whether the room changed.
    pub fn receive_timeline_event(&mut self, event: &RoomEvent) -> (changed: bool)
        requires
            old(self).wf(),
        ensures
            final(self).wf(),
            final(self)@ == old(self)@.with_timeline_event(event.deep_view()),
            changed == (final(self)@ != old(self)@),
    {
        match event {
            RoomEvent::RoomMember(e) => self.handle_membership(e),
            RoomEvent::RoomName(e) => self.handle_room_name(e),
            RoomEvent::RoomCanonicalAlias(e) => self.handle_canonical(e),
            RoomEvent::RoomAliases(e) => self.handle_room_aliases(e),
            RoomEvent::RoomAvatar(e) => self.handle_room_avatar(e),
            RoomEvent::RoomTopic(e) => self.handle_room_topic(e),
            RoomEvent::RoomPowerLevels(e) => self.handle_power_level(e),
            RoomEvent::RoomJoinRules(e) => self.handle_join_rules(e),
            RoomEvent::RoomTombstone(e) => self.handle_tombstone(e),
            RoomEvent::RoomEncryption(_) => self.handle_encryption_event(),
            RoomEvent::RoomRedaction(e) => self.handle_redaction(e),
            _ => false,
        }
    }

    /// Takes the heroes and the member counts from a summary.
    pub fn set_room_summary(&mut self, summary: &RoomSummary)
        requires
            old(self).wf(),
        ensures
            final(self).wf(),
            final(self)@ == old(self)@.with_summary(summary.deep_view()),
    {
        self.heroes = snapshot_list(&summary.heroes);
        self.joined_member_count = summary.joined_member_count;
        self.invited_member_count = summary.invited_member_count;
    }

    /// Takes the counts of unread notifications.
    pub fn set_unread_notice_count(&mut self, notifications: &UnreadNotificationsCount)
        requires
            old(self).wf(),
        ensures
            final(self).wf(),
            final(self)@ == old(self)@.with_unread(*notifications),
    {
        self.unread_highlight = notifications.highlight_count;
        self.unread_notifications = notifications.notification_count;
    }

    /// Applies a presence event.  Returns whether the room changed.
    pub fn receive_presence_event(&mut self, event: &PresenceEvent) -> (changed: bool)
        requires
            old(self).wf(),
        ensures
            final(self).wf(),
            final(self)@ == old(self)@.with_presence_event(event.deep_view()),
            changed == (final(self)@ != old(self)@),
    {
        match self.members.remove(&event.sender) {
            Some(member) => {
                let mut member = member;
                let changed = member.update_presence(event);
                self.members.insert(event.sender.clone(), member);
                proof {
                    let k = event.sender@;
                    assert(self@.members =~= old(self)@.members.insert(
                        k,
                        old(self)@.members[k].with_presence(event.deep_view()),
                    ));
                    if !changed {
                        assert(self@.members =~= old(self)@.members);
                    } else {
                        assert(self@.members[k] != old(self)@.members[k]);
                    }
                }
                changed
            },
            None => {
                assert(self@.members =~= old(self)@.members);
                false
            },
        }
    }
}

} // verus!
