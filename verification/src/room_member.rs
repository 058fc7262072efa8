//! The members of a room.

use crate::events::{
    MemberEvent, MemberEventView, MembershipState, PresenceEvent, PresenceEventView,
    PresenceState,
};
use crate::snapshot::{same_option, snapshot_option, SameModel, Snapshot};
use vstd::prelude::*;

verus! {

#[derive(Clone, Debug, PartialEq, Eq)]
/// What a room knows of one of its members.
pub struct RoomMember {
    /// The id of the member.
    pub user_id: String,
    /// The name that the member goes by.
    pub display_name: Option<String>,
    /// The avatar of the member.
    pub avatar_url: Option<String>,
    /// Whether the member has joined, was invited, has left, and so on.
    pub membership: MembershipState,
    /// The power level of the member, as the last power levels event gave it.
    pub power_level: Option<i64>,
    /// Whether the member is around.
    pub presence: Option<PresenceState>,
    /// The status message of the member.
    pub status_msg: Option<String>,
    /// Whether the member is active right now.
    pub currently_active: Option<bool>,
    /// Milliseconds since the member was last active.
    pub last_active_ago: Option<u64>,
}

/// The model of [`RoomMember`].
pub struct RoomMemberView {
    pub user_id: Seq<char>,
    pub display_name: Option<Seq<char>>,
    pub avatar_url: Option<Seq<char>>,
    pub membership: MembershipState,
    pub power_level: Option<i64>,
    pub presence: Option<PresenceState>,
    pub status_msg: Option<Seq<char>>,
    pub currently_active: Option<bool>,
    pub last_active_ago: Option<u64>,
}

impl DeepView for RoomMember {
    type V = RoomMemberView;

    open spec fn deep_view(&self) -> RoomMemberView {
        RoomMemberView {
            user_id: self.user_id@,
            display_name: self.display_name.deep_view(),
            avatar_url: self.avatar_url.deep_view(),
            membership: self.membership,
            power_level: self.power_level,
            presence: self.presence,
            status_msg: self.status_msg.deep_view(),
            currently_active: self.currently_active,
            last_active_ago: self.last_active_ago,
        }
    }
}

impl Snapshot for RoomMember {
    open spec fn wf(&self) -> bool {
        true
    }

    fn snapshot(&self) -> (copy: Self) {
        RoomMember {
            user_id: self.user_id.clone(),
            display_name: snapshot_option(&self.display_name),
            avatar_url: snapshot_option(&self.avatar_url),
            membership: self.membership,
            power_level: self.power_level,
            presence: self.presence,
            status_msg: snapshot_option(&self.status_msg),
            currently_active: self.currently_active,
            last_active_ago: self.last_active_ago,
        }
    }
}

impl SameModel for RoomMember {
    fn same(&self, other: &Self) -> (b: bool) {
        self.user_id.same(&other.user_id)
            && same_option(&self.display_name, &other.display_name)
            && same_option(&self.avatar_url, &other.avatar_url)
            && self.membership == other.membership
            && self.power_level == other.power_level
            && self.presence == other.presence
            && same_option(&self.status_msg, &other.status_msg)
            && self.currently_active == other.currently_active
            && self.last_active_ago == other.last_active_ago
    }
}

impl RoomMemberView {
    /// The record of a user of whom only a membership event is known.
    pub open spec fn from_event(event: MemberEventView) -> RoomMemberView {
        RoomMemberView {
            user_id: event.state_key,
            display_name: event.displayname,
            avatar_url: event.avatar_url,
            membership: event.membership,
            power_level: None,
            presence: None,
            status_msg: None,
            currently_active: None,
            last_active_ago: None,
        }
    }

    /// The record after a further membership event of the same user: the
    /// membership and the profile are those of the event.
    pub open spec fn with_membership(self, event: MemberEventView) -> RoomMemberView {
        RoomMemberView {
            display_name: event.displayname,
            avatar_url: event.avatar_url,
            membership: event.membership,
            ..self
        }
    }

    /// The record after a presence event of the user: the profile and the
    /// presence fields are those of the event.
    pub open spec fn with_presence(self, event: PresenceEventView) -> RoomMemberView {
        RoomMemberView {
            display_name: event.displayname,
            avatar_url: event.avatar_url,
            presence: Some(event.presence),
            status_msg: event.status_msg,
            currently_active: event.currently_active,
            last_active_ago: event.last_active_ago,
            ..self
        }
    }

    /// The record with the power level `power`.
    pub open spec fn with_power(self, power: i64) -> RoomMemberView {
        RoomMemberView { power_level: Some(power), ..self }
    }
}

impl RoomMember {
    /// The record of a user of whom only a membership event is known.
    pub fn new(event: &MemberEvent) -> (member: RoomMember)
        ensures
            member.deep_view() == RoomMemberView::from_event(event.deep_view()),
    {
        RoomMember {
            user_id: event.state_key.clone(),
            display_name: snapshot_option(&event.displayname),
            avatar_url: snapshot_option(&event.avatar_url),
            membership: event.membership,
            power_level: None,
            presence: None,
            status_msg: None,
            currently_active: None,
            last_active_ago: None,
        }
    }

    /// Takes the membership and the profile from a membership event.
    /// Returns whether the record changed.
    pub fn update_member(&mut self, event: &MemberEvent) -> (changed: bool)
        ensures
            final(self).deep_view() == old(self).deep_view().with_membership(event.deep_view()),
            changed == (final(self).deep_view() != old(self).deep_view()),
    {
        let changed = !same_option(&self.display_name, &event.displayname) || !same_option(
            &self.avatar_url,
            &event.avatar_url,
        ) || self.membership != event.membership;
        if changed {
            self.display_name = snapshot_option(&event.displayname);
            self.avatar_url = snapshot_option(&event.avatar_url);
            self.membership = event.membership;
        }
        changed
    }

    /// Takes the profile and the presence from a presence event.
    /// Returns whether the record changed.
    pub fn update_presence(&mut self, event: &PresenceEvent) -> (changed: bool)
        ensures
            final(self).deep_view() == old(self).deep_view().with_presence(event.deep_view()),
            changed == (final(self).deep_view() != old(self).deep_view()),
    {
        let same = same_option(&self.display_name, &event.displayname) && same_option(
            &self.avatar_url,
            &event.avatar_url,
        ) && self.presence == Some(event.presence) && same_option(
            &self.status_msg,
            &event.status_msg,
        ) && self.currently_active == event.currently_active && self.last_active_ago
            == event.last_active_ago;
        if !same {
            self.display_name = snapshot_option(&event.displayname);
            self.avatar_url = snapshot_option(&event.avatar_url);
            self.presence = Some(event.presence);
            self.status_msg = snapshot_option(&event.status_msg);
            self.currently_active = event.currently_active;
            self.last_active_ago = event.last_active_ago;
        }
        !same
    }

    /// Sets the power level.  Returns whether the record changed.
    pub fn update_power(&mut self, power: i64) -> (changed: bool)
        ensures
            final(self).deep_view() == old(self).deep_view().with_power(power),
            changed == (final(self).deep_view() != old(self).deep_view()),
    {
        let changed = self.power_level != Some(power);
        self.power_level = Some(power);
        changed
    }
}

} // verus!
