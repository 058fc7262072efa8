use matrix_sdk_base::events::{
    AliasesEvent, AnyStrippedStateEvent, AvatarEvent, CanonicalAliasEvent, EncryptedEvent,
    EncryptionEvent, FeedbackEvent, JoinRule, JoinRulesEvent, MemberEvent, MembershipState,
    MessageEvent, NameEvent, PowerLevels, PowerLevelsEvent, PresenceEvent, PresenceState,
    RedactionEvent, RoomEvent, StateEvent, TombstoneEvent, TopicEvent, UserPower,
};
use matrix_sdk_base::id_map::IdMap;
use matrix_sdk_base::room::{Room, RoomSummary, Tombstone, UnreadNotificationsCount};
use matrix_sdk_base::room_member::RoomMember;
use matrix_sdk_base::snapshot::{same_list, same_option, snapshot_list, SameModel, Snapshot};
use matrix_sdk_base::text::append_decimal;

fn room() -> Room {
    Room::new(&"!r:s".to_string(), &"@me:s".to_string())
}

fn member(user: &str, membership: MembershipState, name: Option<&str>) -> MemberEvent {
    MemberEvent {
        sender: user.to_string(),
        state_key: user.to_string(),
        membership,
        displayname: name.map(|n| n.to_string()),
        avatar_url: None,
    }
}

fn levels(users_default: i64) -> PowerLevels {
    PowerLevels {
        ban: 50,
        events_default: 0,
        invite: 50,
        kick: 50,
        redact: 50,
        state_default: 50,
        users_default,
        notifications_room: 50,
    }
}

fn summary(heroes: &[&str], joined: Option<u64>, invited: Option<u64>) -> RoomSummary {
    RoomSummary {
        heroes: heroes.iter().map(|h| h.to_string()).collect(),
        joined_member_count: joined,
        invited_member_count: invited,
    }
}

fn debug(room: &Room) -> String {
    format!("{:?}", room)
}

#[test]
fn new_room_knows_its_id_only() {
    let r = room();
    assert_eq!(r.room_id, "!r:s");
    assert_eq!(r.own_user_id, "@me:s");
    assert_eq!(r.name, None);
    assert_eq!(r.canonical_alias, None);
    assert!(r.aliases.is_empty());
    assert_eq!(r.topic, None);
    assert_eq!(r.avatar_url, None);
    assert_eq!(r.join_rule, None);
    assert!(r.members.is_empty());
    assert_eq!(r.power_levels, None);
    assert!(!r.is_encrypted());
    assert_eq!(r.unread_highlight, None);
    assert_eq!(r.unread_notifications, None);
    assert!(r.heroes.is_empty());
    assert_eq!(r.tombstone, None);
}

#[test]
fn join_adds_a_member() {
    let mut r = room();
    assert!(r.handle_membership(&member("@a:s", MembershipState::Join, Some("Ann"))));
    let m = r.members.get(&"@a:s".to_string()).unwrap();
    assert_eq!(m.user_id, "@a:s");
    assert_eq!(m.display_name, Some("Ann".to_string()));
    assert_eq!(m.membership, MembershipState::Join);
    assert_eq!(m.power_level, None);
    assert_eq!(m.presence, None);
    assert!(r.handle_membership(&member("@b:s", MembershipState::Invite, None)));
    assert_eq!(
        r.members.get(&"@b:s".to_string()).unwrap().membership,
        MembershipState::Invite
    );
    let mut keys = r.members.keys();
    keys.sort();
    assert_eq!(keys, vec!["@a:s".to_string(), "@b:s".to_string()]);
}

#[test]
fn leave_of_a_stranger_changes_nothing() {
    let mut r = room();
    assert!(!r.handle_membership(&member("@a:s", MembershipState::Leave, None)));
    assert!(!r.handle_membership(&member("@a:s", MembershipState::Ban, None)));
    assert!(!r.handle_membership(&member("@a:s", MembershipState::Knock, None)));
    assert!(r.members.is_empty());
}

#[test]
fn membership_of_a_member_is_updated() {
    let mut r = room();
    r.handle_membership(&member("@a:s", MembershipState::Join, Some("Ann")));
    assert!(!r.handle_membership(&member("@a:s", MembershipState::Join, Some("Ann"))));
    assert!(r.handle_membership(&member("@a:s", MembershipState::Join, Some("Anna"))));
    assert_eq!(
        r.members.get(&"@a:s".to_string()).unwrap().display_name,
        Some("Anna".to_string())
    );
    assert!(r.handle_membership(&member("@a:s", MembershipState::Leave, Some("Anna"))));
    let m = r.members.get(&"@a:s".to_string()).unwrap();
    assert_eq!(m.membership, MembershipState::Leave);
    assert!(r.handle_membership(&member("@a:s", MembershipState::Ban, None)));
    let m = r.members.get(&"@a:s".to_string()).unwrap();
    assert_eq!(m.membership, MembershipState::Ban);
    assert_eq!(m.display_name, None);
}

#[test]
fn changed_is_reported_exactly() {
    let mut r = room();
    let name = NameEvent { event_id: None, name: Some("Lobby".to_string()) };
    assert!(r.handle_room_name(&name));
    assert!(!r.handle_room_name(&name));
    assert!(!r.handle_room_name(&NameEvent { event_id: None, name: None }));
    assert_eq!(r.name, Some("Lobby".to_string()));

    let alias = CanonicalAliasEvent { event_id: None, alias: Some("#lobby:s".to_string()) };
    assert!(r.handle_canonical(&alias));
    assert!(!r.handle_canonical(&alias));
    assert!(!r.handle_canonical(&CanonicalAliasEvent { event_id: None, alias: None }));
    assert_eq!(r.canonical_alias, Some("#lobby:s".to_string()));

    let aliases = AliasesEvent { aliases: vec!["#a:s".to_string(), "#b:s".to_string()] };
    assert!(r.handle_room_aliases(&aliases));
    assert!(!r.handle_room_aliases(&aliases));
    assert_eq!(r.aliases, vec!["#a:s".to_string(), "#b:s".to_string()]);
    assert!(r.handle_room_aliases(&AliasesEvent { aliases: vec![] }));
    assert!(r.aliases.is_empty());

    let avatar = AvatarEvent { event_id: None, url: "mxc://s/pic".to_string() };
    assert!(r.handle_room_avatar(&avatar));
    assert!(!r.handle_room_avatar(&avatar));
    assert_eq!(r.avatar_url, Some("mxc://s/pic".to_string()));

    let topic = TopicEvent { event_id: None, topic: "chat".to_string() };
    assert!(r.handle_room_topic(&topic));
    assert!(!r.handle_room_topic(&topic));
    assert_eq!(r.topic, Some("chat".to_string()));

    let rules = JoinRulesEvent { join_rule: JoinRule::Invite };
    assert!(r.handle_join_rules(&rules));
    assert!(!r.handle_join_rules(&rules));
    assert!(r.handle_join_rules(&JoinRulesEvent { join_rule: JoinRule::Public }));
    assert_eq!(r.join_rule, Some(JoinRule::Public));

    let tomb = TombstoneEvent { body: "moved".to_string(), replacement_room: "!n:s".to_string() };
    assert!(r.handle_tombstone(&tomb));
    assert!(!r.handle_tombstone(&tomb));
    assert_eq!(
        r.tombstone,
        Some(Tombstone { body: "moved".to_string(), replacement: "!n:s".to_string() })
    );

    assert!(r.handle_encryption_event());
    assert!(!r.handle_encryption_event());
    assert!(r.is_encrypted());
}

#[test]
fn power_levels_reach_the_members_that_are_named() {
    let mut r = room();
    r.handle_membership(&member("@a:s", MembershipState::Join, None));
    r.handle_membership(&member("@b:s", MembershipState::Join, None));
    let event = PowerLevelsEvent {
        levels: levels(0),
        users: vec![
            UserPower { user_id: "@a:s".to_string(), power: 50 },
            UserPower { user_id: "@ghost:s".to_string(), power: 10 },
            UserPower { user_id: "@a:s".to_string(), power: 100 },
        ],
    };
    assert!(r.handle_power_level(&event));
    assert_eq!(r.power_levels, Some(levels(0)));
    assert_eq!(r.members.get(&"@a:s".to_string()).unwrap().power_level, Some(100));
    assert_eq!(r.members.get(&"@b:s".to_string()).unwrap().power_level, None);
    assert!(!r.members.contains_key(&"@ghost:s".to_string()));
    assert!(!r.handle_power_level(&event));

    let lowered = PowerLevelsEvent {
        levels: levels(0),
        users: vec![UserPower { user_id: "@a:s".to_string(), power: 50 }],
    };
    assert!(r.handle_power_level(&lowered));
    assert_eq!(r.members.get(&"@a:s".to_string()).unwrap().power_level, Some(50));
    let other_levels = PowerLevelsEvent { levels: levels(10), users: lowered.users.clone() };
    assert!(r.handle_power_level(&other_levels));
    assert_eq!(r.power_levels, Some(levels(10)));
    assert!(!r.handle_power_level(&other_levels));
}

#[test]
fn presence_updates_a_member() {
    let mut r = room();
    let presence = PresenceEvent {
        sender: "@a:s".to_string(),
        presence: PresenceState::Unavailable,
        displayname: Some("Ann".to_string()),
        avatar_url: Some("mxc://s/a".to_string()),
        status_msg: None,
        currently_active: Some(false),
        last_active_ago: Some(1000),
    };
    assert!(!r.receive_presence_event(&presence));
    r.handle_membership(&member("@a:s", MembershipState::Join, None));
    assert!(r.receive_presence_event(&presence));
    assert!(!r.receive_presence_event(&presence));
    let m = r.members.get(&"@a:s".to_string()).unwrap();
    assert_eq!(m.presence, Some(PresenceState::Unavailable));
    assert_eq!(m.avatar_url, Some("mxc://s/a".to_string()));
    assert_eq!(m.display_name, Some("Ann".to_string()));
    assert_eq!(m.currently_active, Some(false));
    assert_eq!(m.last_active_ago, Some(1000));
    assert_eq!(m.membership, MembershipState::Join);
}

#[test]
fn state_events_are_dispatched_by_kind() {
    let mut r = room();
    assert!(r.receive_state_event(&StateEvent::RoomMember(member("@a:s", MembershipState::Join, None))));
    assert!(r.receive_state_event(&StateEvent::RoomName(NameEvent { event_id: None, name: Some("n".to_string()) })));
    assert!(r.receive_state_event(&StateEvent::RoomCanonicalAlias(CanonicalAliasEvent { event_id: None, alias: Some("#c:s".to_string())
    })));
    assert!(r.receive_state_event(&StateEvent::RoomAliases(AliasesEvent {
        aliases: vec!["#a:s".to_string()]
    })));
    assert!(r.receive_state_event(&StateEvent::RoomAvatar(AvatarEvent { event_id: None, url: "u".to_string() })));
    assert!(r.receive_state_event(&StateEvent::RoomTopic(TopicEvent { event_id: None, topic: "t".to_string() })));
    assert!(r.receive_state_event(&StateEvent::RoomPowerLevels(PowerLevelsEvent {
        levels: levels(0),
        users: vec![]
    })));
    assert!(r.receive_state_event(&StateEvent::RoomJoinRules(JoinRulesEvent {
        join_rule: JoinRule::Knock
    })));
    assert!(r.receive_state_event(&StateEvent::RoomTombstone(TombstoneEvent {
        body: "b".to_string(),
        replacement_room: "!n:s".to_string()
    })));
    assert!(r.receive_state_event(&StateEvent::RoomEncryption(EncryptionEvent {
        algorithm: "m.megolm.v1.aes-sha2".to_string()
    })));
    assert!(!r.receive_state_event(&StateEvent::Other));
    assert!(r.members.contains_key(&"@a:s".to_string()));
    assert_eq!(r.name, Some("n".to_string()));
    assert_eq!(r.canonical_alias, Some("#c:s".to_string()));
    assert_eq!(r.aliases, vec!["#a:s".to_string()]);
    assert_eq!(r.avatar_url, Some("u".to_string()));
    assert_eq!(r.topic, Some("t".to_string()));
    assert_eq!(r.power_levels, Some(levels(0)));
    assert_eq!(r.join_rule, Some(JoinRule::Knock));
    assert!(r.tombstone.is_some());
    assert!(r.encrypted);
}

#[test]
fn stripped_state_events_are_dispatched_by_kind() {
    let mut r = room();
    assert!(r.receive_stripped_state_event(&AnyStrippedStateEvent::RoomMember(member(
        "@a:s",
        MembershipState::Invite,
        None
    ))));
    assert!(r.receive_stripped_state_event(&AnyStrippedStateEvent::RoomName(NameEvent { event_id: None, name: Some("n".to_string())
    })));
    assert!(r.receive_stripped_state_event(&AnyStrippedStateEvent::RoomCanonicalAlias(
        CanonicalAliasEvent { event_id: None, alias: Some("#c:s".to_string()) }
    )));
    assert!(r.receive_stripped_state_event(&AnyStrippedStateEvent::RoomAliases(AliasesEvent {
        aliases: vec!["#a:s".to_string()]
    })));
    assert!(r.receive_stripped_state_event(&AnyStrippedStateEvent::RoomAvatar(AvatarEvent { event_id: None, url: "u".to_string()
    })));
    assert!(r.receive_stripped_state_event(&AnyStrippedStateEvent::RoomTopic(TopicEvent { event_id: None, topic: "t".to_string()
    })));
    assert!(r.receive_stripped_state_event(&AnyStrippedStateEvent::RoomPowerLevels(
        PowerLevelsEvent { levels: levels(5), users: vec![] }
    )));
    assert!(r.receive_stripped_state_event(&AnyStrippedStateEvent::RoomJoinRules(
        JoinRulesEvent { join_rule: JoinRule::Private }
    )));
    assert!(!r.receive_stripped_state_event(&AnyStrippedStateEvent::Other));
    assert_eq!(r.name, Some("n".to_string()));
    assert_eq!(r.join_rule, Some(JoinRule::Private));
    assert_eq!(r.power_levels, Some(levels(5)));
}

#[test]
fn messages_leave_the_room_as_it_is() {
    let mut r = room();
    let before = debug(&r);
    assert!(!r.receive_timeline_event(&RoomEvent::RoomMessage(MessageEvent {
        sender: "@a:s".to_string(),
        event_id: "$1".to_string(),
        body: "hi".to_string()
    })));
    assert!(!r.receive_timeline_event(&RoomEvent::RoomMessageFeedback(FeedbackEvent {
        sender: "@a:s".to_string(),
        target_event_id: "$1".to_string()
    })));
    assert!(!r.receive_timeline_event(&RoomEvent::RoomRedaction(RedactionEvent {
        sender: "@a:s".to_string(),
        redacts: "$1".to_string(),
        reason: None
    })));
    assert!(!r.receive_timeline_event(&RoomEvent::RoomEncrypted(EncryptedEvent {
        sender: "@a:s".to_string(),
        event_id: "$2".to_string(),
        room_id: None,
        ciphertext: "x".to_string()
    })));
    assert!(!r.receive_timeline_event(&RoomEvent::Other));
    assert_eq!(debug(&r), before);
}

#[test]
fn timeline_events_change_state() {
    let mut r = room();
    assert!(r.receive_timeline_event(&RoomEvent::RoomMember(member("@a:s", MembershipState::Join, None))));
    assert!(r.receive_timeline_event(&RoomEvent::RoomName(NameEvent { event_id: None, name: Some("n".to_string()) })));
    assert!(r.receive_timeline_event(&RoomEvent::RoomCanonicalAlias(CanonicalAliasEvent { event_id: None, alias: Some("#c:s".to_string())
    })));
    assert!(r.receive_timeline_event(&RoomEvent::RoomAliases(AliasesEvent {
        aliases: vec!["#a:s".to_string()]
    })));
    assert!(r.receive_timeline_event(&RoomEvent::RoomAvatar(AvatarEvent { event_id: None, url: "u".to_string() })));
    assert!(r.receive_timeline_event(&RoomEvent::RoomTopic(TopicEvent { event_id: None, topic: "t".to_string() })));
    assert!(r.receive_timeline_event(&RoomEvent::RoomPowerLevels(PowerLevelsEvent {
        levels: levels(1),
        users: vec![UserPower { user_id: "@a:s".to_string(), power: 7 }]
    })));
    assert!(r.receive_timeline_event(&RoomEvent::RoomJoinRules(JoinRulesEvent {
        join_rule: JoinRule::Public
    })));
    assert!(r.receive_timeline_event(&RoomEvent::RoomTombstone(TombstoneEvent {
        body: "b".to_string(),
        replacement_room: "!n:s".to_string()
    })));
    assert!(r.receive_timeline_event(&RoomEvent::RoomEncryption(EncryptionEvent {
        algorithm: "a".to_string()
    })));
    assert_eq!(r.members.get(&"@a:s".to_string()).unwrap().power_level, Some(7));
    assert!(r.encrypted);
}

#[test]
fn events_apply_idempotently() {
    let events = vec![
        StateEvent::RoomMember(member("@a:s", MembershipState::Join, Some("Ann"))),
        StateEvent::RoomName(NameEvent { event_id: None, name: Some("n".to_string()) }),
        StateEvent::RoomAliases(AliasesEvent { aliases: vec!["#a:s".to_string()] }),
        StateEvent::RoomPowerLevels(PowerLevelsEvent {
            levels: levels(0),
            users: vec![UserPower { user_id: "@a:s".to_string(), power: 100 }],
        }),
        StateEvent::RoomMember(member("@a:s", MembershipState::Leave, Some("Ann"))),
        StateEvent::RoomEncryption(EncryptionEvent { algorithm: "a".to_string() }),
    ];
    let mut r = room();
    for e in &events {
        r.receive_state_event(e);
        let once = debug(&r);
        assert!(!r.receive_state_event(e));
        assert_eq!(debug(&r), once);
    }
}

#[test]
fn summary_and_unread_counts_are_taken() {
    let mut r = room();
    r.set_room_summary(&summary(&["@a:s", "@b:s"], Some(3), Some(1)));
    assert_eq!(r.heroes, vec!["@a:s".to_string(), "@b:s".to_string()]);
    assert_eq!(r.joined_member_count, Some(3));
    assert_eq!(r.invited_member_count, Some(1));
    r.set_unread_notice_count(&UnreadNotificationsCount {
        highlight_count: Some(2),
        notification_count: Some(9),
    });
    assert_eq!(r.unread_highlight, Some(2));
    assert_eq!(r.unread_notifications, Some(9));
    r.set_room_summary(&summary(&[], None, None));
    assert!(r.heroes.is_empty());
    assert_eq!(r.joined_member_count, None);
}

#[test]
fn name_comes_before_aliases_and_heroes() {
    let mut r = room();
    assert_eq!(r.calculate_name(), "Empty room");
    r.set_room_summary(&summary(&["@a:s"], Some(2), None));
    assert_eq!(r.calculate_name(), "@a:s");
    r.handle_room_aliases(&AliasesEvent { aliases: vec!["#first:s".to_string(), "#second:s".to_string()] });
    assert_eq!(r.calculate_name(), "#first:s");
    r.handle_canonical(&CanonicalAliasEvent { event_id: None, alias: Some("#canonical:s".to_string()) });
    assert_eq!(r.calculate_name(), "#canonical:s");
    r.handle_room_name(&NameEvent { event_id: None, name: Some("Lobby".to_string()) });
    assert_eq!(r.calculate_name(), "Lobby");
}

#[test]
fn name_falls_back_to_heroes() {
    let mut r = room();
    r.set_room_summary(&summary(&["@a:s", "@b:s"], Some(3), Some(0)));
    assert_eq!(r.calculate_name(), "@a:s, @b:s");
    assert_eq!(r.calculate_name(), "@a:s, @b:s");
    r.handle_membership(&member("@b:s", MembershipState::Join, Some("Bob")));
    r.handle_membership(&member("@a:s", MembershipState::Join, None));
    assert_eq!(r.calculate_name(), "@a:s, Bob");
}

#[test]
fn name_counts_the_other_members() {
    let mut r = room();
    r.set_room_summary(&summary(&["@a:s", "@b:s"], Some(5), Some(0)));
    assert_eq!(r.calculate_name(), "@a:s, @b:s, and 2 others");
    r.set_room_summary(&summary(&["@a:s"], Some(100), Some(21)));
    assert_eq!(r.calculate_name(), "@a:s, and 119 others");
    r.set_room_summary(&summary(&["@a:s"], Some(u64::MAX), Some(u64::MAX)));
    assert_eq!(r.calculate_name(), "@a:s, and 36893488147419103228 others");
    r.set_room_summary(&summary(&["@a:s", "@b:s", "@c:s"], Some(2), None));
    assert_eq!(r.calculate_name(), "@a:s, @b:s, @c:s");
    r.set_room_summary(&summary(&["@a:s"], None, None));
    assert_eq!(r.calculate_name(), "@a:s");
    r.set_room_summary(&summary(&[], Some(7), None));
    assert_eq!(r.calculate_name(), "Empty room");
}

#[test]
fn decimal_is_written_without_leading_zeros() {
    let mut text = "n=".to_string();
    append_decimal(&mut text, 0);
    assert_eq!(text, "n=0");
    append_decimal(&mut text, 9);
    append_decimal(&mut text, 10);
    append_decimal(&mut text, 1234567890);
    assert_eq!(text, "n=09101234567890");
    let mut max = String::new();
    append_decimal(&mut max, u128::MAX);
    assert_eq!(max, "340282366920938463463374607431768211455");
}

#[test]
fn id_map_behaves_as_a_map() {
    let mut map: IdMap<String> = IdMap::new();
    assert!(map.is_empty());
    assert_eq!(map.get(&"a".to_string()), None);
    assert_eq!(map.remove(&"a".to_string()), None);
    map.insert("a".to_string(), "1".to_string());
    map.insert("b".to_string(), "2".to_string());
    map.insert("c".to_string(), "3".to_string());
    map.insert("a".to_string(), "4".to_string());
    assert!(!map.is_empty());
    assert!(map.contains_key(&"a".to_string()));
    assert!(!map.contains_key(&"d".to_string()));
    assert_eq!(map.get(&"a".to_string()), Some(&"4".to_string()));
    let mut keys = map.keys();
    keys.sort();
    assert_eq!(keys, vec!["a".to_string(), "b".to_string(), "c".to_string()]);
    assert_eq!(map.remove(&"a".to_string()), Some("4".to_string()));
    assert_eq!(map.get(&"a".to_string()), None);
    assert_eq!(map.get(&"b".to_string()), Some(&"2".to_string()));
    assert_eq!(map.get(&"c".to_string()), Some(&"3".to_string()));
    let copy = map.snapshot();
    map.remove(&"b".to_string());
    assert_eq!(copy.get(&"b".to_string()), Some(&"2".to_string()));
    assert_eq!(copy.get(&"c".to_string()), Some(&"3".to_string()));
    assert_eq!(map.keys(), vec!["c".to_string()]);
}

#[test]
fn snapshots_and_comparisons_go_by_content() {
    let list = vec!["x".to_string(), "y".to_string()];
    let copy = snapshot_list(&list);
    assert_eq!(copy, list);
    assert!(same_list(&copy, &list));
    assert!(!same_list(&copy, &vec!["x".to_string()]));
    assert!(!same_list(&copy, &vec!["x".to_string(), "z".to_string()]));
    assert!(same_option(&Some("a".to_string()), &Some("a".to_string())));
    assert!(!same_option(&Some("a".to_string()), &None));
    assert!(!same_option(&Some("a".to_string()), &Some("b".to_string())));
    assert!(same_option::<String>(&None, &None));

    let mut r = room();
    r.handle_membership(&member("@a:s", MembershipState::Join, Some("Ann")));
    r.handle_room_name(&NameEvent { event_id: None, name: Some("n".to_string()) });
    let copy = r.snapshot();
    assert_eq!(debug(&copy), debug(&r));
    r.handle_room_name(&NameEvent { event_id: None, name: Some("m".to_string()) });
    assert_eq!(copy.name, Some("n".to_string()));

    let m = RoomMember::new(&member("@a:s", MembershipState::Join, Some("Ann")));
    assert!(m.same(&m.snapshot()));
    let mut other = m.snapshot();
    assert!(other.update_power(3));
    assert!(!other.update_power(3));
    assert!(!m.same(&other));
    assert!(other.update_member(&member("@a:s", MembershipState::Leave, Some("Ann"))));
    assert_eq!(other.membership, MembershipState::Leave);
    assert_eq!(other.power_level, Some(3));
}

#[test]
fn redaction_takes_back_what_the_event_gave() {
    let mut r = room();
    r.handle_room_name(&NameEvent { event_id: Some("$name".to_string()), name: Some("Lobby".to_string()) });
    r.handle_room_topic(&TopicEvent { event_id: Some("$topic".to_string()), topic: "chat".to_string() });
    r.handle_room_avatar(&AvatarEvent { event_id: Some("$avatar".to_string()), url: "mxc://s/p".to_string() });
    r.handle_canonical(&CanonicalAliasEvent {
        event_id: Some("$alias".to_string()),
        alias: Some("#lobby:s".to_string()),
    });
    assert_eq!(r.name_event, Some("$name".to_string()));
    let redact = |id: &str| RedactionEvent {
        sender: "@a:s".to_string(),
        redacts: id.to_string(),
        reason: Some("spam".to_string()),
    };
    assert!(!r.handle_redaction(&redact("$message")));
    assert_eq!(r.name, Some("Lobby".to_string()));
    assert!(r.receive_timeline_event(&RoomEvent::RoomRedaction(redact("$name"))));
    assert_eq!(r.name, None);
    assert_eq!(r.name_event, None);
    assert_eq!(r.topic, Some("chat".to_string()));
    assert_eq!(r.calculate_name(), "#lobby:s");
    assert!(!r.handle_redaction(&redact("$name")));
    assert!(r.handle_redaction(&redact("$topic")));
    assert_eq!(r.topic, None);
    assert!(r.handle_redaction(&redact("$avatar")));
    assert_eq!(r.avatar_url, None);
    assert!(r.handle_redaction(&redact("$alias")));
    assert_eq!(r.canonical_alias, None);
    assert_eq!(r.calculate_name(), "Empty room");
}

#[test]
fn a_later_event_is_not_taken_back_with_an_earlier_one() {
    let mut r = room();
    r.handle_room_name(&NameEvent { event_id: Some("$1".to_string()), name: Some("one".to_string()) });
    assert!(r.handle_room_name(&NameEvent { event_id: Some("$2".to_string()), name: Some("two".to_string()) }));
    assert!(r.handle_room_name(&NameEvent { event_id: Some("$3".to_string()), name: Some("two".to_string()) }));
    assert!(!r.handle_redaction(&RedactionEvent {
        sender: "@a:s".to_string(),
        redacts: "$1".to_string(),
        reason: None,
    }));
    assert_eq!(r.name, Some("two".to_string()));
    assert_eq!(r.name_event, Some("$3".to_string()));
}
