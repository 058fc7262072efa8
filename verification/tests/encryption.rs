use matrix_sdk_base::client::BaseClient;
use matrix_sdk_base::emitter::Callback;
use matrix_sdk_base::encryption::{CryptoRequest, EngineQuery};
use matrix_sdk_base::error::{DeserializationError, Error};
use matrix_sdk_base::events::{
    AnyStrippedStateEvent, EncryptedEvent, EncryptionEvent, FullyReadEvent, IgnoredUserListEvent,
    JoinRule, JoinRulesEvent, MemberEvent, MembershipState, MessageEvent, NameEvent,
    NonRoomEvent, PresenceEvent, PresenceState, RoomEvent, StateEvent, TombstoneEvent,
};
use matrix_sdk_base::room::{RoomSummary, UnreadNotificationsCount};
use matrix_sdk_base::session::Session;
use matrix_sdk_base::state::{RoomState, RoomStateType};
use matrix_sdk_base::sync::{EventJson, JoinedRoom, Rooms, SyncResponse, TimelineEvent};

fn session() -> Session {
    Session {
        access_token: "token".to_string(),
        user_id: "@me:s".to_string(),
        device_id: "DEVICE".to_string(),
    }
}

fn joined(room_id: &str) -> JoinedRoom {
    JoinedRoom {
        room_id: room_id.to_string(),
        state: vec![],
        timeline: vec![],
        account_data: vec![],
        ephemeral: vec![],
        summary: RoomSummary {
            heroes: vec![],
            joined_member_count: None,
            invited_member_count: None,
        },
        unread_notifications: UnreadNotificationsCount {
            highlight_count: None,
            notification_count: None,
        },
    }
}

fn encrypted(id: &str) -> EncryptedEvent {
    EncryptedEvent {
        sender: "@a:s".to_string(),
        event_id: id.to_string(),
        room_id: None,
        ciphertext: "AwgAEn".to_string(),
    }
}

fn message(body: &str) -> RoomEvent {
    RoomEvent::RoomMessage(MessageEvent {
        sender: "@a:s".to_string(),
        event_id: "$m".to_string(),
        body: body.to_string(),
    })
}

fn member(user: &str) -> MemberEvent {
    MemberEvent {
        sender: user.to_string(),
        state_key: user.to_string(),
        membership: MembershipState::Join,
        displayname: None,
        avatar_url: None,
    }
}

fn response_with_encrypted_events() -> SyncResponse {
    let mut first = joined("!a:s");
    first.timeline.push(TimelineEvent { event: EventJson::new(message("hi")), decrypted: None });
    first.timeline.push(TimelineEvent {
        event: EventJson::new(RoomEvent::RoomEncrypted(encrypted("$1"))),
        decrypted: None,
    });
    first.timeline.push(TimelineEvent { event: EventJson::unreadable(), decrypted: None });
    let mut second = joined("!b:s");
    second.timeline.push(TimelineEvent {
        event: EventJson::new(RoomEvent::RoomEncrypted(encrypted("$2"))),
        decrypted: None,
    });
    second.timeline.push(TimelineEvent {
        event: EventJson::new(RoomEvent::RoomEncrypted(encrypted("$3"))),
        decrypted: None,
    });
    SyncResponse {
        next_batch: "t1".to_string(),
        rooms: Rooms { join: vec![first, joined("!empty:s"), second], invite: vec![], leave: vec![] },
        presence: vec![],
    }
}

#[test]
fn event_json_gives_the_event_or_an_error() {
    let read = EventJson::new(3u8);
    assert_eq!(read.deserialize(), Ok(&3u8));
    let unreadable: EventJson<u8> = EventJson::unreadable();
    assert_eq!(unreadable.deserialize(), Err(DeserializationError));
}

#[test]
fn encrypted_events_are_listed_for_decryption() {
    let client = BaseClient::new(Some(session())).unwrap();
    let response = response_with_encrypted_events();
    assert!(client.engine_receives(&response));
    let requests = client.decryption_requests(&response);
    assert_eq!(requests.len(), 3);
    assert_eq!((requests[0].room, requests[0].event), (0, 1));
    assert_eq!(requests[0].room_id, "!a:s");
    assert_eq!(requests[0].encrypted.event_id, "$1");
    assert_eq!((requests[1].room, requests[1].event), (2, 0));
    assert_eq!(requests[1].room_id, "!b:s");
    assert_eq!(requests[1].encrypted.event_id, "$2");
    assert_eq!((requests[2].room, requests[2].event), (2, 1));
    assert_eq!(requests[2].encrypted.event_id, "$3");
}

#[test]
fn nothing_is_decrypted_without_an_engine_or_for_a_repeat() {
    let response = response_with_encrypted_events();
    let no_engine = BaseClient::new(None).unwrap();
    assert!(!no_engine.engine_receives(&response));
    assert!(no_engine.decryption_requests(&response).is_empty());

    let mut client = BaseClient::new(Some(session())).unwrap();
    client.receive_sync_response(&response).unwrap();
    assert!(!client.engine_receives(&response));
    assert!(client.decryption_requests(&response).is_empty());
}

#[test]
fn decryption_results_flow_into_the_fold() {
    let mut client = BaseClient::new(Some(session())).unwrap();
    client.add_event_emitter();
    let mut response = response_with_encrypted_events();
    let places: Vec<(usize, usize)> =
        client.decryption_requests(&response).iter().map(|r| (r.room, r.event)).collect();
    for (room, event) in places {
        if (room, event) != (2, 1) {
            response.rooms.join[room].timeline[event].decrypted = Some(message("opened"));
        }
    }
    let actions = client.receive_sync_response(&response).unwrap();
    let shown: Vec<String> = actions
        .iter()
        .filter_map(|a| match a {
            matrix_sdk_base::emitter::Action::Emit(e) => Some(match e.callback {
                Callback::RoomMessage(m) => m.body.clone(),
                Callback::RoomEncrypted(c) => c.event_id.clone(),
                other => format!("{:?}", other),
            }),
            _ => None,
        })
        .collect();
    assert_eq!(shown, vec!["hi", "opened", "opened", "$3"]);
}

#[test]
fn tracked_users_are_the_members_of_an_encrypted_room() {
    let mut client = BaseClient::new(Some(session())).unwrap();
    let id = "!r:s".to_string();
    assert_eq!(client.tracked_users(&id), None);
    client.receive_joined_state_event(&id, &StateEvent::RoomMember(member("@a:s"))).unwrap();
    client.receive_joined_state_event(&id, &StateEvent::RoomMember(member("@b:s"))).unwrap();
    assert_eq!(client.tracked_users(&id), None);
    client
        .receive_joined_state_event(
            &id,
            &StateEvent::RoomEncryption(EncryptionEvent { algorithm: "m.megolm.v1.aes-sha2".to_string() }),
        )
        .unwrap();
    let mut users = client.tracked_users(&id).unwrap();
    users.sort();
    assert_eq!(users, vec!["@a:s".to_string(), "@b:s".to_string()]);
}

#[test]
fn questions_go_to_the_engine_of_a_logged_in_client() {
    let mut client = BaseClient::new(Some(session())).unwrap();
    let id = "!r:s".to_string();
    assert_eq!(client.should_upload_keys(), EngineQuery::Ask(CryptoRequest::ShouldUploadKeys));
    assert_eq!(client.should_query_keys(), EngineQuery::Ask(CryptoRequest::ShouldQueryKeys));
    assert_eq!(
        client.should_share_group_session(&id),
        EngineQuery::Ask(CryptoRequest::ShouldShareGroupSession(id.clone()))
    );
    assert_eq!(
        client.get_missing_sessions(&vec!["@a:s".to_string(), "@b:s".to_string()]),
        Ok(EngineQuery::Ask(CryptoRequest::GetMissingSessions(vec![
            "@a:s".to_string(),
            "@b:s".to_string()
        ])))
    );
    assert_eq!(client.keys_for_upload(), Ok(CryptoRequest::KeysForUpload));
    assert_eq!(client.users_for_key_query(), Ok(CryptoRequest::UsersForKeyQuery));
    assert_eq!(
        client.encrypt(&id, "hello".to_string()),
        Ok(CryptoRequest::Encrypt(id.clone(), "hello".to_string()))
    );
    assert_eq!(client.receive_keys_upload_response(), Ok(CryptoRequest::ReceiveKeysUploadResponse));
    assert_eq!(client.receive_keys_claim_response(), Ok(CryptoRequest::ReceiveKeysClaimResponse));
    assert_eq!(client.receive_keys_query_response(), Ok(CryptoRequest::ReceiveKeysQueryResponse));

    assert_eq!(client.share_group_session(&id), Err(Error::NoSuchRoom));
    client.receive_joined_state_event(&id, &StateEvent::RoomMember(member("@a:s"))).unwrap();
    client.receive_joined_state_event(&id, &StateEvent::RoomMember(member("@me:s"))).unwrap();
    match client.share_group_session(&id) {
        Ok(CryptoRequest::ShareGroupSession(room, mut members)) => {
            members.sort();
            assert_eq!(room, id);
            assert_eq!(members, vec!["@a:s".to_string(), "@me:s".to_string()]);
        }
        other => panic!("unexpected result {:?}", other),
    }
}

#[test]
fn questions_are_answered_without_an_engine() {
    let client = BaseClient::new(None).unwrap();
    let id = "!r:s".to_string();
    assert_eq!(client.should_upload_keys(), EngineQuery::Answer(false));
    assert_eq!(client.should_query_keys(), EngineQuery::Answer(false));
    assert_eq!(client.should_share_group_session(&id), EngineQuery::Answer(false));
    assert_eq!(
        client.get_missing_sessions(&vec!["@a:s".to_string()]),
        Ok(EngineQuery::Answer(vec![]))
    );
    assert_eq!(client.keys_for_upload(), Err(()));
    assert_eq!(client.users_for_key_query(), Err(()));
    assert_eq!(client.encrypt(&id, "hello".to_string()), Err(Error::NoCryptoEngine));
    assert_eq!(client.receive_keys_upload_response(), Err(Error::NoCryptoEngine));
    assert_eq!(client.receive_keys_claim_response(), Err(Error::NoCryptoEngine));
    assert_eq!(client.receive_keys_query_response(), Err(Error::NoCryptoEngine));
    assert_eq!(client.share_group_session(&id), Err(Error::NoSuchRoom));
}

#[test]
fn emission_needs_subscriber_room_and_callback() {
    let mut client = BaseClient::new(Some(session())).unwrap();
    let id = "!r:s".to_string();
    let event = message("hi");
    client.get_or_create_joined_room(&id).unwrap();
    assert!(client.emit_timeline_event(&id, &event, RoomStateType::Joined).is_none());
    client.add_event_emitter();
    assert!(client.emit_timeline_event(&id, &event, RoomStateType::Invited).is_none());
    assert!(client.emit_timeline_event(&id, &event, RoomStateType::Left).is_none());
    assert!(client.emit_timeline_event(&"!x:s".to_string(), &event, RoomStateType::Joined).is_none());
    assert!(client.emit_timeline_event(&id, &RoomEvent::Other, RoomStateType::Joined).is_none());
    let join_rules = RoomEvent::RoomJoinRules(JoinRulesEvent { join_rule: JoinRule::Public });
    assert!(client.emit_timeline_event(&id, &join_rules, RoomStateType::Joined).is_none());
    let emission = client.emit_timeline_event(&id, &event, RoomStateType::Joined).unwrap();
    assert!(matches!(emission.callback, Callback::RoomMessage(m) if m.body == "hi"));
    assert!(matches!(&emission.room, RoomState::Joined(r) if r.room_id == "!r:s"));
}

#[test]
fn each_kind_of_event_has_its_callback() {
    let mut client = BaseClient::new(Some(session())).unwrap();
    client.add_event_emitter();
    let j = "!j:s".to_string();
    let i = "!i:s".to_string();
    let l = "!l:s".to_string();
    client.get_or_create_joined_room(&j).unwrap();
    client.get_or_create_invited_room(&i).unwrap();
    client.get_or_create_left_room(&l).unwrap();

    let name = NameEvent { event_id: None, name: Some("n".to_string()) };
    let state = StateEvent::RoomName(name.clone());
    let e = client.emit_state_event(&l, &state, RoomStateType::Left).unwrap();
    assert!(matches!(e.callback, Callback::StateName(_)));
    assert!(matches!(&e.room, RoomState::Left(r) if r.room_id == "!l:s"));

    let tomb = StateEvent::RoomTombstone(TombstoneEvent {
        body: "b".to_string(),
        replacement_room: "!n:s".to_string(),
    });
    let e = client.emit_state_event(&j, &tomb, RoomStateType::Joined).unwrap();
    assert!(matches!(e.callback, Callback::RoomTombstone(_)));
    let enc = StateEvent::RoomEncryption(EncryptionEvent { algorithm: "a".to_string() });
    assert!(client.emit_state_event(&j, &enc, RoomStateType::Joined).is_none());
    let rules = StateEvent::RoomJoinRules(JoinRulesEvent { join_rule: JoinRule::Invite });
    let e = client.emit_state_event(&j, &rules, RoomStateType::Joined).unwrap();
    assert!(matches!(e.callback, Callback::StateJoinRules(r) if r.join_rule == JoinRule::Invite));

    let stripped = AnyStrippedStateEvent::RoomMember(member("@a:s"));
    let e = client.emit_stripped_state_event(&i, &stripped, RoomStateType::Invited).unwrap();
    assert!(matches!(e.callback, Callback::StrippedStateMember(m) if m.state_key == "@a:s"));
    assert!(matches!(&e.room, RoomState::Invited(r) if r.room_id == "!i:s"));
    assert!(client
        .emit_stripped_state_event(&i, &AnyStrippedStateEvent::Other, RoomStateType::Invited)
        .is_none());

    let presence = PresenceEvent {
        sender: "@a:s".to_string(),
        presence: PresenceState::Online,
        displayname: None,
        avatar_url: None,
        status_msg: None,
        currently_active: None,
        last_active_ago: None,
    };
    let e = client.emit_presence_event(&j, &presence, RoomStateType::Joined).unwrap();
    assert!(matches!(e.callback, Callback::PresenceEvent(_)));
    assert!(client.emit_presence_event(&i, &presence, RoomStateType::Joined).is_none());

    let account = NonRoomEvent::Presence(presence.clone());
    let e = client.emit_account_data_event(&j, &account, RoomStateType::Joined).unwrap();
    assert!(matches!(e.callback, Callback::AccountPresence(_)));
    let ignored = NonRoomEvent::IgnoredUserList(IgnoredUserListEvent { ignored_users: vec![] });
    let e = client.emit_ephemeral_event(&j, &ignored, RoomStateType::Joined).unwrap();
    assert!(matches!(e.callback, Callback::AccountIgnoredUsers(_)));
    let read = NonRoomEvent::FullyRead(FullyReadEvent {
        room_id: j.clone(),
        event_id: "$1".to_string(),
    });
    let e = client.emit_account_data_event(&j, &read, RoomStateType::Joined).unwrap();
    assert!(matches!(e.callback, Callback::AccountDataFullyRead(f) if f.event_id == "$1"));
    assert!(client.emit_ephemeral_event(&j, &NonRoomEvent::Other, RoomStateType::Joined).is_none());
}

#[test]
fn emitted_room_is_a_copy_of_the_moment() {
    let mut client = BaseClient::new(Some(session())).unwrap();
    client.add_event_emitter();
    let id = "!r:s".to_string();
    let first = StateEvent::RoomName(NameEvent { event_id: None, name: Some("first".to_string()) });
    client.receive_joined_state_event(&id, &first).unwrap();
    let emission = client.emit_state_event(&id, &first, RoomStateType::Joined).unwrap();
    let second = StateEvent::RoomName(NameEvent { event_id: None, name: Some("second".to_string()) });
    client.receive_joined_state_event(&id, &second).unwrap();
    assert!(matches!(&emission.room, RoomState::Joined(r) if r.name == Some("first".to_string())));
    assert_eq!(client.get_joined_room(&id).unwrap().name, Some("second".to_string()));
    let tagged = client.tagged_room(&id, RoomStateType::Joined).unwrap();
    assert!(matches!(tagged, RoomState::Joined(r) if r.name == Some("second".to_string())));
    assert!(client.tagged_room(&id, RoomStateType::Left).is_none());
}

#[test]
fn summary_is_taken_for_joined_rooms_only() {
    let mut client = BaseClient::new(Some(session())).unwrap();
    let id = "!r:s".to_string();
    let summary = RoomSummary {
        heroes: vec!["@a:s".to_string()],
        joined_member_count: Some(2),
        invited_member_count: Some(1),
    };
    let unread = UnreadNotificationsCount { highlight_count: Some(1), notification_count: Some(4) };
    client.get_or_create_left_room(&id).unwrap();
    client.set_joined_room_summary(&id, &summary, &unread);
    assert!(client.get_left_room(&id).unwrap().heroes.is_empty());
    client.get_or_create_joined_room(&id).unwrap();
    client.set_joined_room_summary(&id, &summary, &unread);
    let room = client.get_joined_room(&id).unwrap();
    assert_eq!(room.heroes, vec!["@a:s".to_string()]);
    assert_eq!(room.joined_member_count, Some(2));
    assert_eq!(room.invited_member_count, Some(1));
    assert_eq!(room.unread_highlight, Some(1));
    assert_eq!(room.unread_notifications, Some(4));
    assert_eq!(room.calculate_name(), "@a:s, and 1 others");
}

#[test]
fn tracked_users_are_foreseen_from_the_state_of_a_room() {
    let mut client = BaseClient::new(Some(session())).unwrap();
    let id = "!r:s".to_string();
    let mut room = joined("!r:s");
    assert_eq!(client.tracked_users_ahead(&room), None);
    room.state.push(EventJson::new(StateEvent::RoomMember(member("@a:s"))));
    room.state.push(EventJson::unreadable());
    assert_eq!(client.tracked_users_ahead(&room), None);
    room.state.push(EventJson::new(StateEvent::RoomEncryption(EncryptionEvent {
        algorithm: "m.megolm.v1.aes-sha2".to_string(),
    })));
    assert_eq!(client.tracked_users_ahead(&room), Some(vec!["@a:s".to_string()]));
    // Looking ahead changes nothing.
    assert!(client.get_joined_room(&id).is_none());

    // The members that the client holds already count as well.
    client.receive_joined_state_event(&id, &StateEvent::RoomMember(member("@b:s"))).unwrap();
    let mut users = client.tracked_users_ahead(&room).unwrap();
    users.sort();
    assert_eq!(users, vec!["@a:s".to_string(), "@b:s".to_string()]);
    assert!(!client.get_joined_room(&id).unwrap().members.contains_key(&"@a:s".to_string()));

    // The fold asks for the same users.
    let response = SyncResponse {
        next_batch: "t1".to_string(),
        rooms: Rooms { join: vec![room], invite: vec![], leave: vec![] },
        presence: vec![],
    };
    let actions = client.receive_sync_response(&response).unwrap();
    match &actions[0] {
        matrix_sdk_base::emitter::Action::UpdateTrackedUsers(asked) => {
            let mut asked = asked.clone();
            asked.sort();
            assert_eq!(asked, users);
        }
        other => panic!("unexpected action {:?}", other),
    }
}

#[test]
fn nothing_is_foreseen_without_an_engine() {
    let client = BaseClient::new(None).unwrap();
    let mut room = joined("!r:s");
    room.state.push(EventJson::new(StateEvent::RoomMember(member("@a:s"))));
    room.state.push(EventJson::new(StateEvent::RoomEncryption(EncryptionEvent {
        algorithm: "m.megolm.v1.aes-sha2".to_string(),
    })));
    assert_eq!(client.tracked_users_ahead(&room), None);
}
