use matrix_sdk_base::client::BaseClient;
use matrix_sdk_base::emitter::{Action, Callback};
use matrix_sdk_base::error::Error;
use matrix_sdk_base::events::{
    EncryptedEvent, EncryptionEvent, IgnoredUserListEvent, MemberEvent, MembershipState,
    MessageEvent, NameEvent, NonRoomEvent, PresenceEvent, PresenceState, PushRulesEvent,
    RoomEvent, Ruleset, StateEvent, AnyStrippedStateEvent,
};
use matrix_sdk_base::room::{Room, RoomSummary, UnreadNotificationsCount};
use matrix_sdk_base::session::Session;
use matrix_sdk_base::state::{AllRooms, ClientState, RoomState, StoredState};
use matrix_sdk_base::sync::{
    EventJson, InvitedRoom, JoinedRoom, LeftRoom, LoginResponse, Rooms, SyncResponse,
    TimelineEvent,
};

fn session() -> Session {
    Session {
        access_token: "token".to_string(),
        user_id: "@me:s".to_string(),
        device_id: "DEVICE".to_string(),
    }
}

fn response(next_batch: &str) -> SyncResponse {
    SyncResponse {
        next_batch: next_batch.to_string(),
        rooms: Rooms { join: vec![], invite: vec![], leave: vec![] },
        presence: vec![],
    }
}

fn joined(room_id: &str) -> JoinedRoom {
    JoinedRoom {
        room_id: room_id.to_string(),
        state: vec![],
        timeline: vec![],
        account_data: vec![],
        ephemeral: vec![],
        summary: RoomSummary {
            heroes: vec![],
            joined_member_count: None,
            invited_member_count: None,
        },
        unread_notifications: UnreadNotificationsCount {
            highlight_count: None,
            notification_count: None,
        },
    }
}

fn invited(room_id: &str) -> InvitedRoom {
    InvitedRoom { room_id: room_id.to_string(), invite_state: vec![] }
}

fn left(room_id: &str) -> LeftRoom {
    LeftRoom { room_id: room_id.to_string(), state: vec![], timeline: vec![] }
}

fn member(user: &str, membership: MembershipState) -> MemberEvent {
    MemberEvent {
        sender: user.to_string(),
        state_key: user.to_string(),
        membership,
        displayname: None,
        avatar_url: None,
    }
}

fn name(name: &str) -> NameEvent {
    NameEvent { event_id: None, name: Some(name.to_string()) }
}

fn plain(event: RoomEvent) -> TimelineEvent {
    TimelineEvent { event: EventJson::new(event), decrypted: None }
}

fn message(body: &str) -> MessageEvent {
    MessageEvent {
        sender: "@a:s".to_string(),
        event_id: "$1".to_string(),
        body: body.to_string(),
    }
}

fn encrypted() -> EncryptedEvent {
    EncryptedEvent {
        sender: "@a:s".to_string(),
        event_id: "$1".to_string(),
        room_id: None,
        ciphertext: "AwgAEn".to_string(),
    }
}

fn count_stores(actions: &[Action]) -> usize {
    actions
        .iter()
        .filter(|a| matches!(a, Action::StoreRoomState(_) | Action::StoreClientState(_)))
        .count()
}

fn count_emissions(actions: &[Action]) -> usize {
    actions.iter().filter(|a| matches!(a, Action::Emit(_))).count()
}

fn occurrences(client: &BaseClient, room_id: &str) -> usize {
    let id = room_id.to_string();
    client.joined_rooms().contains_key(&id) as usize
        + client.invited_rooms().contains_key(&id) as usize
        + client.left_rooms().contains_key(&id) as usize
}

#[test]
fn new_client_is_empty() {
    let client = BaseClient::new(None).unwrap();
    assert!(!client.logged_in());
    assert_eq!(client.sync_token(), None);
    assert!(client.joined_rooms().is_empty());
    assert!(client.invited_rooms().is_empty());
    assert!(client.left_rooms().is_empty());
    assert!(!client.has_state_store());
    assert!(!client.has_event_emitter());
    assert!(!client.is_state_store_synced());
    assert!(client.ignored_users().is_empty());
    assert_eq!(client.push_ruleset(), &None);
}

#[test]
fn new_client_with_session_is_logged_in() {
    let client = BaseClient::new_with_state_store(Some(session())).unwrap();
    assert!(client.logged_in());
    assert!(client.has_state_store());
    assert_eq!(client.session(), &Some(session()));
}

#[test]
fn login_installs_the_session() {
    let mut client = BaseClient::new(None).unwrap();
    let login = LoginResponse {
        access_token: "abc".to_string(),
        device_id: "DEV".to_string(),
        user_id: "@u:s".to_string(),
    };
    client.receive_login_response(&login).unwrap();
    assert!(client.logged_in());
    assert_eq!(
        client.session(),
        &Some(Session {
            access_token: "abc".to_string(),
            user_id: "@u:s".to_string(),
            device_id: "DEV".to_string(),
        })
    );
    let relogin = LoginResponse {
        access_token: "xyz".to_string(),
        device_id: "DEV2".to_string(),
        user_id: "@v:s".to_string(),
    };
    client.receive_login_response(&relogin).unwrap();
    assert_eq!(client.session().as_ref().unwrap().user_id, "@v:s");
    assert_eq!(client.session().as_ref().unwrap().device_id, "DEV2");
    assert_eq!(client.session().as_ref().unwrap().access_token, "xyz");
}

#[test]
fn invite_then_join_moves_the_room() {
    let mut client = BaseClient::new(Some(session())).unwrap();
    let mut first = response("t1");
    first.rooms.invite.push(invited("!r:s"));
    client.receive_sync_response(&first).unwrap();
    let id = "!r:s".to_string();
    assert!(client.invited_rooms().contains_key(&id));
    assert!(client.joined_rooms().is_empty());
    assert!(client.left_rooms().is_empty());

    let mut second = response("t2");
    second.rooms.join.push(joined("!r:s"));
    client.receive_sync_response(&second).unwrap();
    assert!(client.joined_rooms().contains_key(&id));
    assert!(client.invited_rooms().is_empty());
    assert!(client.left_rooms().is_empty());
    assert_eq!(client.get_joined_room(&id).unwrap().room_id, "!r:s");
    assert_eq!(client.get_joined_room(&id).unwrap().own_user_id, "@me:s");
}

#[test]
fn leave_then_rejoin_moves_the_room() {
    let mut client = BaseClient::new(Some(session())).unwrap();
    let id = "!r:s".to_string();
    let mut first = response("t1");
    first.rooms.join.push(joined("!r:s"));
    client.receive_sync_response(&first).unwrap();
    let mut second = response("t2");
    second.rooms.leave.push(left("!r:s"));
    client.receive_sync_response(&second).unwrap();
    assert!(client.left_rooms().contains_key(&id));
    assert!(client.get_left_room(&id).is_some());
    assert!(client.joined_rooms().is_empty());

    let mut third = response("t3");
    third.rooms.join.push(joined("!r:s"));
    client.receive_sync_response(&third).unwrap();
    assert!(client.joined_rooms().contains_key(&id));
    assert!(client.left_rooms().is_empty());
    assert!(client.get_left_room(&id).is_none());
}

#[test]
fn join_then_invite_moves_the_room() {
    let mut client = BaseClient::new(Some(session())).unwrap();
    let id = "!r:s".to_string();
    client.get_or_create_joined_room(&id).unwrap();
    assert_eq!(occurrences(&client, "!r:s"), 1);
    client.get_or_create_invited_room(&id).unwrap();
    assert!(client.get_invited_room(&id).is_some());
    assert!(client.get_joined_room(&id).is_none());
    assert_eq!(occurrences(&client, "!r:s"), 1);
    client.get_or_create_left_room(&id).unwrap();
    assert!(client.get_left_room(&id).is_some());
    assert!(client.get_invited_room(&id).is_none());
    assert_eq!(occurrences(&client, "!r:s"), 1);
}

#[test]
fn a_room_in_all_sections_ends_in_one_set() {
    let mut client = BaseClient::new(Some(session())).unwrap();
    let mut resp = response("t1");
    resp.rooms.join.push(joined("!r:s"));
    resp.rooms.join.push(joined("!q:s"));
    resp.rooms.invite.push(invited("!r:s"));
    resp.rooms.leave.push(left("!r:s"));
    resp.rooms.leave.push(left("!p:s"));
    client.receive_sync_response(&resp).unwrap();
    assert_eq!(occurrences(&client, "!r:s"), 1);
    assert_eq!(occurrences(&client, "!q:s"), 1);
    assert_eq!(occurrences(&client, "!p:s"), 1);
    assert!(client.left_rooms().contains_key(&"!r:s".to_string()));
    assert!(client.joined_rooms().contains_key(&"!q:s".to_string()));
}

#[test]
fn get_or_create_keeps_an_existing_room() {
    let mut client = BaseClient::new(Some(session())).unwrap();
    let id = "!r:s".to_string();
    let changed = client
        .receive_joined_state_event(&id, &StateEvent::RoomName(name("Lobby")))
        .unwrap();
    assert!(changed);
    client.get_or_create_joined_room(&id).unwrap();
    assert_eq!(client.get_joined_room(&id).unwrap().name, Some("Lobby".to_string()));
}

#[test]
fn events_without_a_session_are_refused() {
    let mut client = BaseClient::new(None).unwrap();
    let id = "!r:s".to_string();
    assert_eq!(client.get_or_create_joined_room(&id), Err(Error::NotLoggedIn));
    assert_eq!(client.get_or_create_invited_room(&id), Err(Error::NotLoggedIn));
    assert_eq!(client.get_or_create_left_room(&id), Err(Error::NotLoggedIn));
    assert_eq!(
        client.receive_joined_state_event(&id, &StateEvent::RoomName(name("x"))),
        Err(Error::NotLoggedIn)
    );
    assert_eq!(
        client.receive_left_state_event(&id, &StateEvent::RoomName(name("x"))),
        Err(Error::NotLoggedIn)
    );
    assert_eq!(
        client.receive_invite_state_event(&id, &AnyStrippedStateEvent::RoomName(name("x"))),
        Err(Error::NotLoggedIn)
    );
    assert_eq!(
        client.receive_left_timeline_event(&id, &EventJson::new(RoomEvent::RoomName(name("x")))),
        Err(Error::NotLoggedIn)
    );
    assert_eq!(
        client
            .receive_joined_timeline_event(&id, &plain(RoomEvent::RoomName(name("x"))))
            .err(),
        Some(Error::NotLoggedIn)
    );
    assert!(client.joined_rooms().is_empty());
    assert!(client.invited_rooms().is_empty());
    assert!(client.left_rooms().is_empty());
}

#[test]
fn unreadable_events_are_skipped_without_a_session() {
    let mut client = BaseClient::new(None).unwrap();
    let id = "!r:s".to_string();
    assert_eq!(client.receive_left_timeline_event(&id, &EventJson::unreadable()), Ok(false));
    let entry = TimelineEvent { event: EventJson::unreadable(), decrypted: None };
    assert_eq!(client.receive_joined_timeline_event(&id, &entry), Ok((None, false)));
    assert!(client.left_rooms().is_empty());
}

#[test]
fn sync_without_a_session_refuses_rooms_and_changes_nothing() {
    let mut client = BaseClient::new(None).unwrap();
    let mut resp = response("t1");
    resp.rooms.join.push(joined("!r:s"));
    resp.rooms.invite.push(invited("!i:s"));
    resp.rooms.leave.push(left("!l:s"));
    assert_eq!(client.receive_sync_response(&resp).err(), Some(Error::NotLoggedIn));
    assert_eq!(client.sync_token(), None);
    assert!(client.joined_rooms().is_empty());
    let mut actions = Vec::new();
    assert_eq!(client.iter_joined_rooms(&resp, &mut actions), Err(Error::NotLoggedIn));
    assert_eq!(client.iter_invited_rooms(&resp, &mut actions), Err(Error::NotLoggedIn));
    assert_eq!(client.iter_left_rooms(&resp, &mut actions), Err(Error::NotLoggedIn));
    assert!(actions.is_empty());

    // After the login the same response is taken in.
    let login = LoginResponse {
        access_token: "abc".to_string(),
        device_id: "DEV".to_string(),
        user_id: "@me:s".to_string(),
    };
    client.receive_login_response(&login).unwrap();
    client.receive_sync_response(&resp).unwrap();
    assert_eq!(client.sync_token(), Some("t1".to_string()));
    assert!(client.get_joined_room(&"!r:s".to_string()).is_some());
    assert!(client.get_invited_room(&"!i:s".to_string()).is_some());
    assert!(client.get_left_room(&"!l:s".to_string()).is_some());
}

#[test]
fn sync_without_rooms_needs_no_session() {
    let mut client = BaseClient::new_with_state_store(None).unwrap();
    let resp = response("t1");
    let actions = client.receive_sync_response(&resp).unwrap();
    assert_eq!(client.sync_token(), Some("t1".to_string()));
    assert_eq!(actions.len(), 1);
    match &actions[0] {
        Action::StoreClientState(state) => {
            assert_eq!(state.sync_token, Some("t1".to_string()));
            assert!(state.ignored_users.is_empty());
            assert_eq!(state.push_ruleset, None);
        }
        other => panic!("unexpected action {:?}", other),
    }
}

#[test]
fn token_follows_the_response() {
    let mut client = BaseClient::new(Some(session())).unwrap();
    let mut resp = response("s72594_4483_1934");
    resp.rooms.join.push(joined("!r:s"));
    client.receive_sync_response(&resp).unwrap();
    assert_eq!(client.sync_token(), Some("s72594_4483_1934".to_string()));
    assert!(client.holds_token(&"s72594_4483_1934".to_string()));
    assert!(!client.holds_token(&"other".to_string()));
    client.receive_sync_response(&response("t2")).unwrap();
    assert_eq!(client.sync_token(), Some("t2".to_string()));
}

#[test]
fn repeated_response_is_taken_once() {
    let mut client = BaseClient::new_with_state_store(Some(session())).unwrap();
    client.add_event_emitter();
    let mut resp = response("t1");
    let mut room = joined("!r:s");
    room.state.push(EventJson::new(StateEvent::RoomName(name("Lobby"))));
    room.timeline.push(plain(RoomEvent::RoomMessage(message("hello"))));
    resp.rooms.join.push(room);
    let first = client.receive_sync_response(&resp).unwrap();
    assert_eq!(count_emissions(&first), 2);
    assert_eq!(count_stores(&first), 2);
    let before = format!("{:?}", client);
    let second = client.receive_sync_response(&resp).unwrap();
    assert!(second.is_empty());
    assert_eq!(format!("{:?}", client), before);
    assert_eq!(client.sync_token(), Some("t1".to_string()));
}

#[test]
fn joined_room_actions_come_in_order() {
    let mut client = BaseClient::new_with_state_store(Some(session())).unwrap();
    client.add_event_emitter();
    let mut resp = response("t1");
    let mut room = joined("!r:s");
    room.state.push(EventJson::new(StateEvent::RoomEncryption(EncryptionEvent {
        algorithm: "m.megolm.v1.aes-sha2".to_string(),
    })));
    room.state.push(EventJson::unreadable());
    room.state.push(EventJson::new(StateEvent::RoomMember(member("@a:s", MembershipState::Join))));
    room.state.push(EventJson::new(StateEvent::RoomName(name("Lobby"))));
    room.timeline.push(plain(RoomEvent::RoomMessage(message("hello"))));
    room.timeline.push(plain(RoomEvent::RoomName(name("Hall"))));
    room.summary.heroes = vec!["@a:s".to_string()];
    room.summary.joined_member_count = Some(2);
    room.unread_notifications.notification_count = Some(7);
    resp.rooms.join.push(room);
    let actions = client.receive_sync_response(&resp).unwrap();

    assert_eq!(actions.len(), 7);
    match &actions[0] {
        Action::UpdateTrackedUsers(users) => assert_eq!(users, &vec!["@a:s".to_string()]),
        other => panic!("unexpected action {:?}", other),
    }
    match &actions[1] {
        Action::Emit(e) => {
            assert!(matches!(e.callback, Callback::StateMember(m) if m.state_key == "@a:s"));
            match &e.room {
                RoomState::Joined(r) => {
                    assert_eq!(r.name, Some("Lobby".to_string()));
                    assert_eq!(r.heroes, vec!["@a:s".to_string()]);
                    assert_eq!(r.unread_notifications, Some(7));
                    assert!(r.encrypted);
                }
                other => panic!("unexpected room {:?}", other),
            }
        }
        other => panic!("unexpected action {:?}", other),
    }
    match &actions[2] {
        Action::Emit(e) => {
            assert!(matches!(e.callback, Callback::StateName(n) if n.name == Some("Lobby".to_string())))
        }
        other => panic!("unexpected action {:?}", other),
    }
    match &actions[3] {
        Action::Emit(e) => {
            assert!(matches!(e.callback, Callback::RoomMessage(m) if m.body == "hello"));
            assert!(matches!(&e.room, RoomState::Joined(r) if r.name == Some("Lobby".to_string())));
        }
        other => panic!("unexpected action {:?}", other),
    }
    match &actions[4] {
        Action::Emit(e) => {
            assert!(matches!(e.callback, Callback::RoomName(_)));
            assert!(matches!(&e.room, RoomState::Joined(r) if r.name == Some("Hall".to_string())));
        }
        other => panic!("unexpected action {:?}", other),
    }
    match &actions[5] {
        Action::StoreRoomState(RoomState::Joined(r)) => {
            assert_eq!(r.room_id, "!r:s");
            assert_eq!(r.name, Some("Hall".to_string()));
            assert_eq!(r.joined_member_count, Some(2));
        }
        other => panic!("unexpected action {:?}", other),
    }
    assert!(matches!(&actions[6], Action::StoreClientState(s) if s.sync_token == Some("t1".to_string())));
}

#[test]
fn nothing_is_emitted_without_a_subscriber() {
    let mut client = BaseClient::new(Some(session())).unwrap();
    let mut resp = response("t1");
    let mut room = joined("!r:s");
    room.state.push(EventJson::new(StateEvent::RoomName(name("Lobby"))));
    room.timeline.push(plain(RoomEvent::RoomMessage(message("hello"))));
    resp.rooms.join.push(room);
    let actions = client.receive_sync_response(&resp).unwrap();
    assert!(actions.is_empty());
    assert_eq!(
        client.get_joined_room(&"!r:s".to_string()).unwrap().name,
        Some("Lobby".to_string())
    );
}

#[test]
fn unchanged_room_is_not_persisted() {
    let mut client = BaseClient::new_with_state_store(Some(session())).unwrap();
    let mut first = response("t1");
    let mut room = joined("!r:s");
    room.state.push(EventJson::new(StateEvent::RoomName(name("Lobby"))));
    first.rooms.join.push(room.clone());
    let actions = client.receive_sync_response(&first).unwrap();
    assert_eq!(count_stores(&actions), 2);
    let mut second = response("t2");
    second.rooms.join.push(room);
    let actions = client.receive_sync_response(&second).unwrap();
    assert_eq!(actions.len(), 1);
    assert!(matches!(&actions[0], Action::StoreClientState(_)));
}

#[test]
fn a_room_is_persisted_for_its_own_changes_only() {
    let mut client = BaseClient::new_with_state_store(Some(session())).unwrap();
    let mut resp = response("t1");
    let mut room = joined("!a:s");
    room.state.push(EventJson::new(StateEvent::RoomName(name("A"))));
    resp.rooms.join.push(room);
    resp.rooms.join.push(joined("!b:s"));
    let mut late = joined("!c:s");
    late.timeline.push(plain(RoomEvent::RoomName(name("C"))));
    resp.rooms.join.push(late);
    resp.rooms.join.push(joined("!d:s"));
    resp.rooms.leave.push(left("!e:s"));
    let mut actions = Vec::new();
    let updated = client.iter_joined_rooms(&resp, &mut actions).unwrap();
    assert!(updated);
    assert_eq!(actions.len(), 2);
    assert!(matches!(&actions[0], Action::StoreRoomState(RoomState::Joined(r)) if r.room_id == "!a:s"));
    assert!(matches!(&actions[1], Action::StoreRoomState(RoomState::Joined(r)) if r.room_id == "!c:s"));
    assert!(client.get_joined_room(&"!b:s".to_string()).is_some());
    assert!(client.get_joined_room(&"!d:s".to_string()).is_some());
    let updated = client.iter_left_rooms(&resp, &mut actions).unwrap();
    assert!(!updated);
    assert_eq!(actions.len(), 2);
}

#[test]
fn invitations_and_left_rooms_are_persisted_for_their_own_changes_only() {
    let mut client = BaseClient::new_with_state_store(Some(session())).unwrap();
    let mut resp = response("t1");
    let mut first = invited("!a:s");
    first.invite_state.push(EventJson::new(AnyStrippedStateEvent::RoomName(name("A"))));
    resp.rooms.invite.push(first);
    resp.rooms.invite.push(invited("!b:s"));
    let mut gone = left("!c:s");
    gone.state.push(EventJson::new(StateEvent::RoomName(name("C"))));
    resp.rooms.leave.push(gone);
    resp.rooms.leave.push(left("!d:s"));
    let actions = client.receive_sync_response(&resp).unwrap();
    assert_eq!(actions.len(), 3);
    assert!(matches!(&actions[0], Action::StoreRoomState(RoomState::Invited(r)) if r.room_id == "!a:s"));
    assert!(matches!(&actions[1], Action::StoreRoomState(RoomState::Left(r)) if r.room_id == "!c:s"));
    assert!(matches!(&actions[2], Action::StoreClientState(_)));
}

#[test]
fn invited_room_takes_stripped_state() {
    let mut client = BaseClient::new_with_state_store(Some(session())).unwrap();
    client.add_event_emitter();
    let mut resp = response("t1");
    let mut room = invited("!i:s");
    room.invite_state.push(EventJson::new(AnyStrippedStateEvent::RoomName(name("Party"))));
    room.invite_state.push(EventJson::unreadable());
    room.invite_state.push(EventJson::new(AnyStrippedStateEvent::Other));
    resp.rooms.invite.push(room);
    let mut actions = Vec::new();
    let updated = client.iter_invited_rooms(&resp, &mut actions).unwrap();
    assert!(updated);
    assert_eq!(actions.len(), 2);
    match &actions[0] {
        Action::Emit(e) => {
            assert!(matches!(e.callback, Callback::StrippedStateName(_)));
            assert!(matches!(&e.room, RoomState::Invited(r) if r.name == Some("Party".to_string())));
        }
        other => panic!("unexpected action {:?}", other),
    }
    assert!(matches!(&actions[1], Action::StoreRoomState(RoomState::Invited(r)) if r.room_id == "!i:s"));
}

#[test]
fn left_room_takes_state_and_timeline() {
    let mut client = BaseClient::new_with_state_store(Some(session())).unwrap();
    client.add_event_emitter();
    let mut resp = response("t1");
    let mut room = left("!l:s");
    room.state.push(EventJson::new(StateEvent::RoomName(name("Old"))));
    room.timeline.push(EventJson::new(RoomEvent::RoomMember(member("@me:s", MembershipState::Leave))));
    room.timeline.push(EventJson::unreadable());
    room.timeline.push(EventJson::new(RoomEvent::RoomMember(member("@a:s", MembershipState::Join))));
    resp.rooms.leave.push(room);
    let mut actions = Vec::new();
    let updated = client.iter_left_rooms(&resp, &mut actions).unwrap();
    assert!(updated);
    assert_eq!(actions.len(), 4);
    assert!(matches!(&actions[0], Action::Emit(e) if matches!(e.callback, Callback::StateName(_))));
    assert!(matches!(&actions[1], Action::Emit(e) if matches!(e.callback, Callback::RoomMember(_))));
    match &actions[2] {
        Action::Emit(e) => match &e.room {
            RoomState::Left(r) => assert!(r.members.contains_key(&"@a:s".to_string())),
            other => panic!("unexpected room {:?}", other),
        },
        other => panic!("unexpected action {:?}", other),
    }
    assert!(matches!(&actions[3], Action::StoreRoomState(RoomState::Left(_))));
    let room = client.get_left_room(&"!l:s".to_string()).unwrap();
    assert!(!room.members.contains_key(&"@me:s".to_string()));
    assert!(room.members.contains_key(&"@a:s".to_string()));
}

#[test]
fn own_leave_in_join_section_keeps_the_room_joined() {
    let mut client = BaseClient::new(Some(session())).unwrap();
    let id = "!r:s".to_string();
    client
        .receive_joined_state_event(&id, &StateEvent::RoomMember(member("@me:s", MembershipState::Join)))
        .unwrap();
    let entry = plain(RoomEvent::RoomMember(member("@me:s", MembershipState::Leave)));
    let (decrypted, changed) = client.receive_joined_timeline_event(&id, &entry).unwrap();
    assert!(decrypted.is_none());
    assert!(changed);
    let room = client.get_joined_room(&id).unwrap();
    assert_eq!(
        room.members.get(&"@me:s".to_string()).unwrap().membership,
        MembershipState::Leave
    );
    assert!(client.left_rooms().is_empty());
}

#[test]
fn decrypted_event_replaces_the_envelope() {
    let mut client = BaseClient::new(Some(session())).unwrap();
    client.add_event_emitter();
    let mut resp = response("t1");
    let mut room = joined("!r:s");
    room.timeline.push(TimelineEvent {
        event: EventJson::new(RoomEvent::RoomEncrypted(encrypted())),
        decrypted: Some(RoomEvent::RoomMessage(message("secret"))),
    });
    resp.rooms.join.push(room);
    let actions = client.receive_sync_response(&resp).unwrap();
    assert_eq!(actions.len(), 1);
    assert!(matches!(&actions[0], Action::Emit(e) if matches!(e.callback, Callback::RoomMessage(m) if m.body == "secret")));
}

#[test]
fn undecrypted_event_is_shown_as_it_came() {
    let mut client = BaseClient::new_with_state_store(Some(session())).unwrap();
    client.add_event_emitter();
    let mut resp = response("t1");
    let mut room = joined("!r:s");
    room.timeline.push(plain(RoomEvent::RoomEncrypted(encrypted())));
    resp.rooms.join.push(room);
    let actions = client.receive_sync_response(&resp).unwrap();
    assert_eq!(actions.len(), 2);
    match &actions[0] {
        Action::Emit(e) => {
            assert!(matches!(e.callback, Callback::RoomEncrypted(c) if c.ciphertext == "AwgAEn"));
            assert!(matches!(&e.room, RoomState::Joined(r) if r.name.is_none() && r.members.is_empty()));
        }
        other => panic!("unexpected action {:?}", other),
    }
    assert!(matches!(&actions[1], Action::StoreClientState(_)));
}

#[test]
fn decrypted_form_is_taken_only_for_encrypted_events() {
    let mut client = BaseClient::new(Some(session())).unwrap();
    let id = "!r:s".to_string();
    let entry = TimelineEvent {
        event: EventJson::new(RoomEvent::RoomMessage(message("plain"))),
        decrypted: Some(RoomEvent::RoomName(name("Forged"))),
    };
    let (decrypted, changed) = client.receive_joined_timeline_event(&id, &entry).unwrap();
    assert!(decrypted.is_none());
    assert!(!changed);
    assert_eq!(client.get_joined_room(&id).unwrap().name, None);

    let entry = TimelineEvent {
        event: EventJson::new(RoomEvent::RoomEncrypted(encrypted())),
        decrypted: Some(RoomEvent::RoomName(name("Hidden"))),
    };
    let (decrypted, changed) = client.receive_joined_timeline_event(&id, &entry).unwrap();
    assert_eq!(decrypted, Some(&RoomEvent::RoomName(name("Hidden"))));
    assert!(changed);
    assert_eq!(client.get_joined_room(&id).unwrap().name, Some("Hidden".to_string()));
}

#[test]
fn equal_ignored_users_change_nothing() {
    let mut client = BaseClient::new_with_state_store(Some(session())).unwrap();
    let list = IgnoredUserListEvent { ignored_users: vec!["@x:s".to_string(), "@y:s".to_string()] };
    assert!(client.handle_ignored_users(&list));
    assert_eq!(client.ignored_users(), &vec!["@x:s".to_string(), "@y:s".to_string()]);
    assert!(!client.handle_ignored_users(&list));
    let swapped = IgnoredUserListEvent { ignored_users: vec!["@y:s".to_string(), "@x:s".to_string()] };
    assert!(client.handle_ignored_users(&swapped));
    assert!(!client.receive_account_data_event(&"!r:s".to_string(), &NonRoomEvent::IgnoredUserList(swapped.clone())));

    let mut first = response("t1");
    first.rooms.join.push(joined("!r:s"));
    client.receive_sync_response(&first).unwrap();
    let mut second = response("t2");
    let mut room = joined("!r:s");
    room.account_data.push(EventJson::new(NonRoomEvent::IgnoredUserList(swapped)));
    second.rooms.join.push(room);
    let actions = client.receive_sync_response(&second).unwrap();
    assert_eq!(actions.len(), 1);
    assert!(matches!(&actions[0], Action::StoreClientState(_)));
}

#[test]
fn push_rules_always_count_as_a_change() {
    let mut client = BaseClient::new(Some(session())).unwrap();
    let rules = PushRulesEvent {
        global: Ruleset {
            content: vec![".m.rule.contains_user_name".to_string()],
            override_rules: vec![".m.rule.master".to_string()],
            room: vec![],
            sender: vec![],
            underride: vec![".m.rule.message".to_string()],
        },
    };
    assert!(client.handle_push_rules(&rules));
    assert_eq!(client.push_ruleset(), &Some(rules.global.clone()));
    assert!(client.handle_push_rules(&rules));
    assert!(client.receive_ephemeral_event(&"!r:s".to_string(), &NonRoomEvent::PushRules(rules.clone())));
    assert!(!client.receive_ephemeral_event(&"!r:s".to_string(), &NonRoomEvent::Other));
    assert_eq!(client.client_state().push_ruleset, Some(rules.global));
}

#[test]
fn presence_reaches_joined_rooms_only() {
    let mut client = BaseClient::new(Some(session())).unwrap();
    client.add_event_emitter();
    let presence = PresenceEvent {
        sender: "@a:s".to_string(),
        presence: PresenceState::Online,
        displayname: Some("Ann".to_string()),
        avatar_url: None,
        status_msg: Some("busy".to_string()),
        currently_active: Some(true),
        last_active_ago: Some(5),
    };
    assert!(!client.receive_presence_event(&"!r:s".to_string(), &presence));
    let mut resp = response("t1");
    let mut room = joined("!r:s");
    room.state.push(EventJson::new(StateEvent::RoomMember(member("@a:s", MembershipState::Join))));
    resp.rooms.join.push(room);
    resp.presence.push(EventJson::new(presence.clone()));
    resp.presence.push(EventJson::unreadable());
    let actions = client.receive_sync_response(&resp).unwrap();
    assert_eq!(actions.len(), 2);
    match &actions[1] {
        Action::Emit(e) => {
            assert!(matches!(e.callback, Callback::PresenceEvent(p) if p.sender == "@a:s"));
            match &e.room {
                RoomState::Joined(r) => {
                    let m = r.members.get(&"@a:s".to_string()).unwrap();
                    assert_eq!(m.presence, Some(PresenceState::Online));
                    assert_eq!(m.display_name, Some("Ann".to_string()));
                    assert_eq!(m.status_msg, Some("busy".to_string()));
                    assert_eq!(m.currently_active, Some(true));
                    assert_eq!(m.last_active_ago, Some(5));
                }
                other => panic!("unexpected room {:?}", other),
            }
        }
        other => panic!("unexpected action {:?}", other),
    }
    assert!(!client.receive_presence_event(&"!r:s".to_string(), &presence));
    assert!(client.receive_account_data_event(
        &"!r:s".to_string(),
        &NonRoomEvent::Presence(PresenceEvent { presence: PresenceState::Offline, ..presence })
    ));
}

#[test]
fn store_sync_needs_store_and_session() {
    let stored = StoredState {
        client_state: ClientState {
            sync_token: Some("t9".to_string()),
            ignored_users: vec!["@x:s".to_string()],
            push_ruleset: None,
        },
        rooms: AllRooms { joined: vec![], invited: vec![], left: vec![] },
    };
    let mut no_store = BaseClient::new(Some(session())).unwrap();
    assert_eq!(no_store.sync_with_state_store(Some(&stored)), Ok(false));
    assert_eq!(no_store.sync_token(), None);
    let mut no_session = BaseClient::new_with_state_store(None).unwrap();
    assert_eq!(no_session.sync_with_state_store(Some(&stored)), Ok(false));
    assert_eq!(no_session.sync_token(), None);
    let mut client = BaseClient::new_with_state_store(Some(session())).unwrap();
    assert_eq!(client.sync_with_state_store(None), Ok(false));
    assert!(!client.is_state_store_synced());
    assert_eq!(client.sync_with_state_store(Some(&stored)), Ok(true));
    assert!(client.is_state_store_synced());
    assert_eq!(client.sync_token(), Some("t9".to_string()));
    assert_eq!(client.ignored_users(), &vec!["@x:s".to_string()]);
    assert_eq!(client.sync_with_state_store(None), Ok(false));
    assert!(client.is_state_store_synced());
}

#[test]
fn store_sync_puts_each_room_in_one_set() {
    let mut a = Room::new(&"!a:s".to_string(), &"@me:s".to_string());
    a.name = Some("joined copy".to_string());
    let mut a_left = Room::new(&"!a:s".to_string(), &"@me:s".to_string());
    a_left.name = Some("left copy".to_string());
    let b = Room::new(&"!b:s".to_string(), &"@me:s".to_string());
    let stored = StoredState {
        client_state: ClientState { sync_token: None, ignored_users: vec![], push_ruleset: None },
        rooms: AllRooms { joined: vec![a], invited: vec![b], left: vec![a_left] },
    };
    let mut client = BaseClient::new_with_state_store(Some(session())).unwrap();
    client.get_or_create_joined_room(&"!gone:s".to_string()).unwrap();
    assert_eq!(client.sync_with_state_store(Some(&stored)), Ok(true));
    assert_eq!(occurrences(&client, "!a:s"), 1);
    assert_eq!(occurrences(&client, "!b:s"), 1);
    assert_eq!(occurrences(&client, "!gone:s"), 0);
    assert_eq!(
        client.get_left_room(&"!a:s".to_string()).unwrap().name,
        Some("left copy".to_string())
    );
    assert!(client.get_invited_room(&"!b:s".to_string()).is_some());
}

#[test]
fn crash_recovery_replay() {
    let mut before = BaseClient::new_with_state_store(Some(session())).unwrap();
    let mut first = response("t1");
    let mut room = joined("!r:s");
    room.state.push(EventJson::new(StateEvent::RoomName(name("Old"))));
    first.rooms.join.push(room);
    let actions = before.receive_sync_response(&first).unwrap();
    let old_room = match &actions[0] {
        Action::StoreRoomState(RoomState::Joined(r)) => r.clone(),
        other => panic!("unexpected action {:?}", other),
    };

    let mut second = response("t2");
    let mut room = joined("!r:s");
    room.state.push(EventJson::new(StateEvent::RoomName(name("New"))));
    room.state.push(EventJson::new(StateEvent::RoomMember(member("@a:s", MembershipState::Join))));
    second.rooms.join.push(room.clone());
    let actions = before.receive_sync_response(&second).unwrap();
    let new_state = match actions.last().unwrap() {
        Action::StoreClientState(s) => s.clone(),
        other => panic!("unexpected action {:?}", other),
    };
    assert_eq!(new_state.sync_token, Some("t2".to_string()));

    // The token of the second response was written, the room was not.
    let stored = StoredState {
        client_state: new_state,
        rooms: AllRooms { joined: vec![old_room], invited: vec![], left: vec![] },
    };
    let mut after = BaseClient::new_with_state_store(Some(session())).unwrap();
    assert_eq!(after.sync_with_state_store(Some(&stored)), Ok(true));
    assert_eq!(after.sync_token(), Some("t2".to_string()));
    assert_eq!(
        after.get_joined_room(&"!r:s".to_string()).unwrap().name,
        Some("Old".to_string())
    );

    // The server sends the state again with the next response.
    let mut third = response("t3");
    third.rooms.join.push(room);
    after.receive_sync_response(&third).unwrap();
    let recovered = after.get_joined_room(&"!r:s".to_string()).unwrap();
    let expected = before.get_joined_room(&"!r:s".to_string()).unwrap();
    assert_eq!(recovered.name, Some("New".to_string()));
    assert_eq!(format!("{:?}", recovered), format!("{:?}", expected));
}

#[test]
fn manual_flush_names_the_set_of_the_room() {
    let mut client = BaseClient::new_with_state_store(Some(session())).unwrap();
    client.get_or_create_joined_room(&"!j:s".to_string()).unwrap();
    client.get_or_create_invited_room(&"!i:s".to_string()).unwrap();
    client.get_or_create_left_room(&"!l:s".to_string()).unwrap();
    assert!(matches!(client.store_room_state(&"!j:s".to_string()), Ok(Some(RoomState::Joined(r))) if r.room_id == "!j:s"));
    assert!(matches!(client.store_room_state(&"!i:s".to_string()), Ok(Some(RoomState::Invited(r))) if r.room_id == "!i:s"));
    assert!(matches!(client.store_room_state(&"!l:s".to_string()), Ok(Some(RoomState::Left(r))) if r.room_id == "!l:s"));
    assert!(matches!(client.store_room_state(&"!none:s".to_string()), Ok(None)));
    let mut no_store = BaseClient::new(Some(session())).unwrap();
    no_store.get_or_create_joined_room(&"!j:s".to_string()).unwrap();
    assert!(matches!(no_store.store_room_state(&"!j:s".to_string()), Ok(None)));
}
