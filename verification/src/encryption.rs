//! What the client asks of the crypto engine.
//!
//! The engine stays with the caller, because every call into it waits.  The
//! client decides when the engine is needed and what it is handed; the
//! caller hands the request on and takes the answer.  The engine is bound
//! to a user and a device, so a client has one exactly while it has a
//! session.

use crate::client::BaseClient;
use crate::error::Error;
use crate::events::{EncryptedEvent, EncryptedEventView, RoomEvent, RoomEventView};
use crate::identifiers::{RoomId, UserId};
use crate::model::ClientView;
use crate::room::Room;
use crate::snapshot::{snapshot_list, Snapshot};
use crate::sync::{
    JoinedRoom, JoinedRoomView, SyncResponse, SyncResponseView, TimelineEvent, TimelineEventView,
};
use vstd::prelude::*;

verus! {

/// A request to the crypto engine.
#[derive(Clone, Debug, PartialEq, Eq)]
pub enum CryptoRequest {
    /// Whether account keys or one-time keys are to be uploaded.
    ShouldUploadKeys,
    /// Whether a group session has to be shared before a message can be
    /// encrypted for the room.
    ShouldShareGroupSession(RoomId),
    /// Whether the device keys of some users are to be queried.
    ShouldQueryKeys,
    /// The devices of the users with which no session exists yet.
    GetMissingSessions(Vec<UserId>),
    /// The requests that share a group session with the members of a room.
    ShareGroupSession(RoomId, Vec<UserId>),
    /// The encrypted form of a message for a room.
    Encrypt(RoomId, String),
    /// The keys that are to be uploaded.
    KeysForUpload,
    /// The users whose keys are to be queried.
    UsersForKeyQuery,
    /// Take the response to a key upload.
    ReceiveKeysUploadResponse,
    /// Take the response to a key claim.
    ReceiveKeysClaimResponse,
    /// Take the response to a key query.
    ReceiveKeysQueryResponse,
}

/// The model of [`CryptoRequest`].  The members with whom a group session
/// is shared are a set.
pub enum CryptoRequestView {
    ShouldUploadKeys,
    ShouldShareGroupSession(Seq<char>),
    ShouldQueryKeys,
    GetMissingSessions(Seq<Seq<char>>),
    ShareGroupSession(Seq<char>, Set<Seq<char>>),
    Encrypt(Seq<char>, Seq<char>),
    KeysForUpload,
    UsersForKeyQuery,
    ReceiveKeysUploadResponse,
    ReceiveKeysClaimResponse,
    ReceiveKeysQueryResponse,
}

impl DeepView for CryptoRequest {
    type V = CryptoRequestView;

    open spec fn deep_view(&self) -> CryptoRequestView {
        match self {
            CryptoRequest::ShouldUploadKeys => CryptoRequestView::ShouldUploadKeys,
            CryptoRequest::ShouldShareGroupSession(room) => CryptoRequestView::ShouldShareGroupSession(room@),
            CryptoRequest::ShouldQueryKeys => CryptoRequestView::ShouldQueryKeys,
            CryptoRequest::GetMissingSessions(users) => CryptoRequestView::GetMissingSessions(
                users.deep_view(),
            ),
            CryptoRequest::ShareGroupSession(room, members) => CryptoRequestView::ShareGroupSession(
                room@,
                members.deep_view().to_set(),
            ),
            CryptoRequest::Encrypt(room, content) => CryptoRequestView::Encrypt(room@, content@),
            CryptoRequest::KeysForUpload => CryptoRequestView::KeysForUpload,
            CryptoRequest::UsersForKeyQuery => CryptoRequestView::UsersForKeyQuery,
            CryptoRequest::ReceiveKeysUploadResponse => CryptoRequestView::ReceiveKeysUploadResponse,
            CryptoRequest::ReceiveKeysClaimResponse => CryptoRequestView::ReceiveKeysClaimResponse,
            CryptoRequest::ReceiveKeysQueryResponse => CryptoRequestView::ReceiveKeysQueryResponse,
        }
    }
}

/// What becomes of a question that only the crypto engine can answer.
#[derive(Clone, Debug, PartialEq, Eq)]
pub enum EngineQuery<T> {
    /// The client has an engine: the engine is to be asked.
    Ask(CryptoRequest),
    /// The client has no engine: this is the answer.
    Answer(T),
}

/// An encrypted event of a sync response that the crypto engine is to
/// decrypt, and where the decrypted event belongs.
#[derive(Clone, Debug, PartialEq, Eq)]
pub struct DecryptionRequest<'a> {
    /// The place of the room among the joined rooms of the response.
    pub room: usize,
    /// The place of the event in the timeline of the room.
    pub event: usize,
    /// The room of the event.
    pub room_id: &'a RoomId,
    /// The encrypted event.
    pub encrypted: &'a EncryptedEvent,
}

/// The model of [`DecryptionRequest`].
pub struct DecryptionRequestView {
    pub room: int,
    pub event: int,
    pub room_id: Seq<char>,
    pub encrypted: EncryptedEventView,
}

impl<'a> DeepView for DecryptionRequest<'a> {
    type V = DecryptionRequestView;

    open spec fn deep_view(&self) -> DecryptionRequestView {
        DecryptionRequestView {
            room: self.room as int,
            event: self.event as int,
            room_id: self.room_id@,
            encrypted: self.encrypted.deep_view(),
        }
    }
}

/// The encrypted events among `events`, which are the first events of the
/// timeline of the room at place `room`, in order.
pub open spec fn encrypted_events(room: int, room_id: Seq<char>, events: Seq<TimelineEventView>) -> Seq<
    DecryptionRequestView,
>
    decreases events.len(),
{
    if events.len() == 0 {
        Seq::empty()
    } else {
        let before = encrypted_events(room, room_id, events.drop_last());
        match events.last().event {
            Some(RoomEventView::RoomEncrypted(e)) => before.push(
                DecryptionRequestView { room, event: events.len() - 1, room_id, encrypted: e },
            ),
            _ => before,
        }
    }
}

/// The encrypted events of the timelines of `rooms`, which are the first
/// joined rooms of a response, room by room.
pub open spec fn encrypted_events_of(rooms: Seq<JoinedRoomView>) -> Seq<DecryptionRequestView>
    decreases rooms.len(),
{
    if rooms.len() == 0 {
        Seq::empty()
    } else {
        encrypted_events_of(rooms.drop_last()) + encrypted_events(
            rooms.len() - 1,
            rooms.last().room_id,
            rooms.last().timeline,
        )
    }
}

impl ClientView {
    /// Whether the client has a crypto engine.
    pub open spec fn has_crypto_engine(self) -> bool {
        self.session is Some
    }

    /// Whether the crypto engine is to see `response` before the client
    /// takes it in: it is unless the client has no engine or has received
    /// the response before.
    pub open spec fn engine_receives(self, response: SyncResponseView) -> bool {
        self.has_crypto_engine() && !self.already_received(response)
    }
}

impl<T> EngineQuery<T> {
    /// The request, where the engine is to be asked.
    pub open spec fn request(self) -> Option<CryptoRequestView> {
        match self {
            EngineQuery::Ask(r) => Some(r.deep_view()),
            EngineQuery::Answer(_) => None,
        }
    }

    /// The answer, where the client has no engine.
    pub open spec fn answer(self) -> Option<T> {
        match self {
            EngineQuery::Ask(_) => None,
            EngineQuery::Answer(a) => Some(a),
        }
    }
}

impl BaseClient {
    /// Whether the crypto engine is to see `response` before the client
    /// takes it in.
    pub fn engine_receives(&self, response: &SyncResponse) -> (b: bool)
        ensures
            b == self@.engine_receives(response.deep_view()),
    {
        self.logged_in() && !self.holds_token(&response.next_batch)
    }

    /// The users that the crypto engine has to track before it decrypts the
    /// timeline of `room`, a joined room of a response that the client has
    /// yet to take in: the members that the room has once its state is
    /// applied, if the room is encrypted then.  None where the client has no
    /// engine.
    pub fn tracked_users_ahead(&self, room: &JoinedRoom) -> (r: Option<Vec<UserId>>)
        requires
            self.wf(),
        ensures
            ({
                let ahead = self@.joined_or_fresh(room.room_id@).with_state_events(
                    room.deep_view().state,
                );
                match r {
                    Some(users) => self@.has_crypto_engine() && ahead.encrypted
                        && users.deep_view().to_set() == ahead.members.dom()
                        && users.deep_view().no_duplicates(),
                    None => !self@.has_crypto_engine() || !ahead.encrypted,
                }
            }),
    {
        let own_user_id = match self.session() {
            Some(session) => &session.user_id,
            None => {
                return None;
            },
        };
        let mut ahead = match self.get_joined_room(&room.room_id) {
            Some(held) => held.snapshot(),
            None => Room::new(&room.room_id, own_user_id),
        };
        let ghost start = ahead@;
        let ghost all = room.deep_view().state;
        let mut i: usize = 0;
        while i < room.state.len()
            invariant
                ahead.wf(),
                i <= room.state.len(),
                all == room.deep_view().state,
                ahead@ == start.with_state_events(all.take(i as int)),
            decreases room.state.len() - i,
        {
            proof {
                assert(all.take(i + 1).drop_last() =~= all.take(i as int));
                assert(all.take(i + 1).last() == room.state[i as int].deep_view());
            }
            match room.state[i].deserialize() {
                Ok(e) => {
                    ahead.receive_state_event(e);
                },
                Err(_) => {},
            }
            i = i + 1;
        }
        assert(all.take(room.state.len() as int) =~= all);
        if ahead.is_encrypted() {
            Some(ahead.members.keys())
        } else {
            None
        }
    }

    /// The encrypted events of a timeline that the engine is to decrypt.
    fn timeline_decryption_requests<'a>(
        room: usize,
        room_id: &'a RoomId,
        events: &'a Vec<TimelineEvent>,
        requests: &mut Vec<DecryptionRequest<'a>>,
    )
        ensures
            final(requests).deep_view() == old(requests).deep_view() + encrypted_events(
                room as int,
                room_id@,
                events.deep_view(),
            ),
    {
        let ghost start = requests.deep_view();
        let ghost all = events.deep_view();
        let mut i: usize = 0;
        assert(requests.deep_view() =~= start + Seq::<DecryptionRequestView>::empty());
        while i < events.len()
            invariant
                i <= events.len(),
                all == events.deep_view(),
                requests.deep_view() == start + encrypted_events(
                    room as int,
                    room_id@,
                    all.take(i as int),
                ),
            decreases events.len() - i,
        {
            proof {
                assert(all.take(i + 1).drop_last() =~= all.take(i as int));
                assert(all.take(i + 1).last() == events[i as int].deep_view());
            }
            let ghost before = requests.deep_view();
            match events[i].event.deserialize() {
                Ok(RoomEvent::RoomEncrypted(e)) => {
                    let request = DecryptionRequest { room, event: i, room_id, encrypted: e };
                    requests.push(request);
                    assert(requests.deep_view() =~= before.push(request.deep_view()));
                    assert(requests.deep_view() =~= start + encrypted_events(
                        room as int,
                        room_id@,
                        all.take(i + 1),
                    ));
                },
                _ => {},
            }
            i = i + 1;
        }
        assert(all.take(events.len() as int) =~= all);
    }

    /// The events of `response` that the crypto engine is to decrypt before
    /// the client takes the response in: the encrypted events of the
    /// timelines of the joined rooms, room by room and in the order of the
    /// timeline.  None where the client has no engine or has received the
    /// response before.
    ///
    /// The decrypted event belongs in the field `decrypted` of the timeline
    /// event at the place that the request names.
    pub fn decryption_requests<'a>(&self, response: &'a SyncResponse) -> (requests: Vec<
        DecryptionRequest<'a>,
    >)
        ensures
            requests.deep_view() == (if self@.engine_receives(response.deep_view()) {
                encrypted_events_of(response.deep_view().rooms.join)
            } else {
                Seq::empty()
            }),
    {
        let mut requests: Vec<DecryptionRequest<'a>> = Vec::new();
        assert(requests.deep_view() =~= Seq::<DecryptionRequestView>::empty());
        if !self.engine_receives(response) {
            return requests;
        }
        let ghost all = response.deep_view().rooms.join;
        let mut i: usize = 0;
        while i < response.rooms.join.len()
            invariant
                i <= response.rooms.join.len(),
                all == response.deep_view().rooms.join,
                requests.deep_view() == encrypted_events_of(all.take(i as int)),
            decreases response.rooms.join.len() - i,
        {
            let room = &response.rooms.join[i];
            proof {
                assert(all.take(i + 1).drop_last() =~= all.take(i as int));
                assert(all.take(i + 1).last() == room.deep_view());
            }
            BaseClient::timeline_decryption_requests(i, &room.room_id, &room.timeline, &mut requests);
            i = i + 1;
        }
        assert(all.take(response.rooms.join.len() as int) =~= all);
        requests
    }

    /// Whether account keys or one-time keys are to be uploaded.  Without
    /// an engine none are.
    pub fn should_upload_keys(&self) -> (r: EngineQuery<bool>)
        ensures
            r == (if self@.has_crypto_engine() {
                EngineQuery::Ask(CryptoRequest::ShouldUploadKeys)
            } else {
                EngineQuery::Answer(false)
            }),
    {
        if self.logged_in() {
            EngineQuery::Ask(CryptoRequest::ShouldUploadKeys)
        } else {
            EngineQuery::Answer(false)
        }
    }

    /// Whether a group session has to be shared before a message can be
    /// encrypted for the room.  Without an engine none has.
    pub fn should_share_group_session(&self, room_id: &RoomId) -> (r: EngineQuery<bool>)
        ensures
            r.request() == (if self@.has_crypto_engine() {
                Some(CryptoRequestView::ShouldShareGroupSession(room_id@))
            } else {
                None
            }),
            r.answer() == (if self@.has_crypto_engine() {
                None
            } else {
                Some(false)
            }),
    {
        if self.logged_in() {
            EngineQuery::Ask(CryptoRequest::ShouldShareGroupSession(room_id.clone()))
        } else {
            EngineQuery::Answer(false)
        }
    }

    /// Whether the device keys of some users are to be queried.  Without an
    /// engine none are.
    pub fn should_query_keys(&self) -> (r: EngineQuery<bool>)
        ensures
            r == (if self@.has_crypto_engine() {
                EngineQuery::Ask(CryptoRequest::ShouldQueryKeys)
            } else {
                EngineQuery::Answer(false)
            }),
    {
        if self.logged_in() {
            EngineQuery::Ask(CryptoRequest::ShouldQueryKeys)
        } else {
            EngineQuery::Answer(false)
        }
    }

    /// The devices of `users` with which no session exists yet.  Without an
    /// engine there are none to name.
    pub fn get_missing_sessions(&self, users: &Vec<UserId>) -> (r: Result<EngineQuery<Vec<UserId>>, Error>)
        ensures
            r matches Ok(q) && q.request() == (if self@.has_crypto_engine() {
                Some(CryptoRequestView::GetMissingSessions(users.deep_view()))
            } else {
                None
            }) && (match q.answer() {
                Some(none) => !self@.has_crypto_engine() && none@.len() == 0,
                None => self@.has_crypto_engine(),
            }),
    {
        if self.logged_in() {
            Ok(EngineQuery::Ask(CryptoRequest::GetMissingSessions(snapshot_list(users))))
        } else {
            Ok(EngineQuery::Answer(Vec::new()))
        }
    }

    /// The request that shares a group session with the members of the
    /// joined room `room_id`.
    pub fn share_group_session(&self, room_id: &RoomId) -> (r: Result<CryptoRequest, Error>)
        requires
            self.wf(),
        ensures
            match r {
                Ok(request) => self@.joined_rooms.contains_key(room_id@)
                    && self@.has_crypto_engine() && request.deep_view()
                    == CryptoRequestView::ShareGroupSession(
                    room_id@,
                    self@.joined_rooms[room_id@].members.dom(),
                ),
                Err(e) => if !self@.joined_rooms.contains_key(room_id@) {
                    e == Error::NoSuchRoom
                } else {
                    e == Error::NoCryptoEngine && !self@.has_crypto_engine()
                },
            },
    {
        let room = match self.get_joined_room(room_id) {
            Some(room) => room,
            None => {
                return Err(Error::NoSuchRoom);
            },
        };
        if !self.logged_in() {
            return Err(Error::NoCryptoEngine);
        }
        Ok(CryptoRequest::ShareGroupSession(room_id.clone(), room.members.keys()))
    }

    /// The request that encrypts the content of a message for a room.
    pub fn encrypt(&self, room_id: &RoomId, content: String) -> (r: Result<CryptoRequest, Error>)
        ensures
            match r {
                Ok(request) => self@.has_crypto_engine() && request.deep_view()
                    == CryptoRequestView::Encrypt(room_id@, content@),
                Err(e) => e == Error::NoCryptoEngine && !self@.has_crypto_engine(),
            },
    {
        if !self.logged_in() {
            return Err(Error::NoCryptoEngine);
        }
        Ok(CryptoRequest::Encrypt(room_id.clone(), content))
    }

    /// The request for the keys that are to be uploaded.  Without an engine
    /// there is nothing to ask.
    pub fn keys_for_upload(&self) -> (r: Result<CryptoRequest, ()>)
        ensures
            r == (if self@.has_crypto_engine() {
                Ok::<CryptoRequest, ()>(CryptoRequest::KeysForUpload)
            } else {
                Err::<CryptoRequest, ()>(())
            }),
    {
        if self.logged_in() {
            Ok(CryptoRequest::KeysForUpload)
        } else {
            Err(())
        }
    }

    /// The request for the users whose keys are to be queried.  Without an
    /// engine there is nothing to ask.
    pub fn users_for_key_query(&self) -> (r: Result<CryptoRequest, ()>)
        ensures
            r == (if self@.has_crypto_engine() {
                Ok::<CryptoRequest, ()>(CryptoRequest::UsersForKeyQuery)
            } else {
                Err::<CryptoRequest, ()>(())
            }),
    {
        if self.logged_in() {
            Ok(CryptoRequest::UsersForKeyQuery)
        } else {
            Err(())
        }
    }

    /// The request that hands the engine the response to a key upload.
    pub fn receive_keys_upload_response(&self) -> (r: Result<CryptoRequest, Error>)
        ensures
            r == (if self@.has_crypto_engine() {
                Ok::<CryptoRequest, Error>(CryptoRequest::ReceiveKeysUploadResponse)
            } else {
                Err::<CryptoRequest, Error>(Error::NoCryptoEngine)
            }),
    {
        if self.logged_in() {
            Ok(CryptoRequest::ReceiveKeysUploadResponse)
        } else {
            Err(Error::NoCryptoEngine)
        }
    }

    /// The request that hands the engine the response to a key claim.
    pub fn receive_keys_claim_response(&self) -> (r: Result<CryptoRequest, Error>)
        ensures
            r == (if self@.has_crypto_engine() {
                Ok::<CryptoRequest, Error>(CryptoRequest::ReceiveKeysClaimResponse)
            } else {
                Err::<CryptoRequest, Error>(Error::NoCryptoEngine)
            }),
    {
        if self.logged_in() {
            Ok(CryptoRequest::ReceiveKeysClaimResponse)
        } else {
            Err(Error::NoCryptoEngine)
        }
    }

    /// The request that hands the engine the response to a key query.
    pub fn receive_keys_query_response(&self) -> (r: Result<CryptoRequest, Error>)
        ensures
            r == (if self@.has_crypto_engine() {
                Ok::<CryptoRequest, Error>(CryptoRequest::ReceiveKeysQueryResponse)
            } else {
                Err::<CryptoRequest, Error>(Error::NoCryptoEngine)
            }),
    {
        if self.logged_in() {
            Ok(CryptoRequest::ReceiveKeysQueryResponse)
        } else {
            Err(Error::NoCryptoEngine)
        }
    }
}

} // verus!
