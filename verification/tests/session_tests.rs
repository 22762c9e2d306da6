use herald::auth::hash_api_key;
use herald::session::authenticate;
use herald::session::find_active_key;
use herald::session::handle_client_message;
use herald::session::Inbound;
use herald::session::KeyLookup;
use herald::session::SessionAction;
use herald::session::SessionEvent;
use herald::session::SessionState;
use herald::session::TunnelSession;
use herald::tunnel::ClientMessage;
use herald::tunnel::ServerMessage;
use herald::types::ApiKey;
use herald::types::ApiKeyOwner;
use herald::types::ApiKeyStatus;
use herald::types::Timestamp;

const NOW: Timestamp = Timestamp { micros: 1_700_000_000_000_000 };

fn key(owner_type: ApiKeyOwner, status: ApiKeyStatus) -> ApiKey {
    ApiKey {
        id: "key_1".to_string(),
        key_hash: hash_api_key("hld_sub_token"),
        key_prefix: "hld_sub_toke".to_string(),
        owner_type,
        owner_id: "owner_1".to_string(),
        name: None,
        scopes: vec![],
        last_used_at: None,
        expires_at: None,
        status,
        created_at: NOW,
    }
}

fn auth_frame(token: &str) -> SessionEvent {
    SessionEvent::Frame {
        frame: Inbound::Message { message: ClientMessage::Auth { token: token.to_string() } },
    }
}

fn looked(lookup: KeyLookup) -> SessionEvent {
    SessionEvent::KeyLooked { lookup, connection_id: "conn_abc".to_string(), now: NOW }
}

fn expect_refusal(actions: &[SessionAction], expected: &str) {
    assert_eq!(actions.len(), 2);
    match &actions[0] {
        SessionAction::Send { message: ServerMessage::AuthError { message } } => assert_eq!(message, expected),
        other => panic!("expected auth_error, got {:?}", other),
    }
    assert!(matches!(actions[1], SessionAction::CloseOutbound));
}

fn live_session() -> TunnelSession {
    let mut session = TunnelSession::new();
    session.step(auth_frame("hld_sub_token"));
    session.step(looked(KeyLookup::Found { key: key(ApiKeyOwner::Subscriber, ApiKeyStatus::Active) }));
    assert!(session.is_live());
    session
}

#[test]
fn session_authenticates_a_subscriber_key() {
    let mut session = TunnelSession::new();
    assert!(matches!(session.state(), SessionState::AwaitingAuth));

    let actions = session.step(auth_frame("hld_sub_token"));
    assert!(matches!(session.state(), SessionState::Authenticating));
    assert_eq!(actions.len(), 1);
    match &actions[0] {
        SessionAction::LookUpKey { key_hash } => assert_eq!(key_hash, &hash_api_key("hld_sub_token")),
        other => panic!("expected a lookup, got {:?}", other),
    }

    let actions = session.step(looked(KeyLookup::Found {
        key: key(ApiKeyOwner::Subscriber, ApiKeyStatus::Active),
    }));
    match session.state() {
        SessionState::Live { subscriber_id, connection_id } => {
            assert_eq!(subscriber_id, "owner_1");
            assert_eq!(connection_id, "conn_abc");
        }
        other => panic!("expected live, got {:?}", other),
    }
    assert_eq!(actions.len(), 4);
    match &actions[0] {
        SessionAction::Register { connection_id, subscriber_id, connected_at } => {
            assert_eq!(connection_id, "conn_abc");
            assert_eq!(subscriber_id, "owner_1");
            assert_eq!(*connected_at, NOW);
        }
        other => panic!("expected register, got {:?}", other),
    }
    match &actions[1] {
        SessionAction::TouchLastConnected { subscriber_id, at } => {
            assert_eq!(subscriber_id, "owner_1");
            assert_eq!(*at, NOW);
        }
        other => panic!("expected touch, got {:?}", other),
    }
    match &actions[2] {
        SessionAction::Send { message: ServerMessage::AuthOk { connection_id, subscriber_id } } => {
            assert_eq!(connection_id, "conn_abc");
            assert_eq!(subscriber_id, "owner_1");
        }
        other => panic!("expected auth_ok, got {:?}", other),
    }
    assert!(matches!(actions[3], SessionAction::StartHeartbeat { period_secs: 30 }));
}

#[test]
fn publisher_key_fails_with_auth_error() {
    let mut session = TunnelSession::new();
    session.step(auth_frame("hld_pub_token"));
    let actions = session.step(looked(KeyLookup::Found {
        key: key(ApiKeyOwner::Publisher, ApiKeyStatus::Active),
    }));
    assert!(session.is_closed());
    expect_refusal(&actions, "subscriber token required");
}

#[test]
fn inactive_or_unknown_keys_are_invalid_tokens() {
    for lookup in [
        KeyLookup::NotFound,
        KeyLookup::Found { key: key(ApiKeyOwner::Subscriber, ApiKeyStatus::Revoked) },
        KeyLookup::Found { key: key(ApiKeyOwner::Subscriber, ApiKeyStatus::Expired) },
        KeyLookup::Found { key: key(ApiKeyOwner::Publisher, ApiKeyStatus::Revoked) },
    ] {
        let mut session = TunnelSession::new();
        session.step(auth_frame("hld_sub_token"));
        let actions = session.step(looked(lookup));
        assert!(session.is_closed());
        expect_refusal(&actions, "invalid token");
    }
}

#[test]
fn failed_lookup_is_an_internal_auth_error() {
    let mut session = TunnelSession::new();
    session.step(auth_frame("hld_sub_token"));
    let actions = session.step(looked(KeyLookup::Failed));
    assert!(session.is_closed());
    expect_refusal(&actions, "internal auth error");
}

#[test]
fn empty_token_is_refused_as_missing() {
    let mut session = TunnelSession::new();
    let actions = session.step(auth_frame(""));
    assert!(session.is_closed());
    expect_refusal(&actions, "missing token");
}

#[test]
fn first_frame_must_be_auth() {
    for frame in [
        Inbound::Message { message: ClientMessage::Pong },
        Inbound::Message { message: ClientMessage::Ack { delivery_id: "del_1".to_string() } },
        Inbound::Invalid,
        Inbound::Ping,
        Inbound::Pong,
        Inbound::Close,
        Inbound::ReadError,
    ] {
        let mut session = TunnelSession::new();
        let actions = session.step(SessionEvent::Frame { frame });
        assert!(session.is_closed());
        expect_refusal(&actions, "invalid auth payload");
    }
}

#[test]
fn closed_session_processes_no_further_frames() {
    let mut session = TunnelSession::new();
    session.step(auth_frame(""));
    assert!(session.is_closed());
    assert!(session.step(auth_frame("hld_sub_token")).is_empty());
    assert!(session.step(looked(KeyLookup::NotFound)).is_empty());
    assert!(session.step(SessionEvent::HeartbeatDue).is_empty());
    assert!(session.step(SessionEvent::WriterFailed).is_empty());
    assert!(session.is_closed());
}

#[test]
fn live_session_sends_ping_on_heartbeat() {
    let mut session = live_session();
    let actions = session.step(SessionEvent::HeartbeatDue);
    assert_eq!(actions.len(), 1);
    assert!(matches!(actions[0], SessionAction::Send { message: ServerMessage::Ping }));
    assert!(session.is_live());
}

#[test]
fn heartbeat_before_authentication_does_nothing() {
    let mut session = TunnelSession::new();
    assert!(session.step(SessionEvent::HeartbeatDue).is_empty());
    assert!(matches!(session.state(), SessionState::AwaitingAuth));
    session.step(auth_frame("t"));
    assert!(session.step(SessionEvent::HeartbeatDue).is_empty());
    assert!(matches!(session.state(), SessionState::Authenticating));
}

#[test]
fn live_session_consumes_pongs_and_notes_acks() {
    let mut session = live_session();
    let pong = SessionEvent::Frame { frame: Inbound::Message { message: ClientMessage::Pong } };
    assert!(session.step(pong).is_empty());
    assert!(session.step(SessionEvent::Frame { frame: Inbound::Pong }).is_empty());
    assert!(session.step(SessionEvent::Frame { frame: Inbound::Ping }).is_empty());

    let ack = SessionEvent::Frame {
        frame: Inbound::Message { message: ClientMessage::Ack { delivery_id: "del_9".to_string() } },
    };
    let actions = session.step(ack);
    assert_eq!(actions.len(), 1);
    match &actions[0] {
        SessionAction::NoteAck { delivery_id } => assert_eq!(delivery_id, "del_9"),
        other => panic!("expected an ack note, got {:?}", other),
    }
    assert!(session.is_live());
}

#[test]
fn auth_on_a_live_session_is_ignored() {
    let mut session = live_session();
    let actions = session.step(auth_frame("hld_sub_other"));
    assert_eq!(actions.len(), 1);
    assert!(matches!(actions[0], SessionAction::NoteUnexpectedAuth));
    match session.state() {
        SessionState::Live { subscriber_id, .. } => assert_eq!(subscriber_id, "owner_1"),
        other => panic!("expected live, got {:?}", other),
    }
    let actions = session.step(SessionEvent::Frame { frame: Inbound::Invalid });
    assert!(matches!(actions[0], SessionAction::NoteInvalidMessage));
    assert!(session.is_live());
}

#[test]
fn live_session_tears_down_on_close_read_error_and_writer_failure() {
    for event in [
        SessionEvent::Frame { frame: Inbound::Close },
        SessionEvent::Frame { frame: Inbound::ReadError },
        SessionEvent::WriterFailed,
    ] {
        let mut session = live_session();
        let actions = session.step(event);
        assert!(session.is_closed());
        assert_eq!(actions.len(), 3);
        match &actions[0] {
            SessionAction::Unregister { subscriber_id } => assert_eq!(subscriber_id, "owner_1"),
            other => panic!("expected unregister, got {:?}", other),
        }
        assert!(matches!(actions[1], SessionAction::StopHeartbeat));
        assert!(matches!(actions[2], SessionAction::CloseOutbound));
    }
}

#[test]
fn writer_failure_before_live_only_releases_the_channel() {
    let mut session = TunnelSession::new();
    let actions = session.step(SessionEvent::WriterFailed);
    assert!(session.is_closed());
    assert_eq!(actions.len(), 1);
    assert!(matches!(actions[0], SessionAction::CloseOutbound));

    let mut session = TunnelSession::new();
    session.step(auth_frame("t"));
    let actions = session.step(SessionEvent::WriterFailed);
    assert!(session.is_closed());
    assert_eq!(actions.len(), 1);
}

#[test]
fn authenticate_gives_the_owner_of_a_subscriber_key() {
    let found = KeyLookup::Found { key: key(ApiKeyOwner::Subscriber, ApiKeyStatus::Active) };
    assert_eq!(authenticate(&found), Ok("owner_1".to_string()));
    let publisher = KeyLookup::Found { key: key(ApiKeyOwner::Publisher, ApiKeyStatus::Active) };
    assert_eq!(authenticate(&publisher), Err("subscriber token required".to_string()));
    assert_eq!(authenticate(&KeyLookup::NotFound), Err("invalid token".to_string()));
    assert_eq!(authenticate(&KeyLookup::Failed), Err("internal auth error".to_string()));
}

#[test]
fn client_messages_on_a_live_session() {
    assert!(handle_client_message(ClientMessage::Pong).is_empty());
    let actions = handle_client_message(ClientMessage::Ack { delivery_id: "".to_string() });
    assert!(matches!(&actions[0], SessionAction::NoteAck { delivery_id } if delivery_id.is_empty()));
    let actions = handle_client_message(ClientMessage::Auth { token: "x".to_string() });
    assert!(matches!(actions[0], SessionAction::NoteUnexpectedAuth));
}

#[test]
fn keys_are_found_by_hash_and_only_while_active() {
    let mut revoked = key(ApiKeyOwner::Subscriber, ApiKeyStatus::Revoked);
    revoked.id = "key_revoked".to_string();
    let mut other = key(ApiKeyOwner::Publisher, ApiKeyStatus::Active);
    other.id = "key_other".to_string();
    other.key_hash = hash_api_key("hld_pub_other");
    let mut active = key(ApiKeyOwner::Subscriber, ApiKeyStatus::Active);
    active.id = "key_active".to_string();
    let keys = vec![revoked, other, active];

    assert_eq!(find_active_key(&keys, &hash_api_key("hld_sub_token")).unwrap().id, "key_active");
    assert_eq!(find_active_key(&keys, &hash_api_key("hld_pub_other")).unwrap().id, "key_other");
    assert!(find_active_key(&keys, &hash_api_key("hld_sub_unknown")).is_none());
    assert!(find_active_key(&keys, "hld_sub_token").is_none());
    assert!(find_active_key(&keys[..1].to_vec(), &hash_api_key("hld_sub_token")).is_none());
    assert!(find_active_key(&vec![], "").is_none());
}

#[test]
fn token_to_live_session_through_the_key_table() {
    let keys = vec![key(ApiKeyOwner::Subscriber, ApiKeyStatus::Active)];
    let mut session = TunnelSession::new();
    let actions = session.step(auth_frame("hld_sub_token"));
    let hash = match &actions[0] {
        SessionAction::LookUpKey { key_hash } => key_hash.clone(),
        other => panic!("expected a lookup, got {:?}", other),
    };
    let lookup = match find_active_key(&keys, &hash) {
        Some(key) => KeyLookup::Found { key: key.clone() },
        None => KeyLookup::NotFound,
    };
    session.step(looked(lookup));
    assert!(session.is_live());

    let mut session = TunnelSession::new();
    let actions = session.step(auth_frame("hld_sub_wrong"));
    let hash = match &actions[0] {
        SessionAction::LookUpKey { key_hash } => key_hash.clone(),
        other => panic!("expected a lookup, got {:?}", other),
    };
    let lookup = match find_active_key(&keys, &hash) {
        Some(key) => KeyLookup::Found { key: key.clone() },
        None => KeyLookup::NotFound,
    };
    let actions = session.step(looked(lookup));
    assert!(session.is_closed());
    expect_refusal(&actions, "invalid token");
}
