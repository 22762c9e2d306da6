//! The server side of a tunnel session, as a state machine.
//!
//! The connection handler reads frames, looks keys up and runs timers; what
//! it does with each of these events is decided by [`TunnelSession::step`],
//! which moves the session from state to state and returns the actions to
//! take, in order.

use crate::auth::api_key_hash;
use crate::auth::hash_api_key;
use crate::text::str_eq;
use crate::tunnel::ClientMessage;
use crate::tunnel::ClientMessageView;
use crate::tunnel::HEARTBEAT_SECS;
use crate::tunnel::ServerMessage;
use crate::tunnel::ServerMessageView;
use crate::types::ApiKey;
use crate::types::ApiKeyOwner;
use crate::types::ApiKeyStatus;
use crate::types::ApiKeyView;
use crate::types::Timestamp;
use vstd::prelude::*;
use vstd::string::StringExecFns;

verus! {

/// A frame from the agent, as far as the session cares.
#[derive(Clone, Debug)]
pub enum Inbound {
    /// A text or binary frame that holds a message.
    Message {
        message: ClientMessage,
    },
    /// A text or binary frame that holds no message.
    Invalid,
    /// A transport-level ping.
    Ping,
    /// A transport-level pong.
    Pong,
    /// The close frame.
    Close,
    /// Reading failed, or the stream ended.
    ReadError,
}

/// The view of an [`Inbound`].
pub enum InboundView {
    Message {
        message: ClientMessageView,
    },
    Invalid,
    Ping,
    Pong,
    Close,
    ReadError,
}

impl View for Inbound {
    type V = InboundView;

    open spec fn view(&self) -> InboundView {
        match self {
            Inbound::Message { message } => InboundView::Message {
                message: message@,
            },
            Inbound::Invalid => InboundView::Invalid,
            Inbound::Ping => InboundView::Ping,
            Inbound::Pong => InboundView::Pong,
            Inbound::Close => InboundView::Close,
            Inbound::ReadError => InboundView::ReadError,
        }
    }
}

/// What looking an API key up by its hash gave. The lookup finds active keys
/// only.
#[derive(Clone, Debug)]
pub enum KeyLookup {
    Found {
        key: ApiKey,
    },
    NotFound,
    /// The lookup itself failed.
    Failed,
}

/// The view of a [`KeyLookup`].
pub enum KeyLookupView {
    Found {
        key: ApiKeyView,
    },
    NotFound,
    Failed,
}

impl View for KeyLookup {
    type V = KeyLookupView;

    open spec fn view(&self) -> KeyLookupView {
        match self {
            KeyLookup::Found { key } => KeyLookupView::Found {
                key: key@,
            },
            KeyLookup::NotFound => KeyLookupView::NotFound,
            KeyLookup::Failed => KeyLookupView::Failed,
        }
    }
}

/// What can happen to a session.
#[derive(Clone, Debug)]
pub enum SessionEvent {
    /// A frame was read.
    Frame {
        frame: Inbound,
    },
    /// The key lookup that the session asked for has ended. `connection_id` is
    /// the identifier to give the connection if the key is accepted, `now` the
    /// time.
    KeyLooked {
        lookup: KeyLookup,
        connection_id: String,
        now: Timestamp,
    },
    /// The heartbeat timer fired.
    HeartbeatDue,
    /// Writing to the agent failed.
    WriterFailed,
}

/// The view of a [`SessionEvent`].
pub enum SessionEventView {
    Frame {
        frame: InboundView,
    },
    KeyLooked {
        lookup: KeyLookupView,
        connection_id: Seq<char>,
        now: Timestamp,
    },
    HeartbeatDue,
    WriterFailed,
}

impl View for SessionEvent {
    type V = SessionEventView;

    open spec fn view(&self) -> SessionEventView {
        match self {
            SessionEvent::Frame { frame } => SessionEventView::Frame {
                frame: frame@,
            },
            SessionEvent::KeyLooked { lookup, connection_id, now } => SessionEventView::KeyLooked {
                lookup: lookup@,
                connection_id: connection_id@,
                now: *now,
            },
            SessionEvent::HeartbeatDue => SessionEventView::HeartbeatDue,
            SessionEvent::WriterFailed => SessionEventView::WriterFailed,
        }
    }
}

/// The state of a session.
#[derive(Clone, Debug)]
pub enum SessionState {
    /// Connected; the first frame has not come yet.
    AwaitingAuth,
    /// The first frame held a token; the key lookup is under way.
    Authenticating,
    /// Authenticated: signals, pings and acks flow.
    Live {
        subscriber_id: String,
        connection_id: String,
    },
    /// Over. No further event changes anything.
    Closed,
}

/// The view of a [`SessionState`].
pub enum SessionStateView {
    AwaitingAuth,
    Authenticating,
    Live {
        subscriber_id: Seq<char>,
        connection_id: Seq<char>,
    },
    Closed,
}

impl View for SessionState {
    type V = SessionStateView;

    open spec fn view(&self) -> SessionStateView {
        match self {
            SessionState::AwaitingAuth => SessionStateView::AwaitingAuth,
            SessionState::Authenticating => SessionStateView::Authenticating,
            SessionState::Live { subscriber_id, connection_id } => SessionStateView::Live {
                subscriber_id: subscriber_id@,
                connection_id: connection_id@,
            },
            SessionState::Closed => SessionStateView::Closed,
        }
    }
}

/// What the connection handler is to do.
#[derive(Clone, Debug)]
pub enum SessionAction {
    /// Look the active API key with this hash up, and report with `KeyLooked`.
    LookUpKey {
        key_hash: String,
    },
    /// Put the message into the outbound channel.
    Send {
        message: ServerMessage,
    },
    /// Register the connection with the agent registry.
    Register {
        connection_id: String,
        subscriber_id: String,
        connected_at: Timestamp,
    },
    /// Set the subscriber's time of last agent connection.
    TouchLastConnected {
        subscriber_id: String,
        at: Timestamp,
    },
    /// Start the heartbeat timer with this period.
    StartHeartbeat {
        period_secs: u64,
    },
    /// Cancel the heartbeat timer.
    StopHeartbeat,
    /// Remove the subscriber from the agent registry.
    Unregister {
        subscriber_id: String,
    },
    /// Release the outbound channel, so that the writer drains what is
    /// buffered and ends.
    CloseOutbound,
    /// Log that the agent acknowledged the delivery. An acknowledgement
    /// changes no state.
    NoteAck {
        delivery_id: String,
    },
    /// Log a protocol violation: an `auth` message on a live session.
    NoteUnexpectedAuth,
    /// Log a frame that holds no message.
    NoteInvalidMessage,
}

/// The view of a [`SessionAction`].
pub enum SessionActionView {
    LookUpKey {
        key_hash: Seq<char>,
    },
    Send {
        message: ServerMessageView,
    },
    Register {
        connection_id: Seq<char>,
        subscriber_id: Seq<char>,
        connected_at: Timestamp,
    },
    TouchLastConnected {
        subscriber_id: Seq<char>,
        at: Timestamp,
    },
    StartHeartbeat {
        period_secs: u64,
    },
    StopHeartbeat,
    Unregister {
        subscriber_id: Seq<char>,
    },
    CloseOutbound,
    NoteAck {
        delivery_id: Seq<char>,
    },
    NoteUnexpectedAuth,
    NoteInvalidMessage,
}

impl View for SessionAction {
    type V = SessionActionView;

    open spec fn view(&self) -> SessionActionView {
        match self {
            SessionAction::LookUpKey { key_hash } => SessionActionView::LookUpKey {
                key_hash: key_hash@,
            },
            SessionAction::Send { message } => SessionActionView::Send {
                message: message@,
            },
            SessionAction::Register { connection_id, subscriber_id, connected_at } => SessionActionView::Register {
                connection_id: connection_id@,
                subscriber_id: subscriber_id@,
                connected_at: *connected_at,
            },
            SessionAction::TouchLastConnected { subscriber_id, at } => SessionActionView::TouchLastConnected {
                subscriber_id: subscriber_id@,
                at: *at,
            },
            SessionAction::StartHeartbeat { period_secs } => SessionActionView::StartHeartbeat {
                period_secs: *period_secs,
            },
            SessionAction::StopHeartbeat => SessionActionView::StopHeartbeat,
            SessionAction::Unregister { subscriber_id } => SessionActionView::Unregister {
                subscriber_id: subscriber_id@,
            },
            SessionAction::CloseOutbound => SessionActionView::CloseOutbound,
            SessionAction::NoteAck { delivery_id } => SessionActionView::NoteAck {
                delivery_id: delivery_id@,
            },
            SessionAction::NoteUnexpectedAuth => SessionActionView::NoteUnexpectedAuth,
            SessionAction::NoteInvalidMessage => SessionActionView::NoteInvalidMessage,
        }
    }
}

impl DeepView for SessionAction {
    type V = SessionActionView;

    open spec fn deep_view(&self) -> SessionActionView {
        self@
    }
}

/// The position of the first of `keys` that is active and has the hash
/// `key_hash`, or the number of keys if there is none.
pub open spec fn active_key_position(keys: Seq<ApiKeyView>, key_hash: Seq<char>) -> int
    decreases keys.len(),
{
    if keys.len() == 0 {
        0
    } else if keys[0].key_hash == key_hash && keys[0].status == ApiKeyStatus::Active {
        0
    } else {
        1 + active_key_position(keys.drop_first(), key_hash)
    }
}

proof fn lemma_active_key_position(keys: Seq<ApiKeyView>, key_hash: Seq<char>, at: int)
    requires
        0 <= at <= keys.len(),
        forall|i: int|
            0 <= i < at ==> !((#[trigger] keys[i]).key_hash == key_hash && keys[i].status
                == ApiKeyStatus::Active),
        at < keys.len() ==> keys[at].key_hash == key_hash && keys[at].status
            == ApiKeyStatus::Active,
    ensures
        active_key_position(keys, key_hash) == at,
    decreases keys.len(),
{
    if keys.len() > 0 && !(keys[0].key_hash == key_hash && keys[0].status == ApiKeyStatus::Active) {
        let rest = keys.drop_first();
        assert forall|i: int| 0 <= i < at - 1 implies !((#[trigger] rest[i]).key_hash == key_hash
            && rest[i].status == ApiKeyStatus::Active) by {
            assert(rest[i] == keys[i + 1]);
        }
        lemma_active_key_position(rest, key_hash, at - 1);
    }
}

/// Looks an API key up by its hash among `keys`. Only an active key is
/// found; keys are never looked up by anything but their hash.
pub fn find_active_key<'a>(keys: &'a Vec<ApiKey>, key_hash: &str) -> (found: Option<&'a ApiKey>)
    ensures
        match found {
            Some(key) => {
                let at = active_key_position(keys.deep_view(), key_hash@);
                at < keys@.len() && *key == keys@[at]
            },
            None => active_key_position(keys.deep_view(), key_hash@) == keys@.len(),
        },
{
    let mut at: usize = 0;
    loop
        invariant
            at <= keys@.len(),
            forall|i: int|
                0 <= i < at ==> !((#[trigger] keys.deep_view()[i]).key_hash == key_hash@
                    && keys.deep_view()[i].status == ApiKeyStatus::Active),
        decreases keys@.len() - at,
    {
        if at >= keys.len() {
            proof {
                lemma_active_key_position(keys.deep_view(), key_hash@, at as int);
            }
            return None;
        }
        let key = &keys[at];
        let active = match key.status {
            ApiKeyStatus::Active => true,
            _ => false,
        };
        if active && str_eq(key.key_hash.as_str(), key_hash) {
            proof {
                lemma_active_key_position(keys.deep_view(), key_hash@, at as int);
            }
            return Some(key);
        }
        at = at + 1;
    }
}

/// Whom a looked-up key authenticates, or why it does not: a failed lookup
/// is an internal error; no key, or one that is not active, an invalid
/// token; a key that is not a subscriber's, the wrong kind of token.
pub open spec fn auth_verdict(lookup: KeyLookupView) -> Result<Seq<char>, Seq<char>> {
    match lookup {
        KeyLookupView::Failed => Err("internal auth error"@),
        KeyLookupView::NotFound => Err("invalid token"@),
        KeyLookupView::Found { key } => if key.status != ApiKeyStatus::Active {
            Err("invalid token"@)
        } else if key.owner_type != ApiKeyOwner::Subscriber {
            Err("subscriber token required"@)
        } else {
            Ok(key.owner_id)
        },
    }
}

/// Decides whom a looked-up key authenticates: the subscriber that owns it,
/// or an error message for the agent.
pub fn authenticate(lookup: &KeyLookup) -> (verdict: Result<String, String>)
    ensures
        match verdict {
            Ok(subscriber_id) => auth_verdict(lookup@) == Ok::<Seq<char>, Seq<char>>(
                subscriber_id@,
            ),
            Err(message) => auth_verdict(lookup@) == Err::<Seq<char>, Seq<char>>(message@),
        },
{
    match lookup {
        KeyLookup::Failed => Err(String::from_str("internal auth error")),
        KeyLookup::NotFound => Err(String::from_str("invalid token")),
        KeyLookup::Found { key } => {
            match key.status {
                ApiKeyStatus::Active => {},
                _ => {
                    return Err(String::from_str("invalid token"));
                },
            }
            match key.owner_type {
                ApiKeyOwner::Subscriber => Ok(key.owner_id.clone()),
                ApiKeyOwner::Publisher => Err(String::from_str("subscriber token required")),
            }
        },
    }
}

/// The actions that refuse a session: the error goes to the agent, and the
/// outbound channel is released.
pub open spec fn refusal(message: Seq<char>) -> Seq<SessionActionView> {
    seq![
        SessionActionView::Send { message: ServerMessageView::AuthError { message } },
        SessionActionView::CloseOutbound,
    ]
}

/// The actions that end a live session.
pub open spec fn teardown(subscriber_id: Seq<char>) -> Seq<SessionActionView> {
    seq![
        SessionActionView::Unregister { subscriber_id },
        SessionActionView::StopHeartbeat,
        SessionActionView::CloseOutbound,
    ]
}

/// What the first frame of a session leads to. A token that is not empty
/// starts the key lookup; an empty one, or a frame that is no `auth`
/// message, refuses the session.
pub open spec fn first_frame_step(frame: InboundView) -> (SessionStateView, Seq<SessionActionView>) {
    match frame {
        InboundView::Message { message: ClientMessageView::Auth { token } } => if token.len()
            == 0 {
            (SessionStateView::Closed, refusal("missing token"@))
        } else {
            (
                SessionStateView::Authenticating,
                seq![SessionActionView::LookUpKey { key_hash: api_key_hash(token) }],
            )
        },
        _ => (SessionStateView::Closed, refusal("invalid auth payload"@)),
    }
}

/// What the end of the key lookup leads to. An accepted key makes the
/// session live: the connection is registered, the subscriber's time of
/// last connection is set, `auth_ok` is sent and the heartbeat starts. Any
/// other outcome refuses the session.
pub open spec fn key_looked_step(
    lookup: KeyLookupView,
    connection_id: Seq<char>,
    now: Timestamp,
) -> (SessionStateView, Seq<SessionActionView>) {
    match auth_verdict(lookup) {
        Ok(subscriber_id) => (
            SessionStateView::Live { subscriber_id, connection_id },
            seq![
                SessionActionView::Register { connection_id, subscriber_id, connected_at: now },
                SessionActionView::TouchLastConnected { subscriber_id, at: now },
                SessionActionView::Send {
                    message: ServerMessageView::AuthOk { connection_id, subscriber_id },
                },
                SessionActionView::StartHeartbeat { period_secs: HEARTBEAT_SECS },
            ],
        ),
        Err(message) => (SessionStateView::Closed, refusal(message)),
    }
}

/// What a message on a live session leads to: an acknowledgement is noted,
/// a `pong` is consumed silently, and an `auth` is noted as a protocol
/// violation and otherwise ignored.
pub open spec fn client_message_actions(message: ClientMessageView) -> Seq<SessionActionView> {
    match message {
        ClientMessageView::Ack { delivery_id } => seq![SessionActionView::NoteAck { delivery_id }],
        ClientMessageView::Pong => Seq::empty(),
        ClientMessageView::Auth { .. } => seq![SessionActionView::NoteUnexpectedAuth],
    }
}

/// The transition of a session: the state after `event`, and the actions to
/// take.
pub open spec fn session_step(state: SessionStateView, event: SessionEventView) -> (
    SessionStateView,
    Seq<SessionActionView>,
) {
    match state {
        SessionStateView::AwaitingAuth => match event {
            SessionEventView::Frame { frame } => first_frame_step(frame),
            SessionEventView::WriterFailed => (
                SessionStateView::Closed,
                seq![SessionActionView::CloseOutbound],
            ),
            _ => (state, Seq::empty()),
        },
        SessionStateView::Authenticating => match event {
            SessionEventView::KeyLooked { lookup, connection_id, now } => key_looked_step(
                lookup,
                connection_id,
                now,
            ),
            SessionEventView::WriterFailed => (
                SessionStateView::Closed,
                seq![SessionActionView::CloseOutbound],
            ),
            _ => (state, Seq::empty()),
        },
        SessionStateView::Live { subscriber_id, connection_id } => match event {
            SessionEventView::Frame { frame } => match frame {
                InboundView::Message { message } => (state, client_message_actions(message)),
                InboundView::Invalid => (state, seq![SessionActionView::NoteInvalidMessage]),
                InboundView::Ping => (state, Seq::empty()),
                InboundView::Pong => (state, Seq::empty()),
                InboundView::Close => (SessionStateView::Closed, teardown(subscriber_id)),
                InboundView::ReadError => (SessionStateView::Closed, teardown(subscriber_id)),
            },
            SessionEventView::HeartbeatDue => (
                state,
                seq![SessionActionView::Send { message: ServerMessageView::Ping }],
            ),
            SessionEventView::WriterFailed => (SessionStateView::Closed, teardown(subscriber_id)),
            SessionEventView::KeyLooked { .. } => (state, Seq::empty()),
        },
        SessionStateView::Closed => (state, Seq::empty()),
    }
}

fn refuse(message: &str) -> (actions: Vec<SessionAction>)
    ensures
        actions.deep_view() == refusal(message@),
{
    let mut actions: Vec<SessionAction> = Vec::new();
    actions.push(
        SessionAction::Send {
            message: ServerMessage::AuthError { message: String::from_str(message) },
        },
    );
    actions.push(SessionAction::CloseOutbound);
    assert(actions.deep_view() =~= refusal(message@));
    actions
}

fn tear_down(subscriber_id: &String) -> (actions: Vec<SessionAction>)
    ensures
        actions.deep_view() == teardown(subscriber_id@),
{
    let mut actions: Vec<SessionAction> = Vec::new();
    actions.push(SessionAction::Unregister { subscriber_id: subscriber_id.clone() });
    actions.push(SessionAction::StopHeartbeat);
    actions.push(SessionAction::CloseOutbound);
    assert(actions.deep_view() =~= teardown(subscriber_id@));
    actions
}

fn none() -> (actions: Vec<SessionAction>)
    ensures
        actions.deep_view() == Seq::<SessionActionView>::empty(),
{
    let actions: Vec<SessionAction> = Vec::new();
    assert(actions.deep_view() =~= Seq::<SessionActionView>::empty());
    actions
}

fn one(action: SessionAction) -> (actions: Vec<SessionAction>)
    ensures
        actions.deep_view() == seq![action@],
{
    let mut actions: Vec<SessionAction> = Vec::new();
    actions.push(action);
    assert(actions.deep_view() =~= seq![action@]);
    actions
}

/// Decides what to do with a message that came on a live session.
pub fn handle_client_message(message: ClientMessage) -> (actions: Vec<SessionAction>)
    ensures
        actions.deep_view() == client_message_actions(message@),
{
    match message {
        ClientMessage::Ack { delivery_id } => one(SessionAction::NoteAck { delivery_id }),
        ClientMessage::Pong => none(),
        ClientMessage::Auth { .. } => one(SessionAction::NoteUnexpectedAuth),
    }
}

/// One tunnel session on the server.
pub struct TunnelSession {
    state: SessionState,
}

impl View for TunnelSession {
    type V = SessionStateView;

    closed spec fn view(&self) -> SessionStateView {
        self.state@
    }
}

impl TunnelSession {
    /// A session that has just connected.
    pub fn new() -> (session: TunnelSession)
        ensures
            session@ == SessionStateView::AwaitingAuth,
    {
        TunnelSession { state: SessionState::AwaitingAuth }
    }

    /// The state of the session.
    pub fn state(&self) -> (state: &SessionState)
        ensures
            state@ == self@,
    {
        &self.state
    }

    /// Whether the session is live.
    pub fn is_live(&self) -> (live: bool)
        ensures
            live == (self@ is Live),
    {
        match &self.state {
            SessionState::Live { .. } => true,
            _ => false,
        }
    }

    /// Whether the session is over.
    pub fn is_closed(&self) -> (closed: bool)
        ensures
            closed == (self@ is Closed),
    {
        match &self.state {
            SessionState::Closed => true,
            _ => false,
        }
    }

    fn first_frame(frame: Inbound) -> (out: (SessionState, Vec<SessionAction>))
        ensures
            (out.0@, out.1.deep_view()) == first_frame_step(frame@),
    {
        match frame {
            Inbound::Message { message: ClientMessage::Auth { token } } => {
                if token.as_str().unicode_len() == 0 {
                    (SessionState::Closed, refuse("missing token"))
                } else {
                    let key_hash = hash_api_key(token.as_str());
                    (SessionState::Authenticating, one(SessionAction::LookUpKey { key_hash }))
                }
            },
            _ => (SessionState::Closed, refuse("invalid auth payload")),
        }
    }

    fn key_looked(lookup: KeyLookup, connection_id: String, now: Timestamp) -> (out: (
        SessionState,
        Vec<SessionAction>,
    ))
        ensures
            (out.0@, out.1.deep_view()) == key_looked_step(lookup@, connection_id@, now),
    {
        match authenticate(&lookup) {
            Ok(subscriber_id) => {
                let mut actions: Vec<SessionAction> = Vec::new();
                actions.push(
                    SessionAction::Register {
                        connection_id: connection_id.clone(),
                        subscriber_id: subscriber_id.clone(),
                        connected_at: now,
                    },
                );
                actions.push(
                    SessionAction::TouchLastConnected {
                        subscriber_id: subscriber_id.clone(),
                        at: now,
                    },
                );
                actions.push(
                    SessionAction::Send {
                        message: ServerMessage::AuthOk {
                            connection_id: connection_id.clone(),
                            subscriber_id: subscriber_id.clone(),
                        },
                    },
                );
                actions.push(SessionAction::StartHeartbeat { period_secs: HEARTBEAT_SECS });
                assert(actions.deep_view() =~= key_looked_step(lookup@, connection_id@, now).1);
                (SessionState::Live { subscriber_id, connection_id }, actions)
            },
            Err(message) => (SessionState::Closed, refuse(message.as_str())),
        }
    }

    /// Takes one event: moves to the next state and returns the actions to
    /// take, in order.
    pub fn step(&mut self, event: SessionEvent) -> (actions: Vec<SessionAction>)
        ensures
            (final(self)@, actions.deep_view()) == session_step(old(self)@, event@),
    {
        let mut state = SessionState::Closed;
        std::mem::swap(&mut self.state, &mut state);
        let (next, actions) = match state {
            SessionState::AwaitingAuth => match event {
                SessionEvent::Frame { frame } => Self::first_frame(frame),
                SessionEvent::WriterFailed => (
                    SessionState::Closed,
                    one(SessionAction::CloseOutbound),
                ),
                _ => (SessionState::AwaitingAuth, none()),
            },
            SessionState::Authenticating => match event {
                SessionEvent::KeyLooked { lookup, connection_id, now } => Self::key_looked(
                    lookup,
                    connection_id,
                    now,
                ),
                SessionEvent::WriterFailed => (
                    SessionState::Closed,
                    one(SessionAction::CloseOutbound),
                ),
                _ => (SessionState::Authenticating, none()),
            },
            SessionState::Live { subscriber_id, connection_id } => match event {
                SessionEvent::Frame { frame } => match frame {
                    Inbound::Message { message } => {
                        let actions = handle_client_message(message);
                        (SessionState::Live { subscriber_id, connection_id }, actions)
                    },
                    Inbound::Invalid => (
                        SessionState::Live { subscriber_id, connection_id },
                        one(SessionAction::NoteInvalidMessage),
                    ),
                    Inbound::Ping => (SessionState::Live { subscriber_id, connection_id }, none()),
                    Inbound::Pong => (SessionState::Live { subscriber_id, connection_id }, none()),
                    Inbound::Close => (SessionState::Closed, tear_down(&subscriber_id)),
                    Inbound::ReadError => (SessionState::Closed, tear_down(&subscriber_id)),
                },
                SessionEvent::HeartbeatDue => (
                    SessionState::Live { subscriber_id, connection_id },
                    one(SessionAction::Send { message: ServerMessage::Ping }),
                ),
                SessionEvent::WriterFailed => (SessionState::Closed, tear_down(&subscriber_id)),
                SessionEvent::KeyLooked { .. } => (
                    SessionState::Live { subscriber_id, connection_id },
                    none(),
                ),
            },
            SessionState::Closed => (SessionState::Closed, none()),
        };
        self.state = next;
        actions
    }
}

/// The message of a refusal.
pub open spec fn refusal_text(verdict: Result<Seq<char>, Seq<char>>) -> Seq<char> {
    match verdict {
        Ok(_) => Seq::empty(),
        Err(message) => message,
    }
}

/// Only an active key of a subscriber authenticates a session. With any
/// other outcome of the lookup the session is closed and the agent is sent
/// `auth_error`; for an active key of a publisher the error says that a
/// subscriber token is required.
pub proof fn law_tunnel_auth(lookup: KeyLookupView, connection_id: Seq<char>, now: Timestamp)
    ensures
        ({
            let after = session_step(
                SessionStateView::Authenticating,
                SessionEventView::KeyLooked { lookup, connection_id, now },
            );
            let accepted = lookup matches KeyLookupView::Found { key } && key.status
                == ApiKeyStatus::Active && key.owner_type == ApiKeyOwner::Subscriber;
            &&& after.0 is Live <==> accepted
            &&& accepted ==> after.0 == (SessionStateView::Live {
                subscriber_id: lookup->key.owner_id,
                connection_id,
            })
            &&& !accepted ==> after.0 is Closed && auth_verdict(lookup) is Err && after.1
                == refusal(refusal_text(auth_verdict(lookup)))
            &&& (lookup matches KeyLookupView::Found { key } && key.status == ApiKeyStatus::Active
                && key.owner_type == ApiKeyOwner::Publisher) ==> after.1 == refusal(
                "subscriber token required"@,
            )
        }),
{
}

/// A session is live only after a key was accepted: no event makes a
/// session live but the end of a key lookup, and once closed a session
/// stays closed.
pub proof fn law_session_order(state: SessionStateView, event: SessionEventView)
    ensures
        (session_step(state, event).0 is Live && !(state is Live)) ==> state is Authenticating
            && event is KeyLooked,
        state is Closed ==> session_step(state, event) == (state, Seq::<SessionActionView>::empty()),
        (state is Live && session_step(state, event).0 is Live) ==> session_step(state, event).0
            == state,
{
}

} // verus!
