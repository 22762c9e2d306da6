//! The agent: the subscriber-side end of the tunnel. What it says first,
//! and what it does with each frame from the server.

use crate::text::decimal;
use crate::text::push_decimal;
use crate::tunnel::ClientMessage;
use crate::tunnel::ClientMessageView;
use crate::tunnel::ServerMessage;
use crate::tunnel::ServerMessageView;
use crate::tunnel::TunnelSignal;
use crate::tunnel::TunnelSignalView;
use vstd::prelude::*;
use vstd::string::StringExecFns;

verus! {

/// The tunnel endpoint that an agent connects to unless told otherwise.
pub const DEFAULT_HERALD_URL: &'static str = "wss://api.herald.dev/v1/tunnel";

/// How long an agent waits before it reconnects when its backoff gives no
/// delay, in milliseconds.
pub const FALLBACK_RECONNECT_MS: u64 = 60_000;

/// What an agent is started with.
#[derive(Clone, Debug)]
pub struct AgentConfig {
    /// The subscriber's API key.
    pub token: String,
    /// Where signals are forwarded to.
    pub forward_url: String,
    /// The tunnel endpoint.
    pub herald_url: String,
}

/// The view of an [`AgentConfig`].
pub struct AgentConfigView {
    pub token: Seq<char>,
    pub forward_url: Seq<char>,
    pub herald_url: Seq<char>,
}

impl View for AgentConfig {
    type V = AgentConfigView;

    open spec fn view(&self) -> AgentConfigView {
        AgentConfigView {
            token: self.token@,
            forward_url: self.forward_url@,
            herald_url: self.herald_url@,
        }
    }
}

/// What the agent posts to the local endpoint for one signal.
#[derive(Clone, Debug)]
pub struct ForwardPayload {
    pub delivery_id: String,
    pub channel_id: String,
    pub channel_slug: String,
    pub signal: TunnelSignal,
}

/// The view of a [`ForwardPayload`].
pub struct ForwardPayloadView {
    pub delivery_id: Seq<char>,
    pub channel_id: Seq<char>,
    pub channel_slug: Seq<char>,
    pub signal: TunnelSignalView,
}

impl View for ForwardPayload {
    type V = ForwardPayloadView;

    open spec fn view(&self) -> ForwardPayloadView {
        ForwardPayloadView {
            delivery_id: self.delivery_id@,
            channel_id: self.channel_id@,
            channel_slug: self.channel_slug@,
            signal: self.signal@,
        }
    }
}

/// A frame from the server, as far as the agent cares.
#[derive(Clone, Debug)]
pub enum AgentInbound {
    /// A text or binary frame that holds a message.
    Message {
        message: ServerMessage,
    },
    /// A text or binary frame that holds no message.
    Invalid,
    /// A transport-level ping, with its payload.
    Ping {
        data: Vec<u8>,
    },
    /// A transport-level pong.
    Pong,
    /// The close frame.
    Close,
}

/// The view of an [`AgentInbound`].
pub enum AgentInboundView {
    Message {
        message: ServerMessageView,
    },
    Invalid,
    Ping {
        data: Seq<u8>,
    },
    Pong,
    Close,
}

impl View for AgentInbound {
    type V = AgentInboundView;

    open spec fn view(&self) -> AgentInboundView {
        match self {
            AgentInbound::Message { message } => AgentInboundView::Message {
                message: message@,
            },
            AgentInbound::Invalid => AgentInboundView::Invalid,
            AgentInbound::Ping { data } => AgentInboundView::Ping {
                data: data@,
            },
            AgentInbound::Pong => AgentInboundView::Pong,
            AgentInbound::Close => AgentInboundView::Close,
        }
    }
}

/// What the agent is to do.
#[derive(Clone, Debug)]
pub enum AgentAction {
    /// Log that the server accepted the token.
    NoteAuthenticated {
        connection_id: String,
        subscriber_id: String,
    },
    /// The server refused the token: end the session with this error.
    Fail {
        reason: String,
    },
    /// Send the message to the server.
    Reply {
        message: ClientMessage,
    },
    /// Post the payload to the local endpoint, then report with
    /// [`after_forward`].
    Forward {
        payload: ForwardPayload,
    },
    /// Answer the transport-level ping with a pong of the same payload.
    PongFrame {
        data: Vec<u8>,
    },
    /// The server closed the session: end it cleanly.
    Disconnect,
    /// Nothing to do.
    Ignore,
}

/// The view of an [`AgentAction`].
pub enum AgentActionView {
    NoteAuthenticated {
        connection_id: Seq<char>,
        subscriber_id: Seq<char>,
    },
    Fail {
        reason: Seq<char>,
    },
    Reply {
        message: ClientMessageView,
    },
    Forward {
        payload: ForwardPayloadView,
    },
    PongFrame {
        data: Seq<u8>,
    },
    Disconnect,
    Ignore,
}

impl View for AgentAction {
    type V = AgentActionView;

    open spec fn view(&self) -> AgentActionView {
        match self {
            AgentAction::NoteAuthenticated { connection_id, subscriber_id } => AgentActionView::NoteAuthenticated {
                connection_id: connection_id@,
                subscriber_id: subscriber_id@,
            },
            AgentAction::Fail { reason } => AgentActionView::Fail {
                reason: reason@,
            },
            AgentAction::Reply { message } => AgentActionView::Reply {
                message: message@,
            },
            AgentAction::Forward { payload } => AgentActionView::Forward {
                payload: payload@,
            },
            AgentAction::PongFrame { data } => AgentActionView::PongFrame {
                data: data@,
            },
            AgentAction::Disconnect => AgentActionView::Disconnect,
            AgentAction::Ignore => AgentActionView::Ignore,
        }
    }
}

/// The first message of an agent on a new connection: its token.
pub fn hello(config: &AgentConfig) -> (message: ClientMessage)
    ensures
        message@ == (ClientMessageView::Auth { token: config@.token }),
{
    ClientMessage::Auth { token: config.token.clone() }
}

/// What a message from the server leads to: `auth_ok` is noted, `auth_error`
/// ends the session with the server's message, `ping` is answered with
/// `pong`, and a signal is forwarded to the local endpoint.
pub open spec fn server_message_action(message: ServerMessageView) -> AgentActionView {
    match message {
        ServerMessageView::AuthOk {
            connection_id,
            subscriber_id,
        } => AgentActionView::NoteAuthenticated { connection_id, subscriber_id },
        ServerMessageView::AuthError { message } => AgentActionView::Fail { reason: message },
        ServerMessageView::Ping => AgentActionView::Reply { message: ClientMessageView::Pong },
        ServerMessageView::Signal {
            delivery_id,
            channel_id,
            channel_slug,
            signal,
        } => AgentActionView::Forward {
            payload: ForwardPayloadView { delivery_id, channel_id, channel_slug, signal },
        },
    }
}

/// Decides what to do with a message from the server.
pub fn handle_server_message(message: ServerMessage) -> (action: AgentAction)
    ensures
        action@ == server_message_action(message@),
{
    match message {
        ServerMessage::AuthOk { connection_id, subscriber_id } => AgentAction::NoteAuthenticated {
            connection_id,
            subscriber_id,
        },
        ServerMessage::AuthError { message } => AgentAction::Fail { reason: message },
        ServerMessage::Ping => AgentAction::Reply { message: ClientMessage::Pong },
        ServerMessage::Signal {
            delivery_id,
            channel_id,
            channel_slug,
            signal,
        } => AgentAction::Forward {
            payload: ForwardPayload { delivery_id, channel_id, channel_slug, signal },
        },
    }
}

/// What a frame from the server leads to. A frame that holds no message is
/// ignored, a transport-level ping is answered in kind, and the close frame
/// ends the session.
pub open spec fn frame_action(frame: AgentInboundView) -> AgentActionView {
    match frame {
        AgentInboundView::Message { message } => server_message_action(message),
        AgentInboundView::Invalid => AgentActionView::Ignore,
        AgentInboundView::Ping { data } => AgentActionView::PongFrame { data },
        AgentInboundView::Pong => AgentActionView::Ignore,
        AgentInboundView::Close => AgentActionView::Disconnect,
    }
}

/// Decides what to do with a frame from the server.
pub fn handle_frame(frame: AgentInbound) -> (action: AgentAction)
    ensures
        action@ == frame_action(frame@),
{
    match frame {
        AgentInbound::Message { message } => handle_server_message(message),
        AgentInbound::Invalid => AgentAction::Ignore,
        AgentInbound::Ping { data } => AgentAction::PongFrame { data },
        AgentInbound::Pong => AgentAction::Ignore,
        AgentInbound::Close => AgentAction::Disconnect,
    }
}

/// The error of a forward that the local endpoint answered without success.
pub open spec fn forward_error_text(status: u16) -> Seq<char> {
    "forward failed: HTTP "@ + decimal(status as int)
}

/// Whether the local endpoint took the signal: a status of the 2xx class is
/// a success, any other an error that names the status.
pub fn forward_outcome(status: u16) -> (outcome: Result<(), String>)
    ensures
        match outcome {
            Ok(_) => 200 <= status <= 299,
            Err(message) => !(200 <= status <= 299) && message@ == forward_error_text(status),
        },
{
    if 200 <= status && status <= 299 {
        Ok(())
    } else {
        let mut message = String::from_str("forward failed: HTTP ");
        push_decimal(&mut message, status as i64);
        Err(message)
    }
}

/// What the agent tells the server after a forward: an acknowledgement of
/// the delivery if the local endpoint took the signal, nothing if it did
/// not.
pub fn after_forward(delivery_id: String, forwarded: &Result<(), String>) -> (reply: Option<
    ClientMessage,
>)
    ensures
        match reply {
            Some(message) => forwarded is Ok && message@ == (ClientMessageView::Ack {
                delivery_id: delivery_id@,
            }),
            None => forwarded is Err,
        },
{
    match forwarded {
        Ok(_) => Some(ClientMessage::Ack { delivery_id }),
        Err(_) => None,
    }
}

/// How long to wait before reconnecting, in milliseconds: what the backoff
/// gives, or the fallback when it gives nothing.
pub fn reconnect_delay_ms(next_backoff_ms: Option<u64>) -> (delay: u64)
    ensures
        delay == match next_backoff_ms {
            Some(ms) => ms,
            None => FALLBACK_RECONNECT_MS,
        },
{
    match next_backoff_ms {
        Some(ms) => ms,
        None => FALLBACK_RECONNECT_MS,
    }
}

} // verus!
