//! The agent tunnel: the messages that cross it, and the registry of the
//! agents that are connected.

use crate::text::str_eq;
use crate::types::Signal;
use crate::types::SignalUrgency;
use crate::types::SignalView;
use crate::types::Timestamp;
use vstd::prelude::*;

verus! {

/// A message from an agent to the server.
#[derive(Clone, Debug)]
pub enum ClientMessage {
    /// The first message of a session: the agent's API key.
    Auth { token: String },
    /// The agent has handed the delivery on.
    Ack { delivery_id: String },
    /// The answer to a `Ping`.
    Pong,
}

/// The view of a [`ClientMessage`].
pub enum ClientMessageView {
    Auth { token: Seq<char> },
    Ack { delivery_id: Seq<char> },
    Pong,
}

impl View for ClientMessage {
    type V = ClientMessageView;

    open spec fn view(&self) -> ClientMessageView {
        match self {
            ClientMessage::Auth { token } => ClientMessageView::Auth { token: token@ },
            ClientMessage::Ack { delivery_id } => ClientMessageView::Ack {
                delivery_id: delivery_id@,
            },
            ClientMessage::Pong => ClientMessageView::Pong,
        }
    }
}

impl ClientMessageView {
    /// The value of the `type` field that marks the message on the wire.
    pub open spec fn tag(self) -> Seq<char> {
        match self {
            ClientMessageView::Auth { .. } => "auth"@,
            ClientMessageView::Ack { .. } => "ack"@,
            ClientMessageView::Pong => "pong"@,
        }
    }
}

impl ClientMessage {
    /// The value of the `type` field that marks the message on the wire.
    pub fn type_tag(&self) -> (tag: &'static str)
        ensures
            tag@ == self@.tag(),
    {
        match self {
            ClientMessage::Auth { .. } => "auth",
            ClientMessage::Ack { .. } => "ack",
            ClientMessage::Pong => "pong",
        }
    }
}

/// A signal as it travels through the tunnel.
#[derive(Clone, Debug)]
pub struct TunnelSignal {
    pub id: String,
    pub title: String,
    pub body: String,
    pub urgency: SignalUrgency,
    /// Free-form metadata, as JSON text.
    pub metadata: String,
    pub created_at: Timestamp,
}

/// The view of a [`TunnelSignal`].
pub struct TunnelSignalView {
    pub id: Seq<char>,
    pub title: Seq<char>,
    pub body: Seq<char>,
    pub urgency: SignalUrgency,
    pub metadata: Seq<char>,
    pub created_at: Timestamp,
}

impl View for TunnelSignal {
    type V = TunnelSignalView;

    open spec fn view(&self) -> TunnelSignalView {
        TunnelSignalView {
            id: self.id@,
            title: self.title@,
            body: self.body@,
            urgency: self.urgency,
            metadata: self.metadata@,
            created_at: self.created_at,
        }
    }
}

/// A message from the server to an agent.
#[derive(Clone, Debug)]
pub enum ServerMessage {
    /// The session is authenticated.
    AuthOk { connection_id: String, subscriber_id: String },
    /// The session is refused; the server closes it.
    AuthError { message: String },
    /// A signal to deliver.
    Signal { delivery_id: String, channel_id: String, channel_slug: String, signal: TunnelSignal },
    /// The heartbeat.
    Ping,
}

/// The view of a [`ServerMessage`].
pub enum ServerMessageView {
    AuthOk { connection_id: Seq<char>, subscriber_id: Seq<char> },
    AuthError { message: Seq<char> },
    Signal {
        delivery_id: Seq<char>,
        channel_id: Seq<char>,
        channel_slug: Seq<char>,
        signal: TunnelSignalView,
    },
    Ping,
}

impl View for ServerMessage {
    type V = ServerMessageView;

    open spec fn view(&self) -> ServerMessageView {
        match self {
            ServerMessage::AuthOk { connection_id, subscriber_id } => ServerMessageView::AuthOk {
                connection_id: connection_id@,
                subscriber_id: subscriber_id@,
            },
            ServerMessage::AuthError { message } => ServerMessageView::AuthError {
                message: message@,
            },
            ServerMessage::Signal {
                delivery_id,
                channel_id,
                channel_slug,
                signal,
            } => ServerMessageView::Signal {
                delivery_id: delivery_id@,
                channel_id: channel_id@,
                channel_slug: channel_slug@,
                signal: signal@,
            },
            ServerMessage::Ping => ServerMessageView::Ping,
        }
    }
}

impl ServerMessageView {
    /// The value of the `type` field that marks the message on the wire.
    pub open spec fn tag(self) -> Seq<char> {
        match self {
            ServerMessageView::AuthOk { .. } => "auth_ok"@,
            ServerMessageView::AuthError { .. } => "auth_error"@,
            ServerMessageView::Signal { .. } => "signal"@,
            ServerMessageView::Ping => "ping"@,
        }
    }
}

impl ServerMessage {
    /// The value of the `type` field that marks the message on the wire.
    pub fn type_tag(&self) -> (tag: &'static str)
        ensures
            tag@ == self@.tag(),
    {
        match self {
            ServerMessage::AuthOk { .. } => "auth_ok",
            ServerMessage::AuthError { .. } => "auth_error",
            ServerMessage::Signal { .. } => "signal",
            ServerMessage::Ping => "ping",
        }
    }
}

/// The urgency of a stored signal as the tunnel states it: the same level.
pub fn convert_urgency(urgency: &SignalUrgency) -> (level: SignalUrgency)
    ensures
        level == *urgency,
{
    match urgency {
        SignalUrgency::Low => SignalUrgency::Low,
        SignalUrgency::Normal => SignalUrgency::Normal,
        SignalUrgency::High => SignalUrgency::High,
        SignalUrgency::Critical => SignalUrgency::Critical,
    }
}

/// What travels through the tunnel of a stored signal: its identifier, title,
/// body, urgency, metadata and time of creation.
pub open spec fn tunnel_signal_of(signal: SignalView) -> TunnelSignalView {
    TunnelSignalView {
        id: signal.id,
        title: signal.title,
        body: signal.body,
        urgency: signal.urgency,
        metadata: signal.metadata,
        created_at: signal.created_at,
    }
}

/// The tunnel form of a stored signal.
pub fn to_tunnel_signal(signal: &Signal) -> (out: TunnelSignal)
    ensures
        out@ == tunnel_signal_of(signal@),
{
    TunnelSignal {
        id: signal.id.clone(),
        title: signal.title.clone(),
        body: signal.body.clone(),
        urgency: convert_urgency(&signal.urgency),
        metadata: signal.metadata.clone(),
        created_at: signal.created_at,
    }
}

/// The capacity of the outbound channel of an agent connection.
pub const OUTBOUND_CAPACITY: usize = 64;

/// The period of the heartbeat on a live session, in seconds.
pub const HEARTBEAT_SECS: u64 = 30;

/// A live agent: who it is, and the sending end `S` of its outbound channel.
#[derive(Debug)]
pub struct AgentConnection<S> {
    pub connection_id: String,
    pub subscriber_id: String,
    pub sender: S,
    pub connected_at: Timestamp,
}

/// The view of an [`AgentConnection`].
pub struct AgentConnectionView<S> {
    pub connection_id: Seq<char>,
    pub subscriber_id: Seq<char>,
    pub sender: S,
    pub connected_at: Timestamp,
}

impl<S> View for AgentConnection<S> {
    type V = AgentConnectionView<S>;

    open spec fn view(&self) -> AgentConnectionView<S> {
        AgentConnectionView {
            connection_id: self.connection_id@,
            subscriber_id: self.subscriber_id@,
            sender: self.sender,
            connected_at: self.connected_at,
        }
    }
}

/// The connected agents, at most one for each subscriber.
pub struct AgentRegistry<S> {
    agents: Vec<AgentConnection<S>>,
}

/// No two of `agents` belong to one subscriber.
pub open spec fn distinct_subscribers<S>(agents: Seq<AgentConnection<S>>) -> bool {
    forall|i: int, j: int|
        0 <= i < agents.len() && 0 <= j < agents.len() && i != j ==> (
        #[trigger] agents[i]).subscriber_id@ != (#[trigger] agents[j]).subscriber_id@
}

/// One of `agents` belongs to the subscriber `id`.
pub open spec fn has_agent<S>(agents: Seq<AgentConnection<S>>, id: Seq<char>) -> bool {
    exists|i: int| 0 <= i < agents.len() && (#[trigger] agents[i]).subscriber_id@ == id
}

/// The one of `agents` that belongs to the subscriber `id`.
pub open spec fn agent_of<S>(agents: Seq<AgentConnection<S>>, id: Seq<char>) -> AgentConnectionView<
    S,
> {
    let i = choose|i: int| 0 <= i < agents.len() && (#[trigger] agents[i]).subscriber_id@ == id;
    agents[i]@
}

impl<S> View for AgentRegistry<S> {
    type V = Map<Seq<char>, AgentConnectionView<S>>;

    /// The registry as a map from subscriber identifier to connection.
    closed spec fn view(&self) -> Map<Seq<char>, AgentConnectionView<S>> {
        Map::new(
            |id: Seq<char>| has_agent(self.agents@, id),
            |id: Seq<char>| agent_of(self.agents@, id),
        )
    }
}

impl<S> AgentRegistry<S> {
    #[verifier::type_invariant]
    spec fn well_formed(self) -> bool {
        distinct_subscribers(self.agents@)
    }

    /// A registry with no agent.
    pub fn new() -> (registry: Self)
        ensures
            registry@ == Map::<Seq<char>, AgentConnectionView<S>>::empty(),
    {
        let registry = Self { agents: Vec::new() };
        assert(registry@ =~= Map::<Seq<char>, AgentConnectionView<S>>::empty());
        registry
    }

    /// How many agents are connected.
    pub fn len(&self) -> (n: usize)
        ensures
            n == self@.dom().len(),
    {
        proof {
            use_type_invariant(self);
            Self::lemma_dom_len(self.agents@);
            assert(self@.dom() =~= Set::new(|id: Seq<char>| has_agent(self.agents@, id)));
        }
        self.agents.len()
    }

    proof fn lemma_dom_len(agents: Seq<AgentConnection<S>>)
        requires
            distinct_subscribers(agents),
        ensures
            Set::new(|id: Seq<char>| has_agent(agents, id)).finite(),
            Set::new(|id: Seq<char>| has_agent(agents, id)).len() == agents.len(),
        decreases agents.len(),
    {
        let all = Set::new(|id: Seq<char>| has_agent(agents, id));
        if agents.len() == 0 {
            assert(all =~= Set::<Seq<char>>::empty());
        } else {
            let front = agents.drop_last();
            let last_id = agents.last().subscriber_id@;
            let rest = Set::new(|id: Seq<char>| has_agent(front, id));
            assert(distinct_subscribers(front)) by {
                assert forall|i: int, j: int|
                    0 <= i < front.len() && 0 <= j < front.len() && i != j implies (
                #[trigger] front[i]).subscriber_id@ != (#[trigger] front[j]).subscriber_id@ by {
                    assert(front[i] == agents[i]);
                    assert(front[j] == agents[j]);
                }
            }
            Self::lemma_dom_len(front);
            assert(!rest.contains(last_id)) by {
                if rest.contains(last_id) {
                    let i = choose|i: int|
                        0 <= i < front.len() && (#[trigger] front[i]).subscriber_id@ == last_id;
                    assert(front[i] == agents[i]);
                    assert(agents[i].subscriber_id@ == agents[agents.len() - 1].subscriber_id@);
                }
            }
            assert(all =~= rest.insert(last_id)) by {
                assert forall|id: Seq<char>| all.contains(id) <==> rest.insert(last_id).contains(
                    id,
                ) by {
                    if all.contains(id) {
                        let i = choose|i: int|
                            0 <= i < agents.len() && (#[trigger] agents[i]).subscriber_id@ == id;
                        if i < front.len() {
                            assert(front[i] == agents[i]);
                        }
                    }
                    if rest.contains(id) {
                        let i = choose|i: int|
                            0 <= i < front.len() && (#[trigger] front[i]).subscriber_id@ == id;
                        assert(front[i] == agents[i]);
                    }
                    if id == last_id {
                        assert(agents[agents.len() - 1].subscriber_id@ == id);
                    }
                }
            }
        }
    }

    fn position(&self, subscriber_id: &str) -> (at: Option<usize>)
        ensures
            match at {
                Some(i) => i < self.agents@.len() && self.agents@[i as int].subscriber_id@
                    == subscriber_id@,
                None => !has_agent(self.agents@, subscriber_id@),
            },
    {
        let mut i: usize = 0;
        while i < self.agents.len()
            invariant
                i <= self.agents@.len(),
                forall|k: int| 0 <= k < i ==> self.agents@[k].subscriber_id@ != subscriber_id@,
            decreases self.agents@.len() - i,
        {
            if str_eq(self.agents[i].subscriber_id.as_str(), subscriber_id) {
                return Some(i);
            }
            i = i + 1;
        }
        None
    }

    /// Registers a connection. A connection already registered for the same
    /// subscriber is replaced: the last writer wins.
    pub fn register(&mut self, conn: AgentConnection<S>)
        ensures
            final(self)@ == old(self)@.insert(conn.subscriber_id@, conn@),
    {
        proof {
            use_type_invariant(&*self);
        }
        let ghost before = self.agents@;
        let ghost id = conn.subscriber_id@;
        let ghost added = conn@;
        match self.position(conn.subscriber_id.as_str()) {
            Some(i) => {
                let mut agents: Vec<AgentConnection<S>> = Vec::new();
                std::mem::swap(&mut self.agents, &mut agents);
                agents.set(i, conn);
                let ghost after = agents@;
                assert(distinct_subscribers(after)) by {
                    assert forall|a: int, b: int|
                        0 <= a < after.len() && 0 <= b < after.len() && a != b implies (
                    #[trigger] after[a]).subscriber_id@ != (#[trigger] after[b]).subscriber_id@ by {
                        assert(after[a].subscriber_id@ == before[a].subscriber_id@);
                        assert(after[b].subscriber_id@ == before[b].subscriber_id@);
                    }
                }
                std::mem::swap(&mut self.agents, &mut agents);
                assert(self@ =~= old(self)@.insert(id, added)) by {
                    assert forall|k: Seq<char>| has_agent(after, k) <==> (k == id || has_agent(
                        before,
                        k,
                    )) by {
                        if has_agent(after, k) {
                            let a = choose|a: int|
                                0 <= a < after.len() && (#[trigger] after[a]).subscriber_id@ == k;
                            assert(before[a].subscriber_id@ == k);
                        }
                        if has_agent(before, k) {
                            let a = choose|a: int|
                                0 <= a < before.len() && (#[trigger] before[a]).subscriber_id@ == k;
                            assert(after[a].subscriber_id@ == k);
                        }
                        if k == id {
                            assert(after[i as int].subscriber_id@ == k);
                        }
                    }
                    assert forall|k: Seq<char>| has_agent(after, k) implies agent_of(after, k) == (
                    if k == id {
                        added
                    } else {
                        agent_of(before, k)
                    }) by {
                        let a = choose|a: int|
                            0 <= a < after.len() && (#[trigger] after[a]).subscriber_id@ == k;
                        if k == id {
                            assert(after[i as int].subscriber_id@ == k);
                            assert(a == i);
                        } else {
                            assert(before[a].subscriber_id@ == k);
                            let b = choose|b: int|
                                0 <= b < before.len() && (#[trigger] before[b]).subscriber_id@ == k;
                            assert(a == b);
                            assert(after[a] == before[a]);
                        }
                    }
                }
            },
            None => {
                let mut agents: Vec<AgentConnection<S>> = Vec::new();
                std::mem::swap(&mut self.agents, &mut agents);
                agents.push(conn);
                let ghost after = agents@;
                assert(distinct_subscribers(after)) by {
                    assert forall|a: int, b: int|
                        0 <= a < after.len() && 0 <= b < after.len() && a != b implies (
                    #[trigger] after[a]).subscriber_id@ != (#[trigger] after[b]).subscriber_id@ by {
                        if a < before.len() {
                            assert(after[a] == before[a]);
                        }
                        if b < before.len() {
                            assert(after[b] == before[b]);
                        }
                    }
                }
                std::mem::swap(&mut self.agents, &mut agents);
                assert(self@ =~= old(self)@.insert(id, added)) by {
                    assert forall|k: Seq<char>| has_agent(after, k) <==> (k == id || has_agent(
                        before,
                        k,
                    )) by {
                        if has_agent(after, k) {
                            let a = choose|a: int|
                                0 <= a < after.len() && (#[trigger] after[a]).subscriber_id@ == k;
                            if a < before.len() {
                                assert(before[a].subscriber_id@ == k);
                            }
                        }
                        if has_agent(before, k) {
                            let a = choose|a: int|
                                0 <= a < before.len() && (#[trigger] before[a]).subscriber_id@ == k;
                            assert(after[a].subscriber_id@ == k);
                        }
                        if k == id {
                            assert(after[after.len() - 1].subscriber_id@ == k);
                        }
                    }
                    assert forall|k: Seq<char>| has_agent(after, k) implies agent_of(after, k) == (
                    if k == id {
                        added
                    } else {
                        agent_of(before, k)
                    }) by {
                        let a = choose|a: int|
                            0 <= a < after.len() && (#[trigger] after[a]).subscriber_id@ == k;
                        if k == id {
                            assert(after[after.len() - 1].subscriber_id@ == k);
                            assert(a == after.len() - 1);
                        } else {
                            assert(a < before.len());
                            assert(before[a].subscriber_id@ == k);
                            let b = choose|b: int|
                                0 <= b < before.len() && (#[trigger] before[b]).subscriber_id@ == k;
                            assert(after[b].subscriber_id@ == k);
                            assert(a == b);
                        }
                    }
                }
            },
        }
    }

    /// Removes the connection of a subscriber, if there is one. An unknown
    /// subscriber changes nothing.
    pub fn unregister(&mut self, subscriber_id: &str)
        ensures
            final(self)@ == old(self)@.remove(subscriber_id@),
    {
        proof {
            use_type_invariant(&*self);
        }
        let ghost before = self.agents@;
        let ghost id = subscriber_id@;
        match self.position(subscriber_id) {
            Some(i) => {
                let mut agents: Vec<AgentConnection<S>> = Vec::new();
                std::mem::swap(&mut self.agents, &mut agents);
                let _gone = agents.remove(i);
                let ghost after = agents@;
                assert forall|a: int| 0 <= a < after.len() implies #[trigger] after[a] == before[if a
                    < i {
                    a
                } else {
                    a + 1
                }] by {}
                assert(distinct_subscribers(after)) by {
                    assert forall|a: int, b: int|
                        0 <= a < after.len() && 0 <= b < after.len() && a != b implies (
                    #[trigger] after[a]).subscriber_id@ != (#[trigger] after[b]).subscriber_id@ by {
                        let a0 = if a < i { a } else { a + 1 };
                        let b0 = if b < i { b } else { b + 1 };
                        assert(after[a] == before[a0]);
                        assert(after[b] == before[b0]);
                    }
                }
                std::mem::swap(&mut self.agents, &mut agents);
                assert(self@ =~= old(self)@.remove(id)) by {
                    assert forall|k: Seq<char>| has_agent(after, k) <==> (k != id && has_agent(
                        before,
                        k,
                    )) by {
                        if has_agent(after, k) {
                            let a = choose|a: int|
                                0 <= a < after.len() && (#[trigger] after[a]).subscriber_id@ == k;
                            let a0 = if a < i { a } else { a + 1 };
                            assert(after[a] == before[a0]);
                            assert(before[a0].subscriber_id@ == k);
                            assert(before[i as int].subscriber_id@ == id);
                        }
                        if k != id && has_agent(before, k) {
                            let b = choose|b: int|
                                0 <= b < before.len() && (#[trigger] before[b]).subscriber_id@ == k;
                            let a = if b < i { b } else { b - 1 };
                            assert(after[a] == before[b]);
                            assert(after[a].subscriber_id@ == k);
                        }
                    }
                    assert forall|k: Seq<char>| has_agent(after, k) implies agent_of(after, k)
                        == agent_of(before, k) by {
                        let a = choose|a: int|
                            0 <= a < after.len() && (#[trigger] after[a]).subscriber_id@ == k;
                        let a0 = if a < i { a } else { a + 1 };
                        assert(after[a] == before[a0]);
                        assert(before[a0].subscriber_id@ == k);
                        let b = choose|b: int|
                            0 <= b < before.len() && (#[trigger] before[b]).subscriber_id@ == k;
                        assert(a0 == b);
                    }
                }
            },
            None => {
                assert(self@ =~= old(self)@.remove(id));
            },
        }
    }

    /// The connection of a subscriber, if one is registered.
    pub fn get(&self, subscriber_id: &str) -> (found: Option<&AgentConnection<S>>)
        ensures
            match found {
                Some(conn) => self@.contains_key(subscriber_id@) && conn@ == self@[subscriber_id@],
                None => !self@.contains_key(subscriber_id@),
            },
    {
        proof {
            use_type_invariant(self);
        }
        match self.position(subscriber_id) {
            Some(i) => {
                proof {
                    let b = choose|b: int|
                        0 <= b < self.agents@.len() && (#[trigger] self.agents@[b]).subscriber_id@
                            == subscriber_id@;
                    assert(b == i);
                }
                Some(&self.agents[i])
            },
            None => None,
        }
    }
}

/// A registered connection is found under its subscriber; a later
/// registration for the same subscriber replaces an earlier one; and once a
/// subscriber is unregistered, nothing is found under it.
pub proof fn law_last_writer_wins<S>(
    registry: Map<Seq<char>, AgentConnectionView<S>>,
    first: AgentConnectionView<S>,
    second: AgentConnectionView<S>,
)
    requires
        first.subscriber_id == second.subscriber_id,
    ensures
        registry.insert(first.subscriber_id, first).insert(second.subscriber_id, second)[second.subscriber_id]
            == second,
        registry.insert(first.subscriber_id, first).insert(
            second.subscriber_id,
            second,
        ).contains_key(second.subscriber_id),
        !registry.insert(first.subscriber_id, first).insert(second.subscriber_id, second).remove(
            second.subscriber_id,
        ).contains_key(second.subscriber_id),
{
}

} // verus!
