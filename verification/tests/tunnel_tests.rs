use herald::tunnel::to_tunnel_signal;
use herald::tunnel::AgentConnection;
use herald::tunnel::AgentRegistry;
use herald::tunnel::ClientMessage;
use herald::tunnel::HEARTBEAT_SECS;
use herald::tunnel::OUTBOUND_CAPACITY;
use herald::tunnel::ServerMessage;
use herald::tunnel::TunnelSignal;
use herald::types::Signal;
use herald::types::SignalStatus;
use herald::types::SignalUrgency;
use herald::types::Timestamp;
use std::sync::mpsc::sync_channel;
use std::sync::mpsc::SyncSender;

fn now() -> Timestamp {
    Timestamp { micros: 1_700_000_000_000_000 }
}

fn sender() -> SyncSender<ServerMessage> {
    let (tx, _rx) = sync_channel::<ServerMessage>(10);
    tx
}

#[test]
fn test_registry_register_and_get() {
    let mut registry = AgentRegistry::new();

    let conn = AgentConnection {
        connection_id: "conn_test".to_string(),
        subscriber_id: "sub_001".to_string(),
        sender: sender(),
        connected_at: now(),
    };

    registry.register(conn);

    let retrieved = registry.get("sub_001");
    assert!(retrieved.is_some());
    let agent = retrieved.unwrap();
    assert_eq!(agent.connection_id, "conn_test");
    assert_eq!(agent.subscriber_id, "sub_001");
}

#[test]
fn test_registry_unregister() {
    let mut registry = AgentRegistry::new();

    let conn = AgentConnection {
        connection_id: "conn_test".to_string(),
        subscriber_id: "sub_001".to_string(),
        sender: sender(),
        connected_at: now(),
    };

    registry.register(conn);
    assert!(registry.get("sub_001").is_some());

    registry.unregister("sub_001");
    assert!(registry.get("sub_001").is_none());
}

#[test]
fn test_registry_get_nonexistent() {
    let registry: AgentRegistry<SyncSender<ServerMessage>> = AgentRegistry::new();
    assert!(registry.get("nonexistent").is_none());
}

#[test]
fn test_registry_overwrite_connection() {
    let mut registry = AgentRegistry::new();

    // Register first connection
    let conn1 = AgentConnection {
        connection_id: "conn_first".to_string(),
        subscriber_id: "sub_001".to_string(),
        sender: sender(),
        connected_at: now(),
    };
    registry.register(conn1);

    // Register second connection with same subscriber_id
    let conn2 = AgentConnection {
        connection_id: "conn_second".to_string(),
        subscriber_id: "sub_001".to_string(),
        sender: sender(),
        connected_at: now(),
    };
    registry.register(conn2);

    // Should have the second connection
    let agent = registry.get("sub_001").unwrap();
    assert_eq!(agent.connection_id, "conn_second");
}

#[test]
fn test_registry_concurrent_access() {
    let mut registry = AgentRegistry::new();

    // Register many agents, in an interleaved order
    for i in [3, 7, 0, 9, 1, 8, 2, 6, 4, 5] {
        let conn = AgentConnection {
            connection_id: format!("conn_{}", i),
            subscriber_id: format!("sub_{}", i),
            sender: sender(),
            connected_at: now(),
        };
        registry.register(conn);
    }

    // Verify all agents are registered
    for i in 0..10 {
        let agent = registry.get(&format!("sub_{}", i));
        assert!(agent.is_some(), "Agent sub_{} should exist", i);
    }
}

#[test]
fn test_registry_unregister_nonexistent() {
    let mut registry: AgentRegistry<SyncSender<ServerMessage>> = AgentRegistry::new();
    // Should not panic when unregistering non-existent subscriber
    registry.unregister("nonexistent_subscriber");
    assert!(registry.get("nonexistent_subscriber").is_none());
}

#[test]
fn registry_last_writer_wins_and_unregister_removes() {
    let mut registry = AgentRegistry::new();
    for (conn, sub) in [("conn_a", "sub_1"), ("conn_x", "sub_2"), ("conn_b", "sub_1")] {
        registry.register(AgentConnection {
            connection_id: conn.to_string(),
            subscriber_id: sub.to_string(),
            sender: (),
            connected_at: now(),
        });
    }
    assert_eq!(registry.len(), 2);
    assert_eq!(registry.get("sub_1").unwrap().connection_id, "conn_b");
    assert_eq!(registry.get("sub_2").unwrap().connection_id, "conn_x");
    registry.unregister("sub_1");
    assert_eq!(registry.len(), 1);
    assert!(registry.get("sub_1").is_none());
    assert_eq!(registry.get("sub_2").unwrap().connection_id, "conn_x");
    registry.unregister("sub_1");
    assert_eq!(registry.len(), 1);
    registry.unregister("sub_2");
    assert_eq!(registry.len(), 0);
}

#[test]
fn registry_keys_are_exact() {
    let mut registry = AgentRegistry::new();
    registry.register(AgentConnection {
        connection_id: "c".to_string(),
        subscriber_id: "sub_1".to_string(),
        sender: 7u8,
        connected_at: now(),
    });
    assert!(registry.get("sub_1").is_some());
    assert!(registry.get("sub_").is_none());
    assert!(registry.get("sub_10").is_none());
    assert!(registry.get("SUB_1").is_none());
    assert!(registry.get("").is_none());
    assert_eq!(registry.get("sub_1").unwrap().sender, 7u8);
}

#[test]
fn message_tags_are_the_wire_names() {
    assert_eq!(ClientMessage::Auth { token: "t".to_string() }.type_tag(), "auth");
    assert_eq!(ClientMessage::Ack { delivery_id: "d".to_string() }.type_tag(), "ack");
    assert_eq!(ClientMessage::Pong.type_tag(), "pong");
    assert_eq!(
        ServerMessage::AuthOk { connection_id: "c".to_string(), subscriber_id: "s".to_string() }.type_tag(),
        "auth_ok"
    );
    assert_eq!(ServerMessage::AuthError { message: "m".to_string() }.type_tag(), "auth_error");
    assert_eq!(ServerMessage::Ping.type_tag(), "ping");
    let signal = TunnelSignal {
        id: "sig".to_string(),
        title: "t".to_string(),
        body: "b".to_string(),
        urgency: SignalUrgency::Low,
        metadata: "null".to_string(),
        created_at: now(),
    };
    let message = ServerMessage::Signal {
        delivery_id: "d".to_string(),
        channel_id: "c".to_string(),
        channel_slug: "s".to_string(),
        signal,
    };
    assert_eq!(message.type_tag(), "signal");
}

#[test]
fn tunnel_signal_carries_the_stored_signal() {
    let stored = Signal {
        id: "sig_1".to_string(),
        channel_id: "ch_1".to_string(),
        title: "Title".to_string(),
        body: "Body".to_string(),
        urgency: SignalUrgency::Critical,
        metadata: "{\"a\":[1,2]}".to_string(),
        delivery_count: 3,
        delivered_count: 2,
        failed_count: 1,
        status: SignalStatus::Active,
        created_at: Timestamp { micros: 42 },
    };
    let out = to_tunnel_signal(&stored);
    assert_eq!(out.id, "sig_1");
    assert_eq!(out.title, "Title");
    assert_eq!(out.body, "Body");
    assert_eq!(out.urgency, SignalUrgency::Critical);
    assert_eq!(out.metadata, "{\"a\":[1,2]}");
    assert_eq!(out.created_at, Timestamp { micros: 42 });
}

#[test]
fn tunnel_constants() {
    assert_eq!(OUTBOUND_CAPACITY, 64);
    assert_eq!(HEARTBEAT_SECS, 30);
}
