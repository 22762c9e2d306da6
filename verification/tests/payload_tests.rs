use herald::payload::build_payload;
use herald::payload::WEBHOOK_TIMEOUT_SECS;
use herald::payload::WebhookPayload;
use herald::types::Channel;
use herald::types::ChannelStatus;
use herald::types::PricingTier;
use herald::types::Signal;
use herald::types::SignalStatus;
use herald::types::SignalUrgency;
use herald::types::Timestamp;

fn make_test_channel(id: &str, slug: &str, display_name: &str) -> Channel {
    Channel {
        id: id.to_string(),
        slug: slug.to_string(),
        display_name: display_name.to_string(),
        publisher_id: "pub_test".to_string(),
        description: None,
        category: None,
        pricing_tier: PricingTier::Free,
        price_cents: 0,
        is_public: true,
        status: ChannelStatus::Active,
        signal_count: 0,
        subscriber_count: 0,
        created_at: Timestamp { micros: 0 },
        updated_at: Timestamp { micros: 0 },
    }
}

fn make_test_signal(id: &str, title: &str, body: &str, urgency: SignalUrgency) -> Signal {
    Signal {
        id: id.to_string(),
        channel_id: "ch_test".to_string(),
        title: title.to_string(),
        body: body.to_string(),
        urgency,
        metadata: "{}".to_string(),
        status: SignalStatus::Active,
        delivery_count: 0,
        delivered_count: 0,
        failed_count: 0,
        created_at: Timestamp { micros: 1_700_000_000_000_000 },
    }
}

fn text(value: &str) -> serde_json::Value {
    serde_json::Value::String(value.to_string())
}

fn to_json(payload: &WebhookPayload) -> serde_json::Value {
    let mut channel = serde_json::Map::new();
    channel.insert("id".to_string(), text(&payload.channel.id));
    channel.insert("slug".to_string(), text(&payload.channel.slug));
    channel.insert("displayName".to_string(), text(&payload.channel.display_name));
    let mut signal = serde_json::Map::new();
    signal.insert("id".to_string(), text(&payload.signal.id));
    signal.insert("title".to_string(), text(&payload.signal.title));
    signal.insert("body".to_string(), text(&payload.signal.body));
    signal.insert("urgency".to_string(), text(payload.signal.urgency.as_str()));
    signal.insert("metadata".to_string(), serde_json::from_str(&payload.signal.metadata).unwrap());
    let mut root = serde_json::Map::new();
    root.insert("deliveryId".to_string(), text(&payload.delivery_id));
    root.insert(
        "webhookId".to_string(),
        match &payload.webhook_id {
            Some(id) => text(id),
            None => serde_json::Value::Null,
        },
    );
    root.insert("channel".to_string(), serde_json::Value::Object(channel));
    root.insert("signal".to_string(), serde_json::Value::Object(signal));
    serde_json::Value::Object(root)
}

#[test]
fn test_build_payload_basic() {
    let channel = make_test_channel("ch_abc", "tech-news", "Tech News");
    let signal = make_test_signal("sig_xyz", "Breaking", "Content", SignalUrgency::Normal);

    let payload = build_payload("del_001", Some("wh_001"), &channel, &signal);

    assert_eq!(payload.delivery_id, "del_001");
    assert_eq!(payload.webhook_id.as_deref(), Some("wh_001"));
    assert_eq!(payload.channel.id, "ch_abc");
    assert_eq!(payload.channel.slug, "tech-news");
    assert_eq!(payload.channel.display_name, "Tech News");
    assert_eq!(payload.signal.id, "sig_xyz");
    assert_eq!(payload.signal.title, "Breaking");
    assert_eq!(payload.signal.body, "Content");
}

#[test]
fn test_build_payload_no_webhook_id() {
    let channel = make_test_channel("ch_abc", "alerts", "Alerts");
    let signal = make_test_signal("sig_001", "Alert", "Body", SignalUrgency::High);

    let payload = build_payload("del_002", None, &channel, &signal);

    assert_eq!(payload.delivery_id, "del_002");
    assert!(payload.webhook_id.is_none());
    assert_eq!(payload.channel.id, "ch_abc");
}

#[test]
fn test_build_payload_with_special_characters() {
    let channel = make_test_channel("ch_special", "news-alerts", "News & Alerts <Test>");
    let signal = make_test_signal(
        "sig_special",
        "Alert: \"Breaking\" <News>",
        "Line1\nLine2\tTabbed \"quoted\"",
        SignalUrgency::Critical,
    );

    let payload = build_payload("del_special", Some("wh_test"), &channel, &signal);

    assert_eq!(payload.channel.display_name, "News & Alerts <Test>");
    assert_eq!(payload.signal.title, "Alert: \"Breaking\" <News>");
    assert!(payload.signal.body.contains('\n'));
    assert!(payload.signal.body.contains('\t'));
}

#[test]
fn test_build_payload_with_empty_strings() {
    let channel = make_test_channel("", "", "");
    let signal = make_test_signal("", "", "", SignalUrgency::Low);

    let payload = build_payload("", None, &channel, &signal);

    assert_eq!(payload.delivery_id, "");
    assert_eq!(payload.channel.id, "");
    assert_eq!(payload.channel.slug, "");
    assert_eq!(payload.signal.id, "");
    assert_eq!(payload.signal.title, "");
}

#[test]
fn test_build_payload_with_unicode() {
    let channel = make_test_channel("ch_unicode", "日本語", "日本語チャンネル");
    let signal = make_test_signal("sig_emoji", "🚀 Launch!", "Emoji: 🎉 中文 العربية", SignalUrgency::Normal);

    let payload = build_payload("del_unicode", Some("wh_unicode"), &channel, &signal);

    assert_eq!(payload.channel.slug, "日本語");
    assert_eq!(payload.channel.display_name, "日本語チャンネル");
    assert_eq!(payload.signal.title, "🚀 Launch!");
    assert!(payload.signal.body.contains("🎉"));
    assert!(payload.signal.body.contains("中文"));
}

#[test]
fn test_build_payload_serialization_roundtrip() {
    let channel = make_test_channel("ch_roundtrip", "test-channel", "Test Channel");
    let signal = make_test_signal("sig_roundtrip", "Title", "Body", SignalUrgency::High);

    let payload = to_json(&build_payload("del_rt", Some("wh_rt"), &channel, &signal));

    // Ensure it can be serialized to string and back
    let json_str = serde_json::to_string(&payload).unwrap();
    let parsed: serde_json::Value = serde_json::from_str(&json_str).unwrap();

    assert_eq!(parsed["deliveryId"], payload["deliveryId"]);
    assert_eq!(parsed["channel"]["slug"], payload["channel"]["slug"]);
    assert_eq!(parsed["signal"]["urgency"], payload["signal"]["urgency"]);
}

#[test]
fn test_build_payload_all_urgency_levels() {
    let channel = make_test_channel("ch_urg", "test", "Test");

    for urgency in [SignalUrgency::Low, SignalUrgency::Normal, SignalUrgency::High, SignalUrgency::Critical] {
        let signal = make_test_signal("sig_urg", "Title", "Body", urgency.clone());
        let payload = to_json(&build_payload("del_urg", None, &channel, &signal));

        let urgency_value = &payload["signal"]["urgency"];
        assert!(!urgency_value.is_null(), "Urgency should be present in payload");

        let payload_str = serde_json::to_string(&payload).unwrap();
        match urgency {
            SignalUrgency::Low => assert!(payload_str.contains("Low") || payload_str.contains("low")),
            SignalUrgency::Normal => assert!(payload_str.contains("Normal") || payload_str.contains("normal")),
            SignalUrgency::High => assert!(payload_str.contains("High") || payload_str.contains("high")),
            SignalUrgency::Critical => assert!(payload_str.contains("Critical") || payload_str.contains("critical")),
        }
    }
}

#[test]
fn build_payload_carries_urgency_metadata_and_time() {
    let channel = make_test_channel("ch_1", "s", "S");
    let mut signal = make_test_signal("sig_1", "t", "b", SignalUrgency::Critical);
    signal.metadata = "{\"source\":\"test\"}".to_string();
    let payload = build_payload("del_1", Some("wh_1"), &channel, &signal);
    assert_eq!(payload.signal.urgency, SignalUrgency::Critical);
    assert_eq!(payload.signal.metadata, "{\"source\":\"test\"}");
    assert_eq!(payload.signal.created_at, Timestamp { micros: 1_700_000_000_000_000 });
}

#[test]
fn webhook_timeout_is_thirty_seconds() {
    assert_eq!(WEBHOOK_TIMEOUT_SECS, 30);
}
