use herald::types::AccountStatus;
use herald::types::AccountTier;
use herald::types::ApiKeyOwner;
use herald::types::ApiKeyStatus;
use herald::types::ChannelStatus;
use herald::types::DeliveryJob;
use herald::types::DeliveryMode;
use herald::types::DeliveryStatus;
use herald::types::Ids;
use herald::types::PricingTier;
use herald::types::SignalStatus;
use herald::types::SignalUrgency;
use herald::types::SubscriptionStatus;
use herald::types::Timestamp;
use herald::types::WebhookStatus;

#[test]
fn pricing_tier_names() {
    assert_eq!(PricingTier::Free.as_str(), "free");
    assert_eq!(PricingTier::Pro.as_str(), "pro");
    assert_eq!(PricingTier::Enterprise.as_str(), "enterprise");
    assert_eq!(PricingTier::parse("free"), Some(PricingTier::Free));
    assert_eq!(PricingTier::parse("pro"), Some(PricingTier::Pro));
    assert_eq!(PricingTier::parse("enterprise"), Some(PricingTier::Enterprise));
}

#[test]
fn account_tier_names() {
    assert_eq!(AccountTier::Free.as_str(), "free");
    assert_eq!(AccountTier::Pro.as_str(), "pro");
    assert_eq!(AccountTier::Enterprise.as_str(), "enterprise");
    assert_eq!(AccountTier::parse("enterprise"), Some(AccountTier::Enterprise));
}

#[test]
fn account_status_names() {
    assert_eq!(AccountStatus::Active.as_str(), "active");
    assert_eq!(AccountStatus::Suspended.as_str(), "suspended");
    assert_eq!(AccountStatus::Deleted.as_str(), "deleted");
    assert_eq!(AccountStatus::parse("suspended"), Some(AccountStatus::Suspended));
}

#[test]
fn channel_status_names() {
    assert_eq!(ChannelStatus::Active.as_str(), "active");
    assert_eq!(ChannelStatus::Paused.as_str(), "paused");
    assert_eq!(ChannelStatus::Deleted.as_str(), "deleted");
    assert_eq!(ChannelStatus::parse("paused"), Some(ChannelStatus::Paused));
}

#[test]
fn signal_urgency_names() {
    assert_eq!(SignalUrgency::Low.as_str(), "low");
    assert_eq!(SignalUrgency::Normal.as_str(), "normal");
    assert_eq!(SignalUrgency::High.as_str(), "high");
    assert_eq!(SignalUrgency::Critical.as_str(), "critical");
    assert_eq!(SignalUrgency::parse("low"), Some(SignalUrgency::Low));
    assert_eq!(SignalUrgency::parse("normal"), Some(SignalUrgency::Normal));
    assert_eq!(SignalUrgency::parse("high"), Some(SignalUrgency::High));
    assert_eq!(SignalUrgency::parse("critical"), Some(SignalUrgency::Critical));
}

#[test]
fn signal_status_names() {
    assert_eq!(SignalStatus::Active.as_str(), "active");
    assert_eq!(SignalStatus::Deleted.as_str(), "deleted");
    assert_eq!(SignalStatus::parse("deleted"), Some(SignalStatus::Deleted));
}

#[test]
fn subscription_status_names() {
    assert_eq!(SubscriptionStatus::Active.as_str(), "active");
    assert_eq!(SubscriptionStatus::Paused.as_str(), "paused");
    assert_eq!(SubscriptionStatus::Canceled.as_str(), "canceled");
    assert_eq!(SubscriptionStatus::parse("canceled"), Some(SubscriptionStatus::Canceled));
}

#[test]
fn webhook_status_names() {
    assert_eq!(WebhookStatus::Active.as_str(), "active");
    assert_eq!(WebhookStatus::Paused.as_str(), "paused");
    assert_eq!(WebhookStatus::Disabled.as_str(), "disabled");
    assert_eq!(WebhookStatus::parse("disabled"), Some(WebhookStatus::Disabled));
}

#[test]
fn delivery_status_names() {
    assert_eq!(DeliveryStatus::Pending.as_str(), "pending");
    assert_eq!(DeliveryStatus::Success.as_str(), "success");
    assert_eq!(DeliveryStatus::Failed.as_str(), "failed");
    assert_eq!(DeliveryStatus::parse("success"), Some(DeliveryStatus::Success));
}

#[test]
fn delivery_mode_names() {
    assert_eq!(DeliveryMode::Agent.as_str(), "agent");
    assert_eq!(DeliveryMode::Webhook.as_str(), "webhook");
    assert_eq!(DeliveryMode::parse("agent"), Some(DeliveryMode::Agent));
    assert_eq!(DeliveryMode::parse("webhook"), Some(DeliveryMode::Webhook));
}

#[test]
fn api_key_owner_names() {
    assert_eq!(ApiKeyOwner::Publisher.as_str(), "publisher");
    assert_eq!(ApiKeyOwner::Subscriber.as_str(), "subscriber");
    assert_eq!(ApiKeyOwner::parse("publisher"), Some(ApiKeyOwner::Publisher));
}

#[test]
fn api_key_status_names() {
    assert_eq!(ApiKeyStatus::Active.as_str(), "active");
    assert_eq!(ApiKeyStatus::Revoked.as_str(), "revoked");
    assert_eq!(ApiKeyStatus::Expired.as_str(), "expired");
    assert_eq!(ApiKeyStatus::parse("revoked"), Some(ApiKeyStatus::Revoked));
}

#[test]
fn unknown_names_are_refused() {
    assert_eq!(PricingTier::parse("invalid"), None);
    assert_eq!(SignalUrgency::parse("CRITICAL"), None); // case-sensitive
    assert_eq!(DeliveryMode::parse("http"), None);
    assert_eq!(SignalUrgency::parse(""), None);
    assert_eq!(SignalUrgency::parse("low "), None);
    assert_eq!(SignalUrgency::parse("lo"), None);
    assert_eq!(ChannelStatus::parse("canceled"), None);
    assert_eq!(AccountStatus::parse("paused"), None);
}

#[test]
fn every_name_reads_back_to_its_variant() {
    for u in [SignalUrgency::Low, SignalUrgency::Normal, SignalUrgency::High, SignalUrgency::Critical] {
        assert_eq!(SignalUrgency::parse(u.as_str()), Some(u));
    }
    for s in [DeliveryStatus::Pending, DeliveryStatus::Success, DeliveryStatus::Failed] {
        assert_eq!(DeliveryStatus::parse(s.as_str()), Some(s));
    }
    for s in [WebhookStatus::Active, WebhookStatus::Paused, WebhookStatus::Disabled] {
        assert_eq!(WebhookStatus::parse(s.as_str()), Some(s));
    }
}

#[test]
fn delivery_job_holds_its_fields() {
    let job = DeliveryJob {
        signal_id: "sig_123".to_string(),
        subscription_id: "sub_456".to_string(),
        webhook_id: Some("wh_789".to_string()),
        attempt: 3,
    };
    let copy = job.clone();
    assert_eq!(copy.signal_id, "sig_123");
    assert_eq!(copy.subscription_id, "sub_456");
    assert_eq!(copy.webhook_id.as_deref(), Some("wh_789"));
    assert_eq!(copy.attempt, 3);
    let ids = Ids { id: "x".to_string() };
    assert_eq!(ids.clone().id, "x");
}

#[test]
fn timestamp_seconds_round_towards_the_past() {
    assert_eq!(Timestamp { micros: 0 }.unix_seconds(), 0);
    assert_eq!(Timestamp { micros: 999_999 }.unix_seconds(), 0);
    assert_eq!(Timestamp { micros: 1_000_000 }.unix_seconds(), 1);
    assert_eq!(Timestamp { micros: 1_700_000_000_123_456 }.unix_seconds(), 1_700_000_000);
    assert_eq!(Timestamp { micros: -1 }.unix_seconds(), -1);
    assert_eq!(Timestamp { micros: -1_000_000 }.unix_seconds(), -1);
    assert_eq!(Timestamp { micros: -1_000_001 }.unix_seconds(), -2);
    assert_eq!(Timestamp { micros: i64::MAX }.unix_seconds(), 9_223_372_036_854);
    assert_eq!(Timestamp { micros: i64::MIN }.unix_seconds(), -9_223_372_036_855);
}
