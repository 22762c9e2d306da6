use herald::access::AuthContext;
use herald::access::OwnerType;
use herald::config::Settings;
use herald::error::AppError;
use herald::rules::check_new_channel;
use herald::rules::delivery_page_limit;
use herald::rules::may_add_subscription;
use herald::rules::may_cancel_subscription;
use herald::rules::may_change_channel;
use herald::rules::may_list_marketplace;
use herald::rules::may_list_signals;
use herald::rules::may_see_channel;
use herald::rules::may_subscribe;
use herald::rules::may_use_webhook;
use herald::rules::page_limit;
use herald::rules::rate_limit_capacity;
use herald::types::AccountTier;
use herald::types::Channel;
use herald::types::ChannelStatus;
use herald::types::PricingTier;
use herald::types::Subscription;
use herald::types::SubscriptionStatus;
use herald::types::Timestamp;
use herald::types::Webhook;
use herald::types::WebhookStatus;

const T: Timestamp = Timestamp { micros: 0 };

fn auth(owner_type: OwnerType, owner_id: &str) -> AuthContext {
    AuthContext {
        key_id: "key".to_string(),
        owner_type,
        owner_id: owner_id.to_string(),
        key_prefix: "p".to_string(),
    }
}

fn channel(status: ChannelStatus, is_public: bool) -> Channel {
    Channel {
        id: "ch_1".to_string(),
        publisher_id: "pub_1".to_string(),
        slug: "s".to_string(),
        display_name: "S".to_string(),
        description: None,
        category: None,
        pricing_tier: PricingTier::Free,
        price_cents: 0,
        status,
        is_public,
        signal_count: 0,
        subscriber_count: 0,
        created_at: T,
        updated_at: T,
    }
}

fn not_found(result: Result<(), AppError>, text: &str) -> bool {
    matches!(result, Err(AppError::NotFound(ref m)) if m == text)
}

fn forbidden(result: Result<(), AppError>, text: &str) -> bool {
    matches!(result, Err(AppError::Forbidden(ref m)) if m == text)
}

fn bad_request(result: Result<(), AppError>, text: &str) -> bool {
    matches!(result, Err(AppError::BadRequest(ref m)) if m == text)
}

#[test]
fn page_sizes() {
    assert_eq!(page_limit(None), 50);
    assert_eq!(page_limit(Some(1)), 1);
    assert_eq!(page_limit(Some(100)), 100);
    assert_eq!(page_limit(Some(101)), 100);
    assert_eq!(page_limit(Some(0)), 1);
    assert_eq!(page_limit(Some(-7)), 1);
    assert_eq!(page_limit(Some(i64::MAX)), 100);
    assert_eq!(page_limit(Some(i64::MIN)), 1);
    assert_eq!(delivery_page_limit(None), 50);
    assert_eq!(delivery_page_limit(Some(20)), 20);
    assert_eq!(delivery_page_limit(Some(100)), 100);
    assert_eq!(delivery_page_limit(Some(1000)), 100);
    assert_eq!(delivery_page_limit(Some(-3)), -3);
}

#[test]
fn rate_limit_by_tier() {
    let settings = Settings {
        database_url: "d".to_string(),
        redis_url: "r".to_string(),
        herald_env: "dev".to_string(),
        api_bind: "b".to_string(),
        worker_concurrency: 4,
        hmac_secret: "s".to_string(),
        rate_limit_free: 60,
        rate_limit_pro: 600,
        rate_limit_ent: 6000,
    };
    assert_eq!(rate_limit_capacity(AccountTier::Free, &settings), 60);
    assert_eq!(rate_limit_capacity(AccountTier::Pro, &settings), 600);
    assert_eq!(rate_limit_capacity(AccountTier::Enterprise, &settings), 6000);
}

#[test]
fn listing_signals() {
    let owner = auth(OwnerType::Publisher, "pub_1");
    let stranger = auth(OwnerType::Publisher, "pub_2");
    let reader = auth(OwnerType::Subscriber, "sub_1");
    let public = channel(ChannelStatus::Active, true);
    let private = channel(ChannelStatus::Paused, false);
    let deleted = channel(ChannelStatus::Deleted, true);
    assert!(may_list_signals(&owner, Some(&public)).is_ok());
    assert!(may_list_signals(&owner, Some(&private)).is_ok());
    assert!(may_list_signals(&reader, Some(&public)).is_ok());
    assert!(forbidden(may_list_signals(&reader, Some(&private)), "access denied"));
    assert!(forbidden(may_list_signals(&stranger, Some(&public)), "access denied"));
    assert!(not_found(may_list_signals(&owner, None), "channel not found"));
    assert!(not_found(may_list_signals(&owner, Some(&deleted)), "channel not found"));
    assert!(not_found(may_list_signals(&stranger, Some(&deleted)), "channel not found"));
}

#[test]
fn seeing_a_channel() {
    let owner = auth(OwnerType::Publisher, "pub_1");
    let stranger = auth(OwnerType::Publisher, "pub_2");
    let reader = auth(OwnerType::Subscriber, "pub_1");
    let public = channel(ChannelStatus::Active, true);
    let private = channel(ChannelStatus::Active, false);
    let deleted = channel(ChannelStatus::Deleted, true);
    assert!(may_see_channel(&owner, Some(&public)).is_ok());
    assert!(may_see_channel(&stranger, Some(&public)).is_ok());
    assert!(may_see_channel(&reader, Some(&public)).is_ok());
    assert!(may_see_channel(&owner, Some(&private)).is_ok());
    assert!(not_found(may_see_channel(&stranger, Some(&private)), "channel not found"));
    assert!(not_found(may_see_channel(&reader, Some(&private)), "channel not found"));
    assert!(not_found(may_see_channel(&owner, Some(&deleted)), "channel not found"));
    assert!(not_found(may_see_channel(&owner, None), "channel not found"));
}

#[test]
fn changing_a_channel() {
    let owner = auth(OwnerType::Publisher, "pub_1");
    let stranger = auth(OwnerType::Publisher, "pub_2");
    let reader = auth(OwnerType::Subscriber, "pub_1");
    let ch = channel(ChannelStatus::Deleted, false);
    assert!(may_change_channel(&owner, Some(&ch)).is_ok());
    assert!(forbidden(may_change_channel(&stranger, Some(&ch)), "not channel owner"));
    assert!(forbidden(may_change_channel(&reader, Some(&ch)), "publisher access required"));
    assert!(forbidden(may_change_channel(&reader, None), "publisher access required"));
    assert!(not_found(may_change_channel(&owner, None), "channel not found"));
}

#[test]
fn creating_a_channel() {
    let publisher = auth(OwnerType::Publisher, "pub_1");
    let subscriber = auth(OwnerType::Subscriber, "sub_1");
    assert!(check_new_channel(&publisher, "news", "News").is_ok());
    assert!(bad_request(check_new_channel(&publisher, " ", "News"), "slug and displayName required"));
    assert!(bad_request(check_new_channel(&publisher, "news", ""), "slug and displayName required"));
    assert!(forbidden(check_new_channel(&subscriber, "news", "News"), "publisher access required"));
    assert!(forbidden(check_new_channel(&subscriber, "", ""), "publisher access required"));
}

#[test]
fn browsing_the_marketplace() {
    assert!(may_list_marketplace(&auth(OwnerType::Subscriber, "s")).is_ok());
    assert!(forbidden(
        may_list_marketplace(&auth(OwnerType::Publisher, "p")),
        "publishers cannot list marketplace channels"
    ));
}

#[test]
fn subscribing_to_a_channel() {
    assert!(may_subscribe(Some(&channel(ChannelStatus::Active, true))).is_ok());
    assert!(not_found(may_subscribe(None), "channel not found"));
    assert!(bad_request(may_subscribe(Some(&channel(ChannelStatus::Active, false))), "channel is not public"));
    assert!(bad_request(may_subscribe(Some(&channel(ChannelStatus::Paused, false))), "channel is not public"));
    assert!(bad_request(may_subscribe(Some(&channel(ChannelStatus::Paused, true))), "channel is not active"));
    assert!(bad_request(may_subscribe(Some(&channel(ChannelStatus::Deleted, true))), "channel is not active"));
}

#[test]
fn using_a_webhook() {
    let hook = Webhook {
        id: "wh_1".to_string(),
        subscriber_id: "sub_1".to_string(),
        url: "https://example.com".to_string(),
        name: "n".to_string(),
        token: None,
        status: WebhookStatus::Active,
        failure_count: 0,
        last_success_at: None,
        last_failure_at: None,
        created_at: T,
        updated_at: T,
    };
    assert!(may_use_webhook("sub_1", Some(&hook)).is_ok());
    assert!(forbidden(may_use_webhook("sub_2", Some(&hook)), "not webhook owner"));
    assert!(not_found(may_use_webhook("sub_1", None), "webhook not found"));
}

#[test]
fn cancelling_a_subscription() {
    let sub = Subscription {
        id: "subn_1".to_string(),
        subscriber_id: "sub_1".to_string(),
        channel_id: "ch_1".to_string(),
        webhook_id: None,
        status: SubscriptionStatus::Active,
        stripe_subscription_id: None,
        created_at: T,
        updated_at: T,
    };
    assert!(may_cancel_subscription("sub_1", Some(&sub)).is_ok());
    assert!(forbidden(may_cancel_subscription("sub_2", Some(&sub)), "not subscription owner"));
    assert!(not_found(may_cancel_subscription("sub_1", None), "subscription not found"));
}

#[test]
fn one_active_subscription_per_subscriber_and_channel() {
    let sub = |subscriber: &str, channel: &str, status: SubscriptionStatus| Subscription {
        id: "subn".to_string(),
        subscriber_id: subscriber.to_string(),
        channel_id: channel.to_string(),
        webhook_id: None,
        status,
        stripe_subscription_id: None,
        created_at: T,
        updated_at: T,
    };
    let existing = vec![
        sub("sub_1", "ch_1", SubscriptionStatus::Active),
        sub("sub_1", "ch_2", SubscriptionStatus::Canceled),
        sub("sub_2", "ch_2", SubscriptionStatus::Paused),
    ];
    assert!(bad_request(may_add_subscription(&existing, "sub_1", "ch_1"), "already subscribed"));
    assert!(may_add_subscription(&existing, "sub_1", "ch_2").is_ok());
    assert!(may_add_subscription(&existing, "sub_2", "ch_1").is_ok());
    assert!(may_add_subscription(&existing, "sub_2", "ch_2").is_ok());
    assert!(may_add_subscription(&vec![], "sub_1", "ch_1").is_ok());
}
