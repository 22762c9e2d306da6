use herald::access::authorize_key;
use herald::access::bearer_key_hash;
use herald::access::parse_bearer;
use herald::access::require_publisher;
use herald::access::require_subscriber;
use herald::access::validate_webhook_url;
use herald::access::AuthContext;
use herald::access::OwnerType;
use herald::access::RequestId;
use herald::auth::hash_api_key;
use herald::error::AppError;
use herald::types::ApiKey;
use herald::types::ApiKeyOwner;
use herald::types::ApiKeyStatus;
use herald::types::Timestamp;

fn ctx(owner_type: OwnerType) -> AuthContext {
    AuthContext {
        key_id: "key_1".to_string(),
        owner_type,
        owner_id: "owner_1".to_string(),
        key_prefix: "hld_pub_abcd".to_string(),
    }
}

fn key(status: ApiKeyStatus, expires_at: Option<i64>) -> ApiKey {
    ApiKey {
        id: "key_1".to_string(),
        key_hash: "h".to_string(),
        key_prefix: "hld_sub_abcd".to_string(),
        owner_type: ApiKeyOwner::Subscriber,
        owner_id: "sub_1".to_string(),
        name: Some("n".to_string()),
        scopes: vec!["signals:read".to_string()],
        last_used_at: None,
        expires_at: expires_at.map(|micros| Timestamp { micros }),
        status,
        created_at: Timestamp { micros: 0 },
    }
}

#[test]
fn owner_type_from_db() {
    assert_eq!(OwnerType::from_db("publisher"), Some(OwnerType::Publisher));
    assert_eq!(OwnerType::from_db("subscriber"), Some(OwnerType::Subscriber));
    assert_eq!(OwnerType::from_db("Publisher"), None);
    assert_eq!(OwnerType::from_db("publishers"), None);
    assert_eq!(OwnerType::from_db(""), None);
    assert_eq!(OwnerType::from_db("admin"), None);
}

#[test]
fn owner_type_of_key_owner() {
    assert_eq!(OwnerType::of_key_owner(ApiKeyOwner::Publisher), OwnerType::Publisher);
    assert_eq!(OwnerType::of_key_owner(ApiKeyOwner::Subscriber), OwnerType::Subscriber);
}

#[test]
fn parse_bearer_reads_the_token() {
    assert_eq!(parse_bearer("Bearer abc").unwrap(), "abc");
    assert_eq!(parse_bearer("Bearer hld_pub_0123-_x").unwrap(), "hld_pub_0123-_x");
    assert_eq!(parse_bearer("Bearer a b c").unwrap(), "a b c");
    assert_eq!(parse_bearer("Bearer  x").unwrap(), " x");
    assert_eq!(parse_bearer("Bearer é✓").unwrap(), "é✓");
}

#[test]
fn parse_bearer_refuses_other_headers() {
    for header in ["", "Bearer", "Bearer ", "bearer abc", "Basic abc", "Bearerabc", " Bearer abc", "Token Bearer abc"] {
        assert!(matches!(parse_bearer(header), Err(AppError::Unauthorized)), "{:?}", header);
    }
}

#[test]
fn bearer_key_hash_is_the_hash_of_the_token() {
    assert_eq!(bearer_key_hash(Some("Bearer hld_pub_x")).unwrap(), hash_api_key("hld_pub_x"));
    assert!(matches!(bearer_key_hash(None), Err(AppError::Unauthorized)));
    assert!(matches!(bearer_key_hash(Some("Basic x")), Err(AppError::Unauthorized)));
}

#[test]
fn authorize_key_accepts_active_unexpired_keys() {
    let now = Timestamp { micros: 1_000 };
    let k = key(ApiKeyStatus::Active, None);
    let auth = authorize_key(Some(&k), now).unwrap();
    assert_eq!(auth.key_id, "key_1");
    assert_eq!(auth.owner_type, OwnerType::Subscriber);
    assert_eq!(auth.owner_id, "sub_1");
    assert_eq!(auth.key_prefix, "hld_sub_abcd");

    assert!(authorize_key(Some(&key(ApiKeyStatus::Active, Some(1_000))), now).is_ok());
    assert!(authorize_key(Some(&key(ApiKeyStatus::Active, Some(1_001))), now).is_ok());
}

#[test]
fn authorize_key_refuses_missing_expired_and_inactive_keys() {
    let now = Timestamp { micros: 1_000 };
    assert!(matches!(authorize_key(None, now), Err(AppError::Unauthorized)));
    assert!(matches!(authorize_key(Some(&key(ApiKeyStatus::Active, Some(999))), now), Err(AppError::Unauthorized)));
    assert!(matches!(authorize_key(Some(&key(ApiKeyStatus::Revoked, None)), now), Err(AppError::Unauthorized)));
    assert!(matches!(authorize_key(Some(&key(ApiKeyStatus::Expired, None)), now), Err(AppError::Unauthorized)));
}

#[test]
fn require_publisher_by_role() {
    let rid = RequestId("req_9".to_string());
    assert_eq!(require_publisher(&ctx(OwnerType::Publisher), &rid).unwrap(), "owner_1");
    let err = require_publisher(&ctx(OwnerType::Subscriber), &rid).unwrap_err();
    assert_eq!(err.request_id, "req_9");
    assert!(matches!(err.error, AppError::Forbidden(ref m) if m == "publisher access required"));
}

#[test]
fn require_subscriber_by_role() {
    let rid = RequestId("req_9".to_string());
    assert_eq!(require_subscriber(&ctx(OwnerType::Subscriber), &rid).unwrap(), "owner_1");
    let err = require_subscriber(&ctx(OwnerType::Publisher), &rid).unwrap_err();
    assert_eq!(err.request_id, "req_9");
    assert!(matches!(err.error, AppError::Forbidden(ref m) if m == "subscriber access required"));
}

#[test]
fn webhook_url_must_be_https() {
    assert_eq!(validate_webhook_url("https://example.com/hook", "dev"), Ok(()));
    assert_eq!(validate_webhook_url("https://", "prod"), Ok(()));
    for url in ["http://example.com", "", "ftp://x", "HTTPS://example.com", "https:/example.com", " https://x"] {
        assert_eq!(validate_webhook_url(url, "dev"), Err("webhook url must be https".to_string()), "{:?}", url);
    }
}

#[test]
fn webhook_url_must_not_be_local_in_prod() {
    let refusal = Err("webhook url must not target localhost in prod".to_string());
    assert_eq!(validate_webhook_url("https://localhost/hook", "prod"), refusal);
    assert_eq!(validate_webhook_url("https://LOCALHOST:8443/hook", "prod"), refusal);
    assert_eq!(validate_webhook_url("https://LocalHost/hook", "prod"), refusal);
    assert_eq!(validate_webhook_url("https://127.0.0.1/hook", "prod"), refusal);
    assert_eq!(validate_webhook_url("https://0.0.0.0/", "prod"), refusal);
    assert_eq!(validate_webhook_url("https://example.com/?next=localhost", "prod"), refusal);
    assert_eq!(validate_webhook_url("https://example.com/hook", "prod"), Ok(()));
    assert_eq!(validate_webhook_url("https://localhos/hook", "prod"), Ok(()));
}

#[test]
fn webhook_url_may_be_local_outside_prod() {
    assert_eq!(validate_webhook_url("https://localhost/hook", "dev"), Ok(()));
    assert_eq!(validate_webhook_url("https://127.0.0.1/hook", "staging"), Ok(()));
    assert_eq!(validate_webhook_url("https://localhost/hook", "PROD"), Ok(()));
    assert_eq!(validate_webhook_url("https://localhost/hook", ""), Ok(()));
    assert_eq!(validate_webhook_url("http://localhost/hook", "prod"), Err("webhook url must be https".to_string()));
}
