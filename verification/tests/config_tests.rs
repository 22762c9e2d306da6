use herald::config::parse_unsigned;
use herald::config::ConfigError;
use herald::config::EnvValues;
use herald::config::Settings;

fn env() -> EnvValues {
    EnvValues {
        database_url: Some("postgres://db".to_string()),
        herald_database_url: None,
        redis_url: Some("redis://cache".to_string()),
        herald_redis_url: None,
        herald_env: None,
        herald_api_bind: None,
        herald_worker_concurrency: None,
        herald_hmac_secret: Some("s3cret".to_string()),
        hmac_secret: None,
        herald_rate_limit_free: None,
        herald_rate_limit_pro: None,
        herald_rate_limit_ent: None,
    }
}

#[test]
fn settings_take_defaults() {
    let s = Settings::from_values(env()).unwrap();
    assert_eq!(s.database_url, "postgres://db");
    assert_eq!(s.redis_url, "redis://cache");
    assert_eq!(s.herald_env, "dev");
    assert_eq!(s.api_bind, "0.0.0.0:3000");
    assert_eq!(s.worker_concurrency, 4);
    assert_eq!(s.hmac_secret, "s3cret");
    assert_eq!(s.rate_limit_free, 60);
    assert_eq!(s.rate_limit_pro, 600);
    assert_eq!(s.rate_limit_ent, 6000);
}

#[test]
fn settings_take_what_is_set() {
    let mut e = env();
    e.herald_env = Some("prod".to_string());
    e.herald_api_bind = Some("127.0.0.1:8080".to_string());
    e.herald_worker_concurrency = Some("16".to_string());
    e.herald_rate_limit_free = Some("1".to_string());
    e.herald_rate_limit_pro = Some("+20".to_string());
    e.herald_rate_limit_ent = Some("4294967295".to_string());
    let s = Settings::from_values(e).unwrap();
    assert_eq!(s.herald_env, "prod");
    assert_eq!(s.api_bind, "127.0.0.1:8080");
    assert_eq!(s.worker_concurrency, 16);
    assert_eq!(s.rate_limit_free, 1);
    assert_eq!(s.rate_limit_pro, 20);
    assert_eq!(s.rate_limit_ent, 4294967295);
}

#[test]
fn settings_fall_back_on_unreadable_numbers() {
    let mut e = env();
    e.herald_worker_concurrency = Some("many".to_string());
    e.herald_rate_limit_free = Some("".to_string());
    e.herald_rate_limit_pro = Some("-5".to_string());
    e.herald_rate_limit_ent = Some("4294967296".to_string());
    let s = Settings::from_values(e).unwrap();
    assert_eq!(s.worker_concurrency, 4);
    assert_eq!(s.rate_limit_free, 60);
    assert_eq!(s.rate_limit_pro, 600);
    assert_eq!(s.rate_limit_ent, 6000);
}

#[test]
fn settings_prefer_the_first_variable() {
    let mut e = env();
    e.herald_database_url = Some("postgres://other".to_string());
    e.herald_redis_url = Some("redis://other".to_string());
    e.hmac_secret = Some("other".to_string());
    let s = Settings::from_values(e).unwrap();
    assert_eq!(s.database_url, "postgres://db");
    assert_eq!(s.redis_url, "redis://cache");
    assert_eq!(s.hmac_secret, "s3cret");
}

#[test]
fn settings_use_the_stand_in_variable() {
    let mut e = env();
    e.database_url = None;
    e.herald_database_url = Some("postgres://other".to_string());
    e.redis_url = None;
    e.herald_redis_url = Some("redis://other".to_string());
    e.herald_hmac_secret = None;
    e.hmac_secret = Some("other".to_string());
    let s = Settings::from_values(e).unwrap();
    assert_eq!(s.database_url, "postgres://other");
    assert_eq!(s.redis_url, "redis://other");
    assert_eq!(s.hmac_secret, "other");
}

#[test]
fn settings_report_the_first_missing_variable() {
    let mut e = env();
    e.database_url = None;
    e.redis_url = None;
    e.herald_hmac_secret = None;
    assert_eq!(Settings::from_values(e).unwrap_err(), ConfigError::DatabaseUrlMissing);
    let mut e = env();
    e.redis_url = None;
    e.herald_hmac_secret = None;
    assert_eq!(Settings::from_values(e).unwrap_err(), ConfigError::RedisUrlMissing);
    let mut e = env();
    e.herald_hmac_secret = None;
    assert_eq!(Settings::from_values(e).unwrap_err(), ConfigError::HmacSecretMissing);
}

#[test]
fn parse_unsigned_reads_decimal_numbers() {
    assert_eq!(parse_unsigned("0", 100), Some(0));
    assert_eq!(parse_unsigned("7", 100), Some(7));
    assert_eq!(parse_unsigned("100", 100), Some(100));
    assert_eq!(parse_unsigned("+42", 100), Some(42));
    assert_eq!(parse_unsigned("007", 100), Some(7));
    assert_eq!(parse_unsigned("18446744073709551615", u64::MAX), Some(u64::MAX));
    assert_eq!(parse_unsigned("000018446744073709551615", u64::MAX), Some(u64::MAX));
}

#[test]
fn parse_unsigned_refuses_everything_else() {
    for text in ["", "+", "-", "-1", "1.5", " 1", "1 ", "1e3", "0x10", "++1", "1+", "١٢"] {
        assert_eq!(parse_unsigned(text, 1000), None, "{:?}", text);
    }
    assert_eq!(parse_unsigned("101", 100), None);
    assert_eq!(parse_unsigned("18446744073709551616", u64::MAX), None);
    assert_eq!(parse_unsigned("99999999999999999999999999", u64::MAX), None);
    assert_eq!(parse_unsigned("1", 0), None);
    assert_eq!(parse_unsigned("0", 0), Some(0));
}

#[test]
fn worker_concurrency_takes_any_size_that_fits() {
    let mut e = env();
    e.herald_worker_concurrency = Some("4294967296".to_string());
    e.herald_rate_limit_free = Some("4294967295".to_string());
    let s = Settings::from_values(e).unwrap();
    assert_eq!(s.worker_concurrency as u64, 4294967296u64);
    assert_eq!(s.rate_limit_free, u32::MAX);
    let mut e = env();
    e.herald_worker_concurrency = Some("99999999999999999999999".to_string());
    assert_eq!(Settings::from_values(e).unwrap().worker_concurrency, 4);
}
