use herald::ids::new_id;
use herald::ids::new_request_id;
use herald::ids::CONNECTION_KIND;
use herald::ids::DEAD_LETTER_KIND;
use herald::ids::DELIVERY_KIND;
use herald::ids::SIGNAL_KIND;
use herald::policy::retry_policy;
use herald::queue::Monitor;
use herald::queue::PostgresStorage;
use herald::queue::RetryLayer;
use herald::queue::WorkerBuilder;
use herald::text::bytes_eq;
use herald::text::chars_of;
use herald::text::contains;
use herald::text::is_blank;
use herald::text::matches_at;
use herald::text::push_decimal;
use herald::text::push_decimal_nat;
use herald::text::push_hex_lower;
use herald::text::starts_with;
use herald::text::str_eq;
use herald::types::DeliveryJob;

fn chars(s: &str) -> Vec<char> {
    s.chars().collect()
}

#[test]
fn decimal_rendering() {
    for (n, expected) in [
        (0i64, "0"),
        (7, "7"),
        (10, "10"),
        (1707379800, "1707379800"),
        (-1, "-1"),
        (-120, "-120"),
        (i64::MAX, "9223372036854775807"),
        (i64::MIN, "-9223372036854775808"),
    ] {
        let mut out = String::from(">");
        push_decimal(&mut out, n);
        assert_eq!(out, format!(">{}", expected));
    }
    let mut out = String::new();
    push_decimal_nat(&mut out, u64::MAX);
    assert_eq!(out, "18446744073709551615");
}

#[test]
fn hexadecimal_rendering() {
    let mut out = String::from("x=");
    push_hex_lower(&mut out, &[0x00, 0x0f, 0xa0, 0xff, 0x9c]);
    assert_eq!(out, "x=000fa0ff9c");
    let mut empty = String::new();
    push_hex_lower(&mut empty, &[]);
    assert_eq!(empty, "");
}

#[test]
fn characters_and_strings() {
    assert_eq!(chars_of("aé✓🚀"), vec!['a', 'é', '✓', '🚀']);
    assert_eq!(chars_of(""), Vec::<char>::new());
}

#[test]
fn equality() {
    assert!(str_eq("", ""));
    assert!(str_eq("abc", "abc"));
    assert!(!str_eq("abc", "abd"));
    assert!(!str_eq("abc", "ab"));
    assert!(!str_eq("é", "e"));
    assert!(bytes_eq(&[1, 2, 3], &[1, 2, 3]));
    assert!(!bytes_eq(&[1, 2, 3], &[1, 2]));
    assert!(!bytes_eq(&[1, 2, 3], &[1, 2, 4]));
    assert!(bytes_eq(&[], &[]));
}

#[test]
fn blank_texts() {
    for s in ["", " ", "\t\n\r", "\u{000b}\u{000c}", "\u{0085}\u{00a0}", "\u{1680}\u{2000}\u{200a}\u{2028}\u{2029}\u{202f}\u{205f}\u{3000}"] {
        assert!(is_blank(s), "{:?}", s);
        assert!(s.trim().is_empty());
    }
    for s in ["a", " a ", "\u{200b}", "\u{feff}", "\u{180e}", "_", "\u{0008}", "\u{001f}"] {
        assert!(!is_blank(s), "{:?}", s);
        assert!(!s.trim().is_empty());
    }
}

#[test]
fn prefixes_and_substrings() {
    let s = chars("https://example.com");
    assert!(starts_with(&s, &chars("https://")));
    assert!(starts_with(&s, &chars("")));
    assert!(starts_with(&s, &s));
    assert!(!starts_with(&s, &chars("http://")));
    assert!(!starts_with(&chars("http"), &chars("https://")));
    assert!(contains(&s, &chars("example")));
    assert!(contains(&s, &chars(".com")));
    assert!(contains(&s, &chars("")));
    assert!(contains(&chars(""), &chars("")));
    assert!(!contains(&s, &chars("examples")));
    assert!(!contains(&chars("ab"), &chars("abc")));
    assert!(contains(&chars("aab"), &chars("ab")));
    assert!(matches_at(&s, &chars("example"), 8));
    assert!(!matches_at(&s, &chars("example"), 7));
    assert!(!matches_at(&s, &chars("com"), 17));
    assert!(matches_at(&s, &chars(""), 19));
    assert!(!matches_at(&s, &chars(""), 20));
    assert!(!matches_at(&s, &chars("x"), usize::MAX));
}

#[test]
fn identifiers_have_their_kind_and_twelve_random_characters() {
    for kind in [SIGNAL_KIND, DELIVERY_KIND, DEAD_LETTER_KIND, CONNECTION_KIND, ""] {
        let id = new_id(kind);
        assert!(id.starts_with(&format!("{}_", kind)));
        assert_eq!(id.len(), kind.len() + 1 + 12);
        assert!(id[kind.len() + 1..].chars().all(|c| c.is_ascii_alphanumeric() || c == '_' || c == '-'));
    }
    assert_eq!(DELIVERY_KIND, "del");
    assert_eq!(CONNECTION_KIND, "conn");
    assert_ne!(new_id("del"), new_id("del"));
}

#[test]
fn request_identifiers_have_sixteen_random_characters() {
    let id = new_request_id();
    assert!(id.starts_with("req_"));
    assert_eq!(id.len(), 20);
    assert!(id[4..].chars().all(|c| c.is_ascii_alphanumeric() || c == '_' || c == '-'));
    assert_ne!(new_request_id(), new_request_id());
}

#[test]
fn queue_keeps_jobs_in_order() {
    let mut queue: PostgresStorage<DeliveryJob> = PostgresStorage::new("postgres://x");
    assert_eq!(queue.len(), 0);
    assert!(queue.take_next().is_none());
    for attempt in 0..3 {
        let job = DeliveryJob {
            signal_id: "sig".to_string(),
            subscription_id: "sub".to_string(),
            webhook_id: None,
            attempt,
        };
        if attempt == 1 {
            queue.push_delayed("delivery-high", job, 60);
        } else {
            queue.push("delivery-normal", job);
        }
    }
    assert_eq!(queue.len(), 3);
    let a = queue.take_next().unwrap();
    assert_eq!((a.queue.as_str(), a.job.attempt, a.delay_secs), ("delivery-normal", 0, 0));
    let b = queue.take_next().unwrap();
    assert_eq!((b.queue.as_str(), b.job.attempt, b.delay_secs), ("delivery-high", 1, 60));
    let c = queue.take_next().unwrap();
    assert_eq!((c.queue.as_str(), c.job.attempt, c.delay_secs), ("delivery-normal", 2, 0));
    assert!(queue.take_next().is_none());
    assert_eq!(queue.len(), 0);
}

#[test]
fn workers_are_built_for_their_lane_and_registered_in_order() {
    let high = WorkerBuilder::<DeliveryJob>::new("delivery-high")
        .layer(RetryLayer::new(retry_policy))
        .build_fn(|_job: DeliveryJob| ());
    let normal = WorkerBuilder::<DeliveryJob>::new("delivery-normal")
        .layer(RetryLayer::new(retry_policy))
        .build_fn(|_job: DeliveryJob| ());
    assert_eq!(high.queue(), "delivery-high");
    assert_eq!(normal.queue(), "delivery-normal");
    let workers = Monitor::new().register(high).register(normal).into_workers();
    assert_eq!(workers.len(), 2);
    assert_eq!(workers[0].queue(), "delivery-high");
    assert_eq!(workers[1].queue(), "delivery-normal");
    assert!(Monitor::<DeliveryJob>::new().into_workers().is_empty());
}
