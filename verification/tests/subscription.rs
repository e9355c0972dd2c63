use vibeping_push_poc::subscription::{
    validate_subscription, PushSubscription, SubscriptionKeys, SubscriptionProblem, Timestamp,
};

fn now() -> Timestamp {
    let instant = chrono::Utc::now();
    Timestamp::from_unix(instant.timestamp(), instant.timestamp_subsec_nanos()).unwrap()
}

fn subscription(endpoint: &str, p256dh: &str, auth: &str) -> PushSubscription {
    PushSubscription {
        endpoint: endpoint.to_owned(),
        expiration_time: None,
        keys: SubscriptionKeys {
            p256dh: p256dh.to_owned(),
            auth: auth.to_owned(),
        },
        created_at: now(),
    }
}

#[test]
fn subscription_requires_an_https_endpoint() {
    let subscription = PushSubscription {
        endpoint: "http://example.test/push".to_owned(),
        expiration_time: None,
        keys: SubscriptionKeys {
            p256dh: "not-empty".to_owned(),
            auth: "not-empty".to_owned(),
        },
        created_at: now(),
    };
    assert_eq!(
        validate_subscription(&subscription),
        Err("push endpoint must use HTTPS".to_owned())
    );
}

#[test]
fn subscription_with_https_and_keys_is_valid() {
    let s = subscription("https://push.example.test/id", "key", "secret");
    assert_eq!(validate_subscription(&s), Ok(()));
}

#[test]
fn subscription_prefix_is_case_sensitive() {
    let s = subscription("HTTPS://push.example.test/id", "key", "secret");
    assert_eq!(validate_subscription(&s), Err("push endpoint must use HTTPS".to_owned()));
}

#[test]
fn subscription_with_blank_keys_is_refused() {
    let blank_p256dh = subscription("https://push.example.test/id", " \t\u{3000}", "secret");
    assert_eq!(
        validate_subscription(&blank_p256dh),
        Err("push subscription keys are missing".to_owned())
    );
    let empty_auth = subscription("https://push.example.test/id", "key", "");
    assert_eq!(
        validate_subscription(&empty_auth),
        Err("push subscription keys are missing".to_owned())
    );
}

#[test]
fn insecure_endpoint_is_reported_before_missing_keys() {
    let s = subscription("ftp://x", "", "");
    assert_eq!(validate_subscription(&s), Err("push endpoint must use HTTPS".to_owned()));
    assert_eq!(
        SubscriptionProblem::MissingKeys.message(),
        "push subscription keys are missing"
    );
}

#[test]
fn timestamp_formats_as_rfc3339() {
    let epoch = Timestamp::from_unix(0, 0).unwrap();
    assert_eq!(epoch.to_rfc3339(), "1970-01-01T00:00:00+00:00");
    let later = Timestamp::from_unix(1_700_000_000, 500_000_000).unwrap();
    assert_eq!(later.to_rfc3339(), "2023-11-14T22:13:20.500+00:00");
    assert_eq!(later.secs(), 1_700_000_000);
    assert_eq!(later.nanos(), 500_000_000);
}

#[test]
fn timestamp_out_of_range_is_refused() {
    assert!(Timestamp::from_unix(i64::MAX, 0).is_none());
}
