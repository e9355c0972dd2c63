use vibeping_push_poc::paths::{Paths, PRIVATE_KEY_FILE, SUBSCRIPTION_FILE};
use vibeping_push_poc::status::{status_report, yes_no, RemovalOutcome, ResetProgress};
use vibeping_push_poc::subscription::{PushSubscription, SubscriptionKeys, Timestamp};

#[test]
fn yes_no_words() {
    assert_eq!(yes_no(true), "ready");
    assert_eq!(yes_no(false), "missing");
}

#[test]
fn status_without_subscription() {
    assert_eq!(
        status_report(true, None),
        vec![
            "VibePing iOS Push PoC status".to_owned(),
            "VAPID key:     ready".to_owned(),
            "Subscription:  missing".to_owned(),
        ]
    );
}

#[test]
fn status_with_subscription() {
    let s = PushSubscription {
        endpoint: "https://push.example.test/id".to_owned(),
        expiration_time: None,
        keys: SubscriptionKeys {
            p256dh: "k".to_owned(),
            auth: "a".to_owned(),
        },
        created_at: Timestamp::from_unix(86_400, 0).unwrap(),
    };
    let lines = status_report(false, Some(&s));
    assert_eq!(lines.len(), 4);
    assert_eq!(lines[1], "VAPID key:     missing");
    assert_eq!(lines[2], "Subscription:  ready");
    assert_eq!(lines[3], "Created at:    1970-01-02T00:00:00+00:00");
}

#[test]
fn reset_counts_removed_files_and_stops_on_failure() {
    let mut progress = ResetProgress::new();
    assert!(progress.record(RemovalOutcome::Removed));
    assert!(progress.record(RemovalOutcome::Missing));
    assert_eq!(progress.removed, 1);
    assert_eq!(
        progress.summary(),
        "Removed 1 local state file(s). A new VAPID key will be created on serve."
    );
    assert!(!progress.record(RemovalOutcome::Failed));
    assert_eq!(progress.removed, 1);
}

#[test]
fn reset_with_nothing_left_removes_nothing() {
    let mut progress = ResetProgress::new();
    assert!(progress.record(RemovalOutcome::Missing));
    assert!(progress.record(RemovalOutcome::Missing));
    assert_eq!(progress.removed, 0);
    assert_eq!(
        progress.summary(),
        "Removed 0 local state file(s). A new VAPID key will be created on serve."
    );
}

#[test]
fn paths_under_a_root() {
    let paths = Paths::from_root("root");
    let data = std::path::Path::new("root").join("data");
    assert_eq!(paths.data_dir, data.to_string_lossy());
    assert_eq!(
        paths.public_dir,
        std::path::Path::new("root").join("public").to_string_lossy()
    );
    assert_eq!(
        paths.private_key(),
        data.join(PRIVATE_KEY_FILE).to_string_lossy()
    );
    assert_eq!(
        paths.subscription(),
        data.join(SUBSCRIPTION_FILE).to_string_lossy()
    );
    assert!(paths.private_key().ends_with("vapid-private.key"));
}

