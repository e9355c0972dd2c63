use web_push_native::jwt_simple::algorithms::{ECDSAP256PublicKeyLike, ES256PublicKey};
use web_push_native::jwt_simple::claims::NoCustomClaims;
use web_push_native::p256::elliptic_curve::sec1::ToEncodedPoint;
use vibeping_push_poc::push::{
    check_push_inputs, delivery_from_status, delivery_report, prepare_push, push_payload,
    test_push_status, PushError, TestNotification,
};
use vibeping_push_poc::subscription::{
    PushSubscription, SubscriptionKeys, SubscriptionProblem, Timestamp,
};
use vibeping_push_poc::base64url::{decode_base64url, encode_base64url};
use vibeping_push_poc::vapid::{public_key_base64, VapidKey};

const ENDPOINT: &str = "https://example.com/";
const P256DH: &str =
    "BLn9b-VR0ca83knDNZ32dCHGyjJp-1riX9ZTN40MqV8K_LpQmLqxC_DoHvqvFXO_nGdAB4W9dogZb_sM-uV4JbY";
const AUTH: &str = "_ordMnz7uTCmrpBTeUV4Bw";
const VAPID_PRIVATE: &str = "RS0WdYWWo1HajXg3NZR1olzCf31i-ZBGDkFyCs7j1jw";

fn subscription(endpoint: &str, p256dh: &str, auth: &str) -> PushSubscription {
    PushSubscription {
        endpoint: endpoint.to_owned(),
        expiration_time: Some(0),
        keys: SubscriptionKeys {
            p256dh: p256dh.to_owned(),
            auth: auth.to_owned(),
        },
        created_at: Timestamp::from_unix(0, 0).unwrap(),
    }
}

fn notification(title: &str, body: &str, tag: &str, url: &str) -> TestNotification {
    TestNotification {
        title: title.to_owned(),
        body: body.to_owned(),
        tag: tag.to_owned(),
        url: url.to_owned(),
    }
}

#[test]
fn default_notification() {
    let n = TestNotification::default();
    assert_eq!(n.title, "VibePing");
    assert_eq!(n.body, "Push from your Windows laptop works 🎉");
    assert_eq!(n.tag, "vibeping-test");
    assert_eq!(n.url, "/");
}

#[test]
fn payload_is_the_json_object_of_the_notification() {
    let n = notification("A\"b", "line\nbreak\u{1}", "t", "/");
    let payload = push_payload(&n, -5);
    assert_eq!(
        payload,
        "{\"body\":\"line\\nbreak\\u0001\",\"tag\":\"t\",\"timestamp\":-5,\"title\":\"A\\\"b\",\"url\":\"/\"}"
    );
    let mut object = serde_json::Map::new();
    object.insert("title".to_owned(), serde_json::Value::from(n.title.clone()));
    object.insert("body".to_owned(), serde_json::Value::from(n.body.clone()));
    object.insert("tag".to_owned(), serde_json::Value::from(n.tag.clone()));
    object.insert("timestamp".to_owned(), serde_json::Value::from(-5i64));
    object.insert("url".to_owned(), serde_json::Value::from(n.url.clone()));
    assert_eq!(payload, serde_json::Value::Object(object).to_string());
}

#[test]
fn payload_escapes_like_serde_json() {
    let n = notification("\u{1f}\u{7f}é", "a\"b\\c\r\t\u{8}\u{c}", "", "/x?y=1&z=2");
    let payload = push_payload(&n, i64::MIN);
    assert_eq!(
        payload,
        "{\"body\":\"a\\\"b\\\\c\\r\\t\\b\\f\",\"tag\":\"\",\"timestamp\":-9223372036854775808,\"title\":\"\\u001f\u{7f}é\",\"url\":\"/x?y=1&z=2\"}"
    );
}

#[test]
fn push_inputs_are_decoded() {
    let (ua_public, ua_auth) = check_push_inputs(&subscription(ENDPOINT, P256DH, AUTH)).unwrap();
    assert_eq!(ua_public.len(), 65);
    assert_eq!(ua_public[0], 4);
    assert_eq!(ua_auth.len(), 16);
}

#[test]
fn push_input_errors_in_order() {
    let cases = [
        (
            subscription("http://example.com/", P256DH, AUTH),
            PushError::InvalidSubscription(SubscriptionProblem::InsecureEndpoint),
            "push endpoint must use HTTPS",
        ),
        (
            subscription(ENDPOINT, "  ", AUTH),
            PushError::InvalidSubscription(SubscriptionProblem::MissingKeys),
            "push subscription keys are missing",
        ),
        (
            subscription(ENDPOINT, "B+", AUTH),
            PushError::P256dhNotBase64url,
            "subscription p256dh is not valid base64url",
        ),
        (
            subscription(ENDPOINT, P256DH, "_ordMnz7uTCmrpBTeUV4Bw=="),
            PushError::AuthNotBase64url,
            "subscription auth is not valid base64url",
        ),
        (
            subscription(ENDPOINT, P256DH, "AAAA"),
            PushError::AuthLength,
            "subscription auth must decode to exactly 16 bytes",
        ),
        (
            subscription("https://exa mple.com/", P256DH, AUTH),
            PushError::EndpointNotUri,
            "subscription endpoint is not a valid URI",
        ),
        (
            subscription(ENDPOINT, "AAAA", AUTH),
            PushError::P256dhNotPublicKey,
            "subscription p256dh is not a valid P-256 public key",
        ),
    ];
    let key = VapidKey::from_saved_text(VAPID_PRIVATE).unwrap();
    for (s, expected, message) in cases.iter() {
        assert_eq!(check_push_inputs(s).err(), Some(*expected));
        let prepared = prepare_push(s, &key, &TestNotification::default(), 0);
        assert_eq!(prepared.err(), Some(*expected));
        assert_eq!(expected.message(), *message);
    }
    assert_eq!(
        PushError::EncryptionFailed.message(),
        "could not encrypt and sign the Web Push payload"
    );
}

#[test]
fn prepared_push_targets_the_endpoint() {
    let key = VapidKey::from_saved_text(VAPID_PRIVATE).unwrap();
    let n = TestNotification::default();
    let payload = push_payload(&n, 1_700_000_000_000);
    let request = prepare_push(&subscription(ENDPOINT, P256DH, AUTH), &key, &n, 1_700_000_000_000)
        .expect("documented subscription");
    assert_eq!(request.method, "POST");
    assert_eq!(request.uri, ENDPOINT);
    assert_eq!(request.body.len(), payload.len() + 103);
    let header = |name: &str| {
        request
            .headers
            .iter()
            .find(|(n, _)| n == name)
            .map(|(_, v)| v.clone())
    };
    assert_eq!(header("content-encoding"), Some("aes128gcm".to_owned()));
    assert_eq!(header("content-length"), Some(request.body.len().to_string()));
    assert_eq!(header("ttl"), Some("43200".to_owned()));
    let authorization = header("authorization").unwrap();
    let rest = authorization.strip_prefix("vapid t=").unwrap();
    let (token, k) = rest.split_once(", k=").unwrap();
    assert_eq!(k, public_key_base64(&key));
    let parts: Vec<&str> = token.split('.').collect();
    assert_eq!(parts.len(), 3);
    let claims = String::from_utf8(decode_base64url(parts[1]).unwrap()).unwrap();
    assert!(claims.starts_with("{\"iat\":"));
    assert!(claims.ends_with(
        ",\"sub\":\"https://github.com/NhanDuong21/vibeping-ios-push-poc\",\"aud\":\"https://example.com\"}"
    ));
    assert!(claims.contains(",\"exp\":") && claims.contains(",\"nbf\":"));
}

#[test]
fn accepted_delivery() {
    let d = delivery_from_status(201);
    assert!(d.delivered_to_provider);
    assert!(!d.stale_subscription);
    assert_eq!(d.provider_status, 201);
    assert_eq!(d.provider_reason, "Created");
    assert_eq!(d.message, "Push provider accepted the message (201 Created).");
    assert_eq!(test_push_status(&d), 200);
    assert_eq!(
        delivery_report(&d),
        vec![
            "Provider: 201 Created".to_owned(),
            "Push provider accepted the message (201 Created).".to_owned()
        ]
    );
}

#[test]
fn gone_and_not_found_are_stale() {
    let gone = delivery_from_status(410);
    assert!(gone.stale_subscription && !gone.delivered_to_provider);
    assert_eq!(
        gone.message,
        "Push provider returned 410 Gone. The subscription is stale; reopen the Home Screen app and enable notifications again."
    );
    let missing = delivery_from_status(404);
    assert!(missing.stale_subscription);
    assert_eq!(missing.provider_reason, "Not Found");
    assert_eq!(test_push_status(&missing), 502);
}

#[test]
fn other_failures_are_rejections() {
    let d = delivery_from_status(500);
    assert!(!d.delivered_to_provider && !d.stale_subscription);
    assert_eq!(d.message, "Push provider rejected the message (500 Internal Server Error).");
    let odd = delivery_from_status(299);
    assert!(odd.delivered_to_provider);
    assert_eq!(odd.provider_reason, "Unknown");
    assert_eq!(odd.message, "Push provider accepted the message (299 <unknown status code>).");
}

#[test]
fn prepared_push_decrypts_for_the_subscription_and_verifies_for_the_key() {
    let ua_secret = web_push_native::p256::SecretKey::from_slice(&[7u8; 32]).unwrap();
    let ua_point = ua_secret.public_key().to_encoded_point(false);
    let auth = [9u8; 16];
    let s = subscription(
        ENDPOINT,
        &encode_base64url(ua_point.as_bytes()),
        &encode_base64url(&auth),
    );
    let key = VapidKey::from_saved_text(VAPID_PRIVATE).unwrap();
    let n = TestNotification::default();
    let request = prepare_push(&s, &key, &n, 42).unwrap();

    let plain = web_push_native::decrypt(
        request.body.clone(),
        &ua_secret,
        web_push_native::Auth::from_slice(&auth),
    )
    .unwrap();
    assert_eq!(plain, push_payload(&n, 42).into_bytes());

    let wrong = web_push_native::decrypt(
        request.body.clone(),
        &ua_secret,
        web_push_native::Auth::from_slice(&[0u8; 16]),
    );
    assert!(wrong.is_err());

    let authorization = request
        .headers
        .iter()
        .find(|(name, _)| name == "authorization")
        .map(|(_, value)| value.clone())
        .unwrap();
    let (token, k) = authorization
        .strip_prefix("vapid t=")
        .unwrap()
        .split_once(", k=")
        .unwrap();
    let parts: Vec<&str> = token.split('.').collect();
    assert_eq!(
        decode_base64url(parts[0]).unwrap(),
        b"{\"alg\":\"ES256\",\"typ\":\"JWT\"}".to_vec()
    );
    assert_eq!(decode_base64url(parts[2]).unwrap().len(), 64);
    let verifier = ES256PublicKey::from_bytes(&decode_base64url(k).unwrap()).unwrap();
    let claims = verifier
        .verify_token::<NoCustomClaims>(token, None)
        .expect("the token verifies under the VAPID public key");
    assert_eq!(
        claims.subject.as_deref(),
        Some("https://github.com/NhanDuong21/vibeping-ios-push-poc")
    );
    let issued = claims.issued_at.unwrap().as_secs();
    assert_eq!(claims.expires_at.unwrap().as_secs(), issued + 43200);
    assert_eq!(claims.invalid_before.unwrap().as_secs(), issued);
    let content_type = request
        .headers
        .iter()
        .find(|(name, _)| name == "content-type")
        .map(|(_, value)| value.clone());
    assert_eq!(content_type, Some("application/octet-stream".to_owned()));
}
