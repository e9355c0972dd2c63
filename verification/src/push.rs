//! Preparing a Web Push message for a subscription, and reading the push
//! provider's answer.

use axum::http::{StatusCode, Uri};
use vstd::prelude::*;
use web_push_native::jwt_simple::algorithms::ES256KeyPair;
use web_push_native::p256::PublicKey;
use web_push_native::{Auth, WebPushBuilder};

use crate::base64url::{base64url, decode_base64url, decoded};
use crate::json::{json_quote, json_string};
use crate::subscription::{find_problem, problem_message, problem_of, PushSubscription, SubscriptionProblem};
use crate::text::{
    decimal, lemma_signed_decimal_round_trip, push_decimal, push_signed_decimal, signed_decimal,
    signed_decimal_value, starts_with,
};
use crate::vapid::{is_p256_private_key, p256_public_point, VapidKey};
use vstd::utf8::encode_utf8;

verus! {

/// The contact that the VAPID signature names.
pub const VAPID_SUBJECT: &'static str = "https://github.com/NhanDuong21/vibeping-ios-push-poc";

/// Whether `http` parses the text as a URI.
pub uninterp spec fn is_uri(text: Seq<char>) -> bool;

/// The text that `http::Uri`'s `Display` gives for the URI parsed from `text`.
pub uninterp spec fn uri_text(text: Seq<char>) -> Seq<char>;

/// Whether `p256::PublicKey::from_sec1_bytes` accepts the bytes as a point.
pub uninterp spec fn is_p256_public_key(sec1: Seq<u8>) -> bool;

/// The reason phrase that `http` registers for a status code, if any.
pub uninterp spec fn reason_phrase(code: u16) -> Option<Seq<char>>;

/// Parses the text with `http::Uri`'s `FromStr`; only success is reported.
#[verifier::external_body]
fn parses_as_uri(text: &str) -> (ok: bool)
    ensures
        ok == is_uri(text@),
{
    text.parse::<Uri>().is_ok()
}

/// Asks `p256::PublicKey::from_sec1_bytes` whether the bytes encode a point
/// of the curve; only success is reported.
#[verifier::external_body]
fn accepts_public_key(sec1: &[u8]) -> (ok: bool)
    ensures
        ok == is_p256_public_key(sec1@),
{
    PublicKey::from_sec1_bytes(sec1).is_ok()
}

/// `StatusCode::canonical_reason` of the code, which `StatusCode::from_u16`
/// accepts for every code in `100..=999`.
#[verifier::external_body]
fn canonical_reason(code: u16) -> (r: Option<&'static str>)
    requires
        100 <= code <= 999,
    ensures
        match r {
            Some(p) => reason_phrase(code) == Some(p@),
            None => reason_phrase(code) is None,
        },
{
    match StatusCode::from_u16(code) {
        Ok(status) => status.canonical_reason(),
        Err(_) => None,
    }
}

/// An HTTP request ready to be sent to the push provider.
#[derive(Debug)]
pub struct PushRequest {
    /// The HTTP method.
    pub method: String,
    /// The request target.
    pub uri: String,
    /// Header names, lower case, with their values.
    pub headers: Vec<(String, String)>,
    /// The encrypted message.
    pub body: Vec<u8>,
}

/// Whether a header list holds the given header.
pub open spec fn has_header(headers: Seq<(String, String)>, name: Seq<char>, value: Seq<char>) -> bool {
    exists|i: int| 0 <= i < headers.len() && #[trigger] headers[i].0@ == name && headers[i].1@ == value
}

/// The JSON claims of a VAPID token as `jwt-simple` writes them: issued at
/// `iat` (seconds), expiring 12 hours later, valid from `iat`, the contact as
/// subject and the endpoint's origin as audience.
pub open spec fn vapid_claims(iat: nat, subject: Seq<char>, audience: Seq<char>) -> Seq<char> {
    "{\"iat\":"@ + decimal(iat) + ",\"exp\":"@ + decimal(iat + 43200) + ",\"nbf\":"@ + decimal(iat)
        + ",\"sub\":"@ + json_string(subject) + ",\"aud\":"@ + json_string(audience) + "}"@
}

/// The aes128gcm message (RFC 8188 header and one record) that
/// `web-push-native` makes from the payload for the browser's key and auth
/// secret, given the salt and the sender's ephemeral private key (RFC 8291).
pub uninterp spec fn webpush_ciphertext(
    salt: Seq<u8>,
    sender_private_key: Seq<u8>,
    message: Seq<u8>,
    ua_public: Seq<u8>,
    ua_auth: Seq<u8>,
) -> Seq<u8>;

/// `{scheme}://{host}` of the URI that `http` parses from `text`.
pub uninterp spec fn uri_origin(text: Seq<char>) -> Seq<char>;

/// Whether the URI that `http` parses from `text` has both a scheme and a host.
pub uninterp spec fn uri_has_origin(text: Seq<char>) -> bool;

/// The 64-byte `r || s` ES256 signature that `ecdsa`'s randomized signer
/// makes with the private key over the SHA-256 digest of `signed`, given the
/// 32 bytes of added entropy it draws.
pub uninterp spec fn es256_signature(private_key: Seq<u8>, signed: Seq<u8>, entropy: Seq<u8>) -> Seq<u8>;

/// Whether the body is the payload encrypted for the browser's key and
/// secret, under some 16-byte salt and some sender key.
pub open spec fn encrypted_for(body: Seq<u8>, message: Seq<u8>, ua_public: Seq<u8>, ua_auth: Seq<u8>) -> bool {
    exists|salt: Seq<u8>, sender: Seq<u8>|
        salt.len() == 16 && is_p256_private_key(sender) && body == #[trigger] webpush_ciphertext(
            salt,
            sender,
            message,
            ua_public,
            ua_auth,
        )
}

/// The JWT header of an ES256 token without key id: `{"alg":"ES256","typ":"JWT"}`.
pub open spec fn es256_jwt_header() -> Seq<char> {
    base64url(encode_utf8("{\"alg\":\"ES256\",\"typ\":\"JWT\"}"@))
}

/// The text a VAPID token signs: the JWT header and the claims, each in
/// Base64, joined by a dot.
pub open spec fn vapid_signing_input(iat: nat, subject: Seq<char>, audience: Seq<char>) -> Seq<char> {
    es256_jwt_header() + "."@ + base64url(encode_utf8(vapid_claims(iat, subject, audience)))
}

/// The Authorization header value for a signing input and its signature:
/// `vapid t=<input>.<Base64 signature>, k=<Base64 of the public point>`.
pub open spec fn vapid_authorization(private_key: Seq<u8>, input: Seq<char>, signature: Seq<u8>) -> Seq<
    char,
> {
    "vapid t="@ + input + "."@ + base64url(signature) + ", k="@ + base64url(
        p256_public_point(private_key),
    )
}

/// Whether the headers carry a VAPID authorization made with the private key
/// for the subject and audience. The issue time and the signer's entropy are
/// left open.
pub open spec fn vapid_signed(
    headers: Seq<(String, String)>,
    private_key: Seq<u8>,
    subject: Seq<char>,
    audience: Seq<char>,
) -> bool {
    exists|iat: nat, entropy: Seq<u8>|
        #[trigger] has_header(
            headers,
            "authorization"@,
            vapid_authorization(
                private_key,
                vapid_signing_input(iat, subject, audience),
                es256_signature(
                    private_key,
                    encode_utf8(vapid_signing_input(iat, subject, audience)),
                    entropy,
                ),
            ),
        )
}

/// `WebPushBuilder::build` for a builder made with `WebPushBuilder::new` and
/// `with_vapid`: the payload is encrypted (aes128gcm, one record) for the
/// browser's key and secret with a fresh random salt and sender key, and the
/// request is signed with the VAPID key. The request is a POST to the
/// endpoint whose body is the 86-byte encryption header, the payload, a
/// delimiter byte and a 16-byte tag, valid for 12 hours (TTL 43200), with a
/// VAPID authorization for the key, the contact and the endpoint's origin.
/// The salt, the sender key and the signer's entropy are random and the
/// token's issue time comes from the clock; they are left open and change the
/// bytes only. The call fails exactly when the endpoint has no scheme or no
/// host (the token's audience) or the payload with its 17 bytes of record
/// overhead does not fit the `u32` record size.
#[verifier::external_body]
fn encrypt_and_sign(
    endpoint: &str,
    ua_public: &[u8],
    ua_auth: &[u8],
    vapid_private: &[u8],
    contact: &str,
    payload: &[u8],
) -> (r: Option<PushRequest>)
    requires
        is_uri(endpoint@),
        is_p256_public_key(ua_public@),
        ua_auth@.len() == 16,
        is_p256_private_key(vapid_private@),
    ensures
        r is Some <==> (uri_has_origin(endpoint@) && payload@.len() + 17 <= u32::MAX),
        r matches Some(q) ==> {
            &&& q.method@ == "POST"@
            &&& q.uri@ == uri_text(endpoint@)
            &&& q.body@.len() == payload@.len() + 103
            &&& has_header(q.headers@, "content-encoding"@, "aes128gcm"@)
            &&& has_header(q.headers@, "content-length"@, decimal(q.body@.len()))
            &&& has_header(q.headers@, "ttl"@, "43200"@)
            &&& has_header(q.headers@, "content-type"@, "application/octet-stream"@)
            &&& exists|salt: Seq<u8>, sender: Seq<u8>|
                salt.len() == 16 && is_p256_private_key(sender) && q.body@
                    == #[trigger] webpush_ciphertext(salt, sender, payload@, ua_public@, ua_auth@)
            &&& exists|iat: nat, entropy: Seq<u8>|
                #[trigger] has_header(
                    q.headers@,
                    "authorization"@,
                    vapid_authorization(
                        vapid_private@,
                        vapid_signing_input(iat, contact@, uri_origin(endpoint@)),
                        es256_signature(
                            vapid_private@,
                            encode_utf8(
                                vapid_signing_input(iat, contact@, uri_origin(endpoint@)),
                            ),
                            entropy,
                        ),
                    ),
                )
        },
{
    let key_pair = ES256KeyPair::from_bytes(vapid_private).expect("a valid P-256 scalar");
    let ua_key = PublicKey::from_sec1_bytes(ua_public).expect("a valid P-256 point");
    let builder = WebPushBuilder::new(endpoint.parse().expect("a valid URI"), ua_key, Auth::clone_from_slice(ua_auth))
        .with_vapid(&key_pair, contact);
    let request = builder.build(payload).ok()?;
    let headers = request.headers().iter()
        .map(|(name, value)| (name.to_string(), String::from_utf8_lossy(value.as_bytes()).into_owned()))
        .collect();
    Some(PushRequest { method: request.method().to_string(), uri: request.uri().to_string(), headers, body: request.into_body() })
}

/// A notification to push.
#[derive(Debug)]
pub struct TestNotification {
    /// Title line.
    pub title: String,
    /// Body text.
    pub body: String,
    /// Tag under which the device groups the notification.
    pub tag: String,
    /// Page that a tap on the notification opens.
    pub url: String,
}

impl Default for TestNotification {
    fn default() -> (n: Self)
        ensures
            n.title@ == "VibePing"@,
            n.body@ == "Push from your Windows laptop works \u{1F389}"@,
            n.tag@ == "vibeping-test"@,
            n.url@ == "/"@,
    {
        TestNotification {
            title: "VibePing".to_owned(),
            body: "Push from your Windows laptop works \u{1F389}".to_owned(),
            tag: "vibeping-test".to_owned(),
            url: "/".to_owned(),
        }
    }
}

/// A JSON object of a notification's members and a time, members in
/// lexicographic order of their names, without whitespace.
pub open spec fn payload_members(
    title: Seq<char>,
    body: Seq<char>,
    tag: Seq<char>,
    timestamp_millis: i64,
    url: Seq<char>,
) -> Seq<char> {
    "{\"body\":"@ + json_string(body) + ",\"tag\":"@ + json_string(tag) + ",\"timestamp\":"@
        + signed_decimal(timestamp_millis as int) + ",\"title\":"@ + json_string(title)
        + ",\"url\":"@ + json_string(url) + "}"@
}

/// The JSON object pushed to the device.
pub open spec fn payload_text(n: TestNotification, timestamp_millis: i64) -> Seq<char> {
    payload_members(n.title@, n.body@, n.tag@, timestamp_millis, n.url@)
}

/// Text around a `timestamp` member followed by a `title` member.
pub open spec fn around_timestamp(pre: Seq<char>, numeral: Seq<char>, post: Seq<char>) -> Seq<char> {
    pre + ",\"timestamp\":"@ + numeral + ",\"title\":"@ + post
}

/// The payload's `timestamp` member holds the given time: the payload reads
/// `…,"timestamp":<numeral>,"title":…`, and the numeral denotes exactly
/// `timestamp_millis`.
pub proof fn lemma_payload_timestamp(n: TestNotification, timestamp_millis: i64)
    ensures
        exists|pre: Seq<char>, numeral: Seq<char>, post: Seq<char>|
            payload_text(n, timestamp_millis) == #[trigger] around_timestamp(pre, numeral, post)
                && signed_decimal_value(numeral) == timestamp_millis,
{
    let pre = "{\"body\":"@ + json_string(n.body@) + ",\"tag\":"@ + json_string(n.tag@);
    let numeral = signed_decimal(timestamp_millis as int);
    let post = json_string(n.title@) + ",\"url\":"@ + json_string(n.url@) + "}"@;
    lemma_signed_decimal_round_trip(timestamp_millis as int);
    assert(payload_text(n, timestamp_millis) =~= around_timestamp(pre, numeral, post));
    assert(signed_decimal_value(numeral) == timestamp_millis);
}

/// Text with `part` somewhere inside it.
pub open spec fn with_inside(pre: Seq<char>, part: Seq<char>, post: Seq<char>) -> Seq<char> {
    pre + part + post
}

/// Whether `part` occurs in `s`.
pub open spec fn occurs_in(part: Seq<char>, s: Seq<char>) -> bool {
    exists|pre: Seq<char>, post: Seq<char>| s == #[trigger] with_inside(pre, part, post)
}

/// Each field of the notification stands in the payload under its own name,
/// as a JSON string of exactly that field.
pub proof fn lemma_payload_members(n: TestNotification, timestamp_millis: i64)
    ensures
        occurs_in("\"title\":"@ + json_string(n.title@), payload_text(n, timestamp_millis)),
        occurs_in("\"body\":"@ + json_string(n.body@), payload_text(n, timestamp_millis)),
        occurs_in("\"tag\":"@ + json_string(n.tag@), payload_text(n, timestamp_millis)),
        occurs_in("\"url\":"@ + json_string(n.url@), payload_text(n, timestamp_millis)),
{
    let p = payload_text(n, timestamp_millis);
    let title = json_string(n.title@);
    let body = json_string(n.body@);
    let tag = json_string(n.tag@);
    let url = json_string(n.url@);
    let ts = signed_decimal(timestamp_millis as int);
    reveal_strlit("{\"body\":");
    reveal_strlit("{");
    reveal_strlit("\"body\":");
    reveal_strlit(",\"tag\":");
    reveal_strlit(",");
    reveal_strlit("\"tag\":");
    reveal_strlit(",\"title\":");
    reveal_strlit("\"title\":");
    reveal_strlit(",\"url\":");
    reveal_strlit("\"url\":");
    assert(p =~= with_inside(
        "{"@,
        "\"body\":"@ + body,
        ",\"tag\":"@ + tag + ",\"timestamp\":"@ + ts + ",\"title\":"@ + title + ",\"url\":"@ + url
            + "}"@,
    ));
    assert(p =~= with_inside(
        "{\"body\":"@ + body + ","@,
        "\"tag\":"@ + tag,
        ",\"timestamp\":"@ + ts + ",\"title\":"@ + title + ",\"url\":"@ + url + "}"@,
    ));
    assert(p =~= with_inside(
        "{\"body\":"@ + body + ",\"tag\":"@ + tag + ",\"timestamp\":"@ + ts + ","@,
        "\"title\":"@ + title,
        ",\"url\":"@ + url + "}"@,
    ));
    assert(p =~= with_inside(
        "{\"body\":"@ + body + ",\"tag\":"@ + tag + ",\"timestamp\":"@ + ts + ",\"title\":"@ + title
            + ","@,
        "\"url\":"@ + url,
        "}"@,
    ));
}

/// Renders the JSON object pushed to the device.
pub fn push_payload(notification: &TestNotification, timestamp_millis: i64) -> (p: String)
    ensures
        p@ == payload_text(*notification, timestamp_millis),
{
    let mut p = String::new();
    p.append("{\"body\":");
    p.append(json_quote(notification.body.as_str()).as_str());
    p.append(",\"tag\":");
    p.append(json_quote(notification.tag.as_str()).as_str());
    p.append(",\"timestamp\":");
    push_signed_decimal(&mut p, timestamp_millis);
    p.append(",\"title\":");
    p.append(json_quote(notification.title.as_str()).as_str());
    p.append(",\"url\":");
    p.append(json_quote(notification.url.as_str()).as_str());
    p.append("}");
    assert(p@ =~= payload_text(*notification, timestamp_millis));
    p
}

/// Why a push message could not be prepared.
#[derive(Debug, Clone, Copy, PartialEq, Eq, Structural)]
pub enum PushError {
    /// The subscription itself is unfit.
    InvalidSubscription(SubscriptionProblem),
    /// The browser key is not Base64.
    P256dhNotBase64url,
    /// The authentication secret is not Base64.
    AuthNotBase64url,
    /// The authentication secret is not 16 bytes long.
    AuthLength,
    /// The endpoint is not a URI.
    EndpointNotUri,
    /// The browser key is not a P-256 point.
    P256dhNotPublicKey,
    /// Encryption or signing failed.
    EncryptionFailed,
}

/// The message of each push error.
pub open spec fn push_error_message(e: PushError) -> Seq<char> {
    match e {
        PushError::InvalidSubscription(p) => problem_message(p),
        PushError::P256dhNotBase64url => "subscription p256dh is not valid base64url"@,
        PushError::AuthNotBase64url => "subscription auth is not valid base64url"@,
        PushError::AuthLength => "subscription auth must decode to exactly 16 bytes"@,
        PushError::EndpointNotUri => "subscription endpoint is not a valid URI"@,
        PushError::P256dhNotPublicKey => "subscription p256dh is not a valid P-256 public key"@,
        PushError::EncryptionFailed => "could not encrypt and sign the Web Push payload"@,
    }
}

impl PushError {
    /// The message shown for the error.
    pub fn message(&self) -> (m: &'static str)
        ensures
            m@ == push_error_message(*self),
    {
        match self {
            PushError::InvalidSubscription(p) => p.message(),
            PushError::P256dhNotBase64url => "subscription p256dh is not valid base64url",
            PushError::AuthNotBase64url => "subscription auth is not valid base64url",
            PushError::AuthLength => "subscription auth must decode to exactly 16 bytes",
            PushError::EndpointNotUri => "subscription endpoint is not a valid URI",
            PushError::P256dhNotPublicKey => "subscription p256dh is not a valid P-256 public key",
            PushError::EncryptionFailed => "could not encrypt and sign the Web Push payload",
        }
    }
}

/// The decoded browser key and secret of a subscription, or the first check
/// that it fails: the subscription must be valid, both keys must be Base64,
/// the secret must be 16 bytes, the endpoint a URI and the key a P-256 point.
pub open spec fn push_inputs(s: PushSubscription) -> Result<(Seq<u8>, Seq<u8>), PushError> {
    match problem_of(s) {
        Some(p) => Err(PushError::InvalidSubscription(p)),
        None => match decoded(s.keys.p256dh@) {
            None => Err(PushError::P256dhNotBase64url),
            Some(ua_public) => match decoded(s.keys.auth@) {
                None => Err(PushError::AuthNotBase64url),
                Some(ua_auth) => if ua_auth.len() != 16 {
                    Err(PushError::AuthLength)
                } else if !is_uri(s.endpoint@) {
                    Err(PushError::EndpointNotUri)
                } else if !is_p256_public_key(ua_public) {
                    Err(PushError::P256dhNotPublicKey)
                } else {
                    Ok((ua_public, ua_auth))
                },
            },
        },
    }
}

/// The keys a push uses are the subscription's own: accepted inputs are the
/// decoded browser key and the decoded secret, which is exactly 16 bytes; a
/// secret of any other length is refused.
pub proof fn lemma_push_inputs_are_the_decoded_keys(s: PushSubscription)
    ensures
        push_inputs(s) matches Ok((ua_public, ua_auth)) ==> {
            &&& decoded(s.keys.p256dh@) == Some(ua_public)
            &&& decoded(s.keys.auth@) == Some(ua_auth)
            &&& ua_auth.len() == 16
        },
        decoded(s.keys.auth@) matches Some(a) && a.len() != 16 ==> !(push_inputs(s) is Ok),
        problem_of(s) is None && decoded(s.keys.p256dh@) is Some && decoded(s.keys.auth@) is Some
            && decoded(s.keys.auth@)->0.len() != 16 ==> push_inputs(s) == Err::<
            (Seq<u8>, Seq<u8>),
            PushError,
        >(PushError::AuthLength),
{
}

/// Runs the checks of `push_inputs`, in order.
pub fn check_push_inputs(subscription: &PushSubscription) -> (r: Result<(Vec<u8>, Vec<u8>), PushError>)
    ensures
        match r {
            Ok((ua_public, ua_auth)) => push_inputs(*subscription) == Ok::<
                (Seq<u8>, Seq<u8>),
                PushError,
            >((ua_public@, ua_auth@)),
            Err(e) => push_inputs(*subscription) == Err::<(Seq<u8>, Seq<u8>), PushError>(e),
        },
        r matches Ok((ua_public, ua_auth)) ==> {
            &&& decoded(subscription.keys.p256dh@) == Some(ua_public@)
            &&& decoded(subscription.keys.auth@) == Some(ua_auth@)
            &&& ua_auth@.len() == 16
        },
        problem_of(*subscription) is None && decoded(subscription.keys.p256dh@) is Some && decoded(
            subscription.keys.auth@,
        ) is Some && decoded(subscription.keys.auth@)->0.len() != 16 ==> r matches Err(
            PushError::AuthLength,
        ),
{
    proof {
        lemma_push_inputs_are_the_decoded_keys(*subscription);
    }
    if let Some(p) = find_problem(subscription) {
        return Err(PushError::InvalidSubscription(p));
    }
    let ua_public = match decode_base64url(subscription.keys.p256dh.as_str()) {
        Some(v) => v,
        None => return Err(PushError::P256dhNotBase64url),
    };
    let ua_auth = match decode_base64url(subscription.keys.auth.as_str()) {
        Some(v) => v,
        None => return Err(PushError::AuthNotBase64url),
    };
    if ua_auth.len() != 16 {
        return Err(PushError::AuthLength);
    }
    if !parses_as_uri(subscription.endpoint.as_str()) {
        return Err(PushError::EndpointNotUri);
    }
    if !accepts_public_key(ua_public.as_slice()) {
        return Err(PushError::P256dhNotPublicKey);
    }
    Ok((ua_public, ua_auth))
}

/// A push is refused for exactly the subscriptions that validation refuses,
/// and for the same reason.
pub proof fn lemma_push_refuses_invalid_subscription(s: PushSubscription)
    ensures
        match problem_of(s) {
            Some(p) => push_inputs(s) == Err::<(Seq<u8>, Seq<u8>), PushError>(
                PushError::InvalidSubscription(p),
            ),
            None => !(push_inputs(s) matches Err(PushError::InvalidSubscription(_))),
        },
{
}

/// Prepares the push request for a subscription: the checks of
/// `push_inputs` decide the errors; past them, the payload is encrypted and
/// signed, which fails only for an endpoint without scheme or host or a
/// payload too long for one record.
pub fn prepare_push(
    subscription: &PushSubscription,
    vapid: &VapidKey,
    notification: &TestNotification,
    timestamp_millis: i64,
) -> (r: Result<PushRequest, PushError>)
    ensures
        r matches Ok(q) ==> {
            &&& decoded(subscription.keys.auth@) matches Some(a) && a.len() == 16
            &&& encrypted_for(
                q.body@,
                encode_utf8(payload_text(*notification, timestamp_millis)),
                decoded(subscription.keys.p256dh@)->0,
                decoded(subscription.keys.auth@)->0,
            )
        },
        match push_inputs(*subscription) {
            Err(e) => r matches Err(e2) && e2 == e,
            Ok((ua_public, ua_auth)) => {
                &&& (r is Ok <==> (uri_has_origin(subscription.endpoint@) && encode_utf8(
                    payload_text(*notification, timestamp_millis),
                ).len() + 17 <= u32::MAX))
                &&& match r {
                    Ok(q) => {
                        &&& q.method@ == "POST"@
                        &&& q.uri@ == uri_text(subscription.endpoint@)
                        &&& q.body@.len() == encode_utf8(
                            payload_text(*notification, timestamp_millis),
                        ).len() + 103
                        &&& has_header(q.headers@, "content-encoding"@, "aes128gcm"@)
                        &&& has_header(q.headers@, "content-length"@, decimal(q.body@.len()))
                        &&& has_header(q.headers@, "ttl"@, "43200"@)
                        &&& has_header(q.headers@, "content-type"@, "application/octet-stream"@)
                        &&& encrypted_for(
                            q.body@,
                            encode_utf8(payload_text(*notification, timestamp_millis)),
                            ua_public,
                            ua_auth,
                        )
                        &&& vapid_signed(
                            q.headers@,
                            vapid@,
                            VAPID_SUBJECT@,
                            uri_origin(subscription.endpoint@),
                        )
                    },
                    Err(e) => e == PushError::EncryptionFailed,
                }
            },
        },
{
    let (ua_public, ua_auth) = match check_push_inputs(subscription) {
        Ok(keys) => keys,
        Err(e) => return Err(e),
    };
    proof {
        lemma_push_inputs_are_the_decoded_keys(*subscription);
    }
    let payload = push_payload(notification, timestamp_millis);
    match encrypt_and_sign(
        subscription.endpoint.as_str(),
        ua_public.as_slice(),
        ua_auth.as_slice(),
        vapid.private_key(),
        VAPID_SUBJECT,
        payload.as_str().as_bytes(),
    ) {
        Some(q) => Ok(q),
        None => Err(PushError::EncryptionFailed),
    }
}

/// What the push provider answered.
#[derive(Debug)]
pub struct PushDelivery {
    /// The provider accepted the message.
    pub delivered_to_provider: bool,
    /// The provider's HTTP status code.
    pub provider_status: u16,
    /// The reason phrase of that code.
    pub provider_reason: String,
    /// The provider reported the subscription gone.
    pub stale_subscription: bool,
    /// A sentence for the person testing.
    pub message: String,
}

/// Whether a status code is a success (2xx).
pub open spec fn is_success(code: u16) -> bool {
    200 <= code < 300
}

/// Whether a status code says that the subscription no longer exists
/// (404 Not Found or 410 Gone).
pub open spec fn is_stale(code: u16) -> bool {
    code == 404 || code == 410
}

/// A status code as `http` displays it: the number and its reason phrase.
pub open spec fn status_display(code: u16) -> Seq<char> {
    decimal(code as nat) + " "@ + match reason_phrase(code) {
        Some(p) => p,
        None => "<unknown status code>"@,
    }
}

/// The reason given for a status code, `Unknown` where none is registered.
pub open spec fn reason_or_unknown(code: u16) -> Seq<char> {
    match reason_phrase(code) {
        Some(p) => p,
        None => "Unknown"@,
    }
}

/// The sentence that reports a provider's answer.
pub open spec fn delivery_message(code: u16) -> Seq<char> {
    if is_success(code) {
        "Push provider accepted the message ("@ + status_display(code) + ")."@
    } else if is_stale(code) {
        "Push provider returned "@ + status_display(code)
            + ". The subscription is stale; reopen the Home Screen app and enable notifications again."@
    } else {
        "Push provider rejected the message ("@ + status_display(code) + ")."@
    }
}

/// Which sentence reports which answer: success codes are accepted, 404 and
/// 410 mark the subscription stale, every other code is a rejection.
pub proof fn lemma_delivery_message_kind(code: u16)
    ensures
        (200 <= code && code < 300) ==> starts_with(
            delivery_message(code),
            "Push provider accepted the message ("@,
        ),
        (code == 404 || code == 410) ==> starts_with(delivery_message(code), "Push provider returned "@),
        !(200 <= code && code < 300) && code != 404 && code != 410 ==> starts_with(
            delivery_message(code),
            "Push provider rejected the message ("@,
        ),
{
    let m = delivery_message(code);
    if 200 <= code && code < 300 {
        let p = "Push provider accepted the message ("@;
        assert(m == p + (status_display(code) + ")."@));
        assert(m.subrange(0, p.len() as int) =~= p);
    } else if code == 404 || code == 410 {
        let p = "Push provider returned "@;
        assert(m == p + (status_display(code)
            + ". The subscription is stale; reopen the Home Screen app and enable notifications again."@));
        assert(m.subrange(0, p.len() as int) =~= p);
    } else {
        let p = "Push provider rejected the message ("@;
        assert(m == p + (status_display(code) + ")."@));
        assert(m.subrange(0, p.len() as int) =~= p);
    }
}

fn push_status_display(out: &mut String, code: u16)
    requires
        100 <= code <= 999,
    ensures
        final(out)@ == old(out)@ + status_display(code),
{
    push_decimal(out, code as u64);
    out.append(" ");
    match canonical_reason(code) {
        Some(p) => out.append(p),
        None => out.append("<unknown status code>"),
    }
    assert(final(out)@ =~= old(out)@ + status_display(code));
}

/// Reads the provider's status code. A 2xx code is a delivery, 404 and 410
/// mark the subscription stale; no code is both.
pub fn delivery_from_status(code: u16) -> (d: PushDelivery)
    requires
        100 <= code <= 999,
    ensures
        d.delivered_to_provider == is_success(code),
        d.stale_subscription == is_stale(code),
        d.delivered_to_provider == (200 <= code && code < 300),
        d.stale_subscription == (code == 404 || code == 410),
        (200 <= code && code < 300) ==> starts_with(
            d.message@,
            "Push provider accepted the message ("@,
        ),
        (code == 404 || code == 410) ==> starts_with(d.message@, "Push provider returned "@),
        !(200 <= code && code < 300) && code != 404 && code != 410 ==> starts_with(
            d.message@,
            "Push provider rejected the message ("@,
        ),
        !(d.delivered_to_provider && d.stale_subscription),
        d.provider_status == code,
        d.provider_reason@ == reason_or_unknown(code),
        d.message@ == delivery_message(code),
{
    let delivered = 200 <= code && code < 300;
    let stale = code == 404 || code == 410;
    let reason = match canonical_reason(code) {
        Some(p) => p.to_owned(),
        None => "Unknown".to_owned(),
    };
    let mut message = String::new();
    if delivered {
        message.append("Push provider accepted the message (");
        push_status_display(&mut message, code);
        message.append(").");
    } else if stale {
        message.append("Push provider returned ");
        push_status_display(&mut message, code);
        message.append(
            ". The subscription is stale; reopen the Home Screen app and enable notifications again.",
        );
    } else {
        message.append("Push provider rejected the message (");
        push_status_display(&mut message, code);
        message.append(").");
    }
    assert(message@ =~= delivery_message(code));
    proof {
        lemma_delivery_message_kind(code);
    }
    PushDelivery {
        delivered_to_provider: delivered,
        provider_status: code,
        provider_reason: reason,
        stale_subscription: stale,
        message,
    }
}

/// The HTTP status with which a test push is answered: 200 when the
/// provider took the message, 502 Bad Gateway when it did not.
pub fn test_push_status(delivery: &PushDelivery) -> (code: u16)
    ensures
        code == if delivery.delivered_to_provider { 200u16 } else { 502u16 },
{
    if delivery.delivered_to_provider {
        200
    } else {
        502
    }
}

/// The two lines that report a delivery: the provider's code and reason,
/// then the message.
pub fn delivery_report(delivery: &PushDelivery) -> (lines: Vec<String>)
    ensures
        lines@.len() == 2,
        lines@[0]@ == "Provider: "@ + decimal(delivery.provider_status as nat) + " "@
            + delivery.provider_reason@,
        lines@[1]@ == delivery.message@,
{
    let mut first = String::new();
    first.append("Provider: ");
    push_decimal(&mut first, delivery.provider_status as u64);
    first.append(" ");
    first.append(delivery.provider_reason.as_str());
    let mut lines = Vec::new();
    lines.push(first);
    lines.push(delivery.message.as_str().to_owned());
    lines
}

} // verus!
