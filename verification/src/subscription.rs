//! A browser's push subscription, when it is fit to be used, and the time at
//! which it was saved.

use chrono::{DateTime, Utc};
use vstd::prelude::*;

use crate::text::{all_space, has_prefix, is_blank, lemma_blank_iff_all_space, starts_with, trim};

verus! {

/// The RFC 3339 text that `chrono` gives for a UTC instant, if the instant
/// is within its range.
pub uninterp spec fn rfc3339_utc(secs: i64, nanos: u32) -> Option<Seq<char>>;

/// `DateTime::<Utc>::from_timestamp` followed by `to_rfc3339`: the text of
/// the instant `secs` seconds and `nanos` nanoseconds after the Unix epoch,
/// or nothing where `chrono` cannot represent the instant.
#[verifier::external_body]
fn format_rfc3339(secs: i64, nanos: u32) -> (r: Option<String>)
    ensures
        match r {
            Some(t) => rfc3339_utc(secs, nanos) == Some(t@),
            None => rfc3339_utc(secs, nanos) is None,
        },
{
    match DateTime::<Utc>::from_timestamp(secs, nanos) {
        Some(instant) => Some(instant.to_rfc3339()),
        None => None,
    }
}

/// A UTC instant that `chrono` can represent.
#[derive(Debug, Clone, Copy)]
pub struct Timestamp {
    secs: i64,
    nanos: u32,
}

impl Timestamp {
    #[verifier::type_invariant]
    spec fn representable(self) -> bool {
        rfc3339_utc(self.secs, self.nanos) is Some
    }

    /// Seconds after the Unix epoch.
    pub closed spec fn spec_secs(self) -> i64 {
        self.secs
    }

    /// Nanoseconds within the second.
    pub closed spec fn spec_nanos(self) -> u32 {
        self.nanos
    }

    /// The instant `secs` seconds and `nanos` nanoseconds after the epoch,
    /// when `chrono` can represent it.
    pub fn from_unix(secs: i64, nanos: u32) -> (r: Option<Timestamp>)
        ensures
            match r {
                Some(t) => t.spec_secs() == secs && t.spec_nanos() == nanos
                    && rfc3339_utc(secs, nanos) is Some,
                None => rfc3339_utc(secs, nanos) is None,
            },
    {
        match format_rfc3339(secs, nanos) {
            Some(_) => Some(Timestamp { secs, nanos }),
            None => None,
        }
    }

    /// Seconds after the Unix epoch.
    pub fn secs(&self) -> (s: i64)
        ensures
            s == self.spec_secs(),
    {
        self.secs
    }

    /// Nanoseconds within the second.
    pub fn nanos(&self) -> (n: u32)
        ensures
            n == self.spec_nanos(),
    {
        self.nanos
    }

    /// The instant as RFC 3339 text.
    pub fn to_rfc3339(&self) -> (t: String)
        ensures
            rfc3339_utc(self.spec_secs(), self.spec_nanos()) == Some(t@),
    {
        proof {
            use_type_invariant(self);
        }
        match format_rfc3339(self.secs, self.nanos) {
            Some(t) => t,
            None => {
                proof {
                    assert(false);
                }
                String::new()
            },
        }
    }
}

/// The keys with which a push message is encrypted for the browser.
#[derive(Debug)]
pub struct SubscriptionKeys {
    /// The browser's P-256 public key, unpadded URL-safe Base64.
    pub p256dh: String,
    /// The browser's authentication secret, unpadded URL-safe Base64.
    pub auth: String,
}

/// The push subscription that a browser hands out.
#[derive(Debug)]
pub struct PushSubscription {
    /// Where push messages are delivered.
    pub endpoint: String,
    /// When the subscription lapses, in milliseconds, if the browser said.
    pub expiration_time: Option<i64>,
    /// Encryption keys.
    pub keys: SubscriptionKeys,
    /// When the subscription was saved.
    pub created_at: Timestamp,
}

/// Why a subscription cannot be used.
#[derive(Debug, Clone, Copy, PartialEq, Eq, Structural)]
pub enum SubscriptionProblem {
    /// The endpoint does not start with `https://`.
    InsecureEndpoint,
    /// One of the two keys is empty or whitespace.
    MissingKeys,
}

/// The message of each subscription problem.
pub open spec fn problem_message(p: SubscriptionProblem) -> Seq<char> {
    match p {
        SubscriptionProblem::InsecureEndpoint => "push endpoint must use HTTPS"@,
        SubscriptionProblem::MissingKeys => "push subscription keys are missing"@,
    }
}

impl SubscriptionProblem {
    /// The message shown for the problem.
    pub fn message(&self) -> (m: &'static str)
        ensures
            m@ == problem_message(*self),
    {
        match self {
            SubscriptionProblem::InsecureEndpoint => "push endpoint must use HTTPS",
            SubscriptionProblem::MissingKeys => "push subscription keys are missing",
        }
    }
}

/// The first problem with a subscription's endpoint and keys, if any: the
/// endpoint must be HTTPS, and then neither key may be blank.
pub open spec fn subscription_problem(endpoint: Seq<char>, p256dh: Seq<char>, auth: Seq<char>) -> Option<
    SubscriptionProblem,
> {
    if !starts_with(endpoint, "https://"@) {
        Some(SubscriptionProblem::InsecureEndpoint)
    } else if is_blank(p256dh) || is_blank(auth) {
        Some(SubscriptionProblem::MissingKeys)
    } else {
        None
    }
}

/// What each key decides: a non-HTTPS endpoint is insecure whatever the keys;
/// an HTTPS endpoint with either key all whitespace (or empty) has missing
/// keys; an HTTPS endpoint with two keys that hold something else is fine.
pub proof fn lemma_problem_per_key(endpoint: Seq<char>, p256dh: Seq<char>, auth: Seq<char>)
    ensures
        !starts_with(endpoint, "https://"@) ==> subscription_problem(endpoint, p256dh, auth) == Some(
            SubscriptionProblem::InsecureEndpoint,
        ),
        starts_with(endpoint, "https://"@) && all_space(p256dh) ==> subscription_problem(
            endpoint,
            p256dh,
            auth,
        ) == Some(SubscriptionProblem::MissingKeys),
        starts_with(endpoint, "https://"@) && all_space(auth) ==> subscription_problem(
            endpoint,
            p256dh,
            auth,
        ) == Some(SubscriptionProblem::MissingKeys),
        starts_with(endpoint, "https://"@) && !all_space(p256dh) && !all_space(auth)
            ==> subscription_problem(endpoint, p256dh, auth) is None,
{
    lemma_blank_iff_all_space(p256dh);
    lemma_blank_iff_all_space(auth);
}

/// The problem with a subscription, if any.
pub open spec fn problem_of(s: PushSubscription) -> Option<SubscriptionProblem> {
    subscription_problem(s.endpoint@, s.keys.p256dh@, s.keys.auth@)
}

/// Finds the problem with a subscription, if any.
pub fn find_problem(subscription: &PushSubscription) -> (r: Option<SubscriptionProblem>)
    ensures
        r == problem_of(*subscription),
        !starts_with(subscription.endpoint@, "https://"@) ==> r == Some(
            SubscriptionProblem::InsecureEndpoint,
        ),
        starts_with(subscription.endpoint@, "https://"@) && (all_space(subscription.keys.p256dh@)
            || all_space(subscription.keys.auth@)) ==> r == Some(SubscriptionProblem::MissingKeys),
        starts_with(subscription.endpoint@, "https://"@) && !all_space(subscription.keys.p256dh@)
            && !all_space(subscription.keys.auth@) ==> r is None,
{
    proof {
        lemma_problem_per_key(
            subscription.endpoint@,
            subscription.keys.p256dh@,
            subscription.keys.auth@,
        );
    }
    if !has_prefix(subscription.endpoint.as_str(), "https://") {
        return Some(SubscriptionProblem::InsecureEndpoint);
    }
    let p256dh = trim(subscription.keys.p256dh.as_str());
    let auth = trim(subscription.keys.auth.as_str());
    if p256dh.as_str().is_empty() || auth.as_str().is_empty() {
        return Some(SubscriptionProblem::MissingKeys);
    }
    None
}

/// Checks that a subscription can be used: `Ok` exactly when it has no
/// problem, else the problem's message.
pub fn validate_subscription(subscription: &PushSubscription) -> (r: Result<(), String>)
    ensures
        match problem_of(*subscription) {
            None => r is Ok,
            Some(p) => r matches Err(m) && m@ == problem_message(p),
        },
        r is Ok <==> (starts_with(subscription.endpoint@, "https://"@) && !all_space(
            subscription.keys.p256dh@,
        ) && !all_space(subscription.keys.auth@)),
        starts_with(subscription.endpoint@, "https://"@) && (all_space(subscription.keys.p256dh@)
            || all_space(subscription.keys.auth@)) ==> (r matches Err(m) && m@
            == "push subscription keys are missing"@),
        !starts_with(subscription.endpoint@, "https://"@) ==> (r matches Err(m) && m@
            == "push endpoint must use HTTPS"@),
{
    proof {
        lemma_problem_per_key(
            subscription.endpoint@,
            subscription.keys.p256dh@,
            subscription.keys.auth@,
        );
    }
    match find_problem(subscription) {
        None => Ok(()),
        Some(p) => Err(p.message().to_owned()),
    }
}

} // verus!
