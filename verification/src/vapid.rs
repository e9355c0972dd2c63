//! The VAPID application-server key: a P-256 private scalar, kept on disk as
//! unpadded URL-safe Base64 text and published as the Base64 of its
//! uncompressed public point.

use vstd::prelude::*;
use web_push_native::jwt_simple::algorithms::{ECDSAP256KeyPairLike, ES256KeyPair};

use crate::base64url::{
    base64url, decode, decoded, encode, is_base64url, lemma_base64url_first, lemma_base64url_len,
    lemma_base64url_trimmed, lemma_decoded_is,
};
use crate::text::{trim, trimmed};

verus! {

/// The order of the P-256 group.
pub open spec fn p256_order() -> nat {
    0xffffffff00000000ffffffffffffffffbce6faada7179e84f3b9cac2fc632551nat
}

/// Big-endian value of a byte string.
pub open spec fn be_value(s: Seq<u8>) -> nat
    decreases s.len(),
{
    if s.len() == 0 {
        0
    } else {
        be_value(s.drop_last()) * 256 + s.last() as nat
    }
}

/// A P-256 private key: 32 big-endian bytes of a scalar in `1..n`.
pub open spec fn is_p256_private_key(s: Seq<u8>) -> bool {
    &&& s.len() == 32
    &&& 0 < be_value(s) < p256_order()
}

/// The uncompressed SEC1 encoding of the public point of a private key.
pub uninterp spec fn p256_public_point(private_key: Seq<u8>) -> Seq<u8>;

/// Asks `ES256KeyPair::from_bytes` whether it accepts 32 bytes; it builds an
/// `ecdsa::SigningKey` from them, which accepts exactly the nonzero scalars
/// below the group order.
#[verifier::external_body]
fn accepts_private_key(raw: &[u8]) -> (ok: bool)
    requires
        raw@.len() == 32,
    ensures
        ok == is_p256_private_key(raw@),
{
    ES256KeyPair::from_bytes(raw).is_ok()
}

/// `ES256KeyPair::generate`, serialised with `to_bytes`: a fresh random
/// scalar, which is a valid private key. Which key comes out is left open.
#[verifier::external_body]
fn generate_private_key() -> (key: Vec<u8>)
    ensures
        is_p256_private_key(key@),
{
    ES256KeyPair::generate().to_bytes()
}

/// The public key of an `ES256KeyPair` built with `from_bytes`, as the
/// uncompressed SEC1 point that `to_bytes_uncompressed` gives: a 0x04 tag
/// followed by two 32-byte coordinates. The point itself is named, not stated.
#[verifier::external_body]
fn public_point(private_key: &[u8]) -> (point: Vec<u8>)
    requires
        is_p256_private_key(private_key@),
    ensures
        point@ == p256_public_point(private_key@),
        point@.len() == 65,
        point@[0] == 4,
{
    ES256KeyPair::from_bytes(private_key).expect("a valid P-256 scalar").key_pair().public_key()
        .to_bytes_uncompressed()
}

/// Why a saved key text was refused.
#[derive(Debug, Clone, Copy, PartialEq, Eq, Structural)]
pub enum VapidKeyError {
    /// The trimmed text is not unpadded URL-safe Base64.
    NotBase64url,
    /// The decoded bytes are not a P-256 private scalar.
    InvalidKey,
}

impl VapidKeyError {
    /// The message shown for the error.
    pub fn message(&self) -> (m: &'static str)
        ensures
            m@ == vapid_error_message(*self),
    {
        match self {
            VapidKeyError::NotBase64url => "saved VAPID private key is not valid base64url",
            VapidKeyError::InvalidKey => "saved VAPID private key is invalid",
        }
    }
}

/// The message of each key error.
pub open spec fn vapid_error_message(e: VapidKeyError) -> Seq<char> {
    match e {
        VapidKeyError::NotBase64url => "saved VAPID private key is not valid base64url"@,
        VapidKeyError::InvalidKey => "saved VAPID private key is invalid"@,
    }
}

/// A saved key text whose Base64 content, if any, is 32 bytes long. Other
/// lengths are not handed to the key parser, which only takes 32 bytes.
pub open spec fn saved_key_length_fits(text: Seq<char>) -> bool {
    match decoded(trimmed(text)) {
        Some(b) => b.len() == 32,
        None => true,
    }
}

/// What a saved key text yields: the key bytes, or the reason it is refused.
pub open spec fn saved_key(text: Seq<char>) -> Result<Seq<u8>, VapidKeyError> {
    match decoded(trimmed(text)) {
        None => Err(VapidKeyError::NotBase64url),
        Some(b) => if is_p256_private_key(b) {
            Ok(b)
        } else {
            Err(VapidKeyError::InvalidKey)
        },
    }
}

/// A saved key is read back as the same key: the text written for a key
/// fits the parser and parses to that key, so the public key published after
/// a restart is the one published before.
pub proof fn lemma_saved_key_round_trip(key: Seq<u8>)
    requires
        is_p256_private_key(key),
    ensures
        saved_key_length_fits(base64url(key)),
        saved_key(base64url(key)) == Ok::<Seq<u8>, VapidKeyError>(key),
        base64url(p256_public_point(saved_key(base64url(key))->Ok_0)) == base64url(
            p256_public_point(key),
        ),
{
    lemma_base64url_trimmed(key);
    lemma_decoded_is(base64url(key), key);
}

/// A VAPID key pair, held as its valid private scalar.
pub struct VapidKey {
    private_key: Vec<u8>,
}

impl View for VapidKey {
    type V = Seq<u8>;

    closed spec fn view(&self) -> Seq<u8> {
        self.private_key@
    }
}

impl VapidKey {
    #[verifier::type_invariant]
    spec fn valid(self) -> bool {
        is_p256_private_key(self.private_key@)
    }

    /// The private scalar, which is always a valid P-256 private key.
    pub fn private_key(&self) -> (k: &[u8])
        ensures
            k@ == self@,
            is_p256_private_key(k@),
    {
        proof {
            use_type_invariant(self);
        }
        self.private_key.as_slice()
    }

    /// A fresh random key.
    pub fn generate() -> (k: VapidKey)
        ensures
            is_p256_private_key(k@),
    {
        VapidKey { private_key: generate_private_key() }
    }

    /// The text under which the key is saved: the Base64 of its scalar.
    pub fn to_saved_text(&self) -> (t: String)
        ensures
            t@ == base64url(self@),
    {
        encode(self.private_key())
    }

    /// Reads a saved key text: whitespace around it is ignored, the rest must
    /// be the Base64 of a valid scalar.
    pub fn from_saved_text(text: &str) -> (r: Result<VapidKey, VapidKeyError>)
        requires
            saved_key_length_fits(text@),
        ensures
            match r {
                Ok(k) => saved_key(text@) == Ok::<Seq<u8>, VapidKeyError>(k@),
                Err(e) => saved_key(text@) == Err::<Seq<u8>, VapidKeyError>(e),
            },
            r matches Ok(k) ==> is_p256_private_key(k@) && base64url(k@) == trimmed(text@),
            (r matches Err(VapidKeyError::NotBase64url)) <==> !is_base64url(trimmed(text@)),
    {
        let content = trim(text);
        match decode(content.as_str()) {
            None => Err(VapidKeyError::NotBase64url),
            Some(bytes) => {
                proof {
                    lemma_decoded_is(trimmed(text@), bytes@);
                }
                if accepts_private_key(bytes.as_slice()) {
                    Ok(VapidKey { private_key: bytes })
                } else {
                    Err(VapidKeyError::InvalidKey)
                }
            },
        }
    }

    /// Decides `saved_key_length_fits`, the condition under which a saved
    /// text may be handed to `from_saved_text`.
    pub fn saved_text_fits(text: &str) -> (b: bool)
        ensures
            b == saved_key_length_fits(text@),
    {
        let content = trim(text);
        match decode(content.as_str()) {
            None => true,
            Some(bytes) => {
                proof {
                    lemma_decoded_is(trimmed(text@), bytes@);
                }
                bytes.len() == 32
            },
        }
    }

    /// The key to use given what the key file held: a saved text is read
    /// back; with none, a fresh key is generated and its text is returned to
    /// be saved.
    pub fn load_or_generate(saved: Option<&str>) -> (r: Result<(VapidKey, Option<String>), VapidKeyError>)
        requires
            saved matches Some(t) ==> saved_key_length_fits(t@),
        ensures
            match saved {
                Some(t) => match r {
                    Ok((k, to_save)) => saved_key(t@) == Ok::<Seq<u8>, VapidKeyError>(k@)
                        && to_save is None,
                    Err(e) => saved_key(t@) == Err::<Seq<u8>, VapidKeyError>(e),
                },
                None => r matches Ok((k, Some(text))) && is_p256_private_key(k@)
                    && text@ == base64url(k@),
            },
    {
        match saved {
            Some(t) => match VapidKey::from_saved_text(t) {
                Ok(k) => Ok((k, None)),
                Err(e) => Err(e),
            },
            None => {
                let k = VapidKey::generate();
                let text = k.to_saved_text();
                Ok((k, Some(text)))
            },
        }
    }
}

/// The browser-facing public key: the Base64 of the uncompressed public
/// point, 65 bytes with the tag 4, hence 87 symbols starting with `B`.
pub fn public_key_base64(key: &VapidKey) -> (t: String)
    ensures
        t@ == base64url(p256_public_point(key@)),
        p256_public_point(key@).len() == 65,
        p256_public_point(key@)[0] == 4,
        decoded(t@) == Some(p256_public_point(key@)),
        t@.len() == 87,
        t@[0] == 'B',
{
    let point = public_point(key.private_key());
    let t = encode(point.as_slice());
    proof {
        lemma_base64url_len(point@);
        lemma_base64url_first(point@);
        lemma_decoded_is(t@, point@);
    }
    t
}

} // verus!
