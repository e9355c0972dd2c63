//! URL-safe unpadded Base64 (RFC 4648 §5): the exact encoding, and the
//! calls into `base64ct` that encode and decode with it.

use base64ct::{Base64UrlUnpadded, Encoding};
use vstd::prelude::*;

use crate::text::{is_space, trimmed, trim_start, trim_end};

verus! {

/// The URL-safe alphabet symbol for a six-bit value.
pub open spec fn symbol(v: int) -> char {
    if v < 26 {
        (65 + v) as char
    } else if v < 52 {
        (97 + (v - 26)) as char
    } else if v < 62 {
        (48 + (v - 52)) as char
    } else if v == 62 {
        '-'
    } else {
        '_'
    }
}

/// Unpadded URL-safe Base64 of a byte sequence: every three bytes become four
/// symbols, a final pair three symbols, a final single byte two symbols.
pub open spec fn base64url(b: Seq<u8>) -> Seq<char>
    decreases b.len(),
{
    if b.len() == 0 {
        seq![]
    } else if b.len() == 1 {
        seq![symbol((b[0] as int) / 4), symbol(((b[0] as int) % 4) * 16)]
    } else if b.len() == 2 {
        seq![
            symbol((b[0] as int) / 4),
            symbol(((b[0] as int) % 4) * 16 + (b[1] as int) / 16),
            symbol(((b[1] as int) % 16) * 4),
        ]
    } else {
        seq![
            symbol((b[0] as int) / 4),
            symbol(((b[0] as int) % 4) * 16 + (b[1] as int) / 16),
            symbol(((b[1] as int) % 16) * 4 + (b[2] as int) / 64),
            symbol((b[2] as int) % 64),
        ] + base64url(b.skip(3))
    }
}

/// Whether some byte sequence encodes to `text`.
pub open spec fn is_base64url(text: Seq<char>) -> bool {
    exists|b: Seq<u8>| base64url(b) == text
}

proof fn lemma_symbol_injective(v: int, w: int)
    requires
        0 <= v < 64,
        0 <= w < 64,
        symbol(v) == symbol(w),
    ensures
        v == w,
{
}

proof fn lemma_symbol_not_space(v: int)
    requires
        0 <= v < 64,
    ensures
        !is_space(symbol(v)),
{
}

/// Distinct byte sequences have distinct encodings.
pub proof fn lemma_base64url_injective(a: Seq<u8>, b: Seq<u8>)
    requires
        base64url(a) == base64url(b),
    ensures
        a == b,
    decreases a.len(),
{
    let ea = base64url(a);
    let eb = base64url(b);
    if a.len() >= 3 && b.len() >= 3 {
        assert(ea[0] == eb[0] && ea[1] == eb[1] && ea[2] == eb[2] && ea[3] == eb[3]);
        lemma_symbol_injective((a[0] as int) / 4, (b[0] as int) / 4);
        lemma_symbol_injective(((a[0] as int) % 4) * 16 + (a[1] as int) / 16, ((b[0] as int) % 4) * 16 + (b[1] as int) / 16);
        lemma_symbol_injective(((a[1] as int) % 16) * 4 + (a[2] as int) / 64, ((b[1] as int) % 16) * 4 + (b[2] as int) / 64);
        lemma_symbol_injective((a[2] as int) % 64, (b[2] as int) % 64);
        assert(a[0] == b[0] && a[1] == b[1] && a[2] == b[2]);
        assert(base64url(a.skip(3)) =~= ea.skip(4));
        assert(base64url(b.skip(3)) =~= eb.skip(4));
        lemma_base64url_injective(a.skip(3), b.skip(3));
        assert(a =~= seq![a[0], a[1], a[2]] + a.skip(3));
        assert(b =~= seq![b[0], b[1], b[2]] + b.skip(3));
    } else if a.len() >= 3 || b.len() >= 3 {
        assert(ea.len() != eb.len());
    } else {
        assert(ea.len() == if a.len() == 0 { 0 } else { a.len() + 1 });
        assert(eb.len() == if b.len() == 0 { 0 } else { b.len() + 1 });
        assert(a.len() == b.len());
        if a.len() >= 1 {
            assert(ea[0] == eb[0] && ea[1] == eb[1]);
            lemma_symbol_injective((a[0] as int) / 4, (b[0] as int) / 4);
            if a.len() == 1 {
                lemma_symbol_injective(((a[0] as int) % 4) * 16, ((b[0] as int) % 4) * 16);
            } else {
                assert(ea[2] == eb[2]);
                lemma_symbol_injective(((a[0] as int) % 4) * 16 + (a[1] as int) / 16, ((b[0] as int) % 4) * 16 + (b[1] as int) / 16);
                lemma_symbol_injective(((a[1] as int) % 16) * 4, ((b[1] as int) % 16) * 4);
            }
        }
        assert(a =~= b);
    }
}

/// The length of an encoding: four symbols per full group of three bytes,
/// and one more symbol than bytes for a final partial group.
pub proof fn lemma_base64url_len(b: Seq<u8>)
    ensures
        base64url(b).len() == (b.len() / 3) * 4 + if b.len() % 3 == 0 {
            0
        } else {
            b.len() % 3 + 1
        },
    decreases b.len(),
{
    if b.len() >= 3 {
        lemma_base64url_len(b.skip(3));
    }
}

/// The first symbol of an encoding of three or more bytes carries the top
/// six bits of the first byte.
pub proof fn lemma_base64url_first(b: Seq<u8>)
    requires
        b.len() >= 3,
    ensures
        base64url(b)[0] == symbol((b[0] as int) / 4),
{
}

/// No symbol of an encoding is whitespace.
pub proof fn lemma_base64url_no_space(b: Seq<u8>)
    ensures
        forall|i: int| 0 <= i < base64url(b).len() ==> !is_space(#[trigger] base64url(b)[i]),
    decreases b.len(),
{
    let e = base64url(b);
    if b.len() >= 3 {
        lemma_base64url_no_space(b.skip(3));
        lemma_symbol_not_space((b[0] as int) / 4);
        lemma_symbol_not_space(((b[0] as int) % 4) * 16 + (b[1] as int) / 16);
        lemma_symbol_not_space(((b[1] as int) % 16) * 4 + (b[2] as int) / 64);
        lemma_symbol_not_space((b[2] as int) % 64);
        assert forall|i: int| 0 <= i < e.len() implies !is_space(#[trigger] e[i]) by {
            if i >= 4 {
                assert(e[i] == base64url(b.skip(3))[i - 4]);
            }
        }
    } else if b.len() >= 1 {
        lemma_symbol_not_space((b[0] as int) / 4);
        lemma_symbol_not_space(((b[0] as int) % 4) * 16);
        if b.len() == 2 {
            lemma_symbol_not_space(((b[0] as int) % 4) * 16 + (b[1] as int) / 16);
            lemma_symbol_not_space(((b[1] as int) % 16) * 4);
        }
    }
}

/// Trimming whitespace leaves an encoding unchanged.
pub proof fn lemma_base64url_trimmed(b: Seq<u8>)
    ensures
        trimmed(base64url(b)) == base64url(b),
{
    let e = base64url(b);
    lemma_base64url_no_space(b);
    if e.len() > 0 {
        assert(!is_space(e[0]));
        assert(!is_space(e.last()));
    }
    assert(trim_start(e) == e);
    assert(trim_end(e) == e);
}

/// The bytes that a text encodes, if it is an encoding at all.
pub open spec fn decoded(text: Seq<char>) -> Option<Seq<u8>> {
    if is_base64url(text) {
        Some(choose|b: Seq<u8>| base64url(b) == text)
    } else {
        None
    }
}

/// Decoding an encoding gives back the encoded bytes.
pub proof fn lemma_decoded_is(text: Seq<char>, b: Seq<u8>)
    requires
        base64url(b) == text,
    ensures
        decoded(text) == Some(b),
{
    let c = choose|c: Seq<u8>| base64url(c) == text;
    lemma_base64url_injective(c, b);
}

/// Encodes bytes with `base64ct::Base64UrlUnpadded::encode_string`, which
/// produces exactly the unpadded URL-safe Base64 of its input.
#[verifier::external_body]
pub(crate) fn encode(bytes: &[u8]) -> (res: String)
    requires
        bytes@.len() <= usize::MAX / 4,
    ensures
        res@ == base64url(bytes@),
{
    Base64UrlUnpadded::encode_string(bytes)
}

/// Decodes text with `base64ct::Base64UrlUnpadded::decode_vec`. The decoder
/// re-encodes the final block and compares it with the input, so it accepts
/// exactly the canonical encodings: it returns the bytes whose encoding is the
/// text, and fails when no byte sequence encodes to it.
#[verifier::external_body]
pub(crate) fn decode(text: &str) -> (res: Option<Vec<u8>>)
    ensures
        match res {
            Some(v) => base64url(v@) == text@,
            None => !is_base64url(text@),
        },
{
    match Base64UrlUnpadded::decode_vec(text) {
        Ok(v) => Some(v),
        Err(_) => None,
    }
}

/// Decodes unpadded URL-safe Base64 text.
pub fn decode_base64url(text: &str) -> (r: Option<Vec<u8>>)
    ensures
        match r {
            Some(v) => decoded(text@) == Some(v@),
            None => decoded(text@) is None,
        },
{
    let r = decode(text);
    proof {
        if r is Some {
            lemma_decoded_is(text@, r->0@);
        }
    }
    r
}

/// Encodes bytes as unpadded URL-safe Base64 text.
pub fn encode_base64url(bytes: &[u8]) -> (t: String)
    requires
        bytes@.len() <= usize::MAX / 4,
    ensures
        t@ == base64url(bytes@),
{
    encode(bytes)
}

} // verus!
