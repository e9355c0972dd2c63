//! JSON string literals as `serde_json` writes them.

use vstd::prelude::*;

verus! {

/// Lower-case hexadecimal digit for `d` in `0..16`.
pub open spec fn hex_char(d: int) -> char {
    if d < 10 {
        (48 + d) as char
    } else {
        (87 + d) as char
    }
}

/// How one character appears inside a JSON string: the quote, the backslash
/// and the control characters are escaped, short forms first; every other
/// character stands for itself.
pub open spec fn escaped_char(c: char) -> Seq<char> {
    if c == '"' {
        seq!['\\', '"']
    } else if c == '\\' {
        seq!['\\', '\\']
    } else if c == '\u{8}' {
        seq!['\\', 'b']
    } else if c == '\u{c}' {
        seq!['\\', 'f']
    } else if c == '\n' {
        seq!['\\', 'n']
    } else if c == '\r' {
        seq!['\\', 'r']
    } else if c == '\t' {
        seq!['\\', 't']
    } else if (c as int) < 0x20 {
        seq!['\\', 'u', '0', '0', hex_char((c as int) / 16), hex_char((c as int) % 16)]
    } else {
        seq![c]
    }
}

/// The escaped content of a JSON string.
pub open spec fn escaped(s: Seq<char>) -> Seq<char>
    decreases s.len(),
{
    if s.len() == 0 {
        seq![]
    } else {
        escaped(s.drop_last()) + escaped_char(s.last())
    }
}

/// A JSON string literal holding `s`.
pub open spec fn json_string(s: Seq<char>) -> Seq<char> {
    seq!['"'] + escaped(s) + seq!['"']
}

/// `serde_json::to_string` of a string: the string literal, escaped as
/// `json_string` says (ser.rs escape table: the quote, the backslash and the
/// control characters, short forms first, others as lower-case `\u00XX`).
/// Serialising a `str` cannot fail.
#[verifier::external_body]
pub(crate) fn json_quote(text: &str) -> (s: String)
    ensures
        s@ == json_string(text@),
{
    serde_json::to_string(text).expect("a string always serialises")
}

} // verus!
