//! Best-effort text decoding and ASCII helpers.
//!
//! Arbitrary packet bytes are decoded into text with replacement characters
//! for invalid UTF-8 sequences, so decoding is total. Case-insensitive
//! matching is done byte-wise over the ASCII range.

use vstd::prelude::*;

verus! {

/// The sequence of characters that best-effort UTF-8 decoding of `bytes`
/// yields: valid sequences decode to their characters, invalid sequences
/// become replacement characters. A pure function of the bytes alone.
pub uninterp spec fn lossy_of(bytes: Seq<u8>) -> Seq<char>;

/// The characters of a byte sequence read as ASCII, one character per byte.
pub open spec fn ascii_chars_of(bytes: Seq<u8>) -> Seq<char> {
    Seq::new(bytes.len(), |i: int| bytes[i] as char)
}

/// Whether every byte is in the ASCII range.
pub open spec fn all_ascii(bytes: Seq<u8>) -> bool {
    forall|i: int| 0 <= i < bytes.len() ==> bytes[i] < 128
}

/// Relies on `String::from_utf8_lossy`: the result is a pure function of
/// the bytes; an all-ASCII input (valid UTF-8) passes through unchanged,
/// one character per byte; an empty input decodes to an empty string.
#[verifier::external_body]
pub fn lossy_decode(bytes: &[u8]) -> (r: String)
    ensures
        r@ == lossy_of(bytes@),
        all_ascii(bytes@) ==> r@ == ascii_chars_of(bytes@),
        bytes@.len() == 0 ==> r@.len() == 0,
{
    String::from_utf8_lossy(bytes).into_owned()
}

/// The ASCII-lowercase form of one byte.
pub open spec fn lower(b: u8) -> u8 {
    if 65 <= b <= 90 {
        (b + 32) as u8
    } else {
        b
    }
}

/// Whether `s` starts with `prefix`, compared byte-wise after ASCII
/// lowercasing.
pub open spec fn starts_with_ci(s: Seq<u8>, prefix: Seq<u8>) -> bool {
    prefix.len() <= s.len() && (forall|i: int|
        0 <= i < prefix.len() ==> lower(s[i]) == lower(prefix[i]))
}

/// The ASCII-lowercase form of one byte.
pub fn lower_exec(b: u8) -> (r: u8)
    ensures
        r == lower(b),
{
    if 65 <= b && b <= 90 {
        b + 32
    } else {
        b
    }
}

/// Whether `s` starts with `prefix`, ASCII-case-insensitively.
pub fn starts_with_ci_exec(s: &[u8], prefix: &[u8]) -> (r: bool)
    ensures
        r == starts_with_ci(s@, prefix@),
{
    if prefix.len() > s.len() {
        return false;
    }
    let mut i: usize = 0;
    while i < prefix.len()
        invariant
            0 <= i <= prefix.len(),
            prefix.len() <= s.len(),
            forall|j: int| 0 <= j < i ==> lower(s@[j]) == lower(prefix@[j]),
        decreases prefix.len() - i,
    {
        if lower_exec(s[i]) != lower_exec(prefix[i]) {
            return false;
        }
        i = i + 1;
    }
    true
}

/// The bytes of the header name `host`.
pub open spec fn host_prefix() -> Seq<u8> {
    seq![104u8, 111u8, 115u8, 116u8]
}

/// The bytes of the header name `user-agent`.
pub open spec fn ua_prefix() -> Seq<u8> {
    seq![117u8, 115u8, 101u8, 114u8, 45u8, 97u8, 103u8, 101u8, 110u8, 116u8]
}

/// Whether a line reveals a monitored header: its ASCII-lowercase form
/// starts with `host` or `user-agent`.
pub open spec fn is_hit(line: Seq<u8>) -> bool {
    starts_with_ci(line, host_prefix()) || starts_with_ci(line, ua_prefix())
}

/// Whether a line starts, ASCII-case-insensitively, with `host` or
/// `user-agent`.
pub fn is_hit_exec(line: &[u8]) -> (r: bool)
    ensures
        r == is_hit(line@),
{
    let host: Vec<u8> = vec![104u8, 111u8, 115u8, 116u8];
    let ua: Vec<u8> = vec![117u8, 115u8, 101u8, 114u8, 45u8, 97u8, 103u8, 101u8, 110u8, 116u8];
    assert(host@ =~= host_prefix());
    assert(ua@ =~= ua_prefix());
    starts_with_ci_exec(line, host.as_slice()) || starts_with_ci_exec(line, ua.as_slice())
}

} // verus!
