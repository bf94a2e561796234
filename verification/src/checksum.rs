//! SHA-256 checksums of the launcher jar: computing them as lower-case hex and
//! reading the ones that the server or the manifest publish.

use sha2::Digest;
use vstd::prelude::*;

use crate::text::{
    chars_of, first_word, first_word_of, is_ascii_hex_digit, opt_view, push_char,
};

verus! {

/// Names the 32-byte SHA-256 digest of `data`, as `sha2::Sha256::digest`
/// computes it.
pub uninterp spec fn sha256_digest(data: Seq<u8>) -> Seq<u8>;

/// Names the lower-case form of `s`, as `str::to_lowercase` computes it.
pub uninterp spec fn unicode_lowercase(s: Seq<char>) -> Seq<char>;

/// `sha2::Sha256::digest`: the result is the SHA-256 digest of `data`, which
/// is 32 bytes long.
#[verifier::external_body]
fn sha256(data: &[u8]) -> (r: Vec<u8>)
    ensures
        r@ == sha256_digest(data@),
        r@.len() == 32,
{
    sha2::Sha256::digest(data).to_vec()
}

/// `str::to_lowercase`: the result is the lower-case form of `s`.
#[verifier::external_body]
pub(crate) fn lowercase_of(s: &str) -> (r: String)
    ensures
        r@ == unicode_lowercase(s@),
{
    s.to_lowercase()
}

/// The lower-case hexadecimal digit of `d`, for `d < 16`.
pub open spec fn hex_digit(d: nat) -> char {
    if d < 10 {
        (48 + d) as char
    } else {
        (87 + d) as char
    }
}

/// `bytes` in lower-case hexadecimal, two digits per byte, most significant
/// digit first.
pub open spec fn hex_lower(bytes: Seq<u8>) -> Seq<char>
    decreases bytes.len(),
{
    if bytes.len() == 0 {
        Seq::empty()
    } else {
        hex_lower(bytes.drop_last()) + seq![
            hex_digit((bytes.last() / 16) as nat),
            hex_digit((bytes.last() % 16) as nat),
        ]
    }
}

/// A SHA-256 checksum written out: exactly 64 ASCII hexadecimal digits.
pub open spec fn is_sha256_hex(s: Seq<char>) -> bool {
    &&& s.len() == 64
    &&& forall|i: int| 0 <= i < s.len() ==> #[trigger] is_ascii_hex_digit(s[i])
}

/// A published checksum in the form it is compared in: lower-cased, and only
/// if that is a well-formed SHA-256 checksum.
pub open spec fn checked_hash(s: Seq<char>) -> Option<Seq<char>> {
    if is_sha256_hex(unicode_lowercase(s)) {
        Some(unicode_lowercase(s))
    } else {
        None
    }
}

/// The checksum read from a `Launcher.jar.sha256` file: its first word,
/// checked as `checked_hash` does (so `sha256sum` output is accepted as is).
pub open spec fn listed_hash(body: Seq<char>) -> Option<Seq<char>> {
    match first_word(body) {
        Some(w) => checked_hash(w),
        None => None,
    }
}

/// The lower-case hexadecimal digit of `d`.
fn hex_digit_char(d: u8) -> (c: char)
    requires
        d < 16,
    ensures
        c == hex_digit(d as nat),
{
    match d {
        0 => '0',
        1 => '1',
        2 => '2',
        3 => '3',
        4 => '4',
        5 => '5',
        6 => '6',
        7 => '7',
        8 => '8',
        9 => '9',
        10 => 'a',
        11 => 'b',
        12 => 'c',
        13 => 'd',
        14 => 'e',
        _ => 'f',
    }
}

/// `bytes` in lower-case hexadecimal, two digits per byte.
pub fn to_hex(bytes: &[u8]) -> (r: String)
    ensures
        r@ == hex_lower(bytes@),
{
    let mut out = String::new();
    let mut i: usize = 0;
    while i < bytes.len()
        invariant
            i <= bytes@.len(),
            out@ == hex_lower(bytes@.take(i as int)),
        decreases bytes.len() - i,
    {
        let b = bytes[i];
        assert(bytes@.take(i + 1).drop_last() =~= bytes@.take(i as int));
        push_char(&mut out, hex_digit_char(b / 16));
        push_char(&mut out, hex_digit_char(b % 16));
        i = i + 1;
    }
    assert(bytes@.take(bytes@.len() as int) =~= bytes@);
    out
}

/// The SHA-256 checksum of `data` in lower-case hexadecimal.
pub fn sha256_hex(data: &[u8]) -> (r: String)
    ensures
        r@ == hex_lower(sha256_digest(data@)),
        is_sha256_hex(r@),
{
    let digest = sha256(data);
    proof {
        crate::laws::digest_hex_is_checksum(digest@);
    }
    to_hex(digest.as_slice())
}

/// Whether `s` is exactly 64 ASCII hexadecimal digits.
pub fn is_sha256_hex_str(s: &str) -> (r: bool)
    ensures
        r == is_sha256_hex(s@),
{
    let v = chars_of(s);
    if v.len() != 64 {
        return false;
    }
    let mut i: usize = 0;
    while i < v.len()
        invariant
            v@ == s@,
            i <= v.len(),
            forall|j: int| 0 <= j < i ==> #[trigger] is_ascii_hex_digit(v@[j]),
        decreases v.len() - i,
    {
        let c = v[i] as u32;
        if !((48 <= c && c <= 57) || (65 <= c && c <= 70) || (97 <= c && c <= 102)) {
            assert(!is_ascii_hex_digit(v@[i as int]));
            return false;
        }
        i = i + 1;
    }
    true
}

/// A published checksum, lower-cased, where that is a well-formed SHA-256
/// checksum.
pub fn checked_sha256(candidate: &str) -> (r: Option<String>)
    ensures
        opt_view(r) == checked_hash(candidate@),
{
    let lowered = lowercase_of(candidate);
    if is_sha256_hex_str(lowered.as_str()) {
        Some(lowered)
    } else {
        None
    }
}

/// The checksum that a `Launcher.jar.sha256` file served next to the jar
/// publishes: its first word, lower-cased, if that is a SHA-256 checksum.
pub fn remote_expected_hash(body: &str) -> (r: Option<String>)
    ensures
        opt_view(r) == listed_hash(body@),
{
    match first_word_of(body) {
        Some(w) => checked_sha256(w.as_str()),
        None => None,
    }
}

} // verus!
