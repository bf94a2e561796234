//! What the formatting and parsing spec functions compute, stated
//! independently of their definitions: splitting can be undone by joining,
//! decimal and hexadecimal text reads back as the number or bytes it was
//! made from, and the checksum rules say which values are kept.

use vstd::prelude::*;

use crate::checksum::{checked_hash, hex_digit, hex_lower, is_sha256_hex, unicode_lowercase};
use crate::launcher::{expected_hash_plan, launcher_url_setting, HashPlan};
use crate::laws::{lemma_hex_lower_shape, lemma_split_on_pieces};
use crate::prestart::jre_dir_name;
use crate::text::{
    ascii_case_eq, ascii_lower_code, decimal, digit_char, is_ascii_hex_digit, keep_non_empty,
    list_entries, non_empty_setting, split_on, strings_view, trim,
};

verus! {

/// `pieces` joined, with `sep` between each two.
pub open spec fn join_pieces(pieces: Seq<Seq<char>>, sep: char) -> Seq<char>
    decreases pieces.len(),
{
    if pieces.len() == 0 {
        Seq::empty()
    } else if pieces.len() == 1 {
        pieces[0]
    } else {
        join_pieces(pieces.drop_last(), sep) + seq![sep] + pieces.last()
    }
}

/// Appending to the last piece appends to the joined text.
proof fn lemma_join_extend_last(ps: Seq<Seq<char>>, sep: char, c: char)
    requires
        ps.len() >= 1,
    ensures
        join_pieces(ps.update(ps.len() - 1, ps.last().push(c)), sep) == join_pieces(ps, sep).push(c),
{
    let upd = ps.update(ps.len() - 1, ps.last().push(c));
    if ps.len() == 1 {
        assert(upd[0] == ps[0].push(c));
    } else {
        assert(upd.drop_last() =~= ps.drop_last());
        assert(upd.last() == ps.last().push(c));
        assert(join_pieces(upd, sep) == join_pieces(ps.drop_last(), sep) + seq![sep] + ps.last().push(c));
        assert(join_pieces(ps.drop_last(), sep) + seq![sep] + ps.last().push(c) =~= (join_pieces(
            ps.drop_last(),
            sep,
        ) + seq![sep] + ps.last()).push(c));
    }
}

/// Splitting on `sep` cuts `s` at each occurrence of `sep` and nowhere else:
/// the pieces hold no `sep`, and joined with `sep` they give `s` back.
pub proof fn split_pieces_join_back(s: Seq<char>, sep: char)
    ensures
        join_pieces(split_on(s, sep), sep) == s,
        split_on(s, sep).len() >= 1,
        forall|i: int| 0 <= i < split_on(s, sep).len() ==> !(#[trigger] split_on(s, sep)[i]).contains(sep),
    decreases s.len(),
{
    lemma_split_on_pieces(s, sep);
    if s.len() == 0 {
        assert(join_pieces(split_on(s, sep), sep) =~= s);
    } else {
        let pre = split_on(s.drop_last(), sep);
        split_pieces_join_back(s.drop_last(), sep);
        if s.last() == sep {
            let ps = pre.push(Seq::<char>::empty());
            assert(ps.drop_last() =~= pre);
            assert(join_pieces(ps, sep) == join_pieces(pre, sep) + seq![sep] + Seq::<char>::empty());
            assert(join_pieces(ps, sep) =~= s);
        } else {
            lemma_join_extend_last(pre, sep, s.last());
            assert(s.drop_last().push(s.last()) =~= s);
        }
    }
}

/// Leaving out the empty entries keeps all the others, in order: it is the
/// filter for non-empty entries.
pub proof fn keep_non_empty_is_a_filter(ps: Seq<Seq<char>>)
    ensures
        keep_non_empty(ps) == ps.filter(|p: Seq<char>| p.len() > 0),
    decreases ps.len(),
{
    reveal(Seq::filter);
    if ps.len() > 0 {
        keep_non_empty_is_a_filter(ps.drop_last());
    }
}

/// The number that decimal text stands for.
pub open spec fn decimal_value(s: Seq<char>) -> int
    decreases s.len(),
{
    if s.len() == 0 {
        0
    } else {
        decimal_value(s.drop_last()) * 10 + (s.last() as int - 48)
    }
}

/// The decimal text of `n` is made of the digits `0` to `9`, does not start
/// with `0` unless `n` is 0, and reads back as `n`.
pub proof fn decimal_reads_back(n: nat)
    ensures
        decimal(n).len() > 0,
        forall|i: int| 0 <= i < decimal(n).len() ==> '0' <= #[trigger] decimal(n)[i] <= '9',
        n > 0 ==> decimal(n)[0] != '0',
        decimal_value(decimal(n)) == n,
    decreases n,
{
    assert('0' as u32 == 48 && '9' as u32 == 57);
    if n < 10 {
        assert(decimal(n) == seq![digit_char(n)]);
        assert(decimal(n).drop_last() =~= Seq::<char>::empty());
        assert(digit_char(n) as int == 48 + n);
        assert(decimal_value(decimal(n)) == decimal_value(Seq::<char>::empty()) * 10 + (
        digit_char(n) as int - 48));
    } else {
        decimal_reads_back(n / 10);
        let d = decimal(n);
        let pre = decimal(n / 10);
        assert(d == pre.push(digit_char(n % 10)));
        assert(d.drop_last() =~= pre);
        assert forall|i: int| 0 <= i < d.len() implies '0' <= #[trigger] d[i] <= '9' by {
            if i < pre.len() {
                assert(d[i] == pre[i]);
            }
        }
        assert(d[0] == pre[0]);
        assert(digit_char(n % 10) as int == 48 + n % 10);
        assert(decimal_value(d) == decimal_value(pre) * 10 + (digit_char(n % 10) as int - 48));
        assert((n / 10) * 10 + n % 10 == n);
    }
}

/// The lower-case hexadecimal digits, in order of their values.
pub open spec fn hex_alphabet() -> Seq<char> {
    "0123456789abcdef"@
}

/// The digit of each value below 16 is its place in `0123456789abcdef`.
proof fn lemma_hex_digit_alphabet(d: nat)
    requires
        d < 16,
    ensures
        hex_digit(d) == hex_alphabet()[d as int],
{
    reveal_strlit("0123456789abcdef");
    assert(hex_alphabet() =~= seq![
        '0', '1', '2', '3', '4', '5', '6', '7', '8', '9', 'a', 'b', 'c', 'd', 'e', 'f',
    ]);
}

/// Byte `i` of `bytes` is written as digits `2i` and `2i + 1` of its
/// hexadecimal text: the digits of its high and low four bits, from
/// `0123456789abcdef`.
pub proof fn hex_text_spells_each_byte(bytes: Seq<u8>)
    ensures
        hex_lower(bytes).len() == 2 * bytes.len(),
        forall|i: int|
            0 <= i < bytes.len() ==> hex_lower(bytes)[2 * i] == hex_alphabet()[(#[trigger] bytes[i]
                / 16) as int] && hex_lower(bytes)[2 * i + 1] == hex_alphabet()[(bytes[i] % 16) as int],
    decreases bytes.len(),
{
    lemma_hex_lower_shape(bytes);
    if bytes.len() > 0 {
        let pre = bytes.drop_last();
        hex_text_spells_each_byte(pre);
        lemma_hex_lower_shape(pre);
        let b = bytes.last();
        lemma_hex_digit_alphabet((b / 16) as nat);
        lemma_hex_digit_alphabet((b % 16) as nat);
        assert forall|i: int| 0 <= i < bytes.len() implies hex_lower(bytes)[2 * i] == hex_alphabet()[(
        #[trigger] bytes[i] / 16) as int] && hex_lower(bytes)[2 * i + 1] == hex_alphabet()[(bytes[i]
            % 16) as int] by {
            if i < pre.len() {
                assert(bytes[i] == pre[i]);
                assert(hex_lower(bytes)[2 * i] == hex_lower(pre)[2 * i]);
                assert(hex_lower(bytes)[2 * i + 1] == hex_lower(pre)[2 * i + 1]);
            }
        }
    }
}

/// Text without ASCII capitals is equal up to ASCII case to exactly itself:
/// two lower-case checksums match only when they are the same.
pub proof fn ascii_case_eq_on_lower_case(a: Seq<char>, b: Seq<char>)
    requires
        forall|i: int| #![trigger a[i]] 0 <= i < a.len() ==> !(65 <= (a[i] as u32) <= 90),
        forall|i: int| #![trigger b[i]] 0 <= i < b.len() ==> !(65 <= (b[i] as u32) <= 90),
    ensures
        ascii_case_eq(a, b) <==> a == b,
{
    if ascii_case_eq(a, b) {
        assert forall|i: int| 0 <= i < a.len() implies a[i] == b[i] by {
            assert(!(65 <= (a[i] as u32) <= 90));
            assert(!(65 <= (b[i] as u32) <= 90));
            assert(ascii_lower_code(a[i]) == ascii_lower_code(b[i]));
            lemma_lower_code_injective(a[i], b[i]);
        }
        assert(a =~= b);
    }
}

/// An upper-case and a lower-case checksum with the same digits match.
pub proof fn ascii_case_eq_ignores_case(a: Seq<char>, b: Seq<char>)
    requires
        a.len() == b.len(),
        forall|i: int|
            0 <= i < a.len() ==> (#[trigger] a[i] == b[i] || (65 <= (a[i] as u32) <= 90 && (b[i] as u32)
                == (a[i] as u32) + 32)),
    ensures
        ascii_case_eq(a, b),
{
}

/// A checksum in the form it is compared in: accepted exactly when its
/// lower-case form is 64 hexadecimal digits, and then that form.
pub proof fn checked_hash_is_the_lowered_well_formed_checksum(s: Seq<char>)
    ensures
        checked_hash(s) matches Some(h) ==> is_sha256_hex(h) && h == unicode_lowercase(s),
        checked_hash(s) is None <==> !is_sha256_hex(unicode_lowercase(s)),
        is_sha256_hex(unicode_lowercase(s)) ==> checked_hash(s) is Some,
{
}

/// A 64-digit checksum has only hexadecimal digits.
pub proof fn checksum_digits(h: Seq<char>)
    requires
        is_sha256_hex(h),
    ensures
        h.len() == 64,
        forall|i: int| 0 <= i < h.len() ==> #[trigger] hex_or_capital(h[i]),
{
    assert forall|i: int| 0 <= i < h.len() implies #[trigger] hex_or_capital(h[i]) by {
        assert(is_ascii_hex_digit(h[i]));
        lemma_hex_digit_range(h[i]);
    }
}

/// Two characters that are not ASCII capitals and have the same lower-case
/// code are the same.
proof fn lemma_lower_code_injective(c: char, e: char)
    requires
        !(65 <= (c as u32) <= 90),
        !(65 <= (e as u32) <= 90),
        ascii_lower_code(c) == ascii_lower_code(e),
    ensures
        c == e,
{
}

/// An ASCII hexadecimal digit lies in one of the three ranges.
proof fn lemma_hex_digit_range(c: char)
    requires
        is_ascii_hex_digit(c),
    ensures
        hex_or_capital(c),
{
}

/// `c` is one of `0`-`9`, `a`-`f` or `A`-`F`.
pub open spec fn hex_or_capital(c: char) -> bool {
    ('0' <= c <= '9') || ('a' <= c <= 'f') || ('A' <= c <= 'F')
}

/// Where the checksum of the jar comes from, in order of precedence: the
/// pin; else a well-formed manifest checksum; else the server's checksum
/// file next to the jar; else none. A checksum known without asking the
/// server is the pin lower-cased, or a well-formed checksum.
pub proof fn checksum_source_precedence(
    pinned: Option<Seq<char>>,
    manifest_sha256: Option<Seq<char>>,
    url: Option<Seq<char>>,
)
    ensures
        non_empty_setting(pinned) is Some ==> expected_hash_plan(pinned, manifest_sha256, url)
            == HashPlan::Known(unicode_lowercase(non_empty_setting(pinned)->0)),
        (non_empty_setting(pinned) is None && manifest_sha256 is Some && checked_hash(
            trim(manifest_sha256->0),
        ) is Some) ==> expected_hash_plan(pinned, manifest_sha256, url) == HashPlan::Known(
            checked_hash(trim(manifest_sha256->0))->0,
        ),
        (non_empty_setting(pinned) is None && non_empty_setting(pinned) is None && expected_hash_plan(
            pinned,
            manifest_sha256,
            url,
        ) is Known) ==> is_sha256_hex(expected_hash_plan(pinned, manifest_sha256, url)->Known_0),
        expected_hash_plan(pinned, manifest_sha256, url) is AskServer ==> (url is Some
            && non_empty_setting(pinned) is None && expected_hash_plan(pinned, manifest_sha256, url)->AskServer_0
            == url->0 + ".sha256"@),
        expected_hash_plan(pinned, manifest_sha256, url) is Unavailable <==> (non_empty_setting(
            pinned,
        ) is None && url is None && (manifest_sha256 is None || checked_hash(
            trim(manifest_sha256->0),
        ) is None)),
        (non_empty_setting(pinned) is None && url is Some && (manifest_sha256 is None
            || checked_hash(trim(manifest_sha256->0)) is None)) ==> expected_hash_plan(
            pinned,
            manifest_sha256,
            url,
        ) == HashPlan::AskServer(url->0 + ".sha256"@),
{
}

/// The manifest URLs of a setting are its comma-separated pieces, each
/// trimmed, with the blank ones left out, in order.
pub proof fn list_entries_are_the_trimmed_non_blank_pieces(s: Seq<char>)
    ensures
        list_entries(s) == split_on(s, ',').map_values(|p: Seq<char>| trim(p)).filter(
            |p: Seq<char>| p.len() > 0,
        ),
{
    keep_non_empty_is_a_filter(split_on(s, ',').map_values(|p: Seq<char>| trim(p)));
}

/// The directory of a Java runtime is named `JRE-` followed by its feature
/// version in decimal.
pub proof fn jre_dir_name_spells_the_version(v: u64)
    ensures
        jre_dir_name(v).take(4) == "JRE-"@,
        decimal_value(jre_dir_name(v).skip(4)) == v,
        jre_dir_name(v).len() > 4,
{
    reveal_strlit("JRE-");
    decimal_reads_back(v as nat);
    assert(jre_dir_name(v).take(4) =~= "JRE-"@);
    assert(jre_dir_name(v).skip(4) =~= decimal(v as nat));
}

/// The text views of a list of strings are the strings' views, one for one
/// and in order.
pub proof fn strings_view_is_elementwise(v: Seq<String>)
    ensures
        strings_view(v).len() == v.len(),
        forall|i: int| 0 <= i < v.len() ==> #[trigger] strings_view(v)[i] == v[i]@,
{
}

} // verus!
