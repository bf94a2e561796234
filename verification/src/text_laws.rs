//! What the text functions compute, stated over the characters of their
//! arguments: trimming removes exactly the outer whitespace, a word runs up
//! to the first whitespace character, and the launcher URL in effect is a
//! trimmed setting.

use vstd::prelude::*;

use crate::checksum::{checked_hash, is_sha256_hex, listed_hash};
use crate::launcher::launcher_url_setting;
use crate::runner::after_first;
use crate::text::{
    first_word, is_ascii_hex_digit, is_white_space, non_empty_setting, take_word, trim, trim_end,
    trim_start,
};

verus! {

/// `t` is what is left of `s` once the whitespace at both ends is removed:
/// a piece of `s` with only whitespace before and after it, which neither
/// starts nor ends with whitespace.
pub open spec fn is_trimmed_piece(t: Seq<char>, s: Seq<char>) -> bool {
    exists|a: int|
        0 <= a && a + t.len() <= s.len() && #[trigger] s.subrange(a, a + t.len()) == t && (forall|i: int|
            0 <= i < a ==> is_white_space(s[i])) && (forall|i: int|
            a + t.len() <= i < s.len() ==> is_white_space(s[i])) && (t.len() > 0 ==> (
        !is_white_space(t[0]) && !is_white_space(t.last())))
}

/// `w` is a word of `s` starting at `k`: it holds no whitespace, and it is
/// followed by whitespace or the end of `s`.
pub open spec fn word_at(s: Seq<char>, k: int, w: Seq<char>) -> bool {
    &&& 0 <= k
    &&& k + w.len() <= s.len()
    &&& s.subrange(k, k + w.len()) == w
    &&& forall|i: int| 0 <= i < w.len() ==> !is_white_space(#[trigger] w[i])
    &&& (k + w.len() == s.len() || is_white_space(s[k + w.len()]))
}

/// The ASCII whitespace characters are tab, line feed, vertical tab, form
/// feed, carriage return and space; no hexadecimal digit is whitespace.
pub proof fn ascii_white_space(c: char)
    ensures
        (c as u32) < 128 ==> (is_white_space(c) <==> (c == '\t' || c == '\n' || c == '\u{b}' || c
            == '\u{c}' || c == '\r' || c == ' ')),
        is_white_space(c) ==> !is_ascii_hex_digit(c),
{
    assert('\t' as u32 == 9 && '\n' as u32 == 10 && '\u{b}' as u32 == 11 && '\u{c}' as u32 == 12
        && '\r' as u32 == 13 && ' ' as u32 == 32);
    if (c as u32) < 128 && is_white_space(c) {
        assert(9 <= c as u32 <= 13 || c as u32 == 32);
        if c as u32 == 9 {
            assert(c == '\t');
        } else if c as u32 == 10 {
            assert(c == '\n');
        } else if c as u32 == 11 {
            assert(c == '\u{b}');
        } else if c as u32 == 12 {
            assert(c == '\u{c}');
        } else if c as u32 == 13 {
            assert(c == '\r');
        } else {
            assert(c == ' ');
        }
    }
}

/// What `trim_start` removes is whitespace, and what it keeps is the rest.
proof fn lemma_trim_start_removed(s: Seq<char>)
    ensures
        trim_start(s).len() <= s.len(),
        trim_start(s) == s.subrange(s.len() - trim_start(s).len(), s.len() as int),
        forall|i: int| 0 <= i < s.len() - trim_start(s).len() ==> is_white_space(s[i]),
        trim_start(s).len() > 0 ==> !is_white_space(trim_start(s)[0]),
    decreases s.len(),
{
    if s.len() > 0 && is_white_space(s[0]) {
        let r = s.drop_first();
        lemma_trim_start_removed(r);
        assert(r.subrange(r.len() - trim_start(s).len(), r.len() as int) =~= s.subrange(
            s.len() - trim_start(s).len(),
            s.len() as int,
        ));
        assert forall|i: int| 0 <= i < s.len() - trim_start(s).len() implies is_white_space(s[i]) by {
            if i > 0 {
                assert(s[i] == r[i - 1]);
            }
        }
    } else {
        assert(s.subrange(0, s.len() as int) =~= s);
    }
}

/// What `trim_end` removes is whitespace, and what it keeps is the rest.
proof fn lemma_trim_end_removed(s: Seq<char>)
    ensures
        trim_end(s).len() <= s.len(),
        trim_end(s) == s.subrange(0, trim_end(s).len() as int),
        forall|i: int| trim_end(s).len() <= i < s.len() ==> is_white_space(s[i]),
        trim_end(s).len() > 0 ==> !is_white_space(trim_end(s).last()),
        (s.len() > 0 && !is_white_space(s[0])) ==> trim_end(s).len() > 0,
    decreases s.len(),
{
    if s.len() > 0 && is_white_space(s.last()) {
        let r = s.drop_last();
        lemma_trim_end_removed(r);
        assert(r.subrange(0, trim_end(s).len() as int) =~= s.subrange(0, trim_end(s).len() as int));
        assert forall|i: int| trim_end(s).len() <= i < s.len() implies is_white_space(s[i]) by {
            if i < s.len() - 1 {
                assert(s[i] == r[i]);
            }
        }
        if s.len() > 0 && !is_white_space(s[0]) {
            assert(r.len() > 0 && r[0] == s[0]);
        }
    } else {
        assert(s.subrange(0, s.len() as int) =~= s);
    }
}

/// Trimming removes exactly the whitespace at both ends of `s`: the result
/// is a piece of `s` with only whitespace around it, which neither starts
/// nor ends with whitespace (and is empty when `s` is all whitespace).
pub proof fn trim_removes_exactly_the_outer_white_space(s: Seq<char>)
    ensures
        is_trimmed_piece(trim(s), s),
        trim(s).len() == 0 <==> forall|i: int| 0 <= i < s.len() ==> is_white_space(s[i]),
{
    let t = trim_start(s);
    lemma_trim_start_removed(s);
    lemma_trim_end_removed(t);
    let a = s.len() - t.len();
    let u = trim_end(t);
    assert(u == trim(s));
    assert(s.subrange(a, a + u.len()) =~= u);
    assert forall|i: int| a + u.len() <= i < s.len() implies is_white_space(s[i]) by {
        assert(s[i] == t[i - a]);
    }
    if u.len() > 0 {
        assert(u[0] == t[0]);
    }
    if u.len() == 0 {
        assert forall|i: int| 0 <= i < s.len() implies is_white_space(s[i]) by {
            if i >= a {
                assert(s[i] == t[i - a]);
            }
        }
    } else {
        assert(!is_white_space(s[a]));
    }
    assert(is_trimmed_piece(trim(s), s));
}

/// A setting is kept exactly when it holds something besides whitespace, and
/// then with the whitespace at its ends removed.
pub proof fn non_empty_setting_is_the_trimmed_value(v: Seq<char>)
    ensures
        non_empty_setting(None) is None,
        non_empty_setting(Some(v)) is None <==> forall|i: int| 0 <= i < v.len() ==> is_white_space(v[i]),
        non_empty_setting(Some(v)) is Some ==> non_empty_setting(Some(v))->0.len() > 0
            && is_trimmed_piece(non_empty_setting(Some(v))->0, v),
{
    trim_removes_exactly_the_outer_white_space(v);
}

/// The launcher URL in effect is the trimmed manifest URL when that is not
/// blank, and otherwise the trimmed URL baked in at build time (or none):
/// it never carries whitespace at either end.
pub proof fn launcher_url_is_a_trimmed_setting(manifest: Option<Seq<char>>, baked: Option<Seq<char>>)
    ensures
        non_empty_setting(manifest) is None ==> launcher_url_setting(manifest, baked)
            == non_empty_setting(baked),
        non_empty_setting(manifest) is Some ==> launcher_url_setting(manifest, baked)
            == non_empty_setting(manifest),
        launcher_url_setting(manifest, baked) is Some ==> ({
            let u = launcher_url_setting(manifest, baked)->0;
            u.len() > 0 && !is_white_space(u[0]) && !is_white_space(u.last())
        }),
        (manifest is Some && launcher_url_setting(manifest, baked) == non_empty_setting(manifest)
            && non_empty_setting(manifest) is Some) ==> is_trimmed_piece(
            launcher_url_setting(manifest, baked)->0,
            manifest->0,
        ),
        (manifest is None && baked is Some && launcher_url_setting(manifest, baked) is Some)
            ==> is_trimmed_piece(launcher_url_setting(manifest, baked)->0, baked->0),
{
    if let Some(m) = manifest {
        non_empty_setting_is_the_trimmed_value(m);
    }
    if let Some(b) = baked {
        non_empty_setting_is_the_trimmed_value(b);
    }
}

/// `take_word` takes the characters of `s` up to its first whitespace
/// character (all of `s` when it has none).
pub proof fn take_word_stops_at_white_space(s: Seq<char>)
    ensures
        take_word(s).len() <= s.len(),
        take_word(s) == s.take(take_word(s).len() as int),
        forall|i: int| 0 <= i < take_word(s).len() ==> !is_white_space(#[trigger] take_word(s)[i]),
        take_word(s).len() < s.len() ==> is_white_space(s[take_word(s).len() as int]),
    decreases s.len(),
{
    if s.len() > 0 && !is_white_space(s[0]) {
        let r = s.drop_first();
        take_word_stops_at_white_space(r);
        let w = take_word(s);
        assert(w =~= seq![s[0]] + take_word(r));
        assert(w =~= s.take(w.len() as int));
        assert forall|i: int| 0 <= i < w.len() implies !is_white_space(#[trigger] w[i]) by {
            if i > 0 {
                assert(w[i] == take_word(r)[i - 1]);
            }
        }
        if w.len() < s.len() {
            assert(s[w.len() as int] == r[take_word(r).len() as int]);
        }
    } else {
        assert(s.take(0) =~= Seq::<char>::empty());
    }
}

/// The first word of `s` is there exactly when `s` is not all whitespace;
/// it starts after the leading whitespace and runs up to the next whitespace
/// character or the end.
pub proof fn first_word_is_the_first_run_without_white_space(s: Seq<char>)
    ensures
        first_word(s) is None <==> forall|i: int| 0 <= i < s.len() ==> is_white_space(s[i]),
        first_word(s) is Some ==> first_word(s)->0.len() > 0 && exists|k: int|
            #[trigger] word_at(s, k, first_word(s)->0) && forall|i: int|
                0 <= i < k ==> is_white_space(s[i]),
{
    let t = trim_start(s);
    lemma_trim_start_removed(s);
    let k = s.len() - t.len();
    if t.len() == 0 {
        assert(first_word(s) is None);
    } else {
        let w = take_word(t);
        take_word_stops_at_white_space(t);
        assert(!is_white_space(t[0]));
        assert(w.len() > 0) by {
            assert(take_word(t) =~= seq![t[0]] + take_word(t.drop_first()));
        }
        assert(s.subrange(k, k + w.len()) =~= w);
        if k + w.len() < s.len() {
            assert(s[k + w.len()] == t[w.len() as int]);
        }
        assert(word_at(s, k, w));
        assert(!is_white_space(s[k]));
    }
}

/// A checksum file whose first line is a word followed by any whitespace
/// (a space, a tab, or a Windows or Unix line end) publishes that word,
/// checked as `checked_hash` does.
pub proof fn checksum_file_publishes_its_first_word(
    w: Seq<char>,
    c: char,
    rest: Seq<char>,
)
    requires
        w.len() > 0,
        forall|i: int| 0 <= i < w.len() ==> !is_white_space(#[trigger] w[i]),
        is_white_space(c),
    ensures
        first_word(w + seq![c] + rest) == Some(w),
        listed_hash(w + seq![c] + rest) == checked_hash(w),
{
    let s = w + seq![c] + rest;
    assert(s[0] == w[0]);
    assert(trim_start(s) == s);
    take_word_stops_at_white_space(s);
    let t = take_word(s);
    assert forall|i: int| 0 <= i < w.len() implies s[i] == w[i] by {}
    assert(s[w.len() as int] == c);
    // the word cannot stop before the end of `w`, nor run past it
    if t.len() < w.len() {
        assert(is_white_space(s[t.len() as int]));
        assert(s[t.len() as int] == w[t.len() as int]);
    }
    if t.len() > w.len() {
        assert(t[w.len() as int] == s[w.len() as int]);
    }
    assert(t.len() == w.len());
    assert(t =~= w);
}

/// Every argument after the program's own name is passed on, in order.
pub proof fn forwarded_args_are_all_after_the_first(args: Seq<Seq<char>>)
    ensures
        args.len() == 0 ==> after_first(args).len() == 0,
        args.len() > 0 ==> after_first(args).len() == args.len() - 1,
        forall|i: int| 0 <= i < args.len() - 1 ==> #[trigger] after_first(args)[i] == args[i + 1],
{
}

/// A well-formed checksum holds no whitespace, so a checksum file written
/// by `sha256sum` (checksum, spaces, file name, line end) publishes it.
pub proof fn checksum_has_no_white_space(h: Seq<char>)
    requires
        is_sha256_hex(h),
    ensures
        forall|i: int| 0 <= i < h.len() ==> !is_white_space(#[trigger] h[i]),
{
    assert forall|i: int| 0 <= i < h.len() implies !is_white_space(#[trigger] h[i]) by {
        ascii_white_space(h[i]);
    }
}

} // verus!
