//! Properties of the library as a whole, each proved over the spec functions
//! that the functions' own contracts use.

use vstd::prelude::*;

use crate::checksum::{hex_digit, hex_lower, is_sha256_hex, unicode_lowercase};
use crate::launcher::{cached_jar_usable, expected_hash_plan, launcher_url_setting, HashPlan};
use crate::prestart::{
    is_final, prestart_events, prestart_run, progress_after, step_after, step_events, steps_left, PrestartEvent,
    PrestartStep,
};
use crate::text::{
    ascii_case_eq, ascii_lower_code, is_ascii_hex_digit, is_white_space, keep_non_empty,
    list_entries, non_empty_setting, split_on, trim, trim_end, trim_start,
};

verus! {

/// `trim_start` leaves nothing or a non-whitespace first character, and is a
/// suffix of its argument.
proof fn lemma_trim_start_shape(s: Seq<char>)
    ensures
        trim_start(s).len() == 0 || !is_white_space(trim_start(s)[0]),
        trim_start(s).len() <= s.len(),
        trim_start(s) == s.subrange(s.len() - trim_start(s).len(), s.len() as int),
    decreases s.len(),
{
    if s.len() > 0 && is_white_space(s[0]) {
        lemma_trim_start_shape(s.drop_first());
        assert(s.drop_first().subrange(
            s.drop_first().len() - trim_start(s).len(),
            s.drop_first().len() as int,
        ) =~= s.subrange(s.len() - trim_start(s).len(), s.len() as int));
    } else {
        assert(s.subrange(0, s.len() as int) =~= s);
    }
}

/// `trim_end` leaves nothing or a non-whitespace last character, is a prefix
/// of its argument, and keeps a non-whitespace first character.
proof fn lemma_trim_end_shape(s: Seq<char>)
    ensures
        trim_end(s).len() == 0 || !is_white_space(trim_end(s).last()),
        trim_end(s).len() <= s.len(),
        trim_end(s) == s.subrange(0, trim_end(s).len() as int),
        (s.len() > 0 && !is_white_space(s[0])) ==> (trim_end(s).len() > 0 && trim_end(s)[0]
            == s[0]),
    decreases s.len(),
{
    if s.len() > 0 && is_white_space(s.last()) {
        lemma_trim_end_shape(s.drop_last());
        assert(s.drop_last().subrange(0, trim_end(s).len() as int) =~= s.subrange(
            0,
            trim_end(s).len() as int,
        ));
        if s.len() > 0 && !is_white_space(s[0]) {
            assert(s.drop_last().len() > 0);
            assert(s.drop_last()[0] == s[0]);
        }
    } else {
        assert(s.subrange(0, s.len() as int) =~= s);
    }
}

/// Trimming twice trims no more than trimming once.
pub proof fn trim_is_idempotent(s: Seq<char>)
    ensures
        trim(trim(s)) == trim(s),
{
    let t = trim_start(s);
    let u = trim_end(t);
    lemma_trim_start_shape(s);
    lemma_trim_end_shape(t);
    // u starts with a non-whitespace character, or is empty
    assert(trim_start(u) == u);
    lemma_trim_end_shape(u);
    assert(trim_end(u) == u);
}

/// What `trim` keeps of `s` is a piece of `s`.
proof fn lemma_trim_is_piece(s: Seq<char>)
    ensures
        exists|a: int, b: int| 0 <= a <= b <= s.len() && trim(s) == s.subrange(a, b),
{
    let t = trim_start(s);
    lemma_trim_start_shape(s);
    lemma_trim_end_shape(t);
    let a = s.len() - t.len();
    let b = a + trim_end(t).len();
    assert(trim(s) =~= s.subrange(a, b));
}

/// A character of what `trim` keeps of `s` is a character of `s`.
proof fn lemma_trim_chars(s: Seq<char>, c: char)
    requires
        trim(s).contains(c),
    ensures
        s.contains(c),
{
    lemma_trim_is_piece(s);
    let (a, b) = choose|a: int, b: int| 0 <= a <= b <= s.len() && trim(s) == s.subrange(a, b);
    let i = choose|i: int| 0 <= i < trim(s).len() && trim(s)[i] == c;
    assert(s[a + i] == c);
}

/// No piece of `split_on(s, sep)` holds `sep`.
pub(crate) proof fn lemma_split_on_pieces(s: Seq<char>, sep: char)
    ensures
        split_on(s, sep).len() >= 1,
        forall|i: int| 0 <= i < split_on(s, sep).len() ==> !(#[trigger] split_on(s, sep)[i]).contains(sep),
    decreases s.len(),
{
    if s.len() > 0 {
        let pre = split_on(s.drop_last(), sep);
        lemma_split_on_pieces(s.drop_last(), sep);
        if s.last() == sep {
            assert forall|i: int| 0 <= i < split_on(s, sep).len() implies !(#[trigger] split_on(
                s,
                sep,
            )[i]).contains(sep) by {
                if i < pre.len() {
                    assert(split_on(s, sep)[i] == pre[i]);
                } else {
                    assert(split_on(s, sep)[i] =~= Seq::<char>::empty());
                }
            }
        } else {
            let last = pre.last().push(s.last());
            assert forall|i: int| 0 <= i < split_on(s, sep).len() implies !(#[trigger] split_on(
                s,
                sep,
            )[i]).contains(sep) by {
                if i < pre.len() - 1 {
                    assert(split_on(s, sep)[i] == pre[i]);
                } else {
                    assert(split_on(s, sep)[i] == last);
                    assert(!pre[pre.len() - 1].contains(sep));
                    if last.contains(sep) {
                        let k = choose|k: int| 0 <= k < last.len() && last[k] == sep;
                        if k < pre.last().len() {
                            assert(pre.last()[k] == sep);
                        }
                    }
                }
            }
        }
    }
}

/// Each entry that `keep_non_empty` keeps is non-empty and is an entry of
/// its argument.
pub(crate) proof fn lemma_keep_non_empty(ps: Seq<Seq<char>>)
    ensures
        forall|i: int|
            0 <= i < keep_non_empty(ps).len() ==> (#[trigger] keep_non_empty(ps)[i]).len() > 0
                && exists|j: int| 0 <= j < ps.len() && keep_non_empty(ps)[i] == ps[j],
    decreases ps.len(),
{
    if ps.len() > 0 {
        lemma_keep_non_empty(ps.drop_last());
        let pre = keep_non_empty(ps.drop_last());
        assert forall|i: int| 0 <= i < keep_non_empty(ps).len() implies (#[trigger] keep_non_empty(
            ps,
        )[i]).len() > 0 && exists|j: int| 0 <= j < ps.len() && keep_non_empty(ps)[i] == ps[j] by {
            if i < pre.len() {
                assert(keep_non_empty(ps)[i] == pre[i]);
                let j = choose|j: int| 0 <= j < ps.drop_last().len() && pre[i] == ps.drop_last()[j];
                assert(ps[j] == ps.drop_last()[j]);
            } else {
                assert(keep_non_empty(ps)[i] == ps[ps.len() - 1]);
            }
        }
    }
}

/// Trimming a setting that `non_empty_setting` kept gives it back unchanged.
pub proof fn non_empty_setting_is_stable(value: Option<Seq<char>>)
    ensures
        non_empty_setting(non_empty_setting(value)) == non_empty_setting(value),
{
    if let Some(v) = value {
        trim_is_idempotent(v);
    }
}

/// The manifest URLs taken from a comma-separated setting are each non-blank,
/// already trimmed, and hold no comma.
pub proof fn config_url_entries_are_clean(setting: Seq<char>)
    ensures
        forall|i: int|
            0 <= i < list_entries(setting).len() ==> {
                &&& (#[trigger] list_entries(setting)[i]).len() > 0
                &&& trim(list_entries(setting)[i]) == list_entries(setting)[i]
                &&& !list_entries(setting)[i].contains(',')
            },
{
    let pieces = split_on(setting, ',');
    let trimmed = pieces.map_values(|p: Seq<char>| trim(p));
    lemma_split_on_pieces(setting, ',');
    lemma_keep_non_empty(trimmed);
    assert forall|i: int| 0 <= i < list_entries(setting).len() implies {
        &&& (#[trigger] list_entries(setting)[i]).len() > 0
        &&& trim(list_entries(setting)[i]) == list_entries(setting)[i]
        &&& !list_entries(setting)[i].contains(',')
    } by {
        let e = list_entries(setting)[i];
        let j = choose|j: int| 0 <= j < trimmed.len() && e == trimmed[j];
        assert(e == trim(pieces[j]));
        trim_is_idempotent(pieces[j]);
        assert(!pieces[j].contains(','));
        if e.contains(',') {
            lemma_trim_chars(pieces[j], ',');
        }
    }
}

/// The launcher URL of the manifest, when it is not blank, wins over the one
/// baked in at build time; with neither, the jar appended to the executable
/// is used (no download mode).
pub proof fn manifest_launcher_url_wins(manifest: Option<Seq<char>>, baked: Option<Seq<char>>)
    ensures
        non_empty_setting(manifest) is Some ==> launcher_url_setting(manifest, baked)
            == non_empty_setting(manifest),
        launcher_url_setting(manifest, baked) is None <==> (non_empty_setting(manifest) is None
            && non_empty_setting(baked) is None),
{
}

/// A checksum pinned at build time is the one a jar is held to, whatever the
/// manifest and the server say.
pub proof fn pinned_checksum_wins(
    pinned: Option<Seq<char>>,
    manifest_sha256: Option<Seq<char>>,
    url: Option<Seq<char>>,
)
    requires
        non_empty_setting(pinned) is Some,
    ensures
        expected_hash_plan(pinned, manifest_sha256, url) == HashPlan::Known(
            unicode_lowercase(non_empty_setting(pinned)->0),
        ),
{
}

/// With no checksum to compare against (offline, or none published) a cached
/// jar is started as it is; with one, a jar whose checksum differs is never
/// started.
pub proof fn cached_jar_checked_only_against_a_checksum(
    expected: Option<Seq<char>>,
    actual: Option<Seq<char>>,
)
    ensures
        cached_jar_usable(true, None, actual),
        !cached_jar_usable(false, expected, actual),
        (expected matches Some(e) && actual matches Some(a) && !ascii_case_eq(a, e))
            ==> !cached_jar_usable(true, expected, actual),
        expected is Some && actual is None ==> !cached_jar_usable(true, expected, actual),
{
}

/// Comparing checksums up to ASCII case is an equivalence.
pub proof fn ascii_case_eq_is_equivalence(a: Seq<char>, b: Seq<char>, c: Seq<char>)
    ensures
        ascii_case_eq(a, a),
        ascii_case_eq(a, b) ==> ascii_case_eq(b, a),
        ascii_case_eq(a, b) && ascii_case_eq(b, c) ==> ascii_case_eq(a, c),
{
    if ascii_case_eq(a, b) && ascii_case_eq(b, c) {
        assert forall|i: int| 0 <= i < a.len() implies #[trigger] ascii_lower_code(a[i])
            == ascii_lower_code(c[i]) by {
            assert(ascii_lower_code(a[i]) == ascii_lower_code(b[i]));
            assert(ascii_lower_code(b[i]) == ascii_lower_code(c[i]));
        }
    }
}

/// The hexadecimal form of `bytes` has two digits per byte, each an ASCII
/// hexadecimal digit.
pub(crate) proof fn lemma_hex_lower_shape(bytes: Seq<u8>)
    ensures
        hex_lower(bytes).len() == 2 * bytes.len(),
        forall|i: int| 0 <= i < hex_lower(bytes).len() ==> is_ascii_hex_digit(
            #[trigger] hex_lower(bytes)[i],
        ),
    decreases bytes.len(),
{
    if bytes.len() > 0 {
        lemma_hex_lower_shape(bytes.drop_last());
        let pre = hex_lower(bytes.drop_last());
        let hi = hex_digit((bytes.last() / 16) as nat);
        let lo = hex_digit((bytes.last() % 16) as nat);
        assert(is_ascii_hex_digit(hi));
        assert(is_ascii_hex_digit(lo));
        assert forall|i: int| 0 <= i < hex_lower(bytes).len() implies is_ascii_hex_digit(
            #[trigger] hex_lower(bytes)[i],
        ) by {
            if i < pre.len() {
                assert(hex_lower(bytes)[i] == pre[i]);
            } else if i == pre.len() {
                assert(hex_lower(bytes)[i] == hi);
            } else {
                assert(hex_lower(bytes)[i] == lo);
            }
        }
    }
}

/// The hexadecimal form of a 32-byte digest is a well-formed checksum, the
/// form in which checksums are expected.
pub proof fn digest_hex_is_checksum(digest: Seq<u8>)
    requires
        digest.len() == 32,
    ensures
        is_sha256_hex(hex_lower(digest)),
{
    lemma_hex_lower_shape(digest);
}

/// A download is written next to the cached jar, never onto it, so that an
/// interrupted transfer cannot replace a working launcher.
pub proof fn download_never_overwrites_cached_jar()
    ensures
        "Launcher.jar.part"@ != "Launcher.jar"@,
{
    reveal_strlit("Launcher.jar.part");
    reveal_strlit("Launcher.jar");
    assert("Launcher.jar.part"@.len() != "Launcher.jar"@.len());
}

/// The prestart sequence ends: each step brings it closer to `Finished` or
/// `Failed`, which it then stays in.
pub proof fn prestart_sequence_ends(step: PrestartStep, succeeded: bool)
    ensures
        !is_final(step) ==> steps_left(step_after(step, succeeded)) < steps_left(step),
        is_final(step) ==> step_after(step, succeeded) == step,
{
}

/// The sequence fails only when a step fails: a succeeding step never leads
/// to `Failed`, and a usable Java runtime skips the installation.
pub proof fn prestart_fails_only_on_failure(step: PrestartStep)
    ensures
        step != PrestartStep::Failed ==> step_after(step, true) != PrestartStep::Failed,
        step_after(PrestartStep::CheckJava, true) == PrestartStep::ProvideLauncherJar,
        step_after(PrestartStep::CheckJava, false) == PrestartStep::FetchRelease,
{
}

/// The event sequences that a completed run from `step` may produce.
pub open spec fn events_allowed_from(step: PrestartStep, events: Seq<PrestartEvent>) -> bool {
    let error = seq![PrestartEvent::Error];
    let done = seq![PrestartEvent::Done];
    let running_error = seq![PrestartEvent::Running, PrestartEvent::Error];
    let running_done = seq![PrestartEvent::Running, PrestartEvent::Done];
    match step {
        PrestartStep::Finished | PrestartStep::Failed => events.len() == 0,
        PrestartStep::ReportDone => events == done,
        PrestartStep::Relaunch => events == error || events == done,
        PrestartStep::ReportRunning => events == running_error || events == running_done,
        _ => events == error || events == running_error || events == running_done,
    }
}

proof fn lemma_prestart_events(step: PrestartStep, outcomes: Seq<bool>)
    requires
        is_final(prestart_run(step, outcomes)),
    ensures
        events_allowed_from(step, prestart_events(step, outcomes)),
    decreases outcomes.len(),
{
    if outcomes.len() == 0 || is_final(step) {
        assert(prestart_events(step, outcomes) =~= Seq::<PrestartEvent>::empty());
    } else {
        let ok = outcomes[0];
        let next = step_after(step, ok);
        let rest = outcomes.drop_first();
        lemma_prestart_events(next, rest);
        let own = step_events(step, ok);
        let later = prestart_events(next, rest);
        assert(prestart_events(step, outcomes) == own + later);
        if later.len() == 0 {
            assert(own + later =~= own);
        } else if later.len() == 1 {
            assert(own + later =~= own.push(later[0]));
        }
        if own.len() == 0 {
            assert(own + later =~= later);
        } else if step == PrestartStep::ReportRunning {
            assert(next == PrestartStep::Relaunch);
            assert(later == seq![PrestartEvent::Error] || later == seq![PrestartEvent::Done]);
            assert(own + seq![PrestartEvent::Error] =~= seq![PrestartEvent::Running, PrestartEvent::Error]);
            assert(own + seq![PrestartEvent::Done] =~= seq![PrestartEvent::Running, PrestartEvent::Done]);
        }
    }
}

/// What the window is told in a complete run of the prestart sequence is an
/// error, or that the launcher is starting and then an error, or that it is
/// starting and then that it started. "Running" comes right before the
/// launcher is started, "done" only after that succeeded, and nothing comes
/// after an error or after "done".
pub proof fn prestart_reports_in_order(outcomes: Seq<bool>)
    requires
        is_final(prestart_run(PrestartStep::CheckJava, outcomes)),
    ensures
        events_allowed_from(PrestartStep::CheckJava, prestart_events(PrestartStep::CheckJava, outcomes)),
        forall|ok: bool| step_after(PrestartStep::ReportRunning, ok) == PrestartStep::Relaunch,
        forall|s: PrestartStep, ok: bool|
            #[trigger] step_after(s, ok) == PrestartStep::ReportDone ==> s == PrestartStep::Relaunch
                && ok,
        forall|ok: bool|
            #![trigger step_events(PrestartStep::Failed, ok)]
            step_events(PrestartStep::Failed, ok).len() == 0 && step_events(
                PrestartStep::Finished,
                ok,
            ).len() == 0,
{
    lemma_prestart_events(PrestartStep::CheckJava, outcomes);
}

/// Two progress callbacks at most 300 ms apart send at most one event
/// between them, whatever was sent before: the second callback starts from
/// the time of the last event that the first one leaves.
pub proof fn progress_cooldown(t1: u64, t2: u64, last: u64)
    requires
        t1 <= t2 <= t1 + 300,
    ensures
        !(progress_after(t1, last).0 && progress_after(t2, progress_after(t1, last).1).0),
{
}

/// A progress event is sent exactly when more than 300 ms passed since the
/// last one, and the time of the last one then becomes now; otherwise it is
/// kept.
pub proof fn progress_is_sent_after_the_cooldown(now: u64, last: u64)
    ensures
        now > last + 300 ==> progress_after(now, last) == (true, now),
        now <= last + 300 ==> progress_after(now, last) == (false, last),
{
}

/// Any step other than the Java check and the two reports stops the
/// sequence when it fails.
pub proof fn failed_step_stops_the_sequence(step: PrestartStep)
    requires
        step != PrestartStep::CheckJava,
        step != PrestartStep::ReportRunning,
        step != PrestartStep::ReportDone,
        step != PrestartStep::Finished,
    ensures
        step_after(step, false) == PrestartStep::Failed,
{
}

/// The steps taken, in order, from `step` with the outcomes of their
/// actions, up to the end of the sequence.
pub open spec fn prestart_trace(step: PrestartStep, outcomes: Seq<bool>) -> Seq<PrestartStep>
    decreases outcomes.len(),
{
    if outcomes.len() == 0 || is_final(step) {
        seq![step]
    } else {
        seq![step] + prestart_trace(step_after(step, outcomes[0]), outcomes.drop_first())
    }
}

/// Without a usable Java runtime, every installation step is taken once, in
/// order, before the launcher is provided, reported and started; with one,
/// the installation is skipped.
pub proof fn prestart_takes_every_step_in_order(rest: Seq<bool>)
    requires
        rest.len() == 12,
        forall|i: int| 0 <= i < rest.len() ==> #[trigger] rest[i],
    ensures
        prestart_trace(PrestartStep::CheckJava, seq![false] + rest) == seq![
            PrestartStep::CheckJava,
            PrestartStep::FetchRelease,
            PrestartStep::LocateStore,
            PrestartStep::CreateStore,
            PrestartStep::SaveVersion,
            PrestartStep::DownloadJava,
            PrestartStep::ExtractJava,
            PrestartStep::RemoveArchive,
            PrestartStep::MarkExtracted,
            PrestartStep::ProvideLauncherJar,
            PrestartStep::ReportRunning,
            PrestartStep::Relaunch,
            PrestartStep::ReportDone,
            PrestartStep::Finished,
        ],
        prestart_trace(PrestartStep::CheckJava, seq![true] + rest.take(4)) == seq![
            PrestartStep::CheckJava,
            PrestartStep::ProvideLauncherJar,
            PrestartStep::ReportRunning,
            PrestartStep::Relaunch,
            PrestartStep::ReportDone,
            PrestartStep::Finished,
        ],
{
    reveal_with_fuel(prestart_trace, 15);
    let o = seq![false] + rest;
    assert(o.drop_first() =~= rest);
    assert(rest[0] && rest[1] && rest[2] && rest[3] && rest[4] && rest[5] && rest[6] && rest[7]
        && rest[8] && rest[9] && rest[10] && rest[11]);
    assert(rest.drop_first().drop_first() =~= rest.skip(2));
    let t = seq![true] + rest.take(4);
    assert(t.drop_first() =~= rest.take(4));
}

} // verus!
