//! Properties of providing the launcher jar, proved over `jar_next` and
//! `jar_run`.

use vstd::prelude::*;

use crate::jar::{jar_done, jar_next, jar_run, JarEvent, JarFailure, JarStage};
use crate::launcher::{cached_jar_usable, JarError};
use crate::text::{ascii_case_eq, opt_view};

verus! {

/// `stage` is one of those that carry the expected checksum `e`: checking
/// the cached jar, downloading, or checking the download.
pub open spec fn carries_checksum(stage: JarStage, e: Seq<char>) -> bool {
    match stage {
        JarStage::HashCached { expected } => expected@ == e,
        JarStage::Download { checksum: Some(x) } => x@ == e,
        JarStage::HashDownload { expected } => expected@ == e,
        _ => false,
    }
}

/// A finished stage stays as it is, whatever events follow.
pub proof fn jar_end_is_final(stage: JarStage, events: Seq<JarEvent>)
    requires
        jar_done(stage),
    ensures
        jar_run(stage, events) == stage,
    decreases events.len(),
{
    if events.len() > 0 {
        jar_end_is_final(jar_next(stage, events[0]), events.drop_first());
    }
}

/// Running through the first `i + 1` events is one step, then the next `i`.
proof fn lemma_run_prefix(stage: JarStage, events: Seq<JarEvent>, i: int)
    requires
        0 <= i < events.len(),
    ensures
        jar_run(stage, events.take(i + 1)) == jar_run(
            jar_next(stage, events[0]),
            events.drop_first().take(i),
        ),
{
    assert(events.take(i + 1)[0] == events[0]);
    assert(events.take(i + 1).drop_first() =~= events.drop_first().take(i));
}

/// A rejected download never ends installed.
proof fn lemma_discard_never_installs(stage: JarStage, events: Seq<JarEvent>)
    requires
        stage is Discard || jar_done(stage),
        !(stage is Installed),
    ensures
        !(jar_run(stage, events) is Installed),
    decreases events.len(),
{
    if events.len() > 0 {
        lemma_discard_never_installs(jar_next(stage, events[0]), events.drop_first());
    }
}

/// `event` is a checksum matching `e` up to ASCII case.
pub open spec fn hashed_matching(event: JarEvent, e: Seq<char>) -> bool {
    match event {
        JarEvent::Hashed(a) => ascii_case_eq(a@, e),
        _ => false,
    }
}

/// At `stage` the download is checked against `e`, and `event` matches it.
pub open spec fn download_checked(stage: JarStage, event: JarEvent, e: Seq<char>) -> bool {
    stage is HashDownload && carries_checksum(stage, e) && hashed_matching(event, e)
}

/// The step from `stage` on `event` may use the cached jar: no checksum is
/// available and the cached jar exists, or its checksum matches.
pub open spec fn cache_use_justified(stage: JarStage, event: JarEvent) -> bool {
    ||| (stage is Prepare && event matches JarEvent::Prepared { expected: None, cached_exists: true })
    ||| (match stage {
        JarStage::HashCached { expected } => hashed_matching(event, expected@),
        _ => false,
    })
}

/// The step from `stage` on `event` may put the downloaded jar in place: the
/// download succeeded with no checksum expected, or its checksum matched.
pub open spec fn install_justified(stage: JarStage, event: JarEvent) -> bool {
    ||| (stage matches JarStage::Download { checksum: None } && event is Done)
    ||| (match stage {
        JarStage::HashDownload { expected } => hashed_matching(event, expected@),
        _ => false,
    })
}

/// Once a checksum `e` is expected, the jar is installed only after a
/// download whose checksum matches `e` up to ASCII case was checked: at some
/// point the stage is `HashDownload` for `e` and the event is a matching
/// checksum.
pub proof fn installed_only_after_matching_download(
    stage: JarStage,
    e: Seq<char>,
    events: Seq<JarEvent>,
)
    requires
        carries_checksum(stage, e),
        jar_run(stage, events) is Installed,
    ensures
        exists|i: int|
            0 <= i < events.len() && #[trigger] download_checked(
                jar_run(stage, events.take(i)),
                events[i],
                e,
            ),
    decreases events.len(),
{
    assert(events.len() > 0);
    let s1 = jar_next(stage, events[0]);
    let rest = events.drop_first();
    assert(jar_run(stage, events) == jar_run(s1, rest));
    assert(events.take(0) =~= Seq::<JarEvent>::empty());
    if s1 is Install {
        // only a checked download leads here
        assert(stage is HashDownload);
        assert(jar_run(stage, events.take(0)) == stage);
        assert(download_checked(jar_run(stage, events.take(0)), events[0], e));
    } else if carries_checksum(s1, e) {
        installed_only_after_matching_download(s1, e, rest);
        let i = choose|i: int|
            0 <= i < rest.len() && #[trigger] download_checked(jar_run(s1, rest.take(i)), rest[i], e);
        lemma_run_prefix(stage, events, i);
        assert(events[i + 1] == rest[i]);
        assert(download_checked(jar_run(stage, events.take(i + 1)), events[i + 1], e));
    } else {
        // the run went to a finished stage or to discarding the download
        assert(s1 is Discard || jar_done(s1));
        lemma_discard_never_installs(s1, rest);
    }
}

/// Each step on its own: the cached jar is used only when no checksum is
/// available or its checksum matches; the new jar is put in place only after
/// its download succeeded and, if a checksum is expected, matched it; a
/// failed download or a wrong checksum ends without touching the cached jar.
pub proof fn jar_steps_keep_a_working_launcher(stage: JarStage, event: JarEvent)
    ensures
        (jar_next(stage, event) is UseCached && !jar_done(stage)) ==> cache_use_justified(
            stage,
            event,
        ),
        (jar_next(stage, event) is Install && !(stage is Install)) ==> install_justified(
            stage,
            event,
        ),
        (jar_next(stage, event) is Installed && !jar_done(stage)) ==> (stage is Install
            && event is Done),
        (stage is Download && event is Io) ==> (jar_next(stage, event) is Failed),
        (stage is HashDownload && event is Hashed && !install_justified(stage, event)) ==> (jar_next(
            stage,
            event,
        ) is Discard),
        stage is Discard ==> !(jar_next(stage, event) is Install || jar_next(stage, event) is Installed
            || jar_next(stage, event) is UseCached),
{
}

/// A checksum found while preparing is the one every later check is held to.
pub proof fn expected_checksum_is_kept(expected: String, cached_exists: bool)
    ensures
        carries_checksum(
            jar_next(
                JarStage::Prepare,
                JarEvent::Prepared { expected: Some(expected), cached_exists },
            ),
            expected@,
        ),
{
}

/// Deciding on the cached jar goes the same way as `cached_jar_ready`: with
/// the same cached file, expected checksum and computed checksum, the cached
/// jar is used exactly when `cached_jar_ready` finds it ready, and otherwise
/// a download follows.
pub proof fn cache_decision_agrees_with_cached_jar_ready(
    expected: Option<String>,
    cached_exists: bool,
    actual: String,
)
    ensures
        ({
            let s1 = jar_next(JarStage::Prepare, JarEvent::Prepared { expected, cached_exists });
            let s2 = if cached_exists && expected is Some {
                jar_next(s1, JarEvent::Hashed(actual))
            } else {
                s1
            };
            &&& (s2 is UseCached) == cached_jar_usable(cached_exists, opt_view(expected), Some(actual@))
            &&& !(s2 is UseCached) ==> s2 is Download
        }),
{
}

/// A failed file or network operation ends providing the jar with that
/// failure, at every stage that has not ended; in particular a failed
/// rename of the download into place is reported.
pub proof fn io_failure_ends_every_unfinished_stage(stage: JarStage, m: String)
    requires
        !jar_done(stage),
    ensures
        jar_next(stage, JarEvent::Io(m)) == (JarStage::Failed { failure: JarFailure::Io(m) }),
{
}

/// A cached jar whose checksum matches the expected one up to ASCII case,
/// exactly equal included, is started as it is; one whose checksum differs
/// is downloaded again.
pub proof fn matching_cached_jar_is_used(expected: String, actual: String)
    ensures
        ascii_case_eq(actual@, expected@) ==> cached_jar_usable(
            true,
            Some(expected@),
            Some(actual@),
        ),
        cached_jar_usable(true, Some(expected@), Some(expected@)),
        ascii_case_eq(actual@, expected@) ==> jar_next(
            JarStage::HashCached { expected },
            JarEvent::Hashed(actual),
        ) is UseCached,
        jar_next(JarStage::HashCached { expected }, JarEvent::Hashed(expected)) is UseCached,
        !ascii_case_eq(actual@, expected@) ==> jar_next(
            JarStage::HashCached { expected },
            JarEvent::Hashed(actual),
        ) == (JarStage::Download { checksum: Some(expected) }),
        cached_jar_usable(true, None, None),
        forall|e: Seq<char>, a: Option<Seq<char>>| !cached_jar_usable(false, Some(e), a),
{
    crate::laws::ascii_case_eq_is_equivalence(expected@, expected@, expected@);
}

/// A downloaded jar whose checksum matches the expected one is put in
/// place; one whose checksum differs is discarded, and the error names both
/// checksums.
pub proof fn matching_download_is_installed(expected: String, actual: String)
    ensures
        ascii_case_eq(actual@, expected@) ==> jar_next(
            JarStage::HashDownload { expected },
            JarEvent::Hashed(actual),
        ) is Install,
        jar_next(JarStage::HashDownload { expected }, JarEvent::Hashed(expected)) is Install,
        !ascii_case_eq(actual@, expected@) ==> jar_next(
            JarStage::HashDownload { expected },
            JarEvent::Hashed(actual),
        ) == (JarStage::Discard {
            error: JarError::ChecksumMismatch { expected, actual },
        }),
{
    crate::laws::ascii_case_eq_is_equivalence(expected@, expected@, expected@);
}

/// Each stage goes where its action's success leads: a configured URL leads
/// to preparing and a missing one fails; a missing cached jar is downloaded,
/// a present one is used when no checksum is available and checked
/// otherwise; a finished download is checked when a checksum is expected and
/// put in place otherwise; putting it in place installs it; a discarded
/// download ends in its rejection.
pub proof fn jar_stages_follow_their_results(
    expected: Option<String>,
    checksum: String,
    error: JarError,
)
    ensures
        jar_next(JarStage::CheckUrl, JarEvent::UrlChecked(true)) is Prepare,
        jar_next(JarStage::CheckUrl, JarEvent::UrlChecked(false)) == (JarStage::Failed {
            failure: JarFailure::Rejected(JarError::UrlNotConfigured),
        }),
        jar_next(JarStage::Prepare, JarEvent::Prepared { expected, cached_exists: false })
            == (JarStage::Download { checksum: expected }),
        jar_next(JarStage::Prepare, JarEvent::Prepared { expected: None, cached_exists: true })
            is UseCached,
        jar_next(
            JarStage::Prepare,
            JarEvent::Prepared { expected: Some(checksum), cached_exists: true },
        ) == (JarStage::HashCached { expected: checksum }),
        jar_next(JarStage::Download { checksum: Some(checksum) }, JarEvent::Done) == (
        JarStage::HashDownload { expected: checksum }),
        jar_next(JarStage::Download { checksum: None }, JarEvent::Done) is Install,
        jar_next(JarStage::Install, JarEvent::Done) is Installed,
        jar_next(JarStage::Discard { error }, JarEvent::Done) == (JarStage::Failed {
            failure: JarFailure::Rejected(error),
        }),
{
}

} // verus!
