//! The prestart sequence: is Java installed, where its files go, which
//! archive format to unpack, which launcher jar to start, and in what order
//! the steps run.

use vstd::prelude::*;

use crate::path::LocalPath;
use crate::text::{decimal, decimal_string, same_text};

verus! {

/// The name of the directory of a Java runtime of the given feature version.
pub open spec fn jre_dir_name(feature_version: u64) -> Seq<char> {
    "JRE-"@ + decimal(feature_version as nat)
}

/// The directory that the Java runtime of the given feature version is
/// unpacked into.
pub fn jre_dir(target_dir: &str, feature_version: u64) -> (r: LocalPath)
    ensures
        r.is(target_dir@, seq![jre_dir_name(feature_version)]),
{
    let mut name = "JRE-".to_owned();
    name.append(decimal_string(feature_version).as_str());
    let r = LocalPath::new(target_dir).join(name.as_str());
    assert(Seq::<Seq<char>>::empty().push(name@) =~= seq![jre_dir_name(feature_version)]);
    r
}

/// The file whose presence says that the runtime in `java_dir` was unpacked
/// completely.
pub fn extracted_mark(java_dir: &LocalPath) -> (r: LocalPath)
    ensures
        r.is(java_dir.base@, java_dir.parts_view().push("success-extracted-mark"@)),
{
    java_dir.join("success-extracted-mark")
}

/// Where the downloaded Java archive named `filename` is stored.
pub fn archive_path(target_dir: &str, filename: &str) -> (r: LocalPath)
    ensures
        r.is(target_dir@, seq![filename@]),
{
    let r = LocalPath::new(target_dir).join(filename);
    assert(Seq::<Seq<char>>::empty().push(filename@) =~= seq![filename@]);
    r
}

/// The format of a Java archive.
#[derive(Clone, Copy, Debug, PartialEq, Eq)]
pub enum ArchiveKind {
    TarGz,
    Zip,
}

/// The format of a Java archive of the given package type: `tar.gz` archives
/// are gzip-compressed tarballs, every other one is unpacked as a zip.
pub fn archive_kind(package_type: &str) -> (r: ArchiveKind)
    ensures
        r == (if package_type@ == "tar.gz"@ {
            ArchiveKind::TarGz
        } else {
            ArchiveKind::Zip
        }),
{
    if same_text(package_type, "tar.gz") {
        ArchiveKind::TarGz
    } else {
        ArchiveKind::Zip
    }
}

/// The installed Java runtime, if it can be used as it is: its version is
/// recorded (`feature_version`), it is not outdated, and it was unpacked
/// completely (`mark_exists`, for the mark in its directory).
pub fn check_java_ready(
    target_dir: &str,
    feature_version: Option<u64>,
    outdated: bool,
    mark_exists: bool,
) -> (r: Option<LocalPath>)
    ensures
        r is Some == (feature_version is Some && !outdated && mark_exists),
        r matches Some(p) ==> p.is(target_dir@, seq![jre_dir_name(feature_version->0)]),
{
    match feature_version {
        Some(v) => {
            if outdated || !mark_exists {
                None
            } else {
                Some(jre_dir(target_dir, v))
            }
        },
        None => None,
    }
}

/// The launcher jar to start without showing any window: in download mode
/// the cached jar if it is ready, otherwise this executable, which carries
/// the jar appended to it.
pub fn ready_launcher_jar<P>(download_mode: bool, cached_jar: Option<P>, self_exe: Option<P>) -> (r:
    Option<P>)
    ensures
        r == (if download_mode {
            cached_jar
        } else {
            self_exe
        }),
{
    if download_mode {
        cached_jar
    } else {
        self_exe
    }
}

/// Where the launcher jar comes from.
#[derive(Clone, Copy, Debug, PartialEq, Eq)]
pub enum LauncherJarSource {
    /// Downloaded from the server (and cached).
    Downloaded,
    /// This executable, which carries the jar appended to it.
    ThisExecutable,
}

/// Where the launcher jar comes from: downloaded in download mode, this
/// executable otherwise.
pub fn launcher_jar_source(download_mode: bool) -> (r: LauncherJarSource)
    ensures
        r == (if download_mode {
            LauncherJarSource::Downloaded
        } else {
            LauncherJarSource::ThisExecutable
        }),
{
    if download_mode {
        LauncherJarSource::Downloaded
    } else {
        LauncherJarSource::ThisExecutable
    }
}

/// Whether a progress event is sent at `now_ms`, the last one having been
/// sent at `last_ms`: at most one every 300 ms.
pub fn should_emit_progress(now_ms: u64, last_ms: u64) -> (r: bool)
    ensures
        r == (now_ms > last_ms + 300),
{
    now_ms > last_ms && now_ms - last_ms > 300
}

/// A progress callback at `now_ms`, the last event having been sent at
/// `last_ms`: whether an event is sent now (more than 300 ms later), and when
/// the last one was sent afterwards.
pub open spec fn progress_after(now_ms: u64, last_ms: u64) -> (bool, u64) {
    if now_ms > last_ms + 300 {
        (true, now_ms)
    } else {
        (false, last_ms)
    }
}

/// A progress callback at `now_ms`, the last event having been sent at
/// `last_ms`: whether to send an event, and the new time of the last one.
pub fn progress_tick(now_ms: u64, last_ms: u64) -> (r: (bool, u64))
    ensures
        r == progress_after(now_ms, last_ms),
{
    if should_emit_progress(now_ms, last_ms) {
        (true, now_ms)
    } else {
        (false, last_ms)
    }
}

/// The steps of the prestart sequence that runs behind the progress window.
#[derive(Clone, Copy, Debug, PartialEq, Eq)]
pub enum PrestartStep {
    /// Is an up to date Java runtime installed?
    CheckJava,
    /// Ask the server for the latest Java release.
    FetchRelease,
    /// Find the directory that everything is stored in.
    LocateStore,
    /// Create that directory.
    CreateStore,
    /// Record the version being installed.
    SaveVersion,
    /// Download the Java archive.
    DownloadJava,
    /// Unpack it into its runtime directory.
    ExtractJava,
    /// Delete the archive.
    RemoveArchive,
    /// Mark the runtime as completely unpacked.
    MarkExtracted,
    /// Provide the launcher jar: downloaded, or this executable.
    ProvideLauncherJar,
    /// Tell the window that the launcher is being started.
    ReportRunning,
    /// Start the launcher with Java.
    Relaunch,
    /// Tell the window that the work is done.
    ReportDone,
    /// Nothing is left to do.
    Finished,
    /// A step failed; its error was reported and nothing more is done.
    Failed,
}

/// The step after `step`, given whether its action succeeded. For
/// `CheckJava`, success means that a usable runtime is installed, and the
/// installation steps are skipped. The two reports go on whatever their
/// outcome; any other failure ends the sequence.
pub open spec fn step_after(step: PrestartStep, succeeded: bool) -> PrestartStep {
    match step {
        PrestartStep::CheckJava => if succeeded {
            PrestartStep::ProvideLauncherJar
        } else {
            PrestartStep::FetchRelease
        },
        PrestartStep::ReportRunning => PrestartStep::Relaunch,
        PrestartStep::ReportDone => PrestartStep::Finished,
        PrestartStep::Finished => PrestartStep::Finished,
        PrestartStep::Failed => PrestartStep::Failed,
        _ => if !succeeded {
            PrestartStep::Failed
        } else {
            match step {
                PrestartStep::FetchRelease => PrestartStep::LocateStore,
                PrestartStep::LocateStore => PrestartStep::CreateStore,
                PrestartStep::CreateStore => PrestartStep::SaveVersion,
                PrestartStep::SaveVersion => PrestartStep::DownloadJava,
                PrestartStep::DownloadJava => PrestartStep::ExtractJava,
                PrestartStep::ExtractJava => PrestartStep::RemoveArchive,
                PrestartStep::RemoveArchive => PrestartStep::MarkExtracted,
                PrestartStep::MarkExtracted => PrestartStep::ProvideLauncherJar,
                PrestartStep::ProvideLauncherJar => PrestartStep::ReportRunning,
                _ => PrestartStep::ReportDone,
            }
        },
    }
}

/// How many steps are at most left before the sequence ends.
pub open spec fn steps_left(step: PrestartStep) -> nat {
    match step {
        PrestartStep::CheckJava => 13,
        PrestartStep::FetchRelease => 12,
        PrestartStep::LocateStore => 11,
        PrestartStep::CreateStore => 10,
        PrestartStep::SaveVersion => 9,
        PrestartStep::DownloadJava => 8,
        PrestartStep::ExtractJava => 7,
        PrestartStep::RemoveArchive => 6,
        PrestartStep::MarkExtracted => 5,
        PrestartStep::ProvideLauncherJar => 4,
        PrestartStep::ReportRunning => 3,
        PrestartStep::Relaunch => 2,
        PrestartStep::ReportDone => 1,
        PrestartStep::Finished => 0,
        PrestartStep::Failed => 0,
    }
}

/// Whether the sequence has ended.
pub open spec fn is_final(step: PrestartStep) -> bool {
    step == PrestartStep::Finished || step == PrestartStep::Failed
}

/// What the progress window is told during the sequence.
#[derive(Clone, Copy, Debug, PartialEq, Eq)]
pub enum PrestartEvent {
    /// A step failed, with its message.
    Error,
    /// The launcher is about to be started.
    Running,
    /// The launcher was started.
    Done,
}

/// What the window is told while `step` is taken: the reports say so
/// whatever their outcome, any other failed step except the check for Java
/// reports an error, and a succeeding step says nothing.
pub open spec fn step_events(step: PrestartStep, succeeded: bool) -> Seq<PrestartEvent> {
    match step {
        PrestartStep::ReportRunning => seq![PrestartEvent::Running],
        PrestartStep::ReportDone => seq![PrestartEvent::Done],
        PrestartStep::CheckJava | PrestartStep::Finished | PrestartStep::Failed => Seq::empty(),
        _ => if succeeded {
            Seq::empty()
        } else {
            seq![PrestartEvent::Error]
        },
    }
}

/// The step reached from `step` with the outcomes of its actions, in order.
pub open spec fn prestart_run(step: PrestartStep, outcomes: Seq<bool>) -> PrestartStep
    decreases outcomes.len(),
{
    if outcomes.len() == 0 || is_final(step) {
        step
    } else {
        prestart_run(step_after(step, outcomes[0]), outcomes.drop_first())
    }
}

/// What the window is told from `step` on, with the outcomes of the actions.
pub open spec fn prestart_events(step: PrestartStep, outcomes: Seq<bool>) -> Seq<PrestartEvent>
    decreases outcomes.len(),
{
    if outcomes.len() == 0 || is_final(step) {
        Seq::empty()
    } else {
        step_events(step, outcomes[0]) + prestart_events(
            step_after(step, outcomes[0]),
            outcomes.drop_first(),
        )
    }
}

/// What the window is told while `step` is taken, given whether its action
/// succeeded.
pub fn step_events_of(step: PrestartStep, succeeded: bool) -> (r: Vec<PrestartEvent>)
    ensures
        r@ == step_events(step, succeeded),
{
    let mut r: Vec<PrestartEvent> = Vec::new();
    match step {
        PrestartStep::ReportRunning => r.push(PrestartEvent::Running),
        PrestartStep::ReportDone => r.push(PrestartEvent::Done),
        PrestartStep::CheckJava | PrestartStep::Finished | PrestartStep::Failed => {},
        _ => if !succeeded {
            r.push(PrestartEvent::Error);
        },
    }
    assert(r@ =~= step_events(step, succeeded));
    r
}

/// The step after `step`, given whether its action succeeded.
pub fn next_step(step: PrestartStep, succeeded: bool) -> (r: PrestartStep)
    ensures
        r == step_after(step, succeeded),
{
    match step {
        PrestartStep::CheckJava => if succeeded {
            PrestartStep::ProvideLauncherJar
        } else {
            PrestartStep::FetchRelease
        },
        PrestartStep::ReportRunning => PrestartStep::Relaunch,
        PrestartStep::ReportDone => PrestartStep::Finished,
        PrestartStep::Finished => PrestartStep::Finished,
        PrestartStep::Failed => PrestartStep::Failed,
        PrestartStep::FetchRelease if succeeded => PrestartStep::LocateStore,
        PrestartStep::LocateStore if succeeded => PrestartStep::CreateStore,
        PrestartStep::CreateStore if succeeded => PrestartStep::SaveVersion,
        PrestartStep::SaveVersion if succeeded => PrestartStep::DownloadJava,
        PrestartStep::DownloadJava if succeeded => PrestartStep::ExtractJava,
        PrestartStep::ExtractJava if succeeded => PrestartStep::RemoveArchive,
        PrestartStep::RemoveArchive if succeeded => PrestartStep::MarkExtracted,
        PrestartStep::MarkExtracted if succeeded => PrestartStep::ProvideLauncherJar,
        PrestartStep::ProvideLauncherJar if succeeded => PrestartStep::ReportRunning,
        PrestartStep::Relaunch if succeeded => PrestartStep::ReportDone,
        _ => PrestartStep::Failed,
    }
}

} // verus!
