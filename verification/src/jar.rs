//! The steps that provide the launcher jar in download mode: keep the cached
//! jar when it is current, otherwise download a new one next to it, check it
//! and only then put it in place.

use vstd::prelude::*;

use crate::launcher::JarError;
use crate::text::{ascii_case_eq, eq_ignore_ascii_case};

verus! {

/// Where providing the launcher jar stands. Each stage but the last three
/// names the action to take next; the event that the action produces leads
/// to the next stage (`jar_next`).
#[derive(Debug)]
pub enum JarStage {
    /// Action: find out whether a launcher URL is configured.
    CheckUrl,
    /// Action: create the store directory, work out the expected checksum and
    /// see whether a cached jar exists.
    Prepare,
    /// Action: compute the checksum of the cached jar.
    HashCached { expected: String },
    /// Action: download the jar into the part file next to the cached one.
    Download { checksum: Option<String> },
    /// Action: compute the checksum of the part file.
    HashDownload { expected: String },
    /// Action: delete the part file, whose checksum was wrong.
    Discard { error: JarError },
    /// Action: replace the cached jar with the part file.
    Install,
    /// Done: the cached jar is the one to start.
    UseCached,
    /// Done: the downloaded jar is in place and is the one to start.
    Installed,
    /// Done: no jar can be provided.
    Failed { failure: JarFailure },
}

/// Why no launcher jar could be provided.
#[derive(Debug)]
pub enum JarFailure {
    /// A rule of the library refused the jar.
    Rejected(JarError),
    /// A file or network operation failed, with its message.
    Io(String),
}

impl JarFailure {
    /// The text of the failure.
    pub open spec fn text(&self) -> Seq<char> {
        match self {
            JarFailure::Rejected(e) => e.text(),
            JarFailure::Io(m) => m@,
        }
    }

    /// The text of the failure, as it is reported.
    pub fn message(&self) -> (r: String)
        ensures
            r@ == self.text(),
    {
        match self {
            JarFailure::Rejected(e) => e.message(),
            JarFailure::Io(m) => m.clone(),
        }
    }
}

/// What the action of a stage produced.
#[derive(Debug)]
pub enum JarEvent {
    /// Whether a launcher URL is configured.
    UrlChecked(bool),
    /// The store is ready; `expected` is the checksum the jar has to match, if
    /// any is available, and `cached_exists` whether a cached jar is there.
    Prepared { expected: Option<String>, cached_exists: bool },
    /// The checksum of the file just hashed.
    Hashed(String),
    /// The action succeeded.
    Done,
    /// The action failed with this message.
    Io(String),
}

/// Whether providing the jar has come to an end.
pub open spec fn jar_done(stage: JarStage) -> bool {
    match stage {
        JarStage::UseCached | JarStage::Installed | JarStage::Failed { .. } => true,
        _ => false,
    }
}

/// The stage after `stage` once its action produced `event`. A failed file
/// or network operation ends in failure; an event that does not answer the
/// stage's action leaves the stage as it is.
pub open spec fn jar_next(stage: JarStage, event: JarEvent) -> JarStage {
    if jar_done(stage) {
        stage
    } else {
        match event {
            JarEvent::Io(m) => JarStage::Failed { failure: JarFailure::Io(m) },
            _ => match (stage, event) {
                (JarStage::CheckUrl, JarEvent::UrlChecked(configured)) => if configured {
                    JarStage::Prepare
                } else {
                    JarStage::Failed { failure: JarFailure::Rejected(JarError::UrlNotConfigured) }
                },
                (JarStage::Prepare, JarEvent::Prepared { expected, cached_exists }) => if !cached_exists {
                    JarStage::Download { checksum: expected }
                } else {
                    match expected {
                        None => JarStage::UseCached,
                        Some(e) => JarStage::HashCached { expected: e },
                    }
                },
                (JarStage::HashCached { expected }, JarEvent::Hashed(actual)) => if ascii_case_eq(
                    actual@,
                    expected@,
                ) {
                    JarStage::UseCached
                } else {
                    JarStage::Download { checksum: Some(expected) }
                },
                (JarStage::Download { checksum: expected }, JarEvent::Done) => match expected {
                    Some(e) => JarStage::HashDownload { expected: e },
                    None => JarStage::Install,
                },
                (JarStage::HashDownload { expected }, JarEvent::Hashed(actual)) => if ascii_case_eq(
                    actual@,
                    expected@,
                ) {
                    JarStage::Install
                } else {
                    JarStage::Discard {
                        error: JarError::ChecksumMismatch { expected, actual },
                    }
                },
                (JarStage::Discard { error }, JarEvent::Done) => JarStage::Failed {
                    failure: JarFailure::Rejected(error),
                },
                (JarStage::Install, JarEvent::Done) => JarStage::Installed,
                (s, _) => s,
            },
        }
    }
}

/// The stage reached from `stage` through `events`, in order.
pub open spec fn jar_run(stage: JarStage, events: Seq<JarEvent>) -> JarStage
    decreases events.len(),
{
    if events.len() == 0 {
        stage
    } else {
        jar_run(jar_next(stage, events[0]), events.drop_first())
    }
}

/// The stage after `stage` once its action produced `event`.
pub fn jar_step(stage: JarStage, event: JarEvent) -> (r: JarStage)
    ensures
        r == jar_next(stage, event),
{
    match stage {
        JarStage::UseCached => return JarStage::UseCached,
        JarStage::Installed => return JarStage::Installed,
        JarStage::Failed { failure } => return JarStage::Failed { failure },
        _ => {},
    }
    let event = match event {
        JarEvent::Io(m) => return JarStage::Failed { failure: JarFailure::Io(m) },
        e => e,
    };
    match stage {
        JarStage::CheckUrl => match event {
            JarEvent::UrlChecked(configured) => if configured {
                JarStage::Prepare
            } else {
                JarStage::Failed { failure: JarFailure::Rejected(JarError::UrlNotConfigured) }
            },
            _ => JarStage::CheckUrl,
        },
        JarStage::Prepare => match event {
            JarEvent::Prepared { expected, cached_exists } => if !cached_exists {
                JarStage::Download { checksum: expected }
            } else {
                match expected {
                    None => JarStage::UseCached,
                    Some(e) => JarStage::HashCached { expected: e },
                }
            },
            _ => JarStage::Prepare,
        },
        JarStage::HashCached { expected } => match event {
            JarEvent::Hashed(actual) => if eq_ignore_ascii_case(actual.as_str(), expected.as_str()) {
                JarStage::UseCached
            } else {
                JarStage::Download { checksum: Some(expected) }
            },
            _ => JarStage::HashCached { expected },
        },
        JarStage::Download { checksum: expected } => match event {
            JarEvent::Done => match expected {
                Some(e) => JarStage::HashDownload { expected: e },
                None => JarStage::Install,
            },
            _ => JarStage::Download { checksum: expected },
        },
        JarStage::HashDownload { expected } => match event {
            JarEvent::Hashed(actual) => if eq_ignore_ascii_case(actual.as_str(), expected.as_str()) {
                JarStage::Install
            } else {
                JarStage::Discard { error: JarError::ChecksumMismatch { expected, actual } }
            },
            _ => JarStage::HashDownload { expected },
        },
        JarStage::Discard { error } => match event {
            JarEvent::Done => JarStage::Failed { failure: JarFailure::Rejected(error) },
            _ => JarStage::Discard { error },
        },
        JarStage::Install => match event {
            JarEvent::Done => JarStage::Installed,
            _ => JarStage::Install,
        },
        other => other,
    }
}

} // verus!
