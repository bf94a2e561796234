//! Where the launcher jar comes from: the remote manifest, the values baked in
//! at build time, the cached copy and the checksums it is held to.

use vstd::prelude::*;

use crate::checksum::{checked_hash, checked_sha256, lowercase_of, unicode_lowercase};
use crate::path::LocalPath;
use crate::text::{
    ascii_case_eq, comma_list_entries, eq_ignore_ascii_case, list_entries, non_empty,
    non_empty_setting, opt_str_view, opt_view, strings_view, trim, trimmed,
};

verus! {

/// The remote manifest: where the launcher jar lives and, optionally, the
/// checksum it must have. Missing fields are `None`.
#[derive(Debug)]
pub struct RemoteConfig {
    pub launcher_url: Option<String>,
    pub launcher_sha256: Option<String>,
}

impl Default for RemoteConfig {
    /// The empty manifest: the values baked in at build time apply.
    fn default() -> (r: RemoteConfig)
        ensures
            r.launcher_url is None,
            r.launcher_sha256 is None,
    {
        RemoteConfig { launcher_url: None, launcher_sha256: None }
    }
}

/// The manifest URL setting baked in at build time, trimmed; `None` when it
/// is missing or blank. It may list several URLs, separated by commas.
pub fn config_url(baked: Option<&str>) -> (r: Option<String>)
    ensures
        opt_view(r) == non_empty_setting(opt_str_view(baked)),
{
    non_empty(baked)
}

/// The manifest URLs to try, in order: the comma-separated entries of the
/// setting, trimmed, blank ones left out.
pub fn config_urls(setting: &str) -> (r: Vec<String>)
    ensures
        strings_view(r@) == list_entries(setting@),
{
    comma_list_entries(setting)
}

/// Where the last manifest that was fetched is cached.
pub fn remote_cache_path(target_dir: &str) -> (r: LocalPath)
    ensures
        r.is(target_dir@, seq!["prestarter-remote.json"@]),
{
    let r = LocalPath::new(target_dir).join("prestarter-remote.json");
    assert(Seq::<Seq<char>>::empty().push("prestarter-remote.json"@) =~= seq![
        "prestarter-remote.json"@,
    ]);
    r
}

/// The launcher URL in effect: the manifest's, trimmed, when it is not
/// blank, else the one baked in at build time.
pub open spec fn launcher_url_setting(manifest: Option<Seq<char>>, baked: Option<Seq<char>>) -> Option<
    Seq<char>,
> {
    match non_empty_setting(manifest) {
        Some(u) => Some(u),
        None => non_empty_setting(baked),
    }
}

/// Where to download the launcher jar from: the manifest wins, otherwise the
/// URL baked in at build time. With neither, the jar is the one appended to
/// the executable.
pub fn launcher_url(config: &RemoteConfig, baked: Option<&str>) -> (r: Option<String>)
    ensures
        opt_view(r) == launcher_url_setting(opt_view(config.launcher_url), opt_str_view(baked)),
{
    let from_manifest = match &config.launcher_url {
        Some(u) => non_empty(Some(u.as_str())),
        None => None,
    };
    match from_manifest {
        Some(u) => Some(u),
        None => non_empty(baked),
    }
}

/// The checksum pinned at build time, trimmed; `None` when missing or blank.
pub fn pinned_sha256(baked: Option<&str>) -> (r: Option<String>)
    ensures
        opt_view(r) == non_empty_setting(opt_str_view(baked)),
{
    non_empty(baked)
}

/// Whether the launcher jar is downloaded rather than appended to the
/// executable: exactly when a launcher URL is in effect.
pub fn is_download_mode(config: &RemoteConfig, baked: Option<&str>) -> (r: bool)
    ensures
        r == launcher_url_setting(opt_view(config.launcher_url), opt_str_view(baked)) is Some,
{
    launcher_url(config, baked).is_some()
}

/// Where the downloaded launcher jar is cached.
pub fn launcher_jar_path(target_dir: &str) -> (r: LocalPath)
    ensures
        r.is(target_dir@, seq!["Launcher.jar"@]),
{
    let r = LocalPath::new(target_dir).join("Launcher.jar");
    assert(Seq::<Seq<char>>::empty().push("Launcher.jar"@) =~= seq!["Launcher.jar"@]);
    r
}

/// Where a download of the launcher jar goes before it replaces the cached
/// one (the cached path with its extension replaced by `jar.part`).
pub fn launcher_jar_part_path(target_dir: &str) -> (r: LocalPath)
    ensures
        r.is(target_dir@, seq!["Launcher.jar.part"@]),
{
    let r = LocalPath::new(target_dir).join("Launcher.jar.part");
    assert(Seq::<Seq<char>>::empty().push("Launcher.jar.part"@) =~= seq!["Launcher.jar.part"@]);
    r
}

/// Where the checksum a downloaded jar has to match comes from.
pub enum HashSource {
    /// Known without asking the server.
    Known(String),
    /// To be read from the checksum file at this URL.
    AskServer(String),
    /// No checksum is available at all.
    Unavailable,
}

/// `HashSource` as text.
pub enum HashPlan {
    Known(Seq<char>),
    AskServer(Seq<char>),
    Unavailable,
}

impl HashSource {
    pub open spec fn plan(&self) -> HashPlan {
        match self {
            HashSource::Known(h) => HashPlan::Known(h@),
            HashSource::AskServer(u) => HashPlan::AskServer(u@),
            HashSource::Unavailable => HashPlan::Unavailable,
        }
    }
}

/// The checksum a downloaded jar has to match: the pin baked in at build
/// time wins (lower-cased), then a well-formed checksum in the manifest
/// (trimmed and lower-cased), then the file served next to the jar, at the
/// launcher URL with `.sha256` appended.
pub open spec fn expected_hash_plan(
    pinned: Option<Seq<char>>,
    manifest_sha256: Option<Seq<char>>,
    url: Option<Seq<char>>,
) -> HashPlan {
    match non_empty_setting(pinned) {
        Some(p) => HashPlan::Known(unicode_lowercase(p)),
        None => match manifest_sha256 {
            Some(m) if checked_hash(trim(m)) is Some => HashPlan::Known(checked_hash(trim(m))->0),
            _ => match url {
                Some(u) => HashPlan::AskServer(u + ".sha256"@),
                None => HashPlan::Unavailable,
            },
        },
    }
}

/// Where the checksum of the launcher jar comes from, given the pin baked in
/// at build time, the manifest and the launcher URL baked in at build time.
pub fn expected_hash(pinned: Option<&str>, config: &RemoteConfig, baked_url: Option<&str>) -> (r:
    HashSource)
    ensures
        r.plan() == expected_hash_plan(
            opt_str_view(pinned),
            opt_view(config.launcher_sha256),
            launcher_url_setting(opt_view(config.launcher_url), opt_str_view(baked_url)),
        ),
{
    if let Some(p) = pinned_sha256(pinned) {
        return HashSource::Known(lowercase_of(p.as_str()));
    }
    if let Some(m) = &config.launcher_sha256 {
        let t = trimmed(m.as_str());
        if let Some(h) = checked_sha256(t.as_str()) {
            return HashSource::Known(h);
        }
    }
    match launcher_url(config, baked_url) {
        Some(u) => {
            let mut url = u;
            url.append(".sha256");
            HashSource::AskServer(url)
        },
        None => HashSource::Unavailable,
    }
}

/// Whether a cached jar can be started as it is: it exists, and either no
/// checksum is available or its checksum matches up to ASCII case.
pub open spec fn cached_jar_usable(
    exists: bool,
    expected: Option<Seq<char>>,
    actual: Option<Seq<char>>,
) -> bool {
    exists && match expected {
        None => true,
        Some(e) => actual matches Some(a) && ascii_case_eq(a, e),
    }
}

/// The cached launcher jar, if it can be started straight away. `exists`
/// says whether the cached file is there, `expected` is the checksum it has
/// to match (if any is available) and `actual` its checksum, where it could
/// be computed.
pub fn cached_jar_ready(
    target_dir: &str,
    exists: bool,
    expected: Option<&str>,
    actual: Option<&str>,
) -> (r: Option<LocalPath>)
    ensures
        r is Some == cached_jar_usable(exists, opt_str_view(expected), opt_str_view(actual)),
        r matches Some(p) ==> p.is(target_dir@, seq!["Launcher.jar"@]),
{
    if !exists {
        return None;
    }
    match expected {
        None => Some(launcher_jar_path(target_dir)),
        Some(e) => match actual {
            Some(a) if eq_ignore_ascii_case(a, e) => Some(launcher_jar_path(target_dir)),
            _ => None,
        },
    }
}

/// Why the launcher jar could not be provided.
#[derive(Debug)]
pub enum JarError {
    /// Neither the manifest nor the build names a launcher URL.
    UrlNotConfigured,
    /// The downloaded jar does not have the expected checksum.
    ChecksumMismatch { expected: String, actual: String },
}

impl JarError {
    /// The text of the error.
    pub open spec fn text(&self) -> Seq<char> {
        match self {
            JarError::UrlNotConfigured => "Launcher URL is not configured"@,
            JarError::ChecksumMismatch { expected, actual } => "Launcher checksum mismatch: expected "@
                + expected@ + ", got "@ + actual@,
        }
    }

    /// The text of the error, as it is reported to the user.
    pub fn message(&self) -> (r: String)
        ensures
            r@ == self.text(),
    {
        match self {
            JarError::UrlNotConfigured => "Launcher URL is not configured".to_owned(),
            JarError::ChecksumMismatch { expected, actual } => {
                let mut m = "Launcher checksum mismatch: expected ".to_owned();
                m.append(expected.as_str());
                m.append(", got ");
                m.append(actual.as_str());
                m
            },
        }
    }
}

/// The URL to download the launcher jar from, or the error that none is
/// configured.
pub fn download_url(config: &RemoteConfig, baked: Option<&str>) -> (r: Result<String, JarError>)
    ensures
        match launcher_url_setting(opt_view(config.launcher_url), opt_str_view(baked)) {
            Some(u) => r matches Ok(v) && v@ == u,
            None => r matches Err(JarError::UrlNotConfigured),
        },
{
    match launcher_url(config, baked) {
        Some(u) => Ok(u),
        None => Err(JarError::UrlNotConfigured),
    }
}

/// Accepts a downloaded jar whose checksum `actual` matches `expected` up to
/// ASCII case, and rejects any other.
pub fn check_downloaded_jar(expected: &str, actual: &str) -> (r: Result<(), JarError>)
    ensures
        r is Ok == ascii_case_eq(actual@, expected@),
        r matches Err(e) ==> e matches JarError::ChecksumMismatch { expected: x, actual: y } && x@
            == expected@ && y@ == actual@,
{
    if eq_ignore_ascii_case(actual, expected) {
        Ok(())
    } else {
        Err(JarError::ChecksumMismatch { expected: expected.to_owned(), actual: actual.to_owned() })
    }
}

} // verus!
