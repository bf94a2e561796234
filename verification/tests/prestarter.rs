use launcher_prestarter::{
    archive_kind, archive_path, cached_jar_ready, check_downloaded_jar, check_java_ready,
    checked_sha256, comma_list_entries, config_url, config_urls, decimal_string, download_url,
    eq_ignore_ascii_case, expected_hash, extracted_mark, first_word_of, forwarded_args,
    is_download_mode, is_sha256_hex_str, java_executable_file, jre_dir, launcher_jar_part_path,
    launcher_jar_path, launcher_url, next_step, non_empty, pinned_sha256, ready_launcher_jar,
    relaunch_command, remote_cache_path, remote_expected_hash, same_text,
    sha256_hex, should_emit_progress, to_hex, trimmed, ArchiveKind, HashSource, JarError,
    LocalPath, PrestartStep, RemoteConfig,
};
use launcher_prestarter::{
    launcher_jar_source, progress_tick, step_events_of, LauncherJarSource, PrestartEvent,
};
use launcher_prestarter::{
    jar_step, manifest_search, manifest_step, JarEvent, JarFailure, JarStage, ManifestStage,
};

const HELLO_SHA256: &str = "b94d27b9934d3e08a52e52d7da7dabfac484efe37a5380ee9088f7ace2efcde9";
const EMPTY_SHA256: &str = "e3b0c44298fc1c149afbf4c8996fb92427ae41e4649b934ca495991b7852b855";

fn config(url: Option<&str>, sha: Option<&str>) -> RemoteConfig {
    RemoteConfig {
        launcher_url: url.map(|u| u.to_string()),
        launcher_sha256: sha.map(|s| s.to_string()),
    }
}

fn parts(p: &LocalPath) -> Vec<&str> {
    p.parts.iter().map(|s| s.as_str()).collect()
}

fn strings(v: &[&str]) -> Vec<String> {
    v.iter().map(|s| s.to_string()).collect()
}

#[test]
fn trimmed_removes_unicode_whitespace_at_both_ends() {
    assert_eq!(trimmed("  abc \t\n"), "abc");
    assert_eq!(trimmed("\u{3000}a b\u{a0}\u{2003}"), "a b");
    assert_eq!(trimmed(" \r\n "), "");
    assert_eq!(trimmed(""), "");
    assert_eq!(trimmed("x"), "x");
}

#[test]
fn trimming_twice_is_trimming_once() {
    for s in ["  a  ", "\t\u{85}b c\u{2028}", "", "   ", "d"] {
        assert_eq!(trimmed(&trimmed(s)), trimmed(s));
        assert_eq!(non_empty(non_empty(Some(s)).as_deref()), non_empty(Some(s)));
    }
}

#[test]
fn non_empty_keeps_only_non_blank_settings() {
    assert_eq!(non_empty(None), None);
    assert_eq!(non_empty(Some("")), None);
    assert_eq!(non_empty(Some(" \t ")), None);
    assert_eq!(non_empty(Some(" https://host/a ")), Some("https://host/a".to_string()));
}

#[test]
fn first_word_skips_leading_whitespace() {
    assert_eq!(first_word_of("abc  Launcher.jar\n"), Some("abc".to_string()));
    assert_eq!(first_word_of("\n\u{2003} x y"), Some("x".to_string()));
    assert_eq!(first_word_of("single"), Some("single".to_string()));
    assert_eq!(first_word_of("   \n"), None);
    assert_eq!(first_word_of(""), None);
}

#[test]
fn comma_list_entries_are_trimmed_and_non_blank() {
    assert_eq!(comma_list_entries("a, b,,  ,c "), strings(&["a", "b", "c"]));
    assert_eq!(comma_list_entries(""), Vec::<String>::new());
    assert_eq!(comma_list_entries(","), Vec::<String>::new());
    assert_eq!(comma_list_entries(" one "), strings(&["one"]));
    for entry in comma_list_entries(" x ,y,, z") {
        assert!(!entry.is_empty());
        assert_eq!(trimmed(&entry), entry);
        assert!(!entry.contains(','));
    }
}

#[test]
fn config_urls_in_order_with_fallbacks() {
    assert_eq!(
        config_urls("https://a/p.json, https://b/p.json"),
        strings(&["https://a/p.json", "https://b/p.json"])
    );
}

#[test]
fn config_url_is_trimmed_and_blank_is_none() {
    assert_eq!(config_url(Some("  https://h/prestarter.json ")), Some("https://h/prestarter.json".to_string()));
    assert_eq!(config_url(Some("  ")), None);
    assert_eq!(config_url(None), None);
}

#[test]
fn ascii_case_comparison() {
    assert!(eq_ignore_ascii_case("ABCdef", "abcDEF"));
    assert!(!eq_ignore_ascii_case("abc", "abcd"));
    assert!(!eq_ignore_ascii_case("ä", "Ä"));
    assert!(eq_ignore_ascii_case("", ""));
    // symmetric and reflexive
    assert_eq!(eq_ignore_ascii_case("Xy", "xY"), eq_ignore_ascii_case("xY", "Xy"));
    assert!(eq_ignore_ascii_case(HELLO_SHA256, HELLO_SHA256));
    assert!(eq_ignore_ascii_case(&HELLO_SHA256.to_uppercase(), HELLO_SHA256));
}

#[test]
fn same_text_compares_exactly() {
    assert!(same_text("tar.gz", "tar.gz"));
    assert!(!same_text("tar.gz", "TAR.GZ"));
    assert!(!same_text("tar", "tar.gz"));
}

#[test]
fn decimal_strings() {
    assert_eq!(decimal_string(0), "0");
    assert_eq!(decimal_string(7), "7");
    assert_eq!(decimal_string(21), "21");
    assert_eq!(decimal_string(1000), "1000");
    assert_eq!(decimal_string(u64::MAX), "18446744073709551615");
}

#[test]
fn hex_of_bytes() {
    assert_eq!(to_hex(&[]), "");
    assert_eq!(to_hex(&[0x00, 0xab, 0x0f, 0xff]), "00ab0fff");
}

#[test]
fn sha256_of_known_inputs() {
    assert_eq!(sha256_hex(b"hello world"), HELLO_SHA256);
    assert_eq!(sha256_hex(b""), EMPTY_SHA256);
    assert!(is_sha256_hex_str(&sha256_hex(b"any data")));
}

#[test]
fn sha256_hex_shape() {
    assert!(is_sha256_hex_str(HELLO_SHA256));
    assert!(is_sha256_hex_str(&HELLO_SHA256.to_uppercase()));
    assert!(!is_sha256_hex_str(&HELLO_SHA256[1..]));
    assert!(!is_sha256_hex_str(&format!("{}0", HELLO_SHA256)));
    assert!(!is_sha256_hex_str(&HELLO_SHA256.replace('b', "g")));
}

#[test]
fn published_checksums_are_lower_cased_and_checked() {
    assert_eq!(checked_sha256(&HELLO_SHA256.to_uppercase()), Some(HELLO_SHA256.to_string()));
    assert_eq!(checked_sha256("abc"), None);
    assert_eq!(
        remote_expected_hash(&format!("{}  Launcher.jar\n", HELLO_SHA256.to_uppercase())),
        Some(HELLO_SHA256.to_string())
    );
    assert_eq!(remote_expected_hash(&format!("\n {}\n", EMPTY_SHA256)), Some(EMPTY_SHA256.to_string()));
    assert_eq!(remote_expected_hash(""), None);
    assert_eq!(remote_expected_hash("not-a-hash Launcher.jar"), None);
}

#[test]
fn manifest_launcher_url_wins_over_baked_one() {
    let baked = Some("https://baked/Launcher.jar");
    assert_eq!(
        launcher_url(&config(Some(" https://manifest/Launcher.jar "), None), baked),
        Some("https://manifest/Launcher.jar".to_string())
    );
    assert_eq!(launcher_url(&config(Some("   "), None), baked), Some("https://baked/Launcher.jar".to_string()));
    assert_eq!(launcher_url(&config(None, None), Some(" ")), None);
    assert_eq!(launcher_url(&RemoteConfig::default(), None), None);
}

#[test]
fn download_mode_follows_launcher_url() {
    assert!(is_download_mode(&config(Some("https://m/L.jar"), None), None));
    assert!(is_download_mode(&config(None, None), Some("https://b/L.jar")));
    assert!(!is_download_mode(&config(Some(""), None), Some(" ")));
}

#[test]
fn pinned_checksum_is_trimmed() {
    assert_eq!(pinned_sha256(Some(" ABC ")), Some("ABC".to_string()));
    assert_eq!(pinned_sha256(Some("")), None);
    assert_eq!(pinned_sha256(None), None);
}

#[test]
fn paths_in_the_store() {
    let jar = launcher_jar_path("/store");
    assert_eq!(jar.base, "/store");
    assert_eq!(parts(&jar), vec!["Launcher.jar"]);
    let part = launcher_jar_part_path("/store");
    assert_eq!(parts(&part), vec!["Launcher.jar.part"]);
    assert_ne!(parts(&part), parts(&jar));
    let cache = remote_cache_path("/store");
    assert_eq!(cache.base, "/store");
    assert_eq!(parts(&cache), vec!["prestarter-remote.json"]);
}

#[test]
fn expected_hash_prefers_pin_then_manifest_then_server() {
    let manifest = config(Some("https://m/Launcher.jar"), Some(&format!(" {} ", HELLO_SHA256.to_uppercase())));
    match expected_hash(Some(" ABCDEF "), &manifest, None) {
        HashSource::Known(h) => assert_eq!(h, "abcdef"),
        _ => panic!("pinned checksum expected"),
    }
    match expected_hash(None, &manifest, None) {
        HashSource::Known(h) => assert_eq!(h, HELLO_SHA256),
        _ => panic!("manifest checksum expected"),
    }
    let bad_manifest = config(Some("https://m/Launcher.jar"), Some("short"));
    match expected_hash(Some("  "), &bad_manifest, Some("https://b/Launcher.jar")) {
        HashSource::AskServer(u) => assert_eq!(u, "https://m/Launcher.jar.sha256"),
        _ => panic!("server checksum expected"),
    }
    match expected_hash(None, &config(None, None), Some("https://b/Launcher.jar")) {
        HashSource::AskServer(u) => assert_eq!(u, "https://b/Launcher.jar.sha256"),
        _ => panic!("server checksum expected"),
    }
    assert!(matches!(expected_hash(None, &config(None, None), None), HashSource::Unavailable));
}

#[test]
fn cached_jar_ready_rules() {
    // missing file
    assert!(cached_jar_ready("/s", false, None, None).is_none());
    // no checksum to compare against: the cached jar is used
    let p = cached_jar_ready("/s", true, None, None).unwrap();
    assert_eq!(p.base, "/s");
    assert_eq!(parts(&p), vec!["Launcher.jar"]);
    // matching checksum, any ASCII case
    assert!(cached_jar_ready("/s", true, Some(HELLO_SHA256), Some(&HELLO_SHA256.to_uppercase())).is_some());
    // mismatch or unreadable file
    assert!(cached_jar_ready("/s", true, Some(HELLO_SHA256), Some(EMPTY_SHA256)).is_none());
    assert!(cached_jar_ready("/s", true, Some(HELLO_SHA256), None).is_none());
}

#[test]
fn downloaded_jar_must_match() {
    assert!(check_downloaded_jar(HELLO_SHA256, &HELLO_SHA256.to_uppercase()).is_ok());
    let err = check_downloaded_jar(HELLO_SHA256, EMPTY_SHA256).unwrap_err();
    assert_eq!(
        err.message(),
        format!("Launcher checksum mismatch: expected {}, got {}", HELLO_SHA256, EMPTY_SHA256)
    );
    match err {
        JarError::ChecksumMismatch { expected, actual } => {
            assert_eq!(expected, HELLO_SHA256);
            assert_eq!(actual, EMPTY_SHA256);
        }
        JarError::UrlNotConfigured => panic!("mismatch expected"),
    }
}

#[test]
fn download_url_requires_configuration() {
    let err = download_url(&RemoteConfig::default(), None).unwrap_err();
    assert!(matches!(err, JarError::UrlNotConfigured));
    assert_eq!(err.message(), "Launcher URL is not configured");
    assert_eq!(download_url(&config(None, None), Some("https://b/L.jar")).unwrap(), "https://b/L.jar");
}

fn run_manifest(setting: Option<&str>, outcomes: Vec<Option<RemoteConfig>>) -> (RemoteConfig, usize) {
    let search = manifest_search(setting);
    let mut stage = search.stage;
    let mut outcomes = outcomes.into_iter();
    let mut actions = 0;
    loop {
        if let ManifestStage::Settled(c) = stage {
            return (c, actions);
        }
        actions += 1;
        let outcome = match stage {
            ManifestStage::Store(_) => None,
            _ => outcomes.next().unwrap(),
        };
        stage = manifest_step(stage, search.urls.len(), outcome);
    }
}

#[test]
fn manifest_search_without_setting_fetches_nothing() {
    let search = manifest_search(None);
    assert!(search.urls.is_empty());
    let (c, actions) = run_manifest(Some("   "), vec![]);
    assert!(c.launcher_url.is_none() && c.launcher_sha256.is_none());
    assert_eq!(actions, 0);
}

#[test]
fn manifest_search_tries_urls_in_order() {
    let search = manifest_search(Some(" https://a/p.json , https://b/p.json "));
    assert_eq!(search.urls, strings(&["https://a/p.json", "https://b/p.json"]));
    assert!(matches!(search.stage, ManifestStage::Fetch(0)));
    // the second URL answers: the first one was tried, the cache is not read
    let (c, actions) = run_manifest(Some("a,b"), vec![None, Some(config(Some("second"), None))]);
    assert_eq!(c.launcher_url.as_deref(), Some("second"));
    // fetch, fetch, store
    assert_eq!(actions, 3);
    // the first URL answers: nothing more is tried
    let (c, actions) = run_manifest(Some("a,b"), vec![Some(config(Some("first"), None))]);
    assert_eq!(c.launcher_url.as_deref(), Some("first"));
    assert_eq!(actions, 2);
}

#[test]
fn manifest_search_falls_back_to_cache_then_empty() {
    let (c, actions) = run_manifest(Some("a,b"), vec![None, None, Some(config(Some("cached"), Some("x")))]);
    assert_eq!(c.launcher_url.as_deref(), Some("cached"));
    assert_eq!(c.launcher_sha256.as_deref(), Some("x"));
    assert_eq!(actions, 3);
    let (c, _) = run_manifest(Some("a"), vec![None, None]);
    assert!(c.launcher_url.is_none() && c.launcher_sha256.is_none());
    // a setting without any URL goes straight to the cache
    let search = manifest_search(Some(" , "));
    assert!(matches!(search.stage, ManifestStage::ReadCache));
}

#[test]
fn only_a_fetched_manifest_is_cached() {
    let s = manifest_step(ManifestStage::Fetch(0), 1, Some(config(Some("f"), None)));
    assert!(matches!(s, ManifestStage::Store(ref c) if c.launcher_url.as_deref() == Some("f")));
    let s = manifest_step(s, 1, None);
    assert!(matches!(s, ManifestStage::Settled(ref c) if c.launcher_url.as_deref() == Some("f")));
    let s = manifest_step(ManifestStage::ReadCache, 1, Some(config(Some("c"), None)));
    assert!(matches!(s, ManifestStage::Settled(_)));
}

fn run_jar(events: Vec<JarEvent>) -> JarStage {
    let mut stage = JarStage::CheckUrl;
    for e in events {
        stage = jar_step(stage, e);
    }
    stage
}

fn prepared(expected: Option<&str>, cached_exists: bool) -> JarEvent {
    JarEvent::Prepared { expected: expected.map(|s| s.to_string()), cached_exists }
}

#[test]
fn jar_without_url_is_refused() {
    match run_jar(vec![JarEvent::UrlChecked(false)]) {
        JarStage::Failed { failure } => {
            assert!(matches!(failure, JarFailure::Rejected(JarError::UrlNotConfigured)));
            assert_eq!(failure.message(), "Launcher URL is not configured");
        }
        other => panic!("unexpected {:?}", other),
    }
}

#[test]
fn current_cached_jar_is_used() {
    let s = run_jar(vec![JarEvent::UrlChecked(true), prepared(None, true)]);
    assert!(matches!(s, JarStage::UseCached));
    let s = run_jar(vec![
        JarEvent::UrlChecked(true),
        prepared(Some(HELLO_SHA256), true),
        JarEvent::Hashed(HELLO_SHA256.to_uppercase()),
    ]);
    assert!(matches!(s, JarStage::UseCached));
}

#[test]
fn stale_cached_jar_is_downloaded_checked_and_installed() {
    let s = run_jar(vec![
        JarEvent::UrlChecked(true),
        prepared(Some(HELLO_SHA256), true),
        JarEvent::Hashed(EMPTY_SHA256.to_string()),
    ]);
    assert!(matches!(s, JarStage::Download { checksum: Some(ref e) } if e == HELLO_SHA256));
    let s = jar_step(s, JarEvent::Done);
    assert!(matches!(s, JarStage::HashDownload { .. }));
    let s = jar_step(s, JarEvent::Hashed(HELLO_SHA256.to_string()));
    assert!(matches!(s, JarStage::Install));
    let s = jar_step(s, JarEvent::Done);
    assert!(matches!(s, JarStage::Installed));
    // finished stays finished
    assert!(matches!(jar_step(s, JarEvent::Io("late".into())), JarStage::Installed));
}

#[test]
fn missing_jar_without_checksum_is_installed_unchecked() {
    let s = run_jar(vec![JarEvent::UrlChecked(true), prepared(None, false), JarEvent::Done]);
    assert!(matches!(s, JarStage::Install));
}

#[test]
fn wrong_download_is_discarded_and_reported() {
    let s = run_jar(vec![
        JarEvent::UrlChecked(true),
        prepared(Some(HELLO_SHA256), false),
        JarEvent::Done,
        JarEvent::Hashed(EMPTY_SHA256.to_string()),
    ]);
    assert!(matches!(s, JarStage::Discard { .. }));
    match jar_step(s, JarEvent::Done) {
        JarStage::Failed { failure } => assert_eq!(
            failure.message(),
            format!("Launcher checksum mismatch: expected {}, got {}", HELLO_SHA256, EMPTY_SHA256)
        ),
        other => panic!("unexpected {:?}", other),
    }
}

#[test]
fn failed_transfer_never_installs() {
    let s = run_jar(vec![
        JarEvent::UrlChecked(true),
        prepared(None, true),
    ]);
    assert!(matches!(s, JarStage::UseCached));
    let s = run_jar(vec![
        JarEvent::UrlChecked(true),
        prepared(None, false),
        JarEvent::Io("connection reset".into()),
        JarEvent::Done,
        JarEvent::Done,
    ]);
    match s {
        JarStage::Failed { failure } => assert_eq!(failure.message(), "connection reset"),
        other => panic!("unexpected {:?}", other),
    }
}

#[test]
fn java_executable_per_platform() {
    let dir = jre_dir("/store", 21);
    let win = java_executable_file(&dir, true);
    assert_eq!(win.base, "/store");
    assert_eq!(parts(&win), vec!["JRE-21", "bin/javaw.exe"]);
    let unix = java_executable_file(&dir, false);
    assert_eq!(parts(&unix), vec!["JRE-21", "bin/java"]);
}

#[test]
fn relaunch_command_passes_arguments_on() {
    let dir = jre_dir("/store", 17);
    let jar = launcher_jar_path("/store");
    let cmd = relaunch_command(&dir, &jar, &strings(&["prestarter", "--debug", "x"]), false);
    assert_eq!(parts(&cmd.program), vec!["JRE-17", "bin/java"]);
    assert_eq!(cmd.options, strings(&["-Dlauncher.noJavaCheck=true", "-jar"]));
    assert_eq!(parts(&cmd.jar), vec!["Launcher.jar"]);
    assert_eq!(cmd.args, strings(&["--debug", "x"]));
    assert_eq!(forwarded_args(&Vec::new()), Vec::<String>::new());
    assert_eq!(forwarded_args(&strings(&["only-self"])), Vec::<String>::new());
}

#[test]
fn java_install_locations() {
    let dir = jre_dir("C:\\Users\\a\\AppData\\GravitLauncherStore", 21);
    assert_eq!(dir.base, "C:\\Users\\a\\AppData\\GravitLauncherStore");
    assert_eq!(parts(&dir), vec!["JRE-21"]);
    assert_eq!(parts(&extracted_mark(&dir)), vec!["JRE-21", "success-extracted-mark"]);
    assert_eq!(parts(&archive_path("/s", "jre.zip")), vec!["jre.zip"]);
}

#[test]
fn archive_kinds() {
    assert_eq!(archive_kind("tar.gz"), ArchiveKind::TarGz);
    assert_eq!(archive_kind("zip"), ArchiveKind::Zip);
    assert_eq!(archive_kind("TAR.GZ"), ArchiveKind::Zip);
    assert_eq!(archive_kind(""), ArchiveKind::Zip);
}

#[test]
fn java_ready_only_when_installed_current_and_complete() {
    let ready = check_java_ready("/s", Some(21), false, true).unwrap();
    assert_eq!(parts(&ready), vec!["JRE-21"]);
    assert!(check_java_ready("/s", None, false, true).is_none());
    assert!(check_java_ready("/s", Some(21), true, true).is_none());
    assert!(check_java_ready("/s", Some(21), false, false).is_none());
}

#[test]
fn launcher_jar_choice() {
    let cached = Some(launcher_jar_path("/s"));
    let exe = Some(LocalPath { base: "/bin/prestarter".to_string(), parts: Vec::new() });
    let r = ready_launcher_jar(true, cached, None);
    assert_eq!(ready_launcher_jar(false, Some(1), Some(2)), Some(2));
    assert_eq!(parts(&r.unwrap()), vec!["Launcher.jar"]);
    assert!(ready_launcher_jar(true, None, Some(LocalPath { base: "x".into(), parts: vec![] })).is_none());
    assert_eq!(ready_launcher_jar(false, None, exe).unwrap().base, "/bin/prestarter");
}

#[test]
fn progress_events_are_throttled() {
    assert!(should_emit_progress(1000, 0));
    assert!(!should_emit_progress(300, 0));
    assert!(should_emit_progress(301, 0));
    assert!(!should_emit_progress(10, 500));
    assert!(!should_emit_progress(800, 500));
    assert!(should_emit_progress(u64::MAX, u64::MAX - 301));
}

fn run_sequence(start: PrestartStep, outcome: impl Fn(PrestartStep) -> bool) -> Vec<PrestartStep> {
    let mut seen = vec![start];
    let mut step = start;
    while step != PrestartStep::Finished && step != PrestartStep::Failed {
        step = next_step(step, outcome(step));
        seen.push(step);
        assert!(seen.len() <= 15);
    }
    seen
}

#[test]
fn prestart_with_java_installed_skips_installation() {
    let seen = run_sequence(PrestartStep::CheckJava, |_| true);
    assert_eq!(
        seen,
        vec![
            PrestartStep::CheckJava,
            PrestartStep::ProvideLauncherJar,
            PrestartStep::ReportRunning,
            PrestartStep::Relaunch,
            PrestartStep::ReportDone,
            PrestartStep::Finished,
        ]
    );
}

#[test]
fn prestart_installs_java_first() {
    let seen = run_sequence(PrestartStep::CheckJava, |s| s != PrestartStep::CheckJava);
    assert_eq!(seen.len(), 14);
    assert_eq!(seen[1], PrestartStep::FetchRelease);
    assert_eq!(seen[6], PrestartStep::ExtractJava);
    assert_eq!(seen[9], PrestartStep::ProvideLauncherJar);
    assert_eq!(*seen.last().unwrap(), PrestartStep::Finished);
}

#[test]
fn prestart_stops_at_first_failure() {
    let seen = run_sequence(PrestartStep::CheckJava, |s| {
        s != PrestartStep::CheckJava && s != PrestartStep::DownloadJava
    });
    assert_eq!(seen[seen.len() - 2], PrestartStep::DownloadJava);
    assert_eq!(*seen.last().unwrap(), PrestartStep::Failed);
    // failed reports do not stop the sequence
    assert_eq!(next_step(PrestartStep::ReportRunning, false), PrestartStep::Relaunch);
    assert_eq!(next_step(PrestartStep::ReportDone, false), PrestartStep::Finished);
    assert_eq!(next_step(PrestartStep::Failed, true), PrestartStep::Failed);
}

#[test]
fn progress_cooldown_over_callbacks() {
    let mut last = 0;
    let mut sent = Vec::new();
    for now in [100u64, 350, 400, 650, 702, 1000, 1003] {
        let (emit, new_last) = progress_tick(now, last);
        last = new_last;
        if emit {
            sent.push(now);
        }
    }
    assert_eq!(sent, vec![350, 702, 1003]);
    assert_eq!(progress_tick(10, 500), (false, 500));
}

#[test]
fn window_events_per_step() {
    assert_eq!(step_events_of(PrestartStep::ReportRunning, true), vec![PrestartEvent::Running]);
    assert_eq!(step_events_of(PrestartStep::ReportRunning, false), vec![PrestartEvent::Running]);
    assert_eq!(step_events_of(PrestartStep::ReportDone, true), vec![PrestartEvent::Done]);
    assert_eq!(step_events_of(PrestartStep::DownloadJava, false), vec![PrestartEvent::Error]);
    assert_eq!(step_events_of(PrestartStep::DownloadJava, true), vec![]);
    assert_eq!(step_events_of(PrestartStep::CheckJava, false), vec![]);
    assert_eq!(step_events_of(PrestartStep::Failed, false), vec![]);
}

#[test]
fn whole_sequence_reports_in_order() {
    let mut events = Vec::new();
    let mut step = PrestartStep::CheckJava;
    while step != PrestartStep::Finished && step != PrestartStep::Failed {
        let ok = step != PrestartStep::Relaunch;
        events.extend(step_events_of(step, ok));
        step = next_step(step, ok);
    }
    assert_eq!(events, vec![PrestartEvent::Running, PrestartEvent::Error]);
}

#[test]
fn jar_source_follows_download_mode() {
    assert_eq!(launcher_jar_source(true), LauncherJarSource::Downloaded);
    assert_eq!(launcher_jar_source(false), LauncherJarSource::ThisExecutable);
}
