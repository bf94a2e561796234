//! Decisions of the launcher prestarter: which launcher jar and Java runtime to
//! start, where they are stored, and how checksums and configuration values are
//! read and compared.

pub mod checksum;
pub mod format_laws;
pub mod jar;
pub mod jar_laws;
pub mod launcher;
pub mod manifest;
pub mod laws;
pub mod path;
pub mod prestart;
pub mod runner;
pub mod text;
pub mod text_laws;

pub use checksum::{checked_sha256, is_sha256_hex_str, remote_expected_hash, sha256_hex, to_hex};
pub use format_laws::{
    ascii_case_eq_ignores_case, ascii_case_eq_on_lower_case, checked_hash_is_the_lowered_well_formed_checksum,
    checksum_digits, checksum_source_precedence, decimal_reads_back, hex_text_spells_each_byte,
    jre_dir_name_spells_the_version, keep_non_empty_is_a_filter,
    list_entries_are_the_trimmed_non_blank_pieces, split_pieces_join_back, strings_view_is_elementwise,
};
pub use jar::{jar_step, JarEvent, JarFailure, JarStage};
pub use launcher::{
    cached_jar_ready, check_downloaded_jar, config_url, config_urls, download_url, expected_hash,
    is_download_mode, launcher_jar_part_path, launcher_jar_path, launcher_url, pinned_sha256,
    remote_cache_path, HashSource, JarError, RemoteConfig,
};
pub use jar_laws::{
    cache_decision_agrees_with_cached_jar_ready, expected_checksum_is_kept,
    installed_only_after_matching_download, io_failure_ends_every_unfinished_stage, jar_end_is_final,
    jar_stages_follow_their_results, jar_steps_keep_a_working_launcher, matching_cached_jar_is_used,
    matching_download_is_installed,
};
pub use laws::{
    ascii_case_eq_is_equivalence, cached_jar_checked_only_against_a_checksum,
    config_url_entries_are_clean, digest_hex_is_checksum, download_never_overwrites_cached_jar,
    trim_is_idempotent, manifest_launcher_url_wins, non_empty_setting_is_stable,
    pinned_checksum_wins, prestart_fails_only_on_failure, prestart_reports_in_order,
    failed_step_stops_the_sequence, prestart_sequence_ends, prestart_takes_every_step_in_order,
    progress_cooldown, progress_is_sent_after_the_cooldown,
};
pub use manifest::{
    first_arriving_manifest_wins, manifest_search, manifest_step, only_fetched_manifest_is_cached,
    ManifestSearch, ManifestStage,
};
pub use path::LocalPath;
pub use prestart::{
    archive_kind, archive_path, check_java_ready, extracted_mark, jre_dir, launcher_jar_source,
    next_step, progress_tick, ready_launcher_jar, should_emit_progress, step_events_of, ArchiveKind,
    LauncherJarSource, PrestartEvent, PrestartStep,
};
pub use runner::{forwarded_args, java_executable_file, relaunch_command, JavaLaunch};
pub use text_laws::{
    ascii_white_space, checksum_file_publishes_its_first_word, checksum_has_no_white_space,
    first_word_is_the_first_run_without_white_space, forwarded_args_are_all_after_the_first,
    launcher_url_is_a_trimmed_setting, non_empty_setting_is_the_trimmed_value,
    take_word_stops_at_white_space, trim_removes_exactly_the_outer_white_space,
};
pub use text::{
    chars_of, comma_list_entries, decimal_string, eq_ignore_ascii_case, first_word_of, non_empty,
    same_text, trimmed,
};
