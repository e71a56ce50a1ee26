use fh_language_combo_tool::commands::apply::{latest_backup, restore_failed_result};
use fh_language_combo_tool::commands::status::{
    classify_state, process_listed, status_of_backup, status_without_backup,
};
use fh_language_combo_tool::engine::backup_manager::{BackupFileEntry, BackupInfo, BackupManifest};
use fh_language_combo_tool::engine::game_detector::GameId;

#[test]
fn test_applied_when_target_matches_latest_source() {
    // EN.zip currently equals the latest CHS.zip -> override active & in sync.
    assert_eq!(
        classify_state("chs_v2", Some("chs_v2"), Some("en_orig"), Some("chs_v2")),
        "applied"
    );
}

#[test]
fn test_reverted_when_target_matches_original() {
    assert_eq!(
        classify_state("en_orig", Some("chs_v2"), Some("en_orig"), Some("chs_v1")),
        "reverted"
    );
}

#[test]
fn test_outdated_when_source_updated_but_override_intact() {
    // EN.zip still holds what we wrote (chs_v1), but CHS.zip was updated to chs_v2.
    assert_eq!(
        classify_state("chs_v1", Some("chs_v2"), Some("en_orig"), Some("chs_v1")),
        "outdated"
    );
}

#[test]
fn test_modified_when_nothing_matches() {
    assert_eq!(
        classify_state("something_else", Some("chs_v2"), Some("en_orig"), Some("chs_v1")),
        "modified"
    );
}

#[test]
fn test_legacy_backup_without_applied_falls_back_to_modified() {
    // Old backups have applied = None; the outdated case cannot be detected.
    assert_eq!(
        classify_state("chs_v1", Some("chs_v2"), Some("en_orig"), None),
        "modified"
    );
}

#[test]
fn test_applied_takes_priority_when_source_unreadable() {
    // Source missing (None) -> not "applied"; falls through to original/applied.
    assert_eq!(
        classify_state("en_orig", None, Some("en_orig"), Some("chs_v1")),
        "reverted"
    );
    assert_eq!(
        classify_state("chs_v1", None, Some("en_orig"), Some("chs_v1")),
        "outdated"
    );
}

fn sample_manifest(applied: Option<&str>) -> BackupManifest {
    BackupManifest {
        tool_version: "1.2.0".to_string(),
        game: "fh5".to_string(),
        channel: "steam".to_string(),
        game_root: "root".to_string(),
        resource_directory: "root/media/Stripped/StringTables".to_string(),
        voice_language: "EN".to_string(),
        text_language: "CHS".to_string(),
        target_file: "EN.zip".to_string(),
        source_file: "CHS.zip".to_string(),
        created_at: "2026-05-29T12:00:00+08:00".to_string(),
        files: vec![BackupFileEntry {
            path: "EN.zip".to_string(),
            original_sha256: "en_orig".to_string(),
        }],
        applied_sha256: applied.map(|a| a.to_string()),
    }
}

#[test]
fn status_reports_the_latest_backup() {
    let m = sample_manifest(Some("chs_v1"));
    let s = status_of_backup(&m, "chs_v1", Some("chs_v2"));
    assert_eq!(s.state, "outdated");
    assert_eq!(s.game_id.as_deref(), Some("fh5"));
    assert_eq!(s.voice_language.as_deref(), Some("EN"));
    assert_eq!(s.text_language.as_deref(), Some("CHS"));
    assert_eq!(s.last_applied.as_deref(), Some("2026-05-29T12:00:00+08:00"));

    let s = status_of_backup(&m, "en_orig", Some("chs_v2"));
    assert_eq!(s.state, "reverted");
    let s = status_of_backup(&sample_manifest(None), "chs_v1", Some("chs_v2"));
    assert_eq!(s.state, "modified");
    let s = status_of_backup(&m, "chs_v2", Some("chs_v2"));
    assert_eq!(s.state, "applied");
}

#[test]
fn status_without_files_in_manifest_has_no_original() {
    let mut m = sample_manifest(None);
    m.files.clear();
    let s = status_of_backup(&m, "en_orig", None);
    assert_eq!(s.state, "modified");
}

#[test]
fn status_none_without_backup() {
    let s = status_without_backup();
    assert_eq!(s.state, "none");
    assert!(s.game_id.is_none());
    assert!(s.voice_language.is_none());
    assert!(s.text_language.is_none());
    assert!(s.last_applied.is_none());
}

#[test]
fn process_listing_names_the_executable() {
    let listing = "ForzaHorizon5.exe             1234 Console    1    8,000,000 K\r\n";
    assert!(process_listed(listing, GameId::Fh5));
    assert!(!process_listed(listing, GameId::Fh6));
    let listing6 = "forzahorizon6.exe             42 Console    1    9,000 K";
    assert!(process_listed(listing6, GameId::Fh6));
    assert!(!process_listed("INFO: No tasks are running which match the specified criteria.", GameId::Fh5));
    assert!(!process_listed("", GameId::Fh6));
}

#[test]
fn reapply_needs_a_backup() {
    let none: Vec<BackupInfo> = Vec::new();
    assert_eq!(latest_backup(&none), Err("No backup found to re-apply".to_string()));
    let one = vec![BackupInfo {
        id: "a".to_string(),
        game: "fh5".to_string(),
        voice_language: "EN".to_string(),
        text_language: "CHS".to_string(),
        created_at: "2026".to_string(),
        path: "p".to_string(),
        valid: true,
    }];
    assert_eq!(latest_backup(&one), Ok(0));
    let r = restore_failed_result("disk full");
    assert!(!r.success);
    assert_eq!(r.message, "Failed to restore before re-apply: disk full");
    assert!(r.backup_path.is_none());
    assert!(!r.rolled_back);
}
