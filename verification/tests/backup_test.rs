use fh_language_combo_tool::engine::backup_manager::{
    backup_dir_name, first_file_entry, list_backups, new_backup_manifest, tool_version,
    BackupManifest, FoundBackup,
};

fn manifest(game: &str, created_at: &str) -> BackupManifest {
    new_backup_manifest(
        game, "steam", "root", "root/res", "JP", "CHS", "JP.zip", "CHS.zip", created_at, "h0",
        Some("h1"),
    )
}

fn found(dir: &str, m: Option<BackupManifest>, present: bool) -> FoundBackup {
    FoundBackup {
        dir_name: dir.to_string(),
        path: format!("backups/fh5/{}", dir),
        manifest: m,
        original_present: present,
    }
}

#[test]
fn backup_directory_name() {
    assert_eq!(backup_dir_name("20260529_120000", "JP", "CHS"), "20260529_120000_JP_voice_CHS_text");
}

#[test]
fn new_manifest_records_the_target() {
    let m = manifest("fh5", "2026-05-29T12:00:00+08:00");
    assert_eq!(m.tool_version, tool_version());
    assert_eq!(m.tool_version, "1.2.0");
    assert_eq!(m.game, "fh5");
    assert_eq!(m.target_file, "JP.zip");
    assert_eq!(m.source_file, "CHS.zip");
    assert_eq!(m.files.len(), 1);
    assert_eq!(m.files[0].path, "JP.zip");
    assert_eq!(m.files[0].original_sha256, "h0");
    assert_eq!(m.applied_sha256.as_deref(), Some("h1"));
    let entry = first_file_entry(&m).unwrap();
    assert_eq!(entry.path, "JP.zip");
    assert_eq!(entry.original_sha256, "h0");
}

#[test]
fn manifest_without_entries_cannot_be_restored() {
    let mut m = manifest("fh5", "t");
    m.files.clear();
    assert_eq!(first_file_entry(&m).unwrap_err(), "Backup manifest has no file entries");
}

#[test]
fn list_backups_newest_first_and_only_the_game() {
    let dirs = vec![
        found("a", Some(manifest("fh5", "2026-05-01T10:00:00+08:00")), true),
        found("b", Some(manifest("fh6", "2026-05-03T10:00:00+08:00")), true),
        found("c", None, true),
        found("d", Some(manifest("fh5", "2026-05-29T10:00:00+08:00")), false),
        found("e", Some(manifest("fh5", "2026-05-10T10:00:00+08:00")), true),
    ];
    let list = list_backups("fh5", dirs);
    let ids: Vec<&str> = list.iter().map(|b| b.id.as_str()).collect();
    assert_eq!(ids, vec!["d", "e", "a"]);
    assert!(!list[0].valid);
    assert!(list[1].valid);
    assert_eq!(list[0].game, "fh5");
    assert_eq!(list[0].voice_language, "JP");
    assert_eq!(list[0].text_language, "CHS");
    assert_eq!(list[0].path, "backups/fh5/d");
    assert_eq!(list[2].created_at, "2026-05-01T10:00:00+08:00");
}

#[test]
fn list_backups_on_empty_dir() {
    assert!(list_backups("fh5", Vec::new()).is_empty());
}
