//! The decisions of the apply, restore and backup procedures on recorded
//! outcomes, one failure at a time.
use fh_language_combo_tool::engine::apply_engine::{
    new_apply_progress, next_apply_action, ApplyAction, ApplyProgress,
};
use fh_language_combo_tool::engine::backup_manager::{
    new_backup_manifest, new_backup_progress, next_backup_action, BackupAction, BackupRequest,
};
use fh_language_combo_tool::engine::language_mapper::{ApplyPlan, Operation};
use fh_language_combo_tool::engine::restore_engine::{
    new_restore_progress, next_restore_action, RestoreAction, RestoreProgress,
};

fn plan() -> ApplyPlan {
    ApplyPlan {
        game_id: "fh6".into(),
        voice_language: "JP".into(),
        text_language: "EN".into(),
        source_file: "EN.zip".into(),
        target_file: "JP.zip".into(),
        operations: vec![
            Operation { op_type: "backup".into(), from: "r/JP.zip".into(), to: "b".into(), description: "Backup JP.zip".into() },
            Operation { op_type: "copy_replace".into(), from: "r/EN.zip".into(), to: "r/JP.zip".into(), description: "Copy EN.zip -> JP.zip".into() },
        ],
    }
}

/// Progress up to a made backup and a good copy.
fn copied() -> ApplyProgress {
    let mut p = new_apply_progress();
    p.source_is_file = Some(true);
    p.target_is_file = Some(true);
    p.backup_root = Some(Ok("root".into()));
    p.backup = Some(Ok("root/fh6/x".into()));
    p.copy = Some(Ok(()));
    p
}

fn finish(a: ApplyAction) -> (bool, String, Option<String>, bool) {
    match a {
        ApplyAction::Finish(r) => (r.success, r.message, r.backup_path, r.rolled_back),
        _ => panic!("expected the end of the apply"),
    }
}

#[test]
fn apply_steps_in_order() {
    let plan = plan();
    let mut p = new_apply_progress();
    assert!(matches!(next_apply_action(&plan, &p), ApplyAction::CheckSourceFile { ref source } if source == "r/EN.zip"));
    p.source_is_file = Some(true);
    assert!(matches!(next_apply_action(&plan, &p), ApplyAction::CheckTargetFile { ref target } if target == "r/JP.zip"));
    p.target_is_file = Some(true);
    assert!(matches!(next_apply_action(&plan, &p), ApplyAction::LocateBackupRoot));
    p.backup_root = Some(Err("no LOCALAPPDATA".into()));
    assert_eq!(finish(next_apply_action(&plan, &p)), (false, "Failed to get backup directory: no LOCALAPPDATA".into(), None, false));
    p.backup_root = Some(Ok("root".into()));
    assert!(matches!(next_apply_action(&plan, &p), ApplyAction::CreateBackup { .. }));
    p.backup = Some(Ok("root/fh6/x".into()));
    assert!(matches!(next_apply_action(&plan, &p), ApplyAction::CopySourceToTemp { .. }));
    p.copy = Some(Ok(()));
    assert!(matches!(next_apply_action(&plan, &p), ApplyAction::HashSource { .. }));
    p.source_hash = Some(Ok("aa".into()));
    assert!(matches!(next_apply_action(&plan, &p), ApplyAction::HashTemp { .. }));
    p.temp_hash = Some(Ok("aa".into()));
    assert!(matches!(next_apply_action(&plan, &p), ApplyAction::RenameTempToTarget { .. }));
    p.rename = Some(Ok(()));
    assert!(matches!(next_apply_action(&plan, &p), ApplyAction::HashTarget { .. }));
    p.final_hash = Some(Ok("aa".into()));
    match next_apply_action(&plan, &p) {
        ApplyAction::Log { game_id, message } => {
            assert_eq!(game_id, "fh6");
            assert_eq!(message, "Applied EN text to JP voice (backup: root/fh6/x)");
        }
        _ => panic!("expected the log step"),
    }
    p.logged = true;
    assert_eq!(
        finish(next_apply_action(&plan, &p)),
        (true, "Successfully applied EN text language to JP voice language pack".into(), Some("root/fh6/x".into()), false)
    );
}

#[test]
fn apply_hash_failures_remove_the_temp_file() {
    let plan = plan();
    let mut p = copied();
    p.source_hash = Some(Err("locked".into()));
    assert!(matches!(next_apply_action(&plan, &p), ApplyAction::RemoveTemp { .. }));
    p.temp_removed = true;
    assert_eq!(finish(next_apply_action(&plan, &p)), (false, "Failed to compute SHA-256 of source: locked".into(), Some("root/fh6/x".into()), false));

    let mut p = copied();
    p.source_hash = Some(Ok("aa".into()));
    p.temp_hash = Some(Err("gone".into()));
    p.temp_removed = true;
    assert_eq!(finish(next_apply_action(&plan, &p)).1, "Failed to compute SHA-256 of temp file: gone");

    let mut p = copied();
    p.source_hash = Some(Ok("aa".into()));
    p.temp_hash = Some(Ok("bb".into()));
    assert!(matches!(next_apply_action(&plan, &p), ApplyAction::RemoveTemp { .. }));
    p.temp_removed = true;
    assert_eq!(finish(next_apply_action(&plan, &p)).1, "SHA-256 mismatch after copy: source=aa, temp=bb");
}

#[test]
fn apply_late_failures_roll_back() {
    let plan = plan();
    let mut p = copied();
    p.source_hash = Some(Ok("aa".into()));
    p.temp_hash = Some(Ok("aa".into()));
    p.rename = Some(Err("in use".into()));
    assert!(matches!(next_apply_action(&plan, &p), ApplyAction::RemoveTemp { .. }));
    p.temp_removed = true;
    assert!(matches!(next_apply_action(&plan, &p), ApplyAction::RollBack { ref backup_path, .. } if backup_path == "root/fh6/x"));
    p.rollbacks.push(false);
    assert_eq!(finish(next_apply_action(&plan, &p)), (false, "Failed to rename temp file to target: in use".into(), Some("root/fh6/x".into()), false));

    let mut p = copied();
    p.source_hash = Some(Ok("aa".into()));
    p.temp_hash = Some(Ok("aa".into()));
    p.rename = Some(Ok(()));
    p.final_hash = Some(Ok("cc".into()));
    assert!(matches!(next_apply_action(&plan, &p), ApplyAction::RollBack { .. }));
    p.rollbacks.push(true);
    assert_eq!(finish(next_apply_action(&plan, &p)), (false, "Final verification failed: expected aa, got cc".into(), Some("root/fh6/x".into()), true));

    let mut p = copied();
    p.source_hash = Some(Ok("aa".into()));
    p.temp_hash = Some(Ok("aa".into()));
    p.rename = Some(Ok(()));
    p.final_hash = Some(Err("denied".into()));
    p.rollbacks.push(true);
    assert_eq!(finish(next_apply_action(&plan, &p)).1, "Failed to verify final target: denied");

    let mut p = copied();
    p.copy = Some(Err("full".into()));
    p.rollbacks.push(false);
    assert!(matches!(next_apply_action(&plan, &p), ApplyAction::RollBack { .. }));
    p.rollbacks.push(true);
    assert_eq!(finish(next_apply_action(&plan, &p)), (false, "Failed to copy source to temp file: full".into(), Some("root/fh6/x".into()), true));
}

fn restore_manifest() -> fh_language_combo_tool::engine::backup_manager::BackupManifest {
    new_backup_manifest("fh6", "steam", "g", "g/res", "JP", "EN", "JP.zip", "EN.zip", "2026-05-29T12:00:00+08:00", "h0", None)
}

fn restore_finish(p: &RestoreProgress) -> (bool, String) {
    match next_restore_action(p) {
        RestoreAction::Finish(r) => (r.success, r.message),
        _ => panic!("expected the end of the restore"),
    }
}

#[test]
fn restore_steps_and_failures() {
    let mut p = new_restore_progress();
    assert!(matches!(next_restore_action(&p), RestoreAction::ReadManifest));
    let mut empty = restore_manifest();
    empty.files.clear();
    p.manifest = Some(Ok(empty));
    assert_eq!(restore_finish(&p), (false, "Backup manifest has no file entries".into()));

    p.manifest = Some(Ok(restore_manifest()));
    assert!(matches!(next_restore_action(&p), RestoreAction::HashSavedFile { ref saved_file } if saved_file == "JP.zip"));
    p.backup_hash = Some(Err("missing".into()));
    assert_eq!(restore_finish(&p).1, "Failed to compute SHA-256 of backup file: missing");
    p.backup_hash = Some(Ok("h0".into()));
    assert!(matches!(next_restore_action(&p), RestoreAction::CopySavedToTemp { ref resource_dir, ref target_file, .. } if resource_dir == "g/res" && target_file == "JP.zip"));
    p.copy = Some(Err("full".into()));
    assert_eq!(restore_finish(&p).1, "Failed to copy backup to temp file: full");
    p.copy = Some(Ok(()));
    assert!(matches!(next_restore_action(&p), RestoreAction::HashTemp { .. }));
    p.temp_hash = Some(Ok("h9".into()));
    assert!(matches!(next_restore_action(&p), RestoreAction::RemoveTemp { .. }));
    p.temp_removed = true;
    assert_eq!(restore_finish(&p).1, "SHA-256 mismatch after copy: expected h0, got h9");
    p.temp_removed = false;
    p.temp_hash = Some(Ok("h0".into()));
    assert!(matches!(next_restore_action(&p), RestoreAction::RenameTempToTarget { .. }));
    p.rename = Some(Err("in use".into()));
    p.temp_removed = true;
    assert_eq!(restore_finish(&p).1, "Failed to rename temp file to target: in use");
    p.rename = Some(Ok(()));
    assert!(matches!(next_restore_action(&p), RestoreAction::HashTarget { .. }));
    p.final_hash = Some(Ok("h1".into()));
    assert_eq!(restore_finish(&p).1, "Final verification failed: expected h0, got h1");
    p.final_hash = Some(Err("denied".into()));
    assert_eq!(restore_finish(&p).1, "Failed to verify restored target: denied");
    p.final_hash = Some(Ok("h0".into()));
    assert!(matches!(next_restore_action(&p), RestoreAction::Log { .. }));
    p.logged = true;
    assert_eq!(restore_finish(&p), (true, "Restored JP.zip to its original content".into()));
}

#[test]
fn backup_steps_and_failures() {
    let req = BackupRequest {
        backup_root: "B".into(),
        game_id: "fh5".into(),
        channel: "steam".into(),
        game_root: "G".into(),
        resource_dir: "G/res".into(),
        voice_lang: "JP".into(),
        text_lang: "CHS".into(),
        target_path: "G/res/JP.zip".into(),
        target_file: "JP.zip".into(),
        source_file: "CHS.zip".into(),
        source_path: "G/res/CHS.zip".into(),
        timestamp: "20260529_120000".into(),
        created_at: "2026-05-29T12:00:00+08:00".into(),
    };
    let mut p = new_backup_progress();
    assert!(matches!(next_backup_action(&req, &p), BackupAction::HashTarget { .. }));
    p.target_hash = Some(Err("locked".into()));
    assert!(matches!(next_backup_action(&req, &p), BackupAction::Finish(Err(ref e)) if e == "Failed to compute SHA-256 of target file: locked"));
    p.target_hash = Some(Ok("t0".into()));
    assert!(matches!(next_backup_action(&req, &p), BackupAction::CreateBackupDir { ref dir_name, .. } if dir_name == "20260529_120000_JP_voice_CHS_text"));
    p.created_dir = Some(Err("denied".into()));
    assert!(matches!(next_backup_action(&req, &p), BackupAction::Finish(Err(ref e)) if e == "Failed to create backup directory: denied"));
    p.created_dir = Some(Ok("B/fh5/d".into()));
    p.copy = Some(Ok(()));
    p.copy_hash = Some(Ok("t1".into()));
    assert!(matches!(next_backup_action(&req, &p), BackupAction::Finish(Err(ref e)) if e == "Backup verification failed: original=t0, copy=t1"));
    p.copy_hash = Some(Err("gone".into()));
    assert!(matches!(next_backup_action(&req, &p), BackupAction::Finish(Err(ref e)) if e == "Failed to compute SHA-256 of backup copy: gone"));
    p.copy_hash = Some(Ok("t0".into()));
    assert!(matches!(next_backup_action(&req, &p), BackupAction::HashSource { .. }));
    p.source_hash = Some(Some("s0".into()));
    match next_backup_action(&req, &p) {
        BackupAction::WriteManifest { backup_dir, manifest } => {
            assert_eq!(backup_dir, "B/fh5/d");
            assert_eq!(manifest.files[0].original_sha256, "t0");
            assert_eq!(manifest.applied_sha256.as_deref(), Some("s0"));
            assert_eq!(manifest.resource_directory, "G/res");
        }
        _ => panic!("expected the manifest to be written"),
    }
    p.manifest_written = Some(Err("disk full".into()));
    assert!(matches!(next_backup_action(&req, &p), BackupAction::Finish(Err(ref e)) if e == "Failed to write backup manifest: disk full"));
    p.manifest_written = Some(Ok(()));
    assert!(matches!(next_backup_action(&req, &p), BackupAction::Finish(Ok(ref d)) if d == "B/fh5/d"));
}
