//! Restoring a backup: the decisions of the restore procedure. It reads the
//! backup's manifest, checks that the saved original still hashes to the
//! recorded SHA-256, copies it to a temporary file beside the target, checks
//! the copy, renames it over the target, checks the target and logs. The
//! caller performs each step that `next_restore_action` names and records its
//! outcome in the `RestoreProgress`, until the action is `Finish`.
use vstd::prelude::*;

use crate::engine::apply_engine::opt_seq;
use crate::engine::backup_manager::{manifest_of_backup, next_backup_step, BackupManifest, BackupProgress, BackupRequest, BackupStep};
use crate::engine::steam_language::str_eq;

verus! {

/// The outcome of a restore.
#[derive(Debug, Clone)]
pub struct RestoreResult {
    pub success: bool,
    pub message: String,
}

/// The outcomes of the steps performed so far; `None` for a step not yet performed.
#[derive(Debug, Clone)]
pub struct RestoreProgress {
    /// The backup's manifest, or why it could not be read.
    pub manifest: Option<Result<BackupManifest, String>>,
    /// SHA-256 of the saved original file.
    pub backup_hash: Option<Result<String, String>>,
    /// Copying the saved original to the temporary file.
    pub copy: Option<Result<(), String>>,
    /// SHA-256 of the temporary file.
    pub temp_hash: Option<Result<String, String>>,
    /// The temporary file was removed (whatever came of it).
    pub temp_removed: bool,
    /// Renaming the temporary file over the target.
    pub rename: Option<Result<(), String>>,
    /// SHA-256 of the target after the rename.
    pub final_hash: Option<Result<String, String>>,
    /// The restore was logged (whatever came of it).
    pub logged: bool,
}

/// The next step, as the caller performs it. `saved_file` is the name of the
/// saved original under the backup's `original/` directory; the target is
/// `target_file` in `resource_dir`, and the temporary file is the target's
/// path with extension `tmp`.
pub enum RestoreAction {
    ReadManifest,
    HashSavedFile { saved_file: String },
    CopySavedToTemp { saved_file: String, resource_dir: String, target_file: String },
    HashTemp { resource_dir: String, target_file: String },
    RemoveTemp { resource_dir: String, target_file: String },
    RenameTempToTarget { resource_dir: String, target_file: String },
    HashTarget { resource_dir: String, target_file: String },
    Log { game_id: String, message: String },
    Finish(RestoreResult),
}

/// `RestoreAction` with text taken by content.
pub enum RestoreStep {
    ReadManifest,
    HashSavedFile { saved_file: Seq<char> },
    CopySavedToTemp { saved_file: Seq<char>, resource_dir: Seq<char>, target_file: Seq<char> },
    HashTemp { resource_dir: Seq<char>, target_file: Seq<char> },
    RemoveTemp { resource_dir: Seq<char>, target_file: Seq<char> },
    RenameTempToTarget { resource_dir: Seq<char>, target_file: Seq<char> },
    HashTarget { resource_dir: Seq<char>, target_file: Seq<char> },
    Log { game_id: Seq<char>, message: Seq<char> },
    Finish { success: bool, message: Seq<char> },
}

pub open spec fn restore_step_of(a: RestoreAction) -> RestoreStep {
    match a {
        RestoreAction::ReadManifest => RestoreStep::ReadManifest,
        RestoreAction::HashSavedFile { saved_file } => RestoreStep::HashSavedFile {
            saved_file: saved_file@,
        },
        RestoreAction::CopySavedToTemp { saved_file, resource_dir, target_file } =>
            RestoreStep::CopySavedToTemp {
            saved_file: saved_file@,
            resource_dir: resource_dir@,
            target_file: target_file@,
        },
        RestoreAction::HashTemp { resource_dir, target_file } => RestoreStep::HashTemp {
            resource_dir: resource_dir@,
            target_file: target_file@,
        },
        RestoreAction::RemoveTemp { resource_dir, target_file } => RestoreStep::RemoveTemp {
            resource_dir: resource_dir@,
            target_file: target_file@,
        },
        RestoreAction::RenameTempToTarget { resource_dir, target_file } =>
            RestoreStep::RenameTempToTarget {
            resource_dir: resource_dir@,
            target_file: target_file@,
        },
        RestoreAction::HashTarget { resource_dir, target_file } => RestoreStep::HashTarget {
            resource_dir: resource_dir@,
            target_file: target_file@,
        },
        RestoreAction::Log { game_id, message } => RestoreStep::Log {
            game_id: game_id@,
            message: message@,
        },
        RestoreAction::Finish(r) => RestoreStep::Finish { success: r.success, message: r.message@ },
    }
}

pub open spec fn restore_failure(message: Seq<char>) -> RestoreStep {
    RestoreStep::Finish { success: false, message }
}

pub open spec fn after_removing_temp(p: RestoreProgress, dir: Seq<char>, file: Seq<char>, message: Seq<char>) -> RestoreStep {
    if !p.temp_removed {
        RestoreStep::RemoveTemp { resource_dir: dir, target_file: file }
    } else {
        restore_failure(message)
    }
}

/// The next step of restoring a backup, given the outcomes recorded in `p`.
pub open spec fn next_restore_step(p: RestoreProgress) -> RestoreStep {
    match p.manifest {
        None => RestoreStep::ReadManifest,
        Some(Err(e)) => restore_failure("Failed to read backup manifest: "@ + e@),
        Some(Ok(m)) => if m.files@.len() == 0 {
            restore_failure("Backup manifest has no file entries"@)
        } else {
            let saved = m.files@[0].path@;
            let original = m.files@[0].original_sha256@;
            let dir = m.resource_directory@;
            let file = m.target_file@;
            match p.backup_hash {
                None => RestoreStep::HashSavedFile { saved_file: saved },
                Some(Err(e)) => restore_failure("Failed to compute SHA-256 of backup file: "@ + e@),
                Some(Ok(bh)) => if bh@ != original {
                    restore_failure(
                        "Backup file is corrupted: expected "@ + original + ", got "@ + bh@,
                    )
                } else {
                    match p.copy {
                        None => RestoreStep::CopySavedToTemp {
                            saved_file: saved,
                            resource_dir: dir,
                            target_file: file,
                        },
                        Some(Err(e)) => restore_failure("Failed to copy backup to temp file: "@ + e@),
                        Some(Ok(())) => next_after_copy(m, p, original, dir, file),
                    }
                },
            }
        },
    }
}

/// The steps once the saved original was copied to the temporary file.
pub open spec fn next_after_copy(
    m: BackupManifest,
    p: RestoreProgress,
    original: Seq<char>,
    dir: Seq<char>,
    file: Seq<char>,
) -> RestoreStep {
    match p.temp_hash {
        None => RestoreStep::HashTemp { resource_dir: dir, target_file: file },
        Some(Err(e)) => after_removing_temp(p, dir, file, "Failed to compute SHA-256 of temp file: "@ + e@),
        Some(Ok(th)) => if th@ != original {
            after_removing_temp(
                p,
                dir,
                file,
                "SHA-256 mismatch after copy: expected "@ + original + ", got "@ + th@,
            )
        } else {
            match p.rename {
                None => RestoreStep::RenameTempToTarget { resource_dir: dir, target_file: file },
                Some(Err(e)) => after_removing_temp(p, dir, file, "Failed to rename temp file to target: "@ + e@),
                Some(Ok(())) => match p.final_hash {
                    None => RestoreStep::HashTarget { resource_dir: dir, target_file: file },
                    Some(Err(e)) => restore_failure("Failed to verify restored target: "@ + e@),
                    Some(Ok(fh)) => if fh@ != original {
                        restore_failure(
                            "Final verification failed: expected "@ + original + ", got "@ + fh@,
                        )
                    } else if !p.logged {
                        RestoreStep::Log {
                            game_id: m.game@,
                            message: "Restored "@ + file + " from backup created at "@ + m.created_at@,
                        }
                    } else {
                        RestoreStep::Finish {
                            success: true,
                            message: "Restored "@ + file + " to its original content"@,
                        }
                    },
                },
            }
        },
    }
}

/// Progress before any step.
pub fn new_restore_progress() -> (p: RestoreProgress)
    ensures
        p.manifest is None,
        p.backup_hash is None,
        p.copy is None,
        p.temp_hash is None,
        !p.temp_removed,
        p.rename is None,
        p.final_hash is None,
        !p.logged,
{
    RestoreProgress {
        manifest: None,
        backup_hash: None,
        copy: None,
        temp_hash: None,
        temp_removed: false,
        rename: None,
        final_hash: None,
        logged: false,
    }
}

fn cat(a: &str, b: &str) -> (r: String)
    ensures
        r@ == a@ + b@,
{
    a.to_owned().concat(b)
}

fn fail(message: String) -> (a: RestoreAction)
    ensures
        restore_step_of(a) == restore_failure(message@),
{
    RestoreAction::Finish(RestoreResult { success: false, message })
}

/// The next step of restoring a backup, given the outcomes recorded in `p`;
/// see `next_restore_step`.
pub fn next_restore_action(p: &RestoreProgress) -> (a: RestoreAction)
    ensures
        restore_step_of(a) == next_restore_step(*p),
{
    let m = match &p.manifest {
        None => {
            return RestoreAction::ReadManifest;
        },
        Some(Err(e)) => {
            return fail(cat("Failed to read backup manifest: ", e.as_str()));
        },
        Some(Ok(m)) => m,
    };
    if m.files.len() == 0 {
        return fail(String::from_str("Backup manifest has no file entries"));
    }
    let saved = &m.files[0].path;
    let original = &m.files[0].original_sha256;
    let dir = &m.resource_directory;
    let file = &m.target_file;
    match &p.backup_hash {
        None => {
            return RestoreAction::HashSavedFile { saved_file: saved.clone() };
        },
        Some(Err(e)) => {
            return fail(cat("Failed to compute SHA-256 of backup file: ", e.as_str()));
        },
        Some(Ok(bh)) => {
            if !str_eq(bh.as_str(), original.as_str()) {
                return fail(
                    cat("Backup file is corrupted: expected ", original.as_str()).concat(", got ").concat(
                        bh.as_str(),
                    ),
                );
            }
        },
    }
    match &p.copy {
        None => {
            return RestoreAction::CopySavedToTemp {
                saved_file: saved.clone(),
                resource_dir: dir.clone(),
                target_file: file.clone(),
            };
        },
        Some(Err(e)) => {
            return fail(cat("Failed to copy backup to temp file: ", e.as_str()));
        },
        Some(Ok(())) => {},
    }
    after_copy(m, p, original, dir, file)
}

fn remove_or_fail(p: &RestoreProgress, dir: &String, file: &String, message: String) -> (a: RestoreAction)
    ensures
        restore_step_of(a) == after_removing_temp(*p, dir@, file@, message@),
{
    if !p.temp_removed {
        RestoreAction::RemoveTemp { resource_dir: dir.clone(), target_file: file.clone() }
    } else {
        fail(message)
    }
}

fn after_copy(m: &BackupManifest, p: &RestoreProgress, original: &String, dir: &String, file: &String) -> (a: RestoreAction)
    ensures
        restore_step_of(a) == next_after_copy(*m, *p, original@, dir@, file@),
{
    match &p.temp_hash {
        None => {
            return RestoreAction::HashTemp { resource_dir: dir.clone(), target_file: file.clone() };
        },
        Some(Err(e)) => {
            return remove_or_fail(p, dir, file, cat("Failed to compute SHA-256 of temp file: ", e.as_str()));
        },
        Some(Ok(th)) => {
            if !str_eq(th.as_str(), original.as_str()) {
                let msg = cat("SHA-256 mismatch after copy: expected ", original.as_str()).concat(
                    ", got ",
                ).concat(th.as_str());
                return remove_or_fail(p, dir, file, msg);
            }
        },
    }
    match &p.rename {
        None => {
            return RestoreAction::RenameTempToTarget { resource_dir: dir.clone(), target_file: file.clone() };
        },
        Some(Err(e)) => {
            return remove_or_fail(p, dir, file, cat("Failed to rename temp file to target: ", e.as_str()));
        },
        Some(Ok(())) => {},
    }
    match &p.final_hash {
        None => {
            return RestoreAction::HashTarget { resource_dir: dir.clone(), target_file: file.clone() };
        },
        Some(Err(e)) => {
            return fail(cat("Failed to verify restored target: ", e.as_str()));
        },
        Some(Ok(fh)) => {
            if !str_eq(fh.as_str(), original.as_str()) {
                return fail(
                    cat("Final verification failed: expected ", original.as_str()).concat(", got ").concat(
                        fh.as_str(),
                    ),
                );
            }
        },
    }
    if !p.logged {
        let msg = cat("Restored ", file.as_str()).concat(" from backup created at ").concat(m.created_at.as_str());
        return RestoreAction::Log { game_id: m.game.clone(), message: msg };
    }
    RestoreAction::Finish(
        RestoreResult { success: true, message: cat("Restored ", file.as_str()).concat(" to its original content") },
    )
}

// ---------------------------------------------------------------------------
// Laws
// ---------------------------------------------------------------------------
/// A restore succeeds only when the saved original, the temporary copy and
/// the target after the rename all hash to the SHA-256 that the manifest
/// recorded for the original, and the restore was logged.
pub proof fn law_restore_success_is_verified(p: RestoreProgress)
    ensures
        next_restore_step(p) matches RestoreStep::Finish { success, .. } && success ==> {
            &&& (p.manifest matches Some(Ok(m)) && m.files@.len() > 0 && {
                let original = m.files@[0].original_sha256@;
                &&& (p.backup_hash matches Some(Ok(h)) && h@ == original)
                &&& (p.temp_hash matches Some(Ok(h)) && h@ == original)
                &&& (p.final_hash matches Some(Ok(h)) && h@ == original)
            })
            &&& (p.copy matches Some(Ok(_)))
            &&& (p.rename matches Some(Ok(_)))
            &&& p.logged
        },
{
}

/// The target is written (the temporary copy, then the rename) only with a
/// saved original that hashes to the recorded SHA-256, and renamed only when
/// the temporary copy does too.
pub proof fn law_restore_checks_before_writing(p: RestoreProgress)
    ensures
        next_restore_step(p) is CopySavedToTemp || next_restore_step(p) is RenameTempToTarget ==> (
        p.manifest matches Some(Ok(m)) && m.files@.len() > 0 && (p.backup_hash matches Some(Ok(h))
            && h@ == m.files@[0].original_sha256@)),
        next_restore_step(p) is RenameTempToTarget ==> (p.manifest matches Some(Ok(m))
            && m.files@.len() > 0 && (p.temp_hash matches Some(Ok(h)) && h@
            == m.files@[0].original_sha256@)),
{
}

/// A restore from a backup's manifest that succeeds leaves the target pack
/// with the content the backup saved: the target (named by the backup's
/// request) then hashes to the SHA-256 that the target had when the backup
/// was made, before the apply overwrote it.
pub proof fn law_restore_returns_backed_up_content(
    req: BackupRequest,
    bp: BackupProgress,
    m: BackupManifest,
    rp: RestoreProgress,
)
    requires
        next_backup_step(req, bp) is WriteManifest,
        manifest_of_backup(m, req, bp),
        rp.manifest == Some(Ok::<BackupManifest, String>(m)),
        next_restore_step(rp) matches RestoreStep::Finish { success, .. } && success,
    ensures
        bp.target_hash matches Some(Ok(before)) && (rp.final_hash matches Some(Ok(after))
            && after@ == before@),
        m.resource_directory@ == req.resource_dir@,
        m.target_file@ == req.target_file@,
{
    law_restore_success_is_verified(rp);
}

} // verus!
