//! Applying a plan: the decisions of the apply procedure. The procedure
//! checks both packs, backs the target up, copies the source to a temporary
//! file beside the target, checks the copy's SHA-256, renames it over the
//! target, checks the target's SHA-256 and logs; on a failure it removes the
//! temporary file or rolls the target back from the backup, as each step calls
//! for. The caller performs each step that `next_apply_action` names and
//! records its outcome in the `ApplyProgress`, until the action is `Finish`.
use vstd::prelude::*;

use crate::engine::backup_manager::{manifest_of_backup, next_backup_step, opt_string_seq, BackupManifest, BackupProgress, BackupRequest, BackupStep};
use crate::engine::game_detector::GameProfile;
use crate::engine::language_mapper::{ApplyPlan, Operation};
use crate::engine::steam_language::str_eq;

verus! {

/// The outcome of an apply.
#[derive(Debug, Clone)]
pub struct ApplyResult {
    pub success: bool,
    pub message: String,
    pub backup_path: Option<String>,
    pub rolled_back: bool,
}

/// The outcomes of the steps performed so far; `None` for a step not yet performed.
#[derive(Debug, Clone)]
pub struct ApplyProgress {
    /// Whether the source pack is a file.
    pub source_is_file: Option<bool>,
    /// Whether the target pack is a file.
    pub target_is_file: Option<bool>,
    /// The backup root directory, or why it is unavailable.
    pub backup_root: Option<Result<String, String>>,
    /// The backup's directory, or why the backup failed.
    pub backup: Option<Result<String, String>>,
    /// Copying the source to the temporary file.
    pub copy: Option<Result<(), String>>,
    /// SHA-256 of the source pack.
    pub source_hash: Option<Result<String, String>>,
    /// SHA-256 of the temporary file.
    pub temp_hash: Option<Result<String, String>>,
    /// The temporary file was removed (whatever came of it).
    pub temp_removed: bool,
    /// Renaming the temporary file over the target.
    pub rename: Option<Result<(), String>>,
    /// SHA-256 of the target after the rename.
    pub final_hash: Option<Result<String, String>>,
    /// Whether each rollback performed so far restored the target, in order.
    pub rollbacks: Vec<bool>,
    /// The success was logged (whatever came of it).
    pub logged: bool,
}

/// The next step, as the caller performs it. Paths are those of the plan's
/// operations; the temporary file is the target's path with extension `tmp`.
pub enum ApplyAction {
    CheckSourceFile { source: String },
    CheckTargetFile { target: String },
    LocateBackupRoot,
    CreateBackup { backup_root: String, target: String },
    CopySourceToTemp { source: String, target: String },
    RollBack { backup_path: String, target: String },
    HashSource { source: String },
    HashTemp { target: String },
    RemoveTemp { target: String },
    RenameTempToTarget { target: String },
    HashTarget { target: String },
    Log { game_id: String, message: String },
    Finish(ApplyResult),
}

/// `ApplyResult` with text taken by content.
pub struct ResultView {
    pub success: bool,
    pub message: Seq<char>,
    pub backup_path: Option<Seq<char>>,
    pub rolled_back: bool,
}

/// `ApplyAction` with text taken by content.
pub enum ApplyStep {
    CheckSourceFile { source: Seq<char> },
    CheckTargetFile { target: Seq<char> },
    LocateBackupRoot,
    CreateBackup { backup_root: Seq<char>, target: Seq<char> },
    CopySourceToTemp { source: Seq<char>, target: Seq<char> },
    RollBack { backup_path: Seq<char>, target: Seq<char> },
    HashSource { source: Seq<char> },
    HashTemp { target: Seq<char> },
    RemoveTemp { target: Seq<char> },
    RenameTempToTarget { target: Seq<char> },
    HashTarget { target: Seq<char> },
    Log { game_id: Seq<char>, message: Seq<char> },
    Finish(ResultView),
}

pub open spec fn opt_seq(o: Option<String>) -> Option<Seq<char>> {
    match o {
        Some(s) => Some(s@),
        None => None,
    }
}

pub open spec fn result_view(r: ApplyResult) -> ResultView {
    ResultView {
        success: r.success,
        message: r.message@,
        backup_path: opt_seq(r.backup_path),
        rolled_back: r.rolled_back,
    }
}

pub open spec fn step_of(a: ApplyAction) -> ApplyStep {
    match a {
        ApplyAction::CheckSourceFile { source } => ApplyStep::CheckSourceFile { source: source@ },
        ApplyAction::CheckTargetFile { target } => ApplyStep::CheckTargetFile { target: target@ },
        ApplyAction::LocateBackupRoot => ApplyStep::LocateBackupRoot,
        ApplyAction::CreateBackup { backup_root, target } => ApplyStep::CreateBackup {
            backup_root: backup_root@,
            target: target@,
        },
        ApplyAction::CopySourceToTemp { source, target } => ApplyStep::CopySourceToTemp {
            source: source@,
            target: target@,
        },
        ApplyAction::RollBack { backup_path, target } => ApplyStep::RollBack {
            backup_path: backup_path@,
            target: target@,
        },
        ApplyAction::HashSource { source } => ApplyStep::HashSource { source: source@ },
        ApplyAction::HashTemp { target } => ApplyStep::HashTemp { target: target@ },
        ApplyAction::RemoveTemp { target } => ApplyStep::RemoveTemp { target: target@ },
        ApplyAction::RenameTempToTarget { target } => ApplyStep::RenameTempToTarget {
            target: target@,
        },
        ApplyAction::HashTarget { target } => ApplyStep::HashTarget { target: target@ },
        ApplyAction::Log { game_id, message } => ApplyStep::Log {
            game_id: game_id@,
            message: message@,
        },
        ApplyAction::Finish(r) => ApplyStep::Finish(result_view(r)),
    }
}

/// Index of the first operation of kind `kind`; `ops.len()` if there is none.
pub open spec fn first_op_from(ops: Seq<Operation>, kind: Seq<char>, from: int) -> int
    decreases ops.len() - from,
{
    if from >= ops.len() {
        ops.len() as int
    } else if from >= 0 && ops[from].op_type@ == kind {
        from
    } else {
        first_op_from(ops, kind, from + 1)
    }
}

pub open spec fn first_op(ops: Seq<Operation>, kind: Seq<char>) -> int {
    first_op_from(ops, kind, 0)
}

pub open spec fn failure(message: Seq<char>, backup_path: Option<Seq<char>>, rolled_back: bool) -> ApplyStep {
    ApplyStep::Finish(
        ResultView { success: false, message, backup_path, rolled_back },
    )
}

/// Remove the temporary file, then report the failure.
pub open spec fn after_removing_temp(p: ApplyProgress, target: Seq<char>, f: ApplyStep) -> ApplyStep {
    if !p.temp_removed {
        ApplyStep::RemoveTemp { target }
    } else {
        f
    }
}

/// Roll back until `n` rollbacks are done, then report the failure, rolled
/// back as the last rollback went.
pub open spec fn after_rollbacks(
    p: ApplyProgress,
    n: int,
    backup_path: Seq<char>,
    target: Seq<char>,
    message: Seq<char>,
) -> ApplyStep {
    if p.rollbacks@.len() < n {
        ApplyStep::RollBack { backup_path, target }
    } else {
        failure(message, Some(backup_path), p.rollbacks@[n - 1])
    }
}

/// The next step of applying `plan`, given the outcomes recorded in `p`.
pub open spec fn next_apply_step(plan: ApplyPlan, p: ApplyProgress) -> ApplyStep {
    let ops = plan.operations@;
    let c = first_op(ops, "copy_replace"@);
    let b = first_op(ops, "backup"@);
    if c >= ops.len() {
        failure("Apply plan has no copy_replace operation"@, None, false)
    } else if b >= ops.len() {
        failure("Apply plan has no backup operation"@, None, false)
    } else {
        let source = ops[c].from@;
        let target = ops[b].from@;
        match p.source_is_file {
            None => ApplyStep::CheckSourceFile { source },
            Some(false) => failure("Source file does not exist: "@ + source, None, false),
            Some(true) => match p.target_is_file {
                None => ApplyStep::CheckTargetFile { target },
                Some(false) => failure("Target file does not exist: "@ + target, None, false),
                Some(true) => match p.backup_root {
                    None => ApplyStep::LocateBackupRoot,
                    Some(Err(e)) => failure("Failed to get backup directory: "@ + e@, None, false),
                    Some(Ok(root)) => match p.backup {
                        None => ApplyStep::CreateBackup { backup_root: root@, target },
                        Some(Err(e)) => failure("Failed to create backup: "@ + e@, None, false),
                        Some(Ok(bp)) => next_after_backup(plan, p, source, target, bp@),
                    },
                },
            },
        }
    }
}

/// The steps once the backup exists at `bp`.
pub open spec fn next_after_backup(
    plan: ApplyPlan,
    p: ApplyProgress,
    source: Seq<char>,
    target: Seq<char>,
    bp: Seq<char>,
) -> ApplyStep {
    match p.copy {
        None => ApplyStep::CopySourceToTemp { source, target },
        Some(Err(e)) => after_rollbacks(
            p,
            2,
            bp,
            target,
            "Failed to copy source to temp file: "@ + e@,
        ),
        Some(Ok(())) => match p.source_hash {
            None => ApplyStep::HashSource { source },
            Some(Err(e)) => after_removing_temp(
                p,
                target,
                failure("Failed to compute SHA-256 of source: "@ + e@, Some(bp), false),
            ),
            Some(Ok(sh)) => match p.temp_hash {
                None => ApplyStep::HashTemp { target },
                Some(Err(e)) => after_removing_temp(
                    p,
                    target,
                    failure("Failed to compute SHA-256 of temp file: "@ + e@, Some(bp), false),
                ),
                Some(Ok(th)) => if sh@ != th@ {
                    after_removing_temp(
                        p,
                        target,
                        failure(
                            "SHA-256 mismatch after copy: source="@ + sh@ + ", temp="@ + th@,
                            Some(bp),
                            false,
                        ),
                    )
                } else {
                    next_after_copy_checked(plan, p, target, bp, sh@)
                },
            },
        },
    }
}

/// The steps once the copy in the temporary file matches the source (`sh`).
pub open spec fn next_after_copy_checked(
    plan: ApplyPlan,
    p: ApplyProgress,
    target: Seq<char>,
    bp: Seq<char>,
    sh: Seq<char>,
) -> ApplyStep {
    match p.rename {
        None => ApplyStep::RenameTempToTarget { target },
        Some(Err(e)) => after_removing_temp(
            p,
            target,
            after_rollbacks(p, 1, bp, target, "Failed to rename temp file to target: "@ + e@),
        ),
        Some(Ok(())) => match p.final_hash {
            None => ApplyStep::HashTarget { target },
            Some(Err(e)) => after_rollbacks(p, 1, bp, target, "Failed to verify final target: "@ + e@),
            Some(Ok(fh)) => if fh@ != sh {
                after_rollbacks(
                    p,
                    1,
                    bp,
                    target,
                    "Final verification failed: expected "@ + sh + ", got "@ + fh@,
                )
            } else if !p.logged {
                ApplyStep::Log {
                    game_id: plan.game_id@,
                    message: "Applied "@ + plan.text_language@ + " text to "@ + plan.voice_language@
                        + " voice (backup: "@ + bp + ")"@,
                }
            } else {
                ApplyStep::Finish(
                    ResultView {
                        success: true,
                        message: "Successfully applied "@ + plan.text_language@
                            + " text language to "@ + plan.voice_language@
                            + " voice language pack"@,
                        backup_path: Some(bp),
                        rolled_back: false,
                    },
                )
            },
        },
    }
}

/// Progress before any step.
pub fn new_apply_progress() -> (p: ApplyProgress)
    ensures
        p.source_is_file is None,
        p.target_is_file is None,
        p.backup_root is None,
        p.backup is None,
        p.copy is None,
        p.source_hash is None,
        p.temp_hash is None,
        !p.temp_removed,
        p.rename is None,
        p.final_hash is None,
        p.rollbacks@.len() == 0,
        !p.logged,
{
    ApplyProgress {
        source_is_file: None,
        target_is_file: None,
        backup_root: None,
        backup: None,
        copy: None,
        source_hash: None,
        temp_hash: None,
        temp_removed: false,
        rename: None,
        final_hash: None,
        rollbacks: Vec::new(),
        logged: false,
    }
}

fn find_op(ops: &Vec<Operation>, kind: &str) -> (i: usize)
    ensures
        i == first_op(ops@, kind@),
        i <= ops@.len(),
{
    let mut i: usize = 0;
    while i < ops.len()
        invariant
            i <= ops.len(),
            first_op(ops@, kind@) == first_op_from(ops@, kind@, i as int),
        decreases ops.len() - i,
    {
        if str_eq(ops[i].op_type.as_str(), kind) {
            return i;
        }
        i = i + 1;
    }
    i
}

fn fail(message: String, backup_path: Option<String>, rolled_back: bool) -> (a: ApplyAction)
    ensures
        step_of(a) == failure(message@, opt_seq(backup_path), rolled_back),
{
    ApplyAction::Finish(ApplyResult { success: false, message, backup_path, rolled_back })
}

fn cat(a: &str, b: &str) -> (r: String)
    ensures
        r@ == a@ + b@,
{
    a.to_owned().concat(b)
}

/// The next step of applying `plan`, given the outcomes recorded in `p`;
/// see `next_apply_step`.
pub fn next_apply_action(plan: &ApplyPlan, p: &ApplyProgress) -> (a: ApplyAction)
    ensures
        step_of(a) == next_apply_step(*plan, *p),
{
    let ops = &plan.operations;
    let c = find_op(ops, "copy_replace");
    let b = find_op(ops, "backup");
    if c >= ops.len() {
        return fail(String::from_str("Apply plan has no copy_replace operation"), None, false);
    }
    if b >= ops.len() {
        return fail(String::from_str("Apply plan has no backup operation"), None, false);
    }
    let source = &ops[c].from;
    let target = &ops[b].from;
    match p.source_is_file {
        None => {
            return ApplyAction::CheckSourceFile { source: source.clone() };
        },
        Some(false) => {
            return fail(cat("Source file does not exist: ", source.as_str()), None, false);
        },
        Some(true) => {},
    }
    match p.target_is_file {
        None => {
            return ApplyAction::CheckTargetFile { target: target.clone() };
        },
        Some(false) => {
            return fail(cat("Target file does not exist: ", target.as_str()), None, false);
        },
        Some(true) => {},
    }
    let root = match &p.backup_root {
        None => {
            return ApplyAction::LocateBackupRoot;
        },
        Some(Err(e)) => {
            return fail(cat("Failed to get backup directory: ", e.as_str()), None, false);
        },
        Some(Ok(root)) => root,
    };
    let bp = match &p.backup {
        None => {
            return ApplyAction::CreateBackup { backup_root: root.clone(), target: target.clone() };
        },
        Some(Err(e)) => {
            return fail(cat("Failed to create backup: ", e.as_str()), None, false);
        },
        Some(Ok(bp)) => bp,
    };
    after_backup(plan, p, source, target, bp)
}

fn rollback_or_fail(p: &ApplyProgress, n: usize, bp: &String, target: &String, message: String) -> (a: ApplyAction)
    requires
        1 <= n <= 2,
    ensures
        step_of(a) == after_rollbacks(*p, n as int, bp@, target@, message@),
{
    if p.rollbacks.len() < n {
        ApplyAction::RollBack { backup_path: bp.clone(), target: target.clone() }
    } else {
        fail(message, Some(bp.clone()), p.rollbacks[n - 1])
    }
}

fn after_backup(plan: &ApplyPlan, p: &ApplyProgress, source: &String, target: &String, bp: &String) -> (a: ApplyAction)
    ensures
        step_of(a) == next_after_backup(*plan, *p, source@, target@, bp@),
{
    match &p.copy {
        None => {
            return ApplyAction::CopySourceToTemp { source: source.clone(), target: target.clone() };
        },
        Some(Err(e)) => {
            return rollback_or_fail(p, 2, bp, target, cat("Failed to copy source to temp file: ", e.as_str()));
        },
        Some(Ok(())) => {},
    }
    let sh = match &p.source_hash {
        None => {
            return ApplyAction::HashSource { source: source.clone() };
        },
        Some(Err(e)) => {
            if !p.temp_removed {
                return ApplyAction::RemoveTemp { target: target.clone() };
            }
            return fail(cat("Failed to compute SHA-256 of source: ", e.as_str()), Some(bp.clone()), false);
        },
        Some(Ok(h)) => h,
    };
    let th = match &p.temp_hash {
        None => {
            return ApplyAction::HashTemp { target: target.clone() };
        },
        Some(Err(e)) => {
            if !p.temp_removed {
                return ApplyAction::RemoveTemp { target: target.clone() };
            }
            return fail(cat("Failed to compute SHA-256 of temp file: ", e.as_str()), Some(bp.clone()), false);
        },
        Some(Ok(h)) => h,
    };
    if !str_eq(sh.as_str(), th.as_str()) {
        if !p.temp_removed {
            return ApplyAction::RemoveTemp { target: target.clone() };
        }
        let msg = cat("SHA-256 mismatch after copy: source=", sh.as_str()).concat(", temp=").concat(th.as_str());
        return fail(msg, Some(bp.clone()), false);
    }
    after_copy_checked(plan, p, target, bp, sh)
}

fn after_copy_checked(plan: &ApplyPlan, p: &ApplyProgress, target: &String, bp: &String, sh: &String) -> (a: ApplyAction)
    ensures
        step_of(a) == next_after_copy_checked(*plan, *p, target@, bp@, sh@),
{
    match &p.rename {
        None => {
            return ApplyAction::RenameTempToTarget { target: target.clone() };
        },
        Some(Err(e)) => {
            if !p.temp_removed {
                return ApplyAction::RemoveTemp { target: target.clone() };
            }
            return rollback_or_fail(p, 1, bp, target, cat("Failed to rename temp file to target: ", e.as_str()));
        },
        Some(Ok(())) => {},
    }
    let fh = match &p.final_hash {
        None => {
            return ApplyAction::HashTarget { target: target.clone() };
        },
        Some(Err(e)) => {
            return rollback_or_fail(p, 1, bp, target, cat("Failed to verify final target: ", e.as_str()));
        },
        Some(Ok(h)) => h,
    };
    if !str_eq(fh.as_str(), sh.as_str()) {
        let msg = cat("Final verification failed: expected ", sh.as_str()).concat(", got ").concat(fh.as_str());
        return rollback_or_fail(p, 1, bp, target, msg);
    }
    if !p.logged {
        let msg = cat("Applied ", plan.text_language.as_str()).concat(" text to ").concat(
            plan.voice_language.as_str(),
        ).concat(" voice (backup: ").concat(bp.as_str()).concat(")");
        return ApplyAction::Log { game_id: plan.game_id.clone(), message: msg };
    }
    let msg = cat("Successfully applied ", plan.text_language.as_str()).concat(" text language to ").concat(
        plan.voice_language.as_str(),
    ).concat(" voice language pack");
    ApplyAction::Finish(
        ApplyResult { success: true, message: msg, backup_path: Some(bp.clone()), rolled_back: false },
    )
}

/// `req` is the backup that the step `CreateBackup { backup_root, target }` of
/// `plan` asks for, for the game of `profile`, made at `timestamp` /
/// `created_at`: it saves `target` and hashes, as the content to be applied,
/// the source of the plan's first `copy_replace` operation.
pub open spec fn is_backup_request_for(
    req: BackupRequest,
    plan: ApplyPlan,
    profile: GameProfile,
    backup_root: Seq<char>,
    target: Seq<char>,
    timestamp: Seq<char>,
    created_at: Seq<char>,
) -> bool {
    let ops = plan.operations@;
    &&& req.backup_root@ == backup_root
    &&& req.game_id@ == plan.game_id@
    &&& req.channel@ == profile.channel@
    &&& req.game_root@ == profile.root_path@
    &&& req.resource_dir@ == profile.resource_path@
    &&& req.voice_lang@ == plan.voice_language@
    &&& req.text_lang@ == plan.text_language@
    &&& req.target_path@ == target
    &&& req.target_file@ == plan.target_file@
    &&& req.source_file@ == plan.source_file@
    &&& req.source_path@ == ops[first_op(ops, "copy_replace"@)].from@
    &&& req.timestamp@ == timestamp
    &&& req.created_at@ == created_at
}

/// The backup request for the step `CreateBackup { backup_root, target }` of
/// `plan`; `None` when the plan has no `copy_replace` operation (no such step
/// is ever asked for then).
pub fn backup_request_for(
    plan: &ApplyPlan,
    profile: &GameProfile,
    backup_root: &str,
    target: &str,
    timestamp: &str,
    created_at: &str,
) -> (r: Option<BackupRequest>)
    ensures
        r is Some <==> first_op(plan.operations@, "copy_replace"@) < plan.operations@.len(),
        r matches Some(req) ==> is_backup_request_for(
            req,
            *plan,
            *profile,
            backup_root@,
            target@,
            timestamp@,
            created_at@,
        ),
{
    let c = find_op(&plan.operations, "copy_replace");
    if c >= plan.operations.len() {
        return None;
    }
    Some(
        BackupRequest {
            backup_root: backup_root.to_owned(),
            game_id: plan.game_id.clone(),
            channel: profile.channel.clone(),
            game_root: profile.root_path.clone(),
            resource_dir: profile.resource_path.clone(),
            voice_lang: plan.voice_language.clone(),
            text_lang: plan.text_language.clone(),
            target_path: target.to_owned(),
            target_file: plan.target_file.clone(),
            source_file: plan.source_file.clone(),
            source_path: plan.operations[c].from.clone(),
            timestamp: timestamp.to_owned(),
            created_at: created_at.to_owned(),
        },
    )
}

// ---------------------------------------------------------------------------
// Laws
// ---------------------------------------------------------------------------
/// An apply reports success only when the backup was made, the copy and the
/// rename succeeded, the temporary copy and the final target both hash to the
/// source's SHA-256, and the success was logged; it then names the backup and
/// reports no rollback.
pub proof fn law_success_is_verified(plan: ApplyPlan, p: ApplyProgress)
    ensures
        match next_apply_step(plan, p) {
            ApplyStep::Finish(r) => r.success ==> {
                &&& (p.backup matches Some(Ok(bp)) && r.backup_path == Some(bp@))
                &&& (p.copy matches Some(Ok(_)))
                &&& (p.rename matches Some(Ok(_)))
                &&& (p.source_hash matches Some(Ok(sh)) && (p.temp_hash matches Some(Ok(th))
                    && th@ == sh@) && (p.final_hash matches Some(Ok(fh)) && fh@ == sh@))
                &&& p.logged
                &&& !r.rolled_back
            },
            _ => true,
        },
{
    let s = next_apply_step(plan, p);
    if let ApplyStep::Finish(r) = s {
        if r.success {
            assert(p.backup matches Some(Ok(bp)) && r.backup_path == Some(bp@));
            assert(p.logged);
        }
    }
}

/// Every step that writes a file (the temporary copy, the rename over the
/// target, a rollback) comes after the backup was made; the rename comes only
/// once the temporary copy hashed to the source's SHA-256.
pub proof fn law_backup_before_modification(plan: ApplyPlan, p: ApplyProgress)
    ensures
        next_apply_step(plan, p) is CopySourceToTemp || next_apply_step(plan, p) is RollBack
            || next_apply_step(plan, p) is RenameTempToTarget ==> (p.backup matches Some(Ok(_))),
        next_apply_step(plan, p) is RenameTempToTarget ==> (p.source_hash matches Some(Ok(sh))
            && (p.temp_hash matches Some(Ok(th)) && sh@ == th@)),
{
}

/// A result names a backup only if that backup was made, and once the backup
/// is made every result of a plan that has both operations names it.
pub proof fn law_backup_path_reported(plan: ApplyPlan, p: ApplyProgress)
    ensures
        match next_apply_step(plan, p) {
            ApplyStep::Finish(r) => {
                &&& r.backup_path is Some ==> (p.backup matches Some(Ok(bp)) && r.backup_path == Some(bp@))
                &&& (first_op(plan.operations@, "copy_replace"@) < plan.operations@.len()
                    && first_op(plan.operations@, "backup"@) < plan.operations@.len()
                    && p.source_is_file == Some(true) && p.target_is_file == Some(true)
                    && (p.backup_root matches Some(Ok(_)))) ==> match p.backup {
                    Some(Ok(bp)) => r.backup_path == Some(bp@),
                    _ => true,
                }
            },
            _ => true,
        },
{
}

/// A result reports a rollback only for a failure, and only when a rollback
/// restored the target.
pub proof fn law_rollback_reported(plan: ApplyPlan, p: ApplyProgress)
    ensures
        match next_apply_step(plan, p) {
            ApplyStep::Finish(r) => r.rolled_back ==> !r.success && exists|i: int|
                0 <= i < p.rollbacks@.len() && p.rollbacks@[i],
            _ => true,
        },
{
}


/// The backup made for an apply saves the very file that the apply overwrites,
/// and records as the applied content the hash of the very file that the apply
/// copies over it: the path the backup hashes as its source is the path the
/// apply copies to the temporary file and hashes as its source, and the
/// manifest it writes records that hash.
pub proof fn law_backup_hashes_applied_source(
    plan: ApplyPlan,
    p: ApplyProgress,
    q: ApplyProgress,
    profile: GameProfile,
    timestamp: Seq<char>,
    created_at: Seq<char>,
    req: BackupRequest,
    bp: BackupProgress,
    m: BackupManifest,
)
    requires
        next_apply_step(plan, p) matches ApplyStep::CreateBackup { backup_root, target }
            && is_backup_request_for(req, plan, profile, backup_root, target, timestamp, created_at),
    ensures
        next_apply_step(plan, q) matches ApplyStep::CopySourceToTemp { source, target } ==> source
            == req.source_path@ && target == req.target_path@,
        next_apply_step(plan, q) matches ApplyStep::HashSource { source } ==> source == req.source_path@,
        next_apply_step(plan, q) matches ApplyStep::RenameTempToTarget { target } ==> target
            == req.target_path@,
        next_backup_step(req, bp) matches BackupStep::HashSource { source_path } ==> source_path
            == req.source_path@,
        next_backup_step(req, bp) is WriteManifest && manifest_of_backup(m, req, bp) ==> (bp.source_hash
            matches Some(applied) && opt_string_seq(m.applied_sha256) == opt_string_seq(applied)),
{
}


/// `q` records the same outcomes as `p` for every step up to the rename.
pub open spec fn same_until_rename(p: ApplyProgress, q: ApplyProgress) -> bool {
    &&& q.source_is_file == p.source_is_file
    &&& q.target_is_file == p.target_is_file
    &&& q.backup_root == p.backup_root
    &&& q.backup == p.backup
    &&& q.copy == p.copy
    &&& q.source_hash == p.source_hash
    &&& q.temp_hash == p.temp_hash
}

/// A failed apply reports the rollback as it went: once a rollback asked for
/// has been performed (and recorded as `went`), the apply either rolls back
/// again or fails reporting `rolled_back == went`, the outcome of that last
/// rollback.
pub proof fn law_rollback_outcome_reported(plan: ApplyPlan, p: ApplyProgress, q: ApplyProgress, went: bool)
    requires
        next_apply_step(plan, p) is RollBack,
        same_until_rename(p, q),
        q.temp_removed == p.temp_removed,
        q.rename == p.rename,
        q.final_hash == p.final_hash,
        q.logged == p.logged,
        q.rollbacks@ == p.rollbacks@.push(went),
    ensures
        next_apply_step(plan, q) is RollBack || (next_apply_step(plan, q) matches ApplyStep::Finish(r)
            && !r.success && r.rolled_back == went),
{
}

/// Once the rename over the target was asked for and succeeded, the target
/// is overwritten: whatever comes of the later steps, the apply fails only
/// after rolling the target back from the backup.
pub proof fn law_overwritten_target_rolled_back(plan: ApplyPlan, p: ApplyProgress, q: ApplyProgress)
    requires
        next_apply_step(plan, p) is RenameTempToTarget,
        same_until_rename(p, q),
        q.rename == Some(Ok::<(), String>(())),
    ensures
        next_apply_step(plan, q) matches ApplyStep::Finish(r) && !r.success ==> q.rollbacks@.len() >= 1,
{
}

} // verus!
