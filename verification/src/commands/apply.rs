//! The decisions around an apply: which Steam language to set after it,
//! the game-running check before it, and re-applying the latest configuration.
use vstd::prelude::*;

use crate::engine::apply_engine::{
    is_backup_request_for, law_success_is_verified, next_apply_step, ApplyProgress, ApplyResult, ApplyStep,
};
use crate::engine::backup_manager::{manifest_of_backup, next_backup_step, BackupManifest, BackupProgress, BackupRequest};
use crate::engine::language_mapper::{is_plan_for, ApplyPlan, ResourceFile};
use crate::engine::restore_engine::{law_restore_success_is_verified, next_restore_step, RestoreProgress, RestoreStep};
use crate::engine::backup_manager::BackupInfo;
use crate::engine::game_detector::{GameProfile, game_profile, game_root_of, is_profile, parse_game_id, third_ancestor, GameId};
use crate::engine::steam_language::{code_to_steam_language, steam_language_of};
use crate::commands::status::process_listed;
use crate::text::{contains_seq, uppercase_of};

verus! {

/// The backup that a re-apply starts from: the first of the listing (the
/// newest); an error when there is none.
pub fn latest_backup(backups: &Vec<BackupInfo>) -> (res: Result<usize, String>)
    ensures
        match res {
            Ok(i) => i == 0 && backups@.len() > 0,
            Err(e) => backups@.len() == 0 && e@ == "No backup found to re-apply"@,
        },
{
    if backups.len() == 0 {
        Err(String::from_str("No backup found to re-apply"))
    } else {
        Ok(0)
    }
}

/// The result of a re-apply whose restore of the original failed with `message`.
pub fn restore_failed_result(message: &str) -> (r: ApplyResult)
    ensures
        !r.success,
        r.message@ == "Failed to restore before re-apply: "@ + message@,
        r.backup_path is None,
        !r.rolled_back,
{
    ApplyResult {
        success: false,
        message: String::from_str("Failed to restore before re-apply: ").concat(message),
        backup_path: None,
        rolled_back: false,
    }
}

/// The profile that an apply works with, for the game `game_id` whose
/// language packs are in `resource_path` (its `media/Stripped/StringTables`):
/// the game's root is three directories above. An error for an unknown game,
/// and for a resource path without three directories above it.
pub fn profile_for_resource(game_id: &str, resource_path: &str) -> (res: Result<GameProfile, String>)
    ensures
        game_id@ != "fh5"@ && game_id@ != "fh6"@ ==> res is Err && res->Err_0@ == "Unknown game_id: "@
            + game_id@,
        (game_id@ == "fh5"@ || game_id@ == "fh6"@) && third_ancestor(resource_path@) is None ==> res is Err
            && res->Err_0@ == "Cannot derive game root from resource path: "@ + resource_path@,
        (game_id@ == "fh5"@ || game_id@ == "fh6"@) && third_ancestor(resource_path@) is Some ==> res is Ok,
        res matches Ok(p) ==> (game_id@ == "fh5"@ || game_id@ == "fh6"@) && third_ancestor(
            resource_path@,
        ) is Some && is_profile(
            p,
            if game_id@ == "fh5"@ {
                GameId::Fh5
            } else {
                GameId::Fh6
            },
            third_ancestor(resource_path@)->0,
            resource_path@,
        ),
{
    let id = match parse_game_id(game_id) {
        Ok(id) => id,
        Err(e) => {
            return Err(e);
        },
    };
    proof {
        reveal_strlit("fh5");
        reveal_strlit("fh6");
        assert("fh5"@ != "fh6"@) by {
            assert("fh5"@[2] != "fh6"@[2]);
        }
    }
    match game_root_of(resource_path) {
        None => Err(String::from_str("Cannot derive game root from resource path: ").concat(resource_path)),
        Some(root) => Ok(game_profile(id, root.as_str(), resource_path)),
    }
}

/// What to write into the game's Steam app manifest after an apply: the app
/// manifest's path and the Steam name of the voice language. Set only after a
/// successful apply, when the manifest is known and the voice code has a
/// Steam name; `None` otherwise.
pub fn steam_language_to_set(result: &ApplyResult, manifest_path: Option<&str>, voice_lang: &str) -> (r:
    Option<(String, String)>)
    ensures
        r is Some <==> result.success && manifest_path is Some && steam_language_of(
            uppercase_of(voice_lang@),
        ) is Some,
        r matches Some((path, language)) ==> path@ == manifest_path->0@ && Some(language@)
            == steam_language_of(uppercase_of(voice_lang@)),
{
    if !result.success {
        return None;
    }
    match manifest_path {
        None => None,
        Some(path) => match code_to_steam_language(voice_lang) {
            None => None,
            Some(language) => Some((path.to_owned(), language.to_owned())),
        },
    }
}

/// Whether the game `game_id` is running, from the output of the process
/// listing (`None` when the listing could not be had, which counts as not
/// running); an error for an unknown game, for which no listing is asked.
pub fn game_running(game_id: &str, listing: Option<&str>) -> (r: Result<bool, String>)
    ensures
        game_id@ == "fh5"@ || game_id@ == "fh6"@ ==> r is Ok,
        game_id@ != "fh5"@ && game_id@ != "fh6"@ ==> r is Err && r->Err_0@ == "Unknown game_id: "@
            + game_id@,
        r matches Ok(running) ==> running == match listing {
            Some(out) => contains_seq(
                out@,
                if game_id@ == "fh5"@ {
                    "ForzaHorizon5.exe"@
                } else {
                    "forzahorizon6.exe"@
                },
            ),
            None => false,
        },
{
    let id = match parse_game_id(game_id) {
        Ok(id) => id,
        Err(e) => {
            return Err(e);
        },
    };
    proof {
        reveal_strlit("fh5");
        reveal_strlit("fh6");
        assert("fh5"@ != "fh6"@) by {
            assert("fh5"@[2] != "fh6"@[2]);
        }
    }
    match listing {
        None => Ok(false),
        Some(out) => Ok(process_listed(out, id)),
    }
}


/// A re-apply restores the latest backup (manifest `m`), then applies the same
/// voice and text languages again: the new backup records the same languages
/// and, the target being as the restore left it, the same original SHA-256 as
/// the latest backup did, so a later restore still gives back the true
/// original; and the re-apply succeeds only with the target holding the
/// current source pack (its final hash is the source's).
pub proof fn law_reapply_keeps_original(
    m: BackupManifest,
    rp: RestoreProgress,
    plan: ApplyPlan,
    game_id: Seq<char>,
    files: Seq<ResourceFile>,
    backup_dir: Seq<char>,
    p: ApplyProgress,
    profile: GameProfile,
    timestamp: Seq<char>,
    created_at: Seq<char>,
    req: BackupRequest,
    bp: BackupProgress,
    m2: BackupManifest,
    q: ApplyProgress,
)
    requires
        rp.manifest == Some(Ok::<BackupManifest, String>(m)),
        next_restore_step(rp) matches RestoreStep::Finish { success, .. } && success,
        is_plan_for(plan, game_id, m.voice_language@, m.text_language@, files, backup_dir),
        next_apply_step(plan, p) matches ApplyStep::CreateBackup { backup_root, target }
            && is_backup_request_for(req, plan, profile, backup_root, target, timestamp, created_at),
        next_backup_step(req, bp) is WriteManifest,
        manifest_of_backup(m2, req, bp),
        bp.target_hash == rp.final_hash,
    ensures
        m2.voice_language@ == m.voice_language@,
        m2.text_language@ == m.text_language@,
        m2.files@.len() > 0 && m.files@.len() > 0 && m2.files@[0].original_sha256@
            == m.files@[0].original_sha256@,
        next_apply_step(plan, q) matches ApplyStep::Finish(r) && r.success ==> (q.source_hash matches Some(
            Ok(sh),
        ) && (q.final_hash matches Some(Ok(fh)) && fh@ == sh@)),
{
    law_restore_success_is_verified(rp);
    law_success_is_verified(plan, q);
}

} // verus!
