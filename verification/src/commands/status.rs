//! The configuration state of a game, and whether the game is running.
use vstd::prelude::*;

use crate::engine::backup_manager::BackupManifest;
use crate::engine::game_detector::{executable_name_view, GameId};
use crate::engine::steam_language::str_eq;
use crate::text::{contains, contains_seq};

verus! {

/// What the status page shows of a game's configuration.
#[derive(Debug, Clone)]
pub struct ConfigStatus {
    pub state: String,
    pub game_id: Option<String>,
    pub voice_language: Option<String>,
    pub text_language: Option<String>,
    pub last_applied: Option<String>,
}

pub open spec fn opt_view(o: Option<&str>) -> Option<Seq<char>> {
    match o {
        Some(s) => Some(s@),
        None => None,
    }
}

pub open spec fn opt_string_view(o: Option<String>) -> Option<Seq<char>> {
    match o {
        Some(s) => Some(s@),
        None => None,
    }
}

/// The state of the target (voice) pack, from the hash of the file on disk
/// (`current`), of the latest source text pack (`source`, when readable), of
/// the original recorded in the backup (`original`) and of what the apply
/// wrote (`applied`, absent in older backups). The first that holds wins:
/// equal to the source: `"applied"`; to the original: `"reverted"`; to what
/// was applied: `"outdated"`; otherwise `"modified"`.
pub open spec fn classify(
    current: Seq<char>,
    source: Option<Seq<char>>,
    original: Option<Seq<char>>,
    applied: Option<Seq<char>>,
) -> Seq<char> {
    if source == Some(current) {
        "applied"@
    } else if original == Some(current) {
        "reverted"@
    } else if applied == Some(current) {
        "outdated"@
    } else {
        "modified"@
    }
}

fn opt_eq(o: Option<&str>, s: &str) -> (res: bool)
    ensures
        res == (opt_view(o) == Some(s@)),
{
    match o {
        Some(x) => str_eq(x, s),
        None => false,
    }
}

/// See `classify`.
pub fn classify_state(
    current: &str,
    source: Option<&str>,
    original: Option<&str>,
    applied: Option<&str>,
) -> (res: &'static str)
    ensures
        res@ == classify(current@, opt_view(source), opt_view(original), opt_view(applied)),
{
    if opt_eq(source, current) {
        "applied"
    } else if opt_eq(original, current) {
        "reverted"
    } else if opt_eq(applied, current) {
        "outdated"
    } else {
        "modified"
    }
}

/// The status when the game has no backup: `"none"`, nothing else known.
pub fn status_without_backup() -> (s: ConfigStatus)
    ensures
        s.state@ == "none"@,
        s.game_id is None,
        s.voice_language is None,
        s.text_language is None,
        s.last_applied is None,
{
    ConfigStatus {
        state: String::from_str("none"),
        game_id: None,
        voice_language: None,
        text_language: None,
        last_applied: None,
    }
}

/// The original hash that a manifest records: that of its first file entry.
pub open spec fn recorded_original(m: BackupManifest) -> Option<Seq<char>> {
    if m.files@.len() > 0 {
        Some(m.files@[0].original_sha256@)
    } else {
        None
    }
}

/// The status against the latest backup `latest`, given the hash of the
/// target file on disk and that of the source text pack (when readable).
pub fn status_of_backup(latest: &BackupManifest, current_hash: &str, source_hash: Option<&str>) -> (s: ConfigStatus)
    ensures
        s.state@ == classify(
            current_hash@,
            opt_view(source_hash),
            recorded_original(*latest),
            opt_string_view(latest.applied_sha256),
        ),
        opt_string_view(s.game_id) == Some(latest.game@),
        opt_string_view(s.voice_language) == Some(latest.voice_language@),
        opt_string_view(s.text_language) == Some(latest.text_language@),
        opt_string_view(s.last_applied) == Some(latest.created_at@),
{
    let original: Option<&str> = if latest.files.len() > 0 {
        Some(latest.files[0].original_sha256.as_str())
    } else {
        None
    };
    let applied: Option<&str> = match &latest.applied_sha256 {
        Some(a) => Some(a.as_str()),
        None => None,
    };
    let state = classify_state(current_hash, source_hash, original, applied);
    ConfigStatus {
        state: state.to_owned(),
        game_id: Some(latest.game.clone()),
        voice_language: Some(latest.voice_language.clone()),
        text_language: Some(latest.text_language.clone()),
        last_applied: Some(latest.created_at.clone()),
    }
}

/// Whether the output of the process listing names the game's executable.
pub fn process_listed(listing: &str, game_id: GameId) -> (res: bool)
    ensures
        res == contains_seq(listing@, executable_name_view(game_id)),
{
    contains(listing, crate::engine::game_detector::executable_name(game_id))
}

/// Right after an apply succeeds, the target holds the source pack's content:
/// while the source pack is unchanged, the status is `"applied"`.
pub proof fn law_status_after_apply(
    current: Seq<char>,
    original: Option<Seq<char>>,
    applied: Option<Seq<char>>,
)
    ensures
        classify(current, Some(current), original, applied) == "applied"@,
{
}

/// Right after a restore succeeds, the target holds the recorded original:
/// unless the source pack has that same content, the status is `"reverted"`.
pub proof fn law_status_after_restore(
    original: Seq<char>,
    source: Option<Seq<char>>,
    applied: Option<Seq<char>>,
)
    requires
        source != Some(original),
    ensures
        classify(original, source, Some(original), applied) == "reverted"@,
{
}

/// When the override is intact but the source pack was updated since, the
/// status is `"outdated"`, provided the backup recorded what was applied.
pub proof fn law_status_outdated(
    current: Seq<char>,
    source: Option<Seq<char>>,
    original: Option<Seq<char>>,
)
    requires
        source != Some(current),
        original != Some(current),
    ensures
        classify(current, source, original, Some(current)) == "outdated"@,
        classify(current, source, original, None) == "modified"@,
{
}


/// What each state means of the hashes: `"applied"` exactly when the target
/// holds the current source pack; `"reverted"` exactly when it holds the
/// original and not the source; `"outdated"` exactly when it holds what was
/// applied but neither the source nor the original; and `"modified"` exactly
/// when it holds none of the three, whatever was recorded as applied.
pub proof fn law_status_meaning(
    current: Seq<char>,
    source: Option<Seq<char>>,
    original: Option<Seq<char>>,
    applied: Option<Seq<char>>,
)
    ensures
        (classify(current, source, original, applied) == "applied"@) <==> source == Some(current),
        (classify(current, source, original, applied) == "reverted"@) <==> (source != Some(current)
            && original == Some(current)),
        (classify(current, source, original, applied) == "outdated"@) <==> (source != Some(current)
            && original != Some(current) && applied == Some(current)),
        (classify(current, source, original, applied) == "modified"@) <==> (source != Some(current)
            && original != Some(current) && applied != Some(current)),
{
    reveal_strlit("applied");
    reveal_strlit("reverted");
    reveal_strlit("outdated");
    reveal_strlit("modified");
    assert("applied"@[0] != "reverted"@[0]);
    assert("applied"@[0] != "outdated"@[0]);
    assert("applied"@[0] != "modified"@[0]);
    assert("reverted"@[0] != "outdated"@[0]);
    assert("reverted"@[0] != "modified"@[0]);
    assert("outdated"@[0] != "modified"@[0]);
}

} // verus!
