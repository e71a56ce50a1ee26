//! Backups: the record written beside each saved original
//! language pack, the directory names, and the listing of a game's backups.
use vstd::prelude::*;

use crate::order::{in_order, sort_by_key, sorted_by_key, Keyed};
use crate::text::lex_le;
use crate::text::chars_of;

verus! {

/// What the manifest file of a backup records.
#[derive(Debug, Clone)]
pub struct BackupManifest {
    pub tool_version: String,
    pub game: String,
    pub channel: String,
    pub game_root: String,
    pub resource_directory: String,
    pub voice_language: String,
    pub text_language: String,
    pub target_file: String,
    pub source_file: String,
    pub created_at: String,
    pub files: Vec<BackupFileEntry>,
    /// Hash of the content written over the target at apply time (absent in
    /// backups made before it was recorded).
    pub applied_sha256: Option<String>,
}

/// One saved file: its name under `original/` and the SHA-256 of its content.
#[derive(Debug, Clone)]
pub struct BackupFileEntry {
    pub path: String,
    pub original_sha256: String,
}

/// A backup as the listing shows it.
#[derive(Debug, Clone)]
pub struct BackupInfo {
    pub id: String,
    pub game: String,
    pub voice_language: String,
    pub text_language: String,
    pub created_at: String,
    pub path: String,
    pub valid: bool,
}

impl Keyed for BackupInfo {
    open spec fn key_view(&self) -> Seq<char> {
        self.created_at@
    }

    fn key_chars(&self) -> (k: Vec<char>) {
        chars_of(self.created_at.as_str())
    }
}

/// A directory found under a game's backup directory, with what was read of it.
#[derive(Debug, Clone)]
pub struct FoundBackup {
    /// The directory's name, which identifies the backup.
    pub dir_name: String,
    pub path: String,
    /// Its manifest file, when that could be read.
    pub manifest: Option<BackupManifest>,
    /// Whether the saved original file is still present.
    pub original_present: bool,
}

/// The version recorded in every manifest.
pub open spec fn tool_version_view() -> Seq<char> {
    "1.2.0"@
}

pub fn tool_version() -> (v: &'static str)
    ensures
        v@ == tool_version_view(),
{
    "1.2.0"
}

/// `{timestamp}_{voice}_voice_{text}_text`.
pub open spec fn backup_dir_name_view(timestamp: Seq<char>, voice: Seq<char>, text: Seq<char>) -> Seq<char> {
    timestamp + "_"@ + voice + "_voice_"@ + text + "_text"@
}

/// Name of the directory of a backup made at `timestamp` for the given voice
/// and text languages.
pub fn backup_dir_name(timestamp: &str, voice_lang: &str, text_lang: &str) -> (res: String)
    ensures
        res@ == backup_dir_name_view(timestamp@, voice_lang@, text_lang@),
{
    timestamp.to_owned().concat("_").concat(voice_lang).concat("_voice_").concat(text_lang).concat(
        "_text",
    )
}

/// The manifest of a new backup of `target_file` (a file name), whose content
/// hashed to `original_sha256`.
pub fn new_backup_manifest(
    game_id: &str,
    channel: &str,
    game_root: &str,
    resource_dir: &str,
    voice_lang: &str,
    text_lang: &str,
    target_file: &str,
    source_file: &str,
    created_at: &str,
    original_sha256: &str,
    applied_sha256: Option<&str>,
) -> (m: BackupManifest)
    ensures
        m.tool_version@ == tool_version_view(),
        m.game@ == game_id@,
        m.channel@ == channel@,
        m.game_root@ == game_root@,
        m.resource_directory@ == resource_dir@,
        m.voice_language@ == voice_lang@,
        m.text_language@ == text_lang@,
        m.target_file@ == target_file@,
        m.source_file@ == source_file@,
        m.created_at@ == created_at@,
        m.files@.len() == 1,
        m.files@[0].path@ == target_file@,
        m.files@[0].original_sha256@ == original_sha256@,
        match applied_sha256 {
            Some(a) => m.applied_sha256 is Some && m.applied_sha256->0@ == a@,
            None => m.applied_sha256 is None,
        },
{
    let mut files: Vec<BackupFileEntry> = Vec::new();
    files.push(
        BackupFileEntry { path: target_file.to_owned(), original_sha256: original_sha256.to_owned() },
    );
    let applied = match applied_sha256 {
        Some(a) => Some(a.to_owned()),
        None => None,
    };
    BackupManifest {
        tool_version: tool_version().to_owned(),
        game: game_id.to_owned(),
        channel: channel.to_owned(),
        game_root: game_root.to_owned(),
        resource_directory: resource_dir.to_owned(),
        voice_language: voice_lang.to_owned(),
        text_language: text_lang.to_owned(),
        target_file: target_file.to_owned(),
        source_file: source_file.to_owned(),
        created_at: created_at.to_owned(),
        files,
        applied_sha256: applied,
    }
}

/// The entry of the saved file that a restore or a rollback writes back:
/// the manifest's first file entry.
pub fn first_file_entry(manifest: &BackupManifest) -> (res: Result<BackupFileEntry, String>)
    ensures
        match res {
            Ok(e) => manifest.files@.len() > 0 && e.path@ == manifest.files@[0].path@
                && e.original_sha256@ == manifest.files@[0].original_sha256@,
            Err(msg) => manifest.files@.len() == 0 && msg@ == "Backup manifest has no file entries"@,
        },
{
    if manifest.files.len() == 0 {
        return Err(String::from_str("Backup manifest has no file entries"));
    }
    let e = &manifest.files[0];
    Ok(BackupFileEntry { path: e.path.clone(), original_sha256: e.original_sha256.clone() })
}

/// Whether a found directory is a backup of `game_id`: its manifest was read
/// and names that game.
pub open spec fn is_backup_of(game_id: Seq<char>, f: FoundBackup) -> bool {
    f.manifest is Some && f.manifest->0.game@ == game_id
}

/// How the listing shows a backup whose manifest was read.
pub open spec fn backup_info_of(f: FoundBackup) -> BackupInfo {
    let m = f.manifest->0;
    BackupInfo {
        id: f.dir_name,
        game: m.game,
        voice_language: m.voice_language,
        text_language: m.text_language,
        created_at: m.created_at,
        path: f.path,
        valid: f.original_present,
    }
}

/// The backups of `game_id` among the found directories, as the listing shows them.
pub open spec fn backups_of(game_id: Seq<char>, found: Seq<FoundBackup>) -> Seq<BackupInfo> {
    found.filter(|f: FoundBackup| is_backup_of(game_id, f)).map_values(
        |f: FoundBackup| backup_info_of(f),
    )
}

/// Backups of the two games are kept apart: the listing of a game shows only
/// backups whose manifest names that game.
pub proof fn law_backups_isolated(game_id: Seq<char>, found: Seq<FoundBackup>)
    ensures
        forall|i: int| 0 <= i < backups_of(game_id, found).len() ==> #[trigger] backups_of(game_id, found)[i].game@ == game_id,
{
    let pred = |f: FoundBackup| is_backup_of(game_id, f);
    let kept = found.filter(pred);
    assert forall|i: int| 0 <= i < kept.len() implies pred(#[trigger] kept[i]) by {
        found.filter_lemma(pred);
    }
}

fn string_eq(a: &String, b: &str) -> (res: bool)
    ensures
        res == (a@ == b@),
{
    crate::engine::steam_language::str_eq(a.as_str(), b)
}

/// The backups of a game, newest first: each found directory whose manifest
/// was read and names `game_id`; a backup is valid while its saved original
/// file is present.
pub fn list_backups(game_id: &str, found: Vec<FoundBackup>) -> (res: Vec<BackupInfo>)
    ensures
        res@.to_multiset() == backups_of(game_id@, found@).to_multiset(),
        sorted_by_key(res@, true),
{
    let ghost pred = |f: FoundBackup| is_backup_of(game_id@, f);
    let ghost conv = |f: FoundBackup| backup_info_of(f);
    let mut picked: Vec<BackupInfo> = Vec::new();
    let mut i: usize = 0;
    assert(found@.take(0).filter(pred) =~= Seq::<FoundBackup>::empty());
    while i < found.len()
        invariant
            i <= found.len(),
            pred == (|f: FoundBackup| is_backup_of(game_id@, f)),
            conv == (|f: FoundBackup| backup_info_of(f)),
            picked@ == found@.take(i as int).filter(pred).map_values(conv),
        decreases found.len() - i,
    {
        let f = &found[i];
        proof {
            reveal_with_fuel(Seq::<_>::filter, 1);
            assert(found@.take(i + 1).drop_last() =~= found@.take(i as int));
        }
        match &f.manifest {
            Some(m) => {
                if string_eq(&m.game, game_id) {
                    let info = BackupInfo {
                        id: f.dir_name.clone(),
                        game: m.game.clone(),
                        voice_language: m.voice_language.clone(),
                        text_language: m.text_language.clone(),
                        created_at: m.created_at.clone(),
                        path: f.path.clone(),
                        valid: f.original_present,
                    };
                    picked.push(info);
                    assert(picked@ =~= found@.take(i + 1).filter(pred).map_values(conv));
                } else {
                    assert(picked@ =~= found@.take(i + 1).filter(pred).map_values(conv));
                }
            },
            None => {
                assert(picked@ =~= found@.take(i + 1).filter(pred).map_values(conv));
            },
        }
        i = i + 1;
    }
    assert(found@.take(found.len() as int) =~= found@);
    sort_by_key(picked, true)
}

// ---------------------------------------------------------------------------
// Making a backup
// ---------------------------------------------------------------------------
/// What a backup is made of: the target pack about to be overwritten and the
/// context that its manifest records.
#[derive(Debug, Clone)]
pub struct BackupRequest {
    pub backup_root: String,
    pub game_id: String,
    pub channel: String,
    pub game_root: String,
    pub resource_dir: String,
    pub voice_lang: String,
    pub text_lang: String,
    /// Full path of the target pack.
    pub target_path: String,
    /// File name of the target pack.
    pub target_file: String,
    /// File name of the source (text) pack.
    pub source_file: String,
    /// Full path of the source pack.
    pub source_path: String,
    /// Timestamp for the backup directory's name.
    pub timestamp: String,
    /// Creation time, ISO 8601.
    pub created_at: String,
}

/// The outcomes of the steps of making a backup performed so far.
#[derive(Debug, Clone)]
pub struct BackupProgress {
    /// SHA-256 of the target pack.
    pub target_hash: Option<Result<String, String>>,
    /// The backup's directory (with its `original/` subdirectory) was created.
    pub created_dir: Option<Result<String, String>>,
    /// The target pack was copied into `original/`.
    pub copy: Option<Result<(), String>>,
    /// SHA-256 of the copy.
    pub copy_hash: Option<Result<String, String>>,
    /// SHA-256 of the source pack, when it could be read.
    pub source_hash: Option<Option<String>>,
    /// The manifest file was written.
    pub manifest_written: Option<Result<(), String>>,
}

/// The next step of making a backup, as the caller performs it.
pub enum BackupAction {
    HashTarget { target_path: String },
    CreateBackupDir { backup_root: String, game_id: String, dir_name: String },
    CopyTargetToBackup { target_path: String, backup_dir: String, file_name: String },
    HashCopy { backup_dir: String, file_name: String },
    HashSource { source_path: String },
    WriteManifest { backup_dir: String, manifest: BackupManifest },
    Finish(Result<String, String>),
}

/// `BackupAction` with text taken by content (the manifest is described apart).
pub enum BackupStep {
    HashTarget { target_path: Seq<char> },
    CreateBackupDir { backup_root: Seq<char>, game_id: Seq<char>, dir_name: Seq<char> },
    CopyTargetToBackup { target_path: Seq<char>, backup_dir: Seq<char>, file_name: Seq<char> },
    HashCopy { backup_dir: Seq<char>, file_name: Seq<char> },
    HashSource { source_path: Seq<char> },
    WriteManifest { backup_dir: Seq<char> },
    Done { backup_dir: Seq<char> },
    Failed { message: Seq<char> },
}

pub open spec fn backup_step_of(a: BackupAction) -> BackupStep {
    match a {
        BackupAction::HashTarget { target_path } => BackupStep::HashTarget { target_path: target_path@ },
        BackupAction::CreateBackupDir { backup_root, game_id, dir_name } => BackupStep::CreateBackupDir {
            backup_root: backup_root@,
            game_id: game_id@,
            dir_name: dir_name@,
        },
        BackupAction::CopyTargetToBackup { target_path, backup_dir, file_name } =>
            BackupStep::CopyTargetToBackup {
            target_path: target_path@,
            backup_dir: backup_dir@,
            file_name: file_name@,
        },
        BackupAction::HashCopy { backup_dir, file_name } => BackupStep::HashCopy {
            backup_dir: backup_dir@,
            file_name: file_name@,
        },
        BackupAction::HashSource { source_path } => BackupStep::HashSource { source_path: source_path@ },
        BackupAction::WriteManifest { backup_dir, .. } => BackupStep::WriteManifest { backup_dir: backup_dir@ },
        BackupAction::Finish(Ok(d)) => BackupStep::Done { backup_dir: d@ },
        BackupAction::Finish(Err(e)) => BackupStep::Failed { message: e@ },
    }
}

/// `m` is the manifest of the backup asked for by `req`, recording the
/// target's hash `original` and the source's hash `applied`.
pub open spec fn is_manifest_for(
    m: BackupManifest,
    req: BackupRequest,
    original: Seq<char>,
    applied: Option<Seq<char>>,
) -> bool {
    &&& m.tool_version@ == tool_version_view()
    &&& m.game@ == req.game_id@
    &&& m.channel@ == req.channel@
    &&& m.game_root@ == req.game_root@
    &&& m.resource_directory@ == req.resource_dir@
    &&& m.voice_language@ == req.voice_lang@
    &&& m.text_language@ == req.text_lang@
    &&& m.target_file@ == req.target_file@
    &&& m.source_file@ == req.source_file@
    &&& m.created_at@ == req.created_at@
    &&& m.files@.len() == 1
    &&& m.files@[0].path@ == req.target_file@
    &&& m.files@[0].original_sha256@ == original
    &&& match m.applied_sha256 {
        Some(a) => applied == Some(a@),
        None => applied is None,
    }
}

pub open spec fn opt_string_seq(o: Option<String>) -> Option<Seq<char>> {
    match o {
        Some(s) => Some(s@),
        None => None,
    }
}

/// The next step of making the backup asked for by `req`, given the outcomes
/// recorded in `p`.
pub open spec fn next_backup_step(req: BackupRequest, p: BackupProgress) -> BackupStep {
    match p.target_hash {
        None => BackupStep::HashTarget { target_path: req.target_path@ },
        Some(Err(e)) => BackupStep::Failed { message: "Failed to compute SHA-256 of target file: "@ + e@ },
        Some(Ok(th)) => match p.created_dir {
            None => BackupStep::CreateBackupDir {
                backup_root: req.backup_root@,
                game_id: req.game_id@,
                dir_name: backup_dir_name_view(req.timestamp@, req.voice_lang@, req.text_lang@),
            },
            Some(Err(e)) => BackupStep::Failed { message: "Failed to create backup directory: "@ + e@ },
            Some(Ok(dir)) => match p.copy {
                None => BackupStep::CopyTargetToBackup {
                    target_path: req.target_path@,
                    backup_dir: dir@,
                    file_name: req.target_file@,
                },
                Some(Err(e)) => BackupStep::Failed { message: "Failed to copy target file to backup: "@ + e@ },
                Some(Ok(())) => match p.copy_hash {
                    None => BackupStep::HashCopy { backup_dir: dir@, file_name: req.target_file@ },
                    Some(Err(e)) => BackupStep::Failed {
                        message: "Failed to compute SHA-256 of backup copy: "@ + e@,
                    },
                    Some(Ok(ch)) => if ch@ != th@ {
                        BackupStep::Failed {
                            message: "Backup verification failed: original="@ + th@ + ", copy="@ + ch@,
                        }
                    } else {
                        match p.source_hash {
                            None => BackupStep::HashSource { source_path: req.source_path@ },
                            Some(_) => match p.manifest_written {
                                None => BackupStep::WriteManifest { backup_dir: dir@ },
                                Some(Err(e)) => BackupStep::Failed {
                                    message: "Failed to write backup manifest: "@ + e@,
                                },
                                Some(Ok(())) => BackupStep::Done { backup_dir: dir@ },
                            },
                        }
                    },
                },
            },
        },
    }
}

/// The manifest that the step `WriteManifest` writes for `req` and `p`.
pub open spec fn manifest_of_backup(m: BackupManifest, req: BackupRequest, p: BackupProgress) -> bool {
    &&& p.target_hash matches Some(Ok(th))
    &&& p.source_hash matches Some(applied)
    &&& is_manifest_for(m, req, th@, opt_string_seq(applied))
}

/// Progress before any step.
pub fn new_backup_progress() -> (p: BackupProgress)
    ensures
        p.target_hash is None,
        p.created_dir is None,
        p.copy is None,
        p.copy_hash is None,
        p.source_hash is None,
        p.manifest_written is None,
{
    BackupProgress {
        target_hash: None,
        created_dir: None,
        copy: None,
        copy_hash: None,
        source_hash: None,
        manifest_written: None,
    }
}

fn cat(a: &str, b: &str) -> (r: String)
    ensures
        r@ == a@ + b@,
{
    a.to_owned().concat(b)
}

/// The next step of making the backup asked for by `req`, given the outcomes
/// recorded in `p`; see `next_backup_step`. The manifest to write is that of
/// the request, with the target's and the source's hashes.
pub fn next_backup_action(req: &BackupRequest, p: &BackupProgress) -> (a: BackupAction)
    ensures
        backup_step_of(a) == next_backup_step(*req, *p),
        a matches BackupAction::WriteManifest { manifest, .. } ==> manifest_of_backup(manifest, *req, *p),
{
    let th = match &p.target_hash {
        None => {
            return BackupAction::HashTarget { target_path: req.target_path.clone() };
        },
        Some(Err(e)) => {
            return BackupAction::Finish(Err(cat("Failed to compute SHA-256 of target file: ", e.as_str())));
        },
        Some(Ok(h)) => h,
    };
    let dir = match &p.created_dir {
        None => {
            return BackupAction::CreateBackupDir {
                backup_root: req.backup_root.clone(),
                game_id: req.game_id.clone(),
                dir_name: backup_dir_name(req.timestamp.as_str(), req.voice_lang.as_str(), req.text_lang.as_str()),
            };
        },
        Some(Err(e)) => {
            return BackupAction::Finish(Err(cat("Failed to create backup directory: ", e.as_str())));
        },
        Some(Ok(d)) => d,
    };
    match &p.copy {
        None => {
            return BackupAction::CopyTargetToBackup {
                target_path: req.target_path.clone(),
                backup_dir: dir.clone(),
                file_name: req.target_file.clone(),
            };
        },
        Some(Err(e)) => {
            return BackupAction::Finish(Err(cat("Failed to copy target file to backup: ", e.as_str())));
        },
        Some(Ok(())) => {},
    }
    match &p.copy_hash {
        None => {
            return BackupAction::HashCopy { backup_dir: dir.clone(), file_name: req.target_file.clone() };
        },
        Some(Err(e)) => {
            return BackupAction::Finish(Err(cat("Failed to compute SHA-256 of backup copy: ", e.as_str())));
        },
        Some(Ok(ch)) => {
            if !string_eq(ch, th.as_str()) {
                return BackupAction::Finish(
                    Err(
                        cat("Backup verification failed: original=", th.as_str()).concat(", copy=").concat(
                            ch.as_str(),
                        ),
                    ),
                );
            }
        },
    }
    let applied = match &p.source_hash {
        None => {
            return BackupAction::HashSource { source_path: req.source_path.clone() };
        },
        Some(a) => a,
    };
    match &p.manifest_written {
        None => {
            let applied_str: Option<&str> = match applied {
                Some(h) => Some(h.as_str()),
                None => None,
            };
            let manifest = new_backup_manifest(
                req.game_id.as_str(),
                req.channel.as_str(),
                req.game_root.as_str(),
                req.resource_dir.as_str(),
                req.voice_lang.as_str(),
                req.text_lang.as_str(),
                req.target_file.as_str(),
                req.source_file.as_str(),
                req.created_at.as_str(),
                th.as_str(),
                applied_str,
            );
            BackupAction::WriteManifest { backup_dir: dir.clone(), manifest }
        },
        Some(Err(e)) => BackupAction::Finish(Err(cat("Failed to write backup manifest: ", e.as_str()))),
        Some(Ok(())) => BackupAction::Finish(Ok(dir.clone())),
    }
}

/// A backup is written only after its copy of the target hashed to the
/// target's own SHA-256, and its manifest records that hash as the original.
pub proof fn law_backup_records_verified_original(req: BackupRequest, p: BackupProgress, m: BackupManifest)
    requires
        next_backup_step(req, p) is WriteManifest,
        manifest_of_backup(m, req, p),
    ensures
        p.target_hash matches Some(Ok(th)) && (p.copy_hash matches Some(Ok(ch)) && ch@ == th@)
            && m.files@[0].original_sha256@ == th@,
{
}


/// A backup that was made shows in its game's listing: found where it was
/// created, with its manifest, it is listed as a backup of the request's game,
/// voice and text languages and creation time, at that directory, valid while
/// its saved original is there; and when it is newer than every other backup of
/// that game, the listing shows it first.
pub proof fn law_backup_listed(
    req: BackupRequest,
    p: BackupProgress,
    m: BackupManifest,
    found: Seq<FoundBackup>,
    j: int,
    listing: Seq<BackupInfo>,
)
    requires
        next_backup_step(req, p) is WriteManifest,
        manifest_of_backup(m, req, p),
        0 <= j < found.len(),
        found[j].manifest == Some(m),
        p.created_dir matches Some(Ok(dir)) && found[j].path@ == dir@,
        listing.to_multiset() == backups_of(req.game_id@, found).to_multiset(),
        sorted_by_key(listing, true),
    ensures
        listing.contains(backup_info_of(found[j])),
        backup_info_of(found[j]).game@ == req.game_id@,
        backup_info_of(found[j]).voice_language@ == req.voice_lang@,
        backup_info_of(found[j]).text_language@ == req.text_lang@,
        backup_info_of(found[j]).created_at@ == req.created_at@,
        p.created_dir matches Some(Ok(dir)) && backup_info_of(found[j]).path@ == dir@,
        backup_info_of(found[j]).valid == found[j].original_present,
        (forall|k: int|
            0 <= k < found.len() && k != j && is_backup_of(req.game_id@, #[trigger] found[k])
                ==> !lex_le(req.created_at@, found[k].manifest->0.created_at@)) ==> listing[0]
            == backup_info_of(found[j]),
{
    broadcast use vstd::seq_lib::to_multiset_contains;
    broadcast use vstd::seq_lib::group_filter_ensures;

    let game = req.game_id@;
    let pred = |f: FoundBackup| is_backup_of(game, f);
    let conv = |f: FoundBackup| backup_info_of(f);
    let kept = found.filter(pred);
    let all = backups_of(game, found);
    let x = backup_info_of(found[j]);
    assert(pred(found[j]));
    found.lemma_filter_contains(pred, j);
    let jj = choose|jj: int| 0 <= jj < kept.len() && kept[jj] == found[j];
    assert(all[jj] == x);
    assert(all.contains(x));
    assert(all.to_multiset().count(x) > 0);
    assert(listing.to_multiset().count(x) > 0);
    assert(listing.contains(x));
    if forall|k: int|
        0 <= k < found.len() && k != j && is_backup_of(game, #[trigger] found[k]) ==> !lex_le(
            req.created_at@,
            found[k].manifest->0.created_at@,
        ) {
        let i = choose|i: int| 0 <= i < listing.len() && listing[i] == x;
        let y = listing[0];
        assert(listing.contains(y));
        assert(listing.to_multiset().count(y) > 0);
        assert(all.to_multiset().count(y) > 0);
        assert(all.contains(y));
        let idx = choose|idx: int| 0 <= idx < all.len() && all[idx] == y;
        let f = kept[idx];
        assert(pred(f));
        found.lemma_filter_contains_rev(pred, f);
        let k = choose|k: int| 0 <= k < found.len() && found[k] == f;
        assert(y == backup_info_of(found[k]));
        if y != x {
            assert(k != j);
            assert(is_backup_of(game, found[k]));
            assert(i != 0);
            assert(in_order(listing[0].key_view(), listing[i].key_view(), true));
        }
    }
}


/// Making a backup writes only under the game's own backup directory: the
/// directory it creates is `{backup_root}/{game_id}/{timestamp}_{voice}_voice_{text}_text`,
/// and the copy of the target and the manifest go into the directory so
/// created; the target pack and the source pack are only read.
pub proof fn law_backup_writes_own_directory(req: BackupRequest, p: BackupProgress)
    ensures
        next_backup_step(req, p) matches BackupStep::CreateBackupDir { backup_root, game_id, dir_name }
            ==> backup_root == req.backup_root@ && game_id == req.game_id@ && dir_name
            == backup_dir_name_view(req.timestamp@, req.voice_lang@, req.text_lang@),
        next_backup_step(req, p) matches BackupStep::CopyTargetToBackup { target_path, backup_dir, file_name }
            ==> (p.created_dir matches Some(Ok(d)) && backup_dir == d@) && target_path
            == req.target_path@ && file_name == req.target_file@,
        next_backup_step(req, p) matches BackupStep::WriteManifest { backup_dir } ==> (p.created_dir
            matches Some(Ok(d)) && backup_dir == d@),
        next_backup_step(req, p) matches BackupStep::HashTarget { target_path } ==> target_path
            == req.target_path@,
        next_backup_step(req, p) matches BackupStep::HashSource { source_path } ==> source_path
            == req.source_path@,
{
}

} // verus!
