//! The decisions around an apply: the backup it asks for, the Steam language
//! set after it, and the game-running check before it.
use fh_language_combo_tool::commands::apply::{game_running, profile_for_resource, steam_language_to_set};
use fh_language_combo_tool::engine::apply_engine::{backup_request_for, ApplyResult};
use fh_language_combo_tool::engine::game_detector::{game_profile, game_root_of, GameId};
use fh_language_combo_tool::engine::language_mapper::{ApplyPlan, Operation};

fn plan(operations: Vec<Operation>) -> ApplyPlan {
    ApplyPlan {
        game_id: "fh5".into(),
        voice_language: "JP".into(),
        text_language: "CHS".into(),
        source_file: "CHS.zip".into(),
        target_file: "JP.zip".into(),
        operations,
    }
}

fn op(kind: &str, from: &str, to: &str) -> Operation {
    Operation { op_type: kind.into(), from: from.into(), to: to.into(), description: String::new() }
}

fn result(success: bool) -> ApplyResult {
    ApplyResult { success, message: String::new(), backup_path: None, rolled_back: false }
}

#[test]
fn backup_request_hashes_the_copied_source() {
    let p = plan(vec![op("backup", "res/JP.zip", "bk/fh5"), op("copy_replace", "res/CHS.zip", "res/JP.zip")]);
    let profile = game_profile(GameId::Fh5, "game", "res");
    let req = backup_request_for(&p, &profile, "bk", "res/JP.zip", "20260529_120000", "2026-05-29T12:00:00+08:00")
        .unwrap();
    assert_eq!(req.source_path, "res/CHS.zip");
    assert_eq!(req.source_file, "CHS.zip");
    assert_eq!(req.target_path, "res/JP.zip");
    assert_eq!(req.target_file, "JP.zip");
    assert_eq!(req.backup_root, "bk");
    assert_eq!(req.game_id, "fh5");
    assert_eq!(req.channel, "steam");
    assert_eq!(req.game_root, "game");
    assert_eq!(req.resource_dir, "res");
    assert_eq!(req.voice_lang, "JP");
    assert_eq!(req.text_lang, "CHS");
    assert_eq!(req.timestamp, "20260529_120000");
    assert_eq!(req.created_at, "2026-05-29T12:00:00+08:00");
}

#[test]
fn backup_request_uses_first_copy_replace() {
    let p = plan(vec![
        op("backup", "res/JP.zip", "bk/fh5"),
        op("copy_replace", "res/CHS.zip", "res/JP.zip"),
        op("copy_replace", "res/EN.zip", "res/JP.zip"),
    ]);
    let profile = game_profile(GameId::Fh5, "game", "res");
    let req = backup_request_for(&p, &profile, "bk", "res/JP.zip", "t", "c").unwrap();
    assert_eq!(req.source_path, "res/CHS.zip");
}

#[test]
fn backup_request_without_copy_replace() {
    let p = plan(vec![op("backup", "res/JP.zip", "bk/fh5")]);
    let profile = game_profile(GameId::Fh5, "game", "res");
    assert!(backup_request_for(&p, &profile, "bk", "res/JP.zip", "t", "c").is_none());
}

#[test]
fn steam_language_set_after_success() {
    assert_eq!(
        steam_language_to_set(&result(true), Some("apps/appmanifest_1551360.acf"), "jp"),
        Some(("apps/appmanifest_1551360.acf".to_string(), "japanese".to_string()))
    );
    assert_eq!(
        steam_language_to_set(&result(true), Some("m.acf"), "CHS"),
        Some(("m.acf".to_string(), "schinese".to_string()))
    );
}

#[test]
fn steam_language_not_set_otherwise() {
    assert_eq!(steam_language_to_set(&result(false), Some("m.acf"), "JP"), None);
    assert_eq!(steam_language_to_set(&result(true), None, "JP"), None);
    assert_eq!(steam_language_to_set(&result(true), Some("m.acf"), "XX"), None);
}

#[test]
fn game_running_from_listing() {
    let fh5 = "ForzaHorizon5.exe             1234 Console                    1    512,000 K";
    assert_eq!(game_running("fh5", Some(fh5)), Ok(true));
    assert_eq!(game_running("fh6", Some(fh5)), Ok(false));
    assert_eq!(game_running("fh6", Some("forzahorizon6.exe   99 Console")), Ok(true));
    assert_eq!(game_running("fh5", Some("INFO: No tasks are running which match the specified criteria.")), Ok(false));
}

#[test]
fn game_running_without_listing() {
    assert_eq!(game_running("fh5", None), Ok(false));
}

#[test]
fn game_running_unknown_game() {
    assert_eq!(game_running("fh4", Some("ForzaHorizon5.exe")), Err("Unknown game_id: fh4".to_string()));
}

#[test]
fn profile_from_resource_path() {
    let p = profile_for_resource("fh6", "/games/ForzaHorizon6/media/Stripped/StringTables").unwrap();
    assert_eq!(p.game_id, GameId::Fh6);
    assert_eq!(p.root_path, "/games/ForzaHorizon6");
    assert_eq!(p.resource_path, "/games/ForzaHorizon6/media/Stripped/StringTables");
    assert_eq!(p.display_name, "Forza Horizon 6");
    assert_eq!(p.channel, "steam");
    assert_eq!(p.steam_app_id, "2483190");
    assert_eq!(p.executable_name, "forzahorizon6.exe");
}

#[test]
fn profile_refused() {
    assert_eq!(
        profile_for_resource("fh7", "/g/media/Stripped/StringTables").unwrap_err(),
        "Unknown game_id: fh7"
    );
    assert_eq!(
        profile_for_resource("fh5", "a/b").unwrap_err(),
        "Cannot derive game root from resource path: a/b"
    );
}

#[test]
fn game_root_three_levels_up() {
    assert_eq!(game_root_of("root/media/Stripped/StringTables"), Some("root".to_string()));
    assert_eq!(game_root_of("media/Stripped/StringTables"), Some(String::new()));
    assert_eq!(game_root_of("Stripped/StringTables"), None);
}
