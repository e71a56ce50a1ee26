use fh_language_combo_tool::engine::steam_language::code_to_steam_language;
use fh_language_combo_tool::engine::language_mapper::{
    generate_apply_plan, get_display_name, plan_from_listing, resolve_filename, sorted_listing,
    ResourceFile,
};

const FH5_RESOURCE: &str = r"E:\Program Files (x86)\Steam\steamapps\common\ForzaHorizon5\media\Stripped\StringTables";
const FH6_RESOURCE: &str = r"E:\Program Files (x86)\Steam\steamapps\common\ForzaHorizon6\media\Stripped\StringTables";

/// The 24 language packs of a StringTables directory as FH5 names them
/// (`br.zip` and `cz.zip` in lower case) or as FH6 does (all upper case).
fn listing(resource: &str, fh5: bool) -> Vec<ResourceFile> {
    let codes = [
        "EN", "GB", "FR", "DE", "ES", "MX", "IT", "PT", "BR", "NL", "NO", "SV", "DK", "FI",
        "PL", "CZ", "HU", "TR", "RU", "EL", "JP", "KO", "CHS", "CHT",
    ];
    codes
        .iter()
        .map(|c| {
            let name = if fh5 && (*c == "BR" || *c == "CZ") {
                format!("{}.zip", c.to_lowercase())
            } else {
                format!("{}.zip", c)
            };
            ResourceFile { path: format!("{}\\{}", resource, name), file_name: name }
        })
        .collect()
}

#[test]
fn test_fh5_filename_case_preservation() {
    let fh5_res = listing(FH5_RESOURCE, true);

    // "br" input -> should find "br.zip" (FH5 has lowercase br.zip)
    let result = resolve_filename("br", &fh5_res).unwrap();
    assert_eq!(result, "br.zip", "resolve_filename('br') on FH5 should return 'br.zip'");

    // "BR" input -> should still find "br.zip" (case-insensitive match)
    let result = resolve_filename("BR", &fh5_res).unwrap();
    assert_eq!(result, "br.zip", "resolve_filename('BR') on FH5 should return 'br.zip'");

    // "CHS" input -> should find "CHS.zip" (uppercase in FH5)
    let result = resolve_filename("CHS", &fh5_res).unwrap();
    assert_eq!(result, "CHS.zip", "resolve_filename('CHS') on FH5 should return 'CHS.zip'");

    // "cz" input -> should find "cz.zip" (FH5 has lowercase cz.zip)
    let result = resolve_filename("cz", &fh5_res).unwrap();
    assert_eq!(result, "cz.zip", "resolve_filename('cz') on FH5 should return 'cz.zip'");
}

#[test]
fn test_fh6_filename_case_all_uppercase() {
    let fh6_res = listing(FH6_RESOURCE, false);

    let result = resolve_filename("br", &fh6_res).unwrap();
    assert_eq!(result, "BR.zip", "resolve_filename('br') on FH6 should return 'BR.zip'");

    let result = resolve_filename("chs", &fh6_res).unwrap();
    assert_eq!(result, "CHS.zip", "resolve_filename('chs') on FH6 should return 'CHS.zip'");

    let result = resolve_filename("CZ", &fh6_res).unwrap();
    assert_eq!(result, "CZ.zip", "resolve_filename('CZ') on FH6 should return 'CZ.zip'");
}

#[test]
fn resolve_filename_missing_pack() {
    let fh6_res = listing(FH6_RESOURCE, false);
    assert_eq!(
        resolve_filename("ZZ", &fh6_res),
        Err("Language pack not found for code: ZZ".to_string())
    );
    assert!(resolve_filename("EN.zip", &fh6_res).is_err());
    assert!(resolve_filename("", &fh6_res).is_err());
}

#[test]
fn test_generate_plan_jp_voice_chs_text_fh5() {
    let fh5_res = listing(FH5_RESOURCE, true);
    let backup_root = "fh_integ_plan_test";

    let plan = generate_apply_plan("fh5", "JP", "CHS", &fh5_res, backup_root)
        .expect("generate_apply_plan should succeed for JP voice + CHS text on FH5");

    assert_eq!(plan.game_id, "fh5");
    assert_eq!(plan.voice_language, "JP");
    assert_eq!(plan.text_language, "CHS");
    // FH5 CHS.zip is uppercase, JP.zip is uppercase
    assert_eq!(plan.source_file, "CHS.zip", "Source (text) file should be CHS.zip");
    assert_eq!(plan.target_file, "JP.zip", "Target (voice) file should be JP.zip");

    assert_eq!(
        plan.operations.len(),
        2,
        "Plan should have exactly 2 operations (backup + copy_replace)"
    );

    let backup_op = &plan.operations[0];
    assert_eq!(backup_op.op_type, "backup");
    assert!(
        backup_op.from.contains("JP.zip"),
        "Backup 'from' should contain JP.zip, got: {}",
        backup_op.from
    );

    let copy_op = &plan.operations[1];
    assert_eq!(copy_op.op_type, "copy_replace");
    assert!(
        copy_op.from.contains("CHS.zip"),
        "Copy 'from' should contain CHS.zip, got: {}",
        copy_op.from
    );
    assert!(
        copy_op.to.contains("JP.zip"),
        "Copy 'to' should contain JP.zip, got: {}",
        copy_op.to
    );
    assert_eq!(backup_op.description, "Backup JP.zip");
    assert_eq!(copy_op.description, "Copy CHS.zip -> JP.zip");
    assert_eq!(backup_op.to, backup_root);
}

#[test]
fn test_plan_same_language_rejected() {
    // The StringTables directory is not even listed: the languages are compared first.
    let fh5_res: Vec<ResourceFile> = Vec::new();
    let backup_root = "fh_integ_same_lang_test";

    let result = generate_apply_plan("fh5", "EN", "en", &fh5_res, backup_root);
    assert!(
        result.is_err(),
        "generate_apply_plan should reject same voice and text language"
    );

    let err_msg = result.unwrap_err();
    assert!(
        err_msg.contains("must be different"),
        "Error should mention languages must be different, got: {}",
        err_msg
    );
}

#[test]
fn plan_reports_missing_text_pack_first() {
    let files = vec![ResourceFile { file_name: "JP.zip".to_string(), path: "d/JP.zip".to_string() }];
    assert_eq!(
        generate_apply_plan("fh5", "XX", "CHS", &files, "b").unwrap_err(),
        "Language pack not found for code: CHS"
    );
    assert_eq!(
        generate_apply_plan("fh5", "EN", "JP", &files, "b").unwrap_err(),
        "Language pack not found for code: EN"
    );
}

#[test]
fn display_names() {
    assert_eq!(get_display_name("EN"), "English");
    assert_eq!(get_display_name("CHS"), "简体中文");
    assert_eq!(get_display_name("JP"), "日本語");
    assert_eq!(get_display_name("chs"), "简体中文");
    assert_eq!(get_display_name("br"), "Português (BR)");
    assert_eq!(get_display_name("Cz"), "Čeština");
    assert_eq!(get_display_name("ZZ"), "Unknown");
    assert_eq!(get_display_name(""), "Unknown");
}

#[test]
fn known_codes_agree_between_tables() {
    for code in ["EN", "GB", "jp", "chs", "CHT", "fr", "XX", "", "en-US"] {
        assert_eq!(get_display_name(code) != "Unknown", code_to_steam_language(code).is_some());
    }
}

#[test]
fn plan_from_listing_refuses_same_language_before_read_error() {
    let r = plan_from_listing("fh5", "jp", "JP", Err("Failed to read directory x".to_string()), "bk");
    assert_eq!(r.unwrap_err(), "Voice language and text language must be different");
}

#[test]
fn plan_from_listing_reports_read_error() {
    let r = plan_from_listing("fh5", "JP", "CHS", Err("Failed to read directory x".to_string()), "bk");
    assert_eq!(r.unwrap_err(), "Failed to read directory x");
}

#[test]
fn plan_from_listing_plans_on_listing() {
    let plan = plan_from_listing("fh5", "JP", "CHS", Ok(listing(FH5_RESOURCE, true)), "bk").unwrap();
    assert_eq!(plan.source_file, "CHS.zip");
    assert_eq!(plan.target_file, "JP.zip");
    assert_eq!(plan.operations[1].from, format!("{}\\CHS.zip", FH5_RESOURCE));
    let missing = plan_from_listing("fh5", "JP", "XX", Ok(listing(FH5_RESOURCE, true)), "bk");
    assert_eq!(missing.unwrap_err(), "Language pack not found for code: XX");
}

#[test]
fn listing_sorted_by_name() {
    let f = |n: &str| ResourceFile { file_name: n.to_string(), path: format!("r/{}", n) };
    let sorted = sorted_listing(vec![f("br.zip"), f("JP.zip"), f("BR.zip"), f("CHS.zip")]);
    let names: Vec<&str> = sorted.iter().map(|r| r.file_name.as_str()).collect();
    assert_eq!(names, vec!["BR.zip", "CHS.zip", "JP.zip", "br.zip"]);
    assert_eq!(resolve_filename("br", &sorted).unwrap(), "BR.zip");
}
