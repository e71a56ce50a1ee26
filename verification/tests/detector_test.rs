use fh_language_combo_tool::engine::game_detector::{
    first_installation, game_install_dir, game_profile, library_paths, steam_libraries, manifest_install_dir, parse_game_id, reg_query_value,
    validate_game_directory, DirectoryFacts, GameId,
};

const FH5_ROOT: &str = r"E:\Program Files (x86)\Steam\steamapps\common\ForzaHorizon5";
const FH6_ROOT: &str = r"E:\Program Files (x86)\Steam\steamapps\common\ForzaHorizon6";
const FH5_RESOURCE: &str =
    r"E:\Program Files (x86)\Steam\steamapps\common\ForzaHorizon5\media\Stripped\StringTables";
const FH6_RESOURCE: &str =
    r"E:\Program Files (x86)\Steam\steamapps\common\ForzaHorizon6\media\Stripped\StringTables";

fn installed(resource: &str) -> DirectoryFacts {
    DirectoryFacts {
        is_dir: true,
        resource_path: resource.to_string(),
        executable_present: true,
        resource_dir_present: true,
        zip_count: 24,
        protected_dirs: vec![r"C:\Users\player".to_string(), r"C:\Windows".to_string()],
    }
}

#[test]
fn test_validate_fh5_real_directory() {
    let profile = validate_game_directory(FH5_ROOT, GameId::Fh5, &installed(FH5_RESOURCE))
        .expect("validate_game_directory should succeed for real FH5 path");

    assert_eq!(profile.game_id, GameId::Fh5);
    assert_eq!(profile.display_name, "Forza Horizon 5");
    assert_eq!(profile.channel, "steam");
    assert_eq!(profile.steam_app_id, "1551360");
    assert_eq!(profile.executable_name, "ForzaHorizon5.exe");
    assert_eq!(profile.root_path, FH5_ROOT);
    assert_eq!(profile.resource_path, FH5_RESOURCE);
}

#[test]
fn test_validate_fh6_real_directory() {
    let profile = validate_game_directory(FH6_ROOT, GameId::Fh6, &installed(FH6_RESOURCE))
        .expect("validate_game_directory should succeed for real FH6 path");

    assert_eq!(profile.game_id, GameId::Fh6);
    assert_eq!(profile.display_name, "Forza Horizon 6");
    assert_eq!(profile.channel, "steam");
    assert_eq!(profile.steam_app_id, "2483190");
    // FH6 executable is lowercase
    assert_eq!(profile.executable_name, "forzahorizon6.exe");
    assert_eq!(profile.root_path, FH6_ROOT);
    assert_eq!(profile.resource_path, FH6_RESOURCE);
}

#[test]
fn test_validate_rejects_nonexistent_directory() {
    let fake_path = r"Z:\nonexistent\path\ForzaHorizon5";
    let facts = DirectoryFacts {
        is_dir: false,
        resource_path: format!(r"{}\media\Stripped\StringTables", fake_path),
        executable_present: false,
        resource_dir_present: false,
        zip_count: 0,
        protected_dirs: Vec::new(),
    };
    let result = validate_game_directory(fake_path, GameId::Fh5, &facts);
    assert!(result.is_err(), "validate_game_directory should reject a nonexistent directory");
}

#[test]
fn validate_rejection_messages() {
    let ok = installed(FH5_RESOURCE);
    let err = |path: &str, facts: &DirectoryFacts| validate_game_directory(path, GameId::Fh5, facts).unwrap_err();

    assert_eq!(err(r"C:\", &ok), r"A disk root cannot be a game directory: C:\");
    assert_eq!(err("D:", &ok), "A disk root cannot be a game directory: D:");
    assert_eq!(err("/", &ok), "A disk root cannot be a game directory: /");
    assert_eq!(
        err(r"c:\users\PLAYER\", &ok),
        r"A system or home directory cannot be a game directory: c:\users\PLAYER\"
    );
    let mut f = installed(FH5_RESOURCE);
    f.executable_present = false;
    assert_eq!(err(FH5_ROOT, &f), "Game executable not found: ForzaHorizon5.exe");
    let mut f = installed(FH5_RESOURCE);
    f.resource_dir_present = false;
    assert_eq!(err(FH5_ROOT, &f), format!("StringTables directory not found: {}", FH5_RESOURCE));
    let mut f = installed(FH5_RESOURCE);
    f.zip_count = 1;
    assert_eq!(err(FH5_ROOT, &f), "StringTables holds fewer than 2 .zip language packs");
    let mut f = installed(FH5_RESOURCE);
    f.zip_count = 2;
    assert!(validate_game_directory(FH5_ROOT, GameId::Fh5, &f).is_ok());
    // An empty StringTables directory.
    let mut f = installed(FH5_RESOURCE);
    f.zip_count = 0;
    assert!(validate_game_directory(FH5_ROOT, GameId::Fh5, &f).is_err());
}

#[test]
fn game_ids() {
    assert_eq!(parse_game_id("fh5"), Ok(GameId::Fh5));
    assert_eq!(parse_game_id("fh6"), Ok(GameId::Fh6));
    assert_eq!(parse_game_id("FH5"), Err("Unknown game_id: FH5".to_string()));
    assert_eq!(parse_game_id("fh4"), Err("Unknown game_id: fh4".to_string()));
    let p = game_profile(GameId::Fh6, "root", "res");
    assert_eq!(p.executable_name, "forzahorizon6.exe");
    assert_eq!(p.steam_app_id, "2483190");
}

#[test]
fn steam_key_value_files() {
    let vdf = "\"libraryfolders\"\n{\n\t\"0\"\n\t{\n\t\t\"path\"\t\t\"C:\\\\Program Files (x86)\\\\Steam\"\n\t\t\"label\"\t\t\"\"\n\t\t\"apps\"\n\t\t{\n\t\t\t\"1551360\"\t\t\"123\"\n\t\t}\n\t}\n\t\"1\"\n\t{\n\t\t\"path\"\t\t\"E:\\\\Program Files (x86)\\\\Steam\"\n\t}\n}\n";
    assert_eq!(
        library_paths(vdf),
        vec![r"C:\Program Files (x86)\Steam".to_string(), r"E:\Program Files (x86)\Steam".to_string()]
    );
    let acf = "\"AppState\"\n{\n\t\"appid\"\t\t\"2483190\"\n\t\"installdir\"\t\t\"ForzaHorizon6\"\n}\n";
    assert_eq!(manifest_install_dir(acf), Some("ForzaHorizon6".to_string()));
    assert_eq!(manifest_install_dir("\"AppState\"\n{\n}\n"), None);
    assert!(library_paths("").is_empty());
}

#[test]
fn registry_query_output() {
    let out = "\r\nHKEY_CURRENT_USER\\SOFTWARE\\Valve\\Steam\r\n    SteamPath    REG_SZ    c:/program files (x86)/steam\r\n\r\n";
    assert_eq!(reg_query_value(out, "SteamPath"), Some("c:/program files (x86)/steam".to_string()));
    assert_eq!(reg_query_value(out, "SteamExe"), None);
    assert_eq!(reg_query_value("    SteamPathX    REG_SZ    x", "SteamPath"), None);
}

#[test]
fn steam_libraries_steam_first_each_once() {
    let listed = vec![
        r"C:\Program Files (x86)\Steam".to_string(),
        r"E:\SteamLibrary".to_string(),
        r"E:\SteamLibrary".to_string(),
        r"F:\Games".to_string(),
    ];
    assert_eq!(
        steam_libraries(r"C:\Program Files (x86)\Steam", &listed),
        vec![
            r"C:\Program Files (x86)\Steam".to_string(),
            r"E:\SteamLibrary".to_string(),
            r"F:\Games".to_string(),
        ]
    );
    assert_eq!(steam_libraries("S", &Vec::new()), vec!["S".to_string()]);
}

#[test]
fn install_dir_from_manifest_or_default() {
    let acf = "\"AppState\"\n{\n\t\"appid\"\t\t\"2483190\"\n\t\"installdir\"\t\t\"FH6Custom\"\n}\n";
    assert_eq!(game_install_dir(GameId::Fh6, acf), "FH6Custom");
    assert_eq!(game_install_dir(GameId::Fh5, "\"AppState\"\n{\n}\n"), "ForzaHorizon5");
}

#[test]
fn first_valid_installation_wins() {
    let p = game_profile(GameId::Fh5, "root", "res");
    let checked = vec![Err("Not a directory".to_string()), Ok(p.clone()), Ok(p)];
    assert_eq!(first_installation(&checked), Some(1));
    let none: Vec<Result<_, String>> = vec![Err("a".to_string()), Err("b".to_string())];
    assert_eq!(first_installation(&none), None);
}
