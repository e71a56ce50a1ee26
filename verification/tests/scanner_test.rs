use fh_language_combo_tool::engine::language_mapper::ResourceFile;
use fh_language_combo_tool::engine::resource_scanner::{
    count_packs, language_code, scan_string_tables, sha256_hex, to_hex, ScannedFile,
};

fn scanned(name: &str, content: &[u8]) -> ScannedFile {
    ScannedFile {
        file_name: name.to_string(),
        path: format!("StringTables/{}", name),
        size: content.len() as u64,
        sha256: sha256_hex(content),
        modified_at: "2026-02-28T23:01:00".to_string(),
        readable: true,
        writable: true,
    }
}

fn string_tables(fh5: bool) -> Vec<ScannedFile> {
    let codes = [
        "EN", "GB", "FR", "DE", "ES", "MX", "IT", "PT", "BR", "NL", "NO", "SV", "DK", "FI",
        "PL", "CZ", "HU", "TR", "RU", "EL", "JP", "KO", "CHS", "CHT",
    ];
    let mut files: Vec<ScannedFile> = codes
        .iter()
        .map(|c| {
            let name = if fh5 && (*c == "BR" || *c == "CZ") {
                format!("{}.zip", c.to_lowercase())
            } else {
                format!("{}.zip", c)
            };
            scanned(&name, format!("pack-{}", c).as_bytes())
        })
        .collect();
    files.push(scanned("readme.txt", b"not a pack"));
    files
}

#[test]
fn test_scan_fh5_string_tables() {
    let packs = scan_string_tables(&string_tables(true));

    assert_eq!(packs.len(), 24, "FH5 should have exactly 24 language packs, found {}", packs.len());

    let codes: Vec<String> = packs.iter().map(|p| p.code.to_uppercase()).collect();
    for expected in &["CHS", "EN", "JP", "BR"] {
        assert!(codes.contains(&expected.to_string()));
    }

    for pack in &packs {
        assert_eq!(pack.sha256.len(), 64);
        assert!(pack.sha256.chars().all(|c| c.is_ascii_hexdigit()));
        assert!(pack.size > 0);
    }

    let br_pack = packs.iter().find(|p| p.code.eq_ignore_ascii_case("br"));
    assert!(br_pack.is_some(), "FH5 should have a BR pack");
    assert_eq!(br_pack.unwrap().code, "br", "FH5 BR code should be lowercase 'br' (from br.zip)");

    let cz_pack = packs.iter().find(|p| p.code.eq_ignore_ascii_case("cz"));
    assert!(cz_pack.is_some(), "FH5 should have a CZ pack");
    assert_eq!(cz_pack.unwrap().code, "cz", "FH5 CZ code should be lowercase 'cz' (from cz.zip)");
}

#[test]
fn test_scan_fh6_string_tables() {
    let packs = scan_string_tables(&string_tables(false));

    assert_eq!(packs.len(), 24, "FH6 should have exactly 24 language packs, found {}", packs.len());

    let br_pack = packs.iter().find(|p| p.code.eq_ignore_ascii_case("br"));
    assert!(br_pack.is_some(), "FH6 should have a BR pack");
    assert_eq!(br_pack.unwrap().code, "BR", "FH6 BR code should be uppercase 'BR' (from BR.zip)");

    let cz_pack = packs.iter().find(|p| p.code.eq_ignore_ascii_case("cz"));
    assert!(cz_pack.is_some(), "FH6 should have a CZ pack");
    assert_eq!(cz_pack.unwrap().code, "CZ", "FH6 CZ code should be uppercase 'CZ' (from CZ.zip)");
}

#[test]
fn scan_sorts_by_code_and_fills_fields() {
    let files = vec![
        scanned("JP.zip", b"jp"),
        scanned("CHS.ZIP", b"chs"),
        scanned("EN.zip", b"en"),
        scanned(".zip", b"bare"),
        scanned("notes.zip.txt", b"x"),
    ];
    let packs = scan_string_tables(&files);
    let codes: Vec<&str> = packs.iter().map(|p| p.code.as_str()).collect();
    assert_eq!(codes, vec!["CHS", "EN", "JP"]);
    assert_eq!(packs[0].display_name, "简体中文");
    assert_eq!(packs[0].file_name, "CHS.ZIP");
    assert_eq!(packs[0].path, "StringTables/CHS.ZIP");
    assert_eq!(packs[0].size, 3);
    assert_eq!(packs[0].sha256, sha256_hex(b"chs"));
    assert_eq!(packs[1].display_name, "English");
    assert_eq!(packs[2].display_name, "日本語");
}

#[test]
fn scan_of_empty_directory_is_empty() {
    assert!(scan_string_tables(&Vec::new()).is_empty());
}

#[test]
fn language_code_preserves_case() {
    assert_eq!(language_code("CHS.zip"), Some("CHS".to_string()));
    assert_eq!(language_code("br.zip"), Some("br".to_string()));
    assert_eq!(language_code("EN.ZIP"), Some("EN".to_string()));
    assert_eq!(language_code(".zip"), None);
    assert_eq!(language_code("EN.tmp"), None);
    assert_eq!(language_code("zip"), None);
}

#[test]
fn sha256_known_vectors() {
    assert_eq!(
        sha256_hex(b""),
        "e3b0c44298fc1c149afbf4c8996fb92427ae41e4649b934ca495991b7852b855"
    );
    assert_eq!(
        sha256_hex(b"abc"),
        "ba7816bf8f01cfea414140de5dae2223b00361a396177a9cb410ff61f20015ad"
    );
    assert_eq!(to_hex(&[0x00, 0x0f, 0xa5, 0xff]), "000fa5ff");
}

#[test]
fn packs_counted_among_files() {
    let f = |n: &str| ResourceFile { file_name: n.to_string(), path: format!("r/{}", n) };
    let files = vec![f("EN.zip"), f("br.ZIP"), f("readme.txt"), f(".zip"), f("JP.zip")];
    assert_eq!(count_packs(&files), 3);
    assert_eq!(count_packs(&Vec::new()), 0);
}
