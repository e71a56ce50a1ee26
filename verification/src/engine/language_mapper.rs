//! Language codes and the plan that puts a text language pack in the place
//! of a voice language pack.
use vstd::prelude::*;

use crate::engine::steam_language::{steam_language_of, str_eq};
use crate::order::{sort_by_key, sorted_by_key, Keyed};
use crate::text::{
    ascii_lower, ascii_upper, ascii_upper_seq, is_ascii_seq, eq_ignore_ascii_case, eq_ignore_ascii_case_seq, to_uppercase, uppercase_of,
};

verus! {

/// The plan of file operations for one voice/text combination.
#[derive(Debug, Clone)]
pub struct ApplyPlan {
    pub game_id: String,
    pub voice_language: String,
    pub text_language: String,
    pub source_file: String,
    pub target_file: String,
    pub operations: Vec<Operation>,
}

/// One file operation of a plan: `op_type` is `"backup"` or `"copy_replace"`.
#[derive(Debug, Clone)]
pub struct Operation {
    pub op_type: String,
    pub from: String,
    pub to: String,
    pub description: String,
}

/// A file of the StringTables directory: its name and its full path.
#[derive(Debug, Clone)]
pub struct ResourceFile {
    pub file_name: String,
    pub path: String,
}

impl Keyed for ResourceFile {
    open spec fn key_view(&self) -> Seq<char> {
        self.file_name@
    }

    fn key_chars(&self) -> (k: Vec<char>) {
        crate::text::chars_of(self.file_name.as_str())
    }
}

/// The files of a directory in the order in which packs are looked up: by
/// name, in the order of `String` (by code point), so that of two names that
/// differ only in letter case, the one whose first differing letter is upper
/// case comes first.
pub fn sorted_listing(files: Vec<ResourceFile>) -> (res: Vec<ResourceFile>)
    ensures
        res@.to_multiset() == files@.to_multiset(),
        sorted_by_key(res@, false),
{
    sort_by_key(files, false)
}

/// The display name of the language whose (upper-case) code is `up`.
pub open spec fn display_name_of(up: Seq<char>) -> Seq<char> {
    if up == "EN"@ {
        "English"@
    } else if up == "GB"@ {
        "English (UK)"@
    } else if up == "JP"@ {
        "日本語"@
    } else if up == "CHS"@ {
        "简体中文"@
    } else if up == "CHT"@ {
        "繁體中文"@
    } else if up == "FR"@ {
        "Français"@
    } else if up == "DE"@ {
        "Deutsch"@
    } else if up == "ES"@ {
        "Español"@
    } else if up == "MX"@ {
        "Español (MX)"@
    } else if up == "IT"@ {
        "Italiano"@
    } else if up == "PT"@ {
        "Português"@
    } else if up == "BR"@ {
        "Português (BR)"@
    } else if up == "KO"@ {
        "한국어"@
    } else if up == "RU"@ {
        "Русский"@
    } else if up == "PL"@ {
        "Polski"@
    } else if up == "NL"@ {
        "Nederlands"@
    } else if up == "TR"@ {
        "Türkçe"@
    } else if up == "DK"@ {
        "Dansk"@
    } else if up == "SV"@ {
        "Svenska"@
    } else if up == "NO"@ {
        "Norsk"@
    } else if up == "FI"@ {
        "Suomi"@
    } else if up == "CZ"@ {
        "Čeština"@
    } else if up == "HU"@ {
        "Magyar"@
    } else if up == "EL"@ {
        "Ελληνικά"@
    } else {
        "Unknown"@
    }
}

/// The display name of a language code, whatever its case (the code is
/// compared by its upper-case form); `"Unknown"` for an unknown code.
pub fn get_display_name(code: &str) -> (res: &'static str)
    ensures
        res@ == display_name_of(uppercase_of(code@)),
        is_ascii_seq(code@) ==> res@ == display_name_of(ascii_upper_seq(code@)),
{
    let upper = to_uppercase(code);
    let up = upper.as_str();
    if str_eq(up, "EN") {
        "English"
    } else if str_eq(up, "GB") {
        "English (UK)"
    } else if str_eq(up, "JP") {
        "日本語"
    } else if str_eq(up, "CHS") {
        "简体中文"
    } else if str_eq(up, "CHT") {
        "繁體中文"
    } else if str_eq(up, "FR") {
        "Français"
    } else if str_eq(up, "DE") {
        "Deutsch"
    } else if str_eq(up, "ES") {
        "Español"
    } else if str_eq(up, "MX") {
        "Español (MX)"
    } else if str_eq(up, "IT") {
        "Italiano"
    } else if str_eq(up, "PT") {
        "Português"
    } else if str_eq(up, "BR") {
        "Português (BR)"
    } else if str_eq(up, "KO") {
        "한국어"
    } else if str_eq(up, "RU") {
        "Русский"
    } else if str_eq(up, "PL") {
        "Polski"
    } else if str_eq(up, "NL") {
        "Nederlands"
    } else if str_eq(up, "TR") {
        "Türkçe"
    } else if str_eq(up, "DK") {
        "Dansk"
    } else if str_eq(up, "SV") {
        "Svenska"
    } else if str_eq(up, "NO") {
        "Norsk"
    } else if str_eq(up, "FI") {
        "Suomi"
    } else if str_eq(up, "CZ") {
        "Čeština"
    } else if str_eq(up, "HU") {
        "Magyar"
    } else if str_eq(up, "EL") {
        "Ελληνικά"
    } else {
        "Unknown"
    }
}

/// Whether `file_name` is the pack of `code`: `<code>.zip`, ASCII case ignored.
pub open spec fn is_pack_of(file_name: Seq<char>, code: Seq<char>) -> bool {
    eq_ignore_ascii_case_seq(file_name, code + ".zip"@)
}

/// Index of the first file at or after `from` that is the pack of `code`;
/// `files.len()` when there is none.
pub open spec fn first_pack_from(files: Seq<ResourceFile>, code: Seq<char>, from: int) -> int
    decreases files.len() - from,
{
    if from >= files.len() {
        files.len() as int
    } else if from >= 0 && is_pack_of(files[from].file_name@, code) {
        from
    } else {
        first_pack_from(files, code, from + 1)
    }
}

pub open spec fn first_pack(files: Seq<ResourceFile>, code: Seq<char>) -> int {
    first_pack_from(files, code, 0)
}

pub open spec fn not_found_message(code: Seq<char>) -> Seq<char> {
    "Language pack not found for code: "@ + code
}

pub open spec fn same_language_message() -> Seq<char> {
    "Voice language and text language must be different"@
}

proof fn lemma_first_pack_bounds(files: Seq<ResourceFile>, code: Seq<char>, from: int)
    requires
        0 <= from,
    ensures
        from <= first_pack_from(files, code, from) <= files.len() || (from > files.len()
            && first_pack_from(files, code, from) == files.len()),
        first_pack_from(files, code, from) < files.len() ==> is_pack_of(
            files[first_pack_from(files, code, from)].file_name@,
            code,
        ),
        forall|k: int|
            from <= k < first_pack_from(files, code, from) ==> !is_pack_of(
                #[trigger] files[k].file_name@,
                code,
            ),
    decreases files.len() - from,
{
    if from < files.len() && !is_pack_of(files[from].file_name@, code) {
        lemma_first_pack_bounds(files, code, from + 1);
    }
}

/// Index of the language pack of `code` among `files`: the first file named
/// `<code>.zip`, ASCII case ignored.
pub fn find_pack(code: &str, files: &Vec<ResourceFile>) -> (res: Result<usize, String>)
    ensures
        match res {
            Ok(i) => i == first_pack(files@, code@) && i < files@.len(),
            Err(e) => first_pack(files@, code@) == files@.len() && e@ == not_found_message(code@),
        },
{
    let wanted = code.to_owned().concat(".zip");
    let mut i: usize = 0;
    while i < files.len()
        invariant
            wanted@ == code@ + ".zip"@,
            i <= files.len(),
            first_pack(files@, code@) == first_pack_from(files@, code@, i as int),
        decreases files.len() - i,
    {
        if eq_ignore_ascii_case(files[i].file_name.as_str(), wanted.as_str()) {
            return Ok(i);
        }
        i = i + 1;
    }
    Err(String::from_str("Language pack not found for code: ").concat(code))
}

/// The name of the language pack of `code` among the files of the
/// StringTables directory: the first file named `<code>.zip`, ASCII case
/// ignored, in the name it has on disk (FH5 has `br.zip`, FH6 `BR.zip`).
pub fn resolve_filename(code: &str, files: &Vec<ResourceFile>) -> (res: Result<String, String>)
    ensures
        match res {
            Ok(name) => first_pack(files@, code@) < files@.len() && name@ == files@[first_pack(
                files@,
                code@,
            )].file_name@,
            Err(e) => first_pack(files@, code@) == files@.len() && e@ == not_found_message(code@),
        },
{
    match find_pack(code, files) {
        Ok(i) => Ok(files[i].file_name.clone()),
        Err(e) => Err(e),
    }
}

/// `plan` backs up the voice pack (`voice`) found among `files` into
/// `backup_dir`, then copies the text pack (`text`) over it.
pub open spec fn is_plan_for(
    plan: ApplyPlan,
    game_id: Seq<char>,
    voice: Seq<char>,
    text: Seq<char>,
    files: Seq<ResourceFile>,
    backup_dir: Seq<char>,
) -> bool {
    let s = first_pack(files, text);
    let t = first_pack(files, voice);
    &&& s < files.len() && t < files.len()
    &&& plan.game_id@ == game_id
    &&& plan.voice_language@ == voice
    &&& plan.text_language@ == text
    &&& plan.source_file@ == files[s].file_name@
    &&& plan.target_file@ == files[t].file_name@
    &&& plan.operations@.len() == 2
    &&& plan.operations@[0].op_type@ == "backup"@
    &&& plan.operations@[0].from@ == files[t].path@
    &&& plan.operations@[0].to@ == backup_dir
    &&& plan.operations@[0].description@ == "Backup "@ + files[t].file_name@
    &&& plan.operations@[1].op_type@ == "copy_replace"@
    &&& plan.operations@[1].from@ == files[s].path@
    &&& plan.operations@[1].to@ == files[t].path@
    &&& plan.operations@[1].description@ == "Copy "@ + files[s].file_name@ + " -> "@
        + files[t].file_name@
}

/// The plan for two different languages is refused with `e` exactly when a
/// pack is missing from `files`: the text pack's absence is reported first.
pub open spec fn is_missing_pack_error(e: Seq<char>, voice: Seq<char>, text: Seq<char>, files: Seq<ResourceFile>) -> bool {
    ||| first_pack(files, text) == files.len() && e == not_found_message(text)
    ||| first_pack(files, text) < files.len() && first_pack(files, voice) == files.len() && e
        == not_found_message(voice)
}

/// The apply plan for voice language `voice_lang` and text language
/// `text_lang`: back up the voice pack, then copy the text pack over it.
/// Refused when the two codes are equal (ASCII case ignored) or when either
/// pack is not among `files`; the text pack is looked up first.
pub fn generate_apply_plan(
    game_id: &str,
    voice_lang: &str,
    text_lang: &str,
    files: &Vec<ResourceFile>,
    backup_dir: &str,
) -> (res: Result<ApplyPlan, String>)
    ensures
        eq_ignore_ascii_case_seq(voice_lang@, text_lang@) ==> res == Err::<ApplyPlan, String>(
            res->Err_0,
        ) && res->Err_0@ == same_language_message(),
        !eq_ignore_ascii_case_seq(voice_lang@, text_lang@) ==> match res {
            Ok(plan) => is_plan_for(plan, game_id@, voice_lang@, text_lang@, files@, backup_dir@),
            Err(e) => is_missing_pack_error(e@, voice_lang@, text_lang@, files@),
        },
{
    if eq_ignore_ascii_case(voice_lang, text_lang) {
        return Err(String::from_str("Voice language and text language must be different"));
    }
    let s = match find_pack(text_lang, files) {
        Ok(i) => i,
        Err(e) => {
            return Err(e);
        },
    };
    let t = match find_pack(voice_lang, files) {
        Ok(i) => i,
        Err(e) => {
            return Err(e);
        },
    };
    let source = &files[s];
    let target = &files[t];
    let backup = Operation {
        op_type: String::from_str("backup"),
        from: target.path.clone(),
        to: backup_dir.to_owned(),
        description: String::from_str("Backup ").concat(target.file_name.as_str()),
    };
    let copy = Operation {
        op_type: String::from_str("copy_replace"),
        from: source.path.clone(),
        to: target.path.clone(),
        description: String::from_str("Copy ").concat(source.file_name.as_str()).concat(
            " -> ",
        ).concat(target.file_name.as_str()),
    };
    let mut operations: Vec<Operation> = Vec::new();
    operations.push(backup);
    operations.push(copy);
    Ok(
        ApplyPlan {
            game_id: game_id.to_owned(),
            voice_language: voice_lang.to_owned(),
            text_language: text_lang.to_owned(),
            source_file: source.file_name.clone(),
            target_file: target.file_name.clone(),
            operations,
        },
    )
}

/// The apply plan from the outcome of reading the StringTables directory:
/// equal languages are refused first, whatever came of the read; otherwise a
/// failed read is reported as it came, and a listing is planned on as in
/// `generate_apply_plan`.
pub fn plan_from_listing(
    game_id: &str,
    voice_lang: &str,
    text_lang: &str,
    listing: Result<Vec<ResourceFile>, String>,
    backup_dir: &str,
) -> (res: Result<ApplyPlan, String>)
    ensures
        eq_ignore_ascii_case_seq(voice_lang@, text_lang@) ==> res is Err && res->Err_0@
            == same_language_message(),
        !eq_ignore_ascii_case_seq(voice_lang@, text_lang@) ==> match listing {
            Err(read_error) => res is Err && res->Err_0@ == read_error@,
            Ok(files) => match res {
                Ok(plan) => is_plan_for(plan, game_id@, voice_lang@, text_lang@, files@, backup_dir@),
                Err(e) => is_missing_pack_error(e@, voice_lang@, text_lang@, files@),
            },
        },
{
    if eq_ignore_ascii_case(voice_lang, text_lang) {
        return Err(String::from_str("Voice language and text language must be different"));
    }
    match listing {
        Err(e) => Err(e),
        Ok(files) => generate_apply_plan(game_id, voice_lang, text_lang, &files, backup_dir),
    }
}

// ---------------------------------------------------------------------------
// Laws
// ---------------------------------------------------------------------------
/// A language code has a display name exactly when Steam has a language name
/// for it: the two tables cover the same codes.
pub proof fn law_known_codes_agree(code: Seq<char>)
    ensures
        (display_name_of(uppercase_of(code)) != "Unknown"@) <==> (steam_language_of(
            uppercase_of(code),
        ) is Some),
{
    let up = uppercase_of(code);
    reveal_strlit("Unknown");
    if steam_language_of(up) is Some {
        let d = display_name_of(up);
        if up == "EN"@ {
            reveal_strlit("English");
            assert(d[0] != "Unknown"@[0]);
        } else if up == "GB"@ {
            reveal_strlit("English (UK)");
            assert(d.len() != "Unknown"@.len());
        } else if up == "JP"@ {
            reveal_strlit("日本語");
            assert(d.len() != "Unknown"@.len());
        } else if up == "CHS"@ {
            reveal_strlit("简体中文");
            assert(d.len() != "Unknown"@.len());
        } else if up == "CHT"@ {
            reveal_strlit("繁體中文");
            assert(d.len() != "Unknown"@.len());
        } else if up == "FR"@ {
            reveal_strlit("Français");
            assert(d.len() != "Unknown"@.len());
        } else if up == "DE"@ {
            reveal_strlit("Deutsch");
            assert(d[0] != "Unknown"@[0]);
        } else if up == "ES"@ {
            reveal_strlit("Español");
            assert(d[0] != "Unknown"@[0]);
        } else if up == "MX"@ {
            reveal_strlit("Español (MX)");
            assert(d.len() != "Unknown"@.len());
        } else if up == "IT"@ {
            reveal_strlit("Italiano");
            assert(d.len() != "Unknown"@.len());
        } else if up == "PT"@ {
            reveal_strlit("Português");
            assert(d.len() != "Unknown"@.len());
        } else if up == "BR"@ {
            reveal_strlit("Português (BR)");
            assert(d.len() != "Unknown"@.len());
        } else if up == "KO"@ {
            reveal_strlit("한국어");
            assert(d.len() != "Unknown"@.len());
        } else if up == "RU"@ {
            reveal_strlit("Русский");
            assert(d[0] != "Unknown"@[0]);
        } else if up == "PL"@ {
            reveal_strlit("Polski");
            assert(d.len() != "Unknown"@.len());
        } else if up == "NL"@ {
            reveal_strlit("Nederlands");
            assert(d.len() != "Unknown"@.len());
        } else if up == "TR"@ {
            reveal_strlit("Türkçe");
            assert(d.len() != "Unknown"@.len());
        } else if up == "DK"@ {
            reveal_strlit("Dansk");
            assert(d.len() != "Unknown"@.len());
        } else if up == "SV"@ {
            reveal_strlit("Svenska");
            assert(d[0] != "Unknown"@[0]);
        } else if up == "NO"@ {
            reveal_strlit("Norsk");
            assert(d.len() != "Unknown"@.len());
        } else if up == "FI"@ {
            reveal_strlit("Suomi");
            assert(d.len() != "Unknown"@.len());
        } else if up == "CZ"@ {
            reveal_strlit("Čeština");
            assert(d[0] != "Unknown"@[0]);
        } else if up == "HU"@ {
            reveal_strlit("Magyar");
            assert(d.len() != "Unknown"@.len());
        } else {
            reveal_strlit("Ελληνικά");
            assert(d.len() != "Unknown"@.len());
        }
    }
}

/// Codes that differ only in ASCII case have the same upper-case form, so
/// they name the same language, both for the display name and for Steam's
/// language name (for ASCII codes both functions go by `ascii_upper_seq`).
pub proof fn law_codes_ignore_ascii_case(a: Seq<char>, b: Seq<char>)
    requires
        eq_ignore_ascii_case_seq(a, b),
    ensures
        ascii_upper_seq(a) == ascii_upper_seq(b),
        display_name_of(ascii_upper_seq(a)) == display_name_of(ascii_upper_seq(b)),
        steam_language_of(ascii_upper_seq(a)) == steam_language_of(ascii_upper_seq(b)),
{
    assert forall|i: int| 0 <= i < a.len() implies ascii_upper(a[i]) == ascii_upper(b[i]) by {
        assert(ascii_lower(a[i]) == ascii_lower(b[i]));
    }
    assert(ascii_upper_seq(a) =~= ascii_upper_seq(b));
}

} // verus!
