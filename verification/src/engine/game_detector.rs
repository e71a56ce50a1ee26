//! The supported games, their Steam facts, the rules that a game directory
//! must meet, and the reading of Steam's library and app manifest files.
use vstd::prelude::*;

use crate::engine::steam_language::{quoted_key, quoted_key_chars, quoted_value, quoted_value_chars, str_eq};
use crate::text::{
    chars_of, eq_ignore_ascii_case_seq, lines, split_lines, starts_with, starts_with_chars, string_from,
    trim, trim_chars, trim_start, leading_ws_len, slice_chars, lemma_trim_start_is_suffix, eq_ignore_ascii_case, is_ws,
};

verus! {

/// The supported games.
#[derive(Debug, Clone, Copy, PartialEq, Eq, Structural)]
pub enum GameId {
    Fh5,
    Fh6,
}

/// A detected or validated game installation.
#[derive(Debug, Clone)]
pub struct GameProfile {
    pub game_id: GameId,
    pub display_name: String,
    pub channel: String,
    pub steam_app_id: String,
    pub root_path: String,
    pub resource_path: String,
    pub executable_name: String,
}

/// What was found on disk about a directory offered as a game installation.
#[derive(Debug, Clone)]
pub struct DirectoryFacts {
    /// The directory exists.
    pub is_dir: bool,
    /// Its `media/Stripped/StringTables` path.
    pub resource_path: String,
    /// The game's executable is present in it.
    pub executable_present: bool,
    /// The StringTables directory is present.
    pub resource_dir_present: bool,
    /// Number of `.zip` files in the StringTables directory.
    pub zip_count: usize,
    /// Directories that must not be taken for a game: the user's home and
    /// the system's directories.
    pub protected_dirs: Vec<String>,
}

pub open spec fn game_code_view(id: GameId) -> Seq<char> {
    match id {
        GameId::Fh5 => "fh5"@,
        GameId::Fh6 => "fh6"@,
    }
}

pub open spec fn display_name_view(id: GameId) -> Seq<char> {
    match id {
        GameId::Fh5 => "Forza Horizon 5"@,
        GameId::Fh6 => "Forza Horizon 6"@,
    }
}

pub open spec fn steam_app_id_view(id: GameId) -> Seq<char> {
    match id {
        GameId::Fh5 => "1551360"@,
        GameId::Fh6 => "2483190"@,
    }
}

pub open spec fn install_dir_view(id: GameId) -> Seq<char> {
    match id {
        GameId::Fh5 => "ForzaHorizon5"@,
        GameId::Fh6 => "ForzaHorizon6"@,
    }
}

/// The executable's name; FH6's is all lower case.
pub open spec fn executable_name_view(id: GameId) -> Seq<char> {
    match id {
        GameId::Fh5 => "ForzaHorizon5.exe"@,
        GameId::Fh6 => "forzahorizon6.exe"@,
    }
}

pub fn display_name(id: GameId) -> (r: &'static str)
    ensures
        r@ == display_name_view(id),
{
    match id {
        GameId::Fh5 => "Forza Horizon 5",
        GameId::Fh6 => "Forza Horizon 6",
    }
}

pub fn steam_app_id(id: GameId) -> (r: &'static str)
    ensures
        r@ == steam_app_id_view(id),
{
    match id {
        GameId::Fh5 => "1551360",
        GameId::Fh6 => "2483190",
    }
}

/// The game's default directory under `steamapps/common`.
pub fn install_dir(id: GameId) -> (r: &'static str)
    ensures
        r@ == install_dir_view(id),
{
    match id {
        GameId::Fh5 => "ForzaHorizon5",
        GameId::Fh6 => "ForzaHorizon6",
    }
}

pub fn executable_name(id: GameId) -> (r: &'static str)
    ensures
        r@ == executable_name_view(id),
{
    match id {
        GameId::Fh5 => "ForzaHorizon5.exe",
        GameId::Fh6 => "forzahorizon6.exe",
    }
}

/// The game that a command names: `"fh5"` or `"fh6"`, exactly.
pub fn parse_game_id(game_id: &str) -> (res: Result<GameId, String>)
    ensures
        match res {
            Ok(id) => game_code_view(id) == game_id@,
            Err(e) => game_id@ != "fh5"@ && game_id@ != "fh6"@ && e@ == "Unknown game_id: "@
                + game_id@,
        },
{
    if str_eq(game_id, "fh5") {
        Ok(GameId::Fh5)
    } else if str_eq(game_id, "fh6") {
        Ok(GameId::Fh6)
    } else {
        Err(String::from_str("Unknown game_id: ").concat(game_id))
    }
}

/// Whether `p` is the profile of game `id` installed at `root` with its
/// language packs in `resource`.
pub open spec fn is_profile(p: GameProfile, id: GameId, root: Seq<char>, resource: Seq<char>) -> bool {
    &&& p.game_id == id
    &&& p.display_name@ == display_name_view(id)
    &&& p.channel@ == "steam"@
    &&& p.steam_app_id@ == steam_app_id_view(id)
    &&& p.root_path@ == root
    &&& p.resource_path@ == resource
    &&& p.executable_name@ == executable_name_view(id)
}

/// The profile of game `id` installed at `root_path`.
pub fn game_profile(id: GameId, root_path: &str, resource_path: &str) -> (p: GameProfile)
    ensures
        is_profile(p, id, root_path@, resource_path@),
{
    GameProfile {
        game_id: id,
        display_name: display_name(id).to_owned(),
        channel: String::from_str("steam"),
        steam_app_id: steam_app_id(id).to_owned(),
        root_path: root_path.to_owned(),
        resource_path: resource_path.to_owned(),
        executable_name: executable_name(id).to_owned(),
    }
}

/// What `std::path::Path::parent` gives for a path: the path without its
/// last component; `None` for a root, a prefix or the empty path.
pub uninterp spec fn path_parent_of(path: Seq<char>) -> Option<Seq<char>>;

/// Calls `std::path::Path::parent` on `path`. The contract claims only that
/// the result is the named `path_parent_of` of the text: it depends on the
/// path alone, and a parent of a text path is text again.
#[verifier::external_body]
fn path_parent(path: &str) -> (res: Option<String>)
    ensures
        match res {
            Some(p) => path_parent_of(path@) == Some(p@),
            None => path_parent_of(path@) is None,
        },
{
    std::path::Path::new(path).parent().map(|p| p.to_string_lossy().into_owned())
}

/// The directory three levels above `path` (a game's root above
/// `media/Stripped/StringTables`), when there is one.
pub open spec fn third_ancestor(path: Seq<char>) -> Option<Seq<char>> {
    match path_parent_of(path) {
        Some(a) => match path_parent_of(a) {
            Some(b) => path_parent_of(b),
            None => None,
        },
        None => None,
    }
}

/// The directory three levels above `path`; see `third_ancestor`.
pub fn game_root_of(path: &str) -> (res: Option<String>)
    ensures
        match res {
            Some(r) => third_ancestor(path@) == Some(r@),
            None => third_ancestor(path@) is None,
        },
{
    let a = match path_parent(path) {
        Some(a) => a,
        None => {
            return None;
        },
    };
    let b = match path_parent(a.as_str()) {
        Some(b) => b,
        None => {
            return None;
        },
    };
    path_parent(b.as_str())
}

// ---------------------------------------------------------------------------
// Directory rules
// ---------------------------------------------------------------------------
pub open spec fn is_sep(c: char) -> bool {
    c == '/' || c == '\\'
}

/// `s` without path separators at its end.
pub open spec fn strip_trailing_seps(s: Seq<char>) -> Seq<char>
    decreases s.len(),
{
    if s.len() > 0 && is_sep(s.last()) {
        strip_trailing_seps(s.drop_last())
    } else {
        s
    }
}

pub open spec fn is_ascii_letter(c: char) -> bool {
    ('a' <= c <= 'z') || ('A' <= c <= 'Z')
}

/// A disk root: `/`, `\`, `C:`, `C:\` and the like.
pub open spec fn is_disk_root(path: Seq<char>) -> bool {
    let t = strip_trailing_seps(path);
    t.len() == 0 || (t.len() == 2 && is_ascii_letter(t[0]) && t[1] == ':')
}

/// Two paths name the same directory: equal up to ASCII case and separators at the end.
pub open spec fn same_dir(a: Seq<char>, b: Seq<char>) -> bool {
    eq_ignore_ascii_case_seq(strip_trailing_seps(a), strip_trailing_seps(b))
}

pub open spec fn is_protected(path: Seq<char>, protected_dirs: Seq<String>) -> bool {
    exists|i: int| 0 <= i < protected_dirs.len() && same_dir(path, #[trigger] protected_dirs[i]@)
}

fn strip_trailing_seps_chars(v: &Vec<char>) -> (res: Vec<char>)
    ensures
        res@ == strip_trailing_seps(v@),
{
    let mut j = v.len();
    assert(v@.take(v.len() as int) =~= v@);
    while j > 0 && (v[j - 1] == '/' || v[j - 1] == '\\')
        invariant
            j <= v.len(),
            strip_trailing_seps(v@) == strip_trailing_seps(v@.take(j as int)),
        decreases j,
    {
        assert(v@.take(j as int).drop_last() =~= v@.take(j - 1));
        j = j - 1;
    }
    if j > 0 {
        assert(v@.take(j as int).last() == v@[j - 1]);
    }
    slice_chars(v, 0, j)
}

/// Whether `path` is a disk root.
pub fn disk_root(path: &str) -> (res: bool)
    ensures
        res == is_disk_root(path@),
{
    let t = strip_trailing_seps_chars(&chars_of(path));
    t.len() == 0 || (t.len() == 2 && (('a' <= t[0] && t[0] <= 'z') || ('A' <= t[0] && t[0] <= 'Z'))
        && t[1] == ':')
}

fn same_dir_exec(a: &str, b: &str) -> (res: bool)
    ensures
        res == same_dir(a@, b@),
{
    let ta = string_from(&strip_trailing_seps_chars(&chars_of(a)));
    let tb = string_from(&strip_trailing_seps_chars(&chars_of(b)));
    eq_ignore_ascii_case(ta.as_str(), tb.as_str())
}

fn protected(path: &str, dirs: &Vec<String>) -> (res: bool)
    ensures
        res == is_protected(path@, dirs@),
{
    let mut i: usize = 0;
    while i < dirs.len()
        invariant
            i <= dirs.len(),
            forall|k: int| 0 <= k < i ==> !same_dir(path@, #[trigger] dirs@[k]@),
        decreases dirs.len() - i,
    {
        if same_dir_exec(path, dirs[i].as_str()) {
            return true;
        }
        i = i + 1;
    }
    false
}

/// The outcome of validating `path` as the installation of `game_id`, by the
/// rules in their order of checking.
pub open spec fn validation_error(path: Seq<char>, game_id: GameId, facts: DirectoryFacts) -> Option<Seq<char>> {
    if !facts.is_dir {
        Some("Directory does not exist: "@ + path)
    } else if is_disk_root(path) {
        Some("A disk root cannot be a game directory: "@ + path)
    } else if is_protected(path, facts.protected_dirs@) {
        Some("A system or home directory cannot be a game directory: "@ + path)
    } else if !facts.executable_present {
        Some("Game executable not found: "@ + executable_name_view(game_id))
    } else if !facts.resource_dir_present {
        Some("StringTables directory not found: "@ + facts.resource_path@)
    } else if facts.zip_count < 2 {
        Some("StringTables holds fewer than 2 .zip language packs"@)
    } else {
        None
    }
}

/// Validates a directory offered as the installation of `game_id`: it must
/// exist, be neither a disk root nor a system or home directory, hold the
/// game's executable and a StringTables directory with at least two `.zip`
/// files. Returns the game's profile.
pub fn validate_game_directory(path: &str, game_id: GameId, facts: &DirectoryFacts) -> (res: Result<GameProfile, String>)
    ensures
        match res {
            Ok(p) => validation_error(path@, game_id, *facts) is None && is_profile(
                p,
                game_id,
                path@,
                facts.resource_path@,
            ),
            Err(e) => validation_error(path@, game_id, *facts) == Some(e@),
        },
{
    if !facts.is_dir {
        return Err(String::from_str("Directory does not exist: ").concat(path));
    }
    if disk_root(path) {
        return Err(String::from_str("A disk root cannot be a game directory: ").concat(path));
    }
    if protected(path, &facts.protected_dirs) {
        return Err(
            String::from_str("A system or home directory cannot be a game directory: ").concat(path),
        );
    }
    if !facts.executable_present {
        return Err(String::from_str("Game executable not found: ").concat(executable_name(game_id)));
    }
    if !facts.resource_dir_present {
        return Err(
            String::from_str("StringTables directory not found: ").concat(facts.resource_path.as_str()),
        );
    }
    if facts.zip_count < 2 {
        return Err(String::from_str("StringTables holds fewer than 2 .zip language packs"));
    }
    Ok(game_profile(game_id, path, facts.resource_path.as_str()))
}

/// Only a protected directory itself is refused, not what lies inside it: a
/// directory that exists and is no disk root is refused as a system or home
/// directory exactly when it names one of the protected directories (equal up
/// to ASCII case and separators at the end). So a game under `Program Files
/// (x86)\Steam\steamapps\common` validates when its executable and language
/// packs are there, and a path of another length than every protected
/// directory is never refused as one.
pub proof fn law_only_protected_dirs_themselves(path: Seq<char>, game_id: GameId, facts: DirectoryFacts)
    requires
        facts.is_dir,
        !is_disk_root(path),
    ensures
        (exists|i: int|
            0 <= i < facts.protected_dirs@.len() && eq_ignore_ascii_case_seq(
                strip_trailing_seps(path),
                strip_trailing_seps(#[trigger] facts.protected_dirs@[i]@),
            )) ==> validation_error(path, game_id, facts) == Some(
            "A system or home directory cannot be a game directory: "@ + path,
        ),
        (forall|i: int|
            0 <= i < facts.protected_dirs@.len() ==> !eq_ignore_ascii_case_seq(
                strip_trailing_seps(path),
                strip_trailing_seps(#[trigger] facts.protected_dirs@[i]@),
            )) && facts.executable_present && facts.resource_dir_present && facts.zip_count >= 2
            ==> validation_error(path, game_id, facts) is None,
        (forall|i: int|
            0 <= i < facts.protected_dirs@.len() ==> strip_trailing_seps(#[trigger] facts.protected_dirs@[i]@).len()
                != strip_trailing_seps(path).len()) && facts.executable_present
            && facts.resource_dir_present && facts.zip_count >= 2 ==> validation_error(
            path,
            game_id,
            facts,
        ) is None,
{
    if forall|i: int|
        0 <= i < facts.protected_dirs@.len() ==> strip_trailing_seps(#[trigger] facts.protected_dirs@[i]@).len()
            != strip_trailing_seps(path).len() {
        assert forall|i: int| 0 <= i < facts.protected_dirs@.len() implies !eq_ignore_ascii_case_seq(
            strip_trailing_seps(path),
            strip_trailing_seps(#[trigger] facts.protected_dirs@[i]@),
        ) by {
            assert(strip_trailing_seps(facts.protected_dirs@[i]@).len() != strip_trailing_seps(path).len());
        }
    }
}

// ---------------------------------------------------------------------------
// Steam's key-value files
// ---------------------------------------------------------------------------
/// A quoted value of a Valve key-value file with its `\\` escapes undone.
pub open spec fn unescape(s: Seq<char>) -> Seq<char>
    decreases s.len(),
{
    if s.len() == 0 {
        seq![]
    } else if s.len() >= 2 && s[0] == '\\' && s[1] == '\\' {
        seq!['\\'] + unescape(s.skip(2))
    } else {
        seq![s[0]] + unescape(s.skip(1))
    }
}

/// The values, in order, of the `"key" "value"` lines of a key-value file
/// whose key is `key`.
pub open spec fn values_of_key(ls: Seq<Seq<char>>, key: Seq<char>) -> Seq<Seq<char>>
    decreases ls.len(),
{
    if ls.len() == 0 {
        seq![]
    } else {
        let t = trim(ls.last());
        let rest = values_of_key(ls.drop_last(), key);
        if quoted_key(t) == Some(key) && quoted_value(t) is Some {
            rest.push(unescape(quoted_value(t)->0))
        } else {
            rest
        }
    }
}

fn unescape_chars(v: &Vec<char>) -> (res: Vec<char>)
    ensures
        res@ == unescape(v@),
{
    let mut out: Vec<char> = Vec::new();
    let mut i: usize = 0;
    assert(v@.skip(0) =~= v@);
    assert(out@ + unescape(v@) =~= unescape(v@));
    while i < v.len()
        invariant
            i <= v.len(),
            unescape(v@) == out@ + unescape(v@.skip(i as int)),
        decreases v.len() - i,
    {
        let ghost rest = v@.skip(i as int);
        if i + 1 < v.len() && v[i] == '\\' && v[i + 1] == '\\' {
            out.push('\\');
            assert(rest.skip(2) =~= v@.skip(i + 2));
            assert(out@ + unescape(v@.skip(i + 2)) =~= unescape(v@));
            i = i + 2;
        } else {
            out.push(v[i]);
            assert(rest.skip(1) =~= v@.skip(i + 1));
            assert(rest[0] == v@[i as int]);
            assert(out@ + unescape(v@.skip(i + 1)) =~= unescape(v@));
            i = i + 1;
        }
    }
    assert(v@.skip(i as int) =~= Seq::<char>::empty());
    assert(out@ + unescape(v@.skip(i as int)) =~= out@);
    out
}

/// The values of the lines of `content` whose key is `key`, in order.
pub fn key_values(content: &str, key: &str) -> (res: Vec<String>)
    ensures
        res@.len() == values_of_key(lines(content@), key@).len(),
        forall|i: int| 0 <= i < res@.len() ==> #[trigger] res@[i]@ == values_of_key(lines(content@), key@)[i],
{
    let v = chars_of(content);
    let kv = chars_of(key);
    let ls = split_lines(&v);
    let ghost all = lines(content@);
    let mut res: Vec<String> = Vec::new();
    let mut i: usize = 0;
    assert(all.take(0) =~= Seq::<Seq<char>>::empty());
    while i < ls.len()
        invariant
            v@ == content@,
            kv@ == key@,
            all == lines(content@),
            ls@.len() == all.len(),
            forall|k: int| 0 <= k < ls@.len() ==> #[trigger] ls@[k]@ == all[k],
            i <= ls.len(),
            res@.len() == values_of_key(all.take(i as int), key@).len(),
            forall|k: int| 0 <= k < res@.len() ==> #[trigger] res@[k]@ == values_of_key(all.take(i as int), key@)[k],
        decreases ls.len() - i,
    {
        let t = trim_chars(&ls[i]);
        proof {
            assert(all.take(i + 1).drop_last() =~= all.take(i as int));
            assert(all.take(i + 1).last() == all[i as int]);
        }
        match quoted_key_chars(&t) {
            Some(k) => {
                if eq_chars(&k, &kv) {
                    match quoted_value_chars(&t) {
                        Some(val) => {
                            let u = unescape_chars(&val);
                            res.push(string_from(&u));
                        },
                        None => {},
                    }
                }
            },
            None => {},
        }
        i = i + 1;
    }
    assert(all.take(ls.len() as int) =~= all);
    res
}

fn eq_chars(a: &Vec<char>, b: &Vec<char>) -> (res: bool)
    ensures
        res == (a@ == b@),
{
    if a.len() != b.len() {
        return false;
    }
    let mut i: usize = 0;
    while i < a.len()
        invariant
            a.len() == b.len(),
            i <= a.len(),
            forall|k: int| 0 <= k < i ==> a@[k] == b@[k],
        decreases a.len() - i,
    {
        if a[i] != b[i] {
            return false;
        }
        i = i + 1;
    }
    assert(a@ =~= b@);
    true
}

/// The library folders that Steam's `libraryfolders.vdf` lists: the values of
/// its `"path"` lines.
pub fn library_paths(vdf: &str) -> (res: Vec<String>)
    ensures
        res@.len() == values_of_key(lines(vdf@), "path"@).len(),
        forall|i: int| 0 <= i < res@.len() ==> #[trigger] res@[i]@ == values_of_key(lines(vdf@), "path"@)[i],
{
    key_values(vdf, "path")
}

/// The directory under `steamapps/common` that an `appmanifest_*.acf` names:
/// the value of its first `"installdir"` line.
pub fn manifest_install_dir(acf: &str) -> (res: Option<String>)
    ensures
        match res {
            Some(d) => values_of_key(lines(acf@), "installdir"@).len() > 0 && d@ == values_of_key(
                lines(acf@),
                "installdir"@,
            )[0],
            None => values_of_key(lines(acf@), "installdir"@).len() == 0,
        },
{
    let mut vals = key_values(acf, "installdir");
    if vals.len() == 0 {
        None
    } else {
        Some(vals.remove(0))
    }
}

/// The value that a `reg query` output line gives for value `name`: the line,
/// trimmed, is `name`, whitespace, `REG_SZ`, then the value (trimmed).
pub open spec fn reg_line_value(t: Seq<char>, name: Seq<char>) -> Option<Seq<char>> {
    if t.len() > name.len() && starts_with(t, name) && is_ws(t[name.len() as int]) {
        let rest = trim_start(t.skip(name.len() as int));
        if starts_with(rest, "REG_SZ"@) {
            Some(trim(rest.skip(6)))
        } else {
            None
        }
    } else {
        None
    }
}

/// The value of `name` in the output of `reg query`: that of the first line giving one.
pub open spec fn reg_value(ls: Seq<Seq<char>>, name: Seq<char>) -> Option<Seq<char>>
    decreases ls.len(),
{
    if ls.len() == 0 {
        None
    } else if reg_line_value(trim(ls[0]), name) is Some {
        reg_line_value(trim(ls[0]), name)
    } else {
        reg_value(ls.drop_first(), name)
    }
}

fn reg_line_value_exec(t: &Vec<char>, name: &Vec<char>) -> (res: Option<Vec<char>>)
    ensures
        match res {
            Some(v) => reg_line_value(t@, name@) == Some(v@),
            None => reg_line_value(t@, name@) is None,
        },
{
    if t.len() <= name.len() || !starts_with_chars(t, name) || !crate::text::is_whitespace(t[name.len()]) {
        return None;
    }
    let after = slice_chars(t, name.len(), t.len());
    let n = leading_ws_len(&after);
    proof {
        lemma_trim_start_is_suffix(after@);
    }
    let rest = slice_chars(&after, n, after.len());
    assert(rest@ =~= trim_start(t@.skip(name@.len() as int)));
    let tag: Vec<char> = vec!['R', 'E', 'G', '_', 'S', 'Z'];
    proof {
        reveal_strlit("REG_SZ");
    }
    assert(tag@ =~= "REG_SZ"@);
    if !starts_with_chars(&rest, &tag) {
        return None;
    }
    let value = slice_chars(&rest, 6, rest.len());
    assert(value@ =~= rest@.skip(6));
    Some(trim_chars(&value))
}

/// The value of `name` in the output of `reg query` (where Steam's install
/// path is read from); see `reg_value`.
pub fn reg_query_value(output: &str, name: &str) -> (res: Option<String>)
    ensures
        match res {
            Some(v) => reg_value(lines(output@), name@) == Some(v@),
            None => reg_value(lines(output@), name@) is None,
        },
{
    let v = chars_of(output);
    let nv = chars_of(name);
    let ls = split_lines(&v);
    let ghost all = lines(output@);
    let mut i: usize = 0;
    assert(all.skip(0) =~= all);
    while i < ls.len()
        invariant
            v@ == output@,
            nv@ == name@,
            all == lines(output@),
            ls@.len() == all.len(),
            forall|k: int| 0 <= k < ls@.len() ==> #[trigger] ls@[k]@ == all[k],
            i <= ls.len(),
            reg_value(all, name@) == reg_value(all.skip(i as int), name@),
        decreases ls.len() - i,
    {
        let t = trim_chars(&ls[i]);
        assert(all.skip(i as int)[0] == all[i as int]);
        match reg_line_value_exec(&t, &nv) {
            Some(val) => {
                return Some(string_from(&val));
            },
            None => {},
        }
        assert(all.skip(i as int).drop_first() =~= all.skip(i + 1));
        i = i + 1;
    }
    None
}


/// Text taken by content.
pub open spec fn strings_view(v: Seq<String>) -> Seq<Seq<char>> {
    v.map_values(|s: String| s@)
}

/// The Steam libraries to search, in order: Steam's own directory, then each
/// library that `libraryfolders.vdf` lists (`listed`), each path once.
pub open spec fn libraries_of(steam: Seq<char>, listed: Seq<Seq<char>>) -> Seq<Seq<char>>
    decreases listed.len(),
{
    if listed.len() == 0 {
        seq![steam]
    } else {
        let prev = libraries_of(steam, listed.drop_last());
        if prev.contains(listed.last()) {
            prev
        } else {
            prev.push(listed.last())
        }
    }
}

fn contains_string(v: &Vec<String>, s: &str) -> (r: bool)
    ensures
        r == strings_view(v@).contains(s@),
{
    let mut i: usize = 0;
    while i < v.len()
        invariant
            i <= v.len(),
            forall|k: int| 0 <= k < i ==> v@[k]@ != s@,
        decreases v.len() - i,
    {
        if str_eq(v[i].as_str(), s) {
            assert(strings_view(v@)[i as int] == s@);
            return true;
        }
        i = i + 1;
    }
    proof {
        if strings_view(v@).contains(s@) {
            let k = choose|k: int| 0 <= k < strings_view(v@).len() && strings_view(v@)[k] == s@;
            assert(v@[k]@ == s@);
        }
    }
    false
}

/// The Steam libraries to search for the games: Steam's own directory
/// `steam`, then the libraries `listed` in order, without repeating a path.
pub fn steam_libraries(steam: &str, listed: &Vec<String>) -> (res: Vec<String>)
    ensures
        strings_view(res@) == libraries_of(steam@, strings_view(listed@)),
{
    let ghost xs = strings_view(listed@);
    let mut res: Vec<String> = Vec::new();
    res.push(steam.to_owned());
    let mut i: usize = 0;
    proof {
        assert(xs.take(0) =~= Seq::<Seq<char>>::empty());
        assert(strings_view(res@) =~= seq![steam@]);
    }
    while i < listed.len()
        invariant
            xs == strings_view(listed@),
            i <= listed.len(),
            strings_view(res@) == libraries_of(steam@, xs.take(i as int)),
        decreases listed.len() - i,
    {
        proof {
            assert(xs.take(i + 1).drop_last() =~= xs.take(i as int));
            assert(xs.take(i + 1).last() == listed@[i as int]@);
        }
        if !contains_string(&res, listed[i].as_str()) {
            let ghost before = res@;
            res.push(listed[i].clone());
            proof {
                assert(strings_view(res@) =~= strings_view(before).push(listed@[i as int]@));
            }
        }
        i = i + 1;
    }
    proof {
        assert(xs.take(listed@.len() as int) =~= xs);
    }
    res
}

/// The directory under `steamapps/common` of the game `id`, from its app
/// manifest `acf`: the manifest's `"installdir"`, else the game's usual directory.
pub fn game_install_dir(id: GameId, acf: &str) -> (res: String)
    ensures
        res@ == if values_of_key(lines(acf@), "installdir"@).len() > 0 {
            values_of_key(lines(acf@), "installdir"@)[0]
        } else {
            install_dir_view(id)
        },
{
    match manifest_install_dir(acf) {
        Some(d) => d,
        None => install_dir(id).to_owned(),
    }
}

/// Of the installations checked in each library in turn, the one that is
/// detected: the first that passed validation; `None` when none did.
pub fn first_installation(checked: &Vec<Result<GameProfile, String>>) -> (res: Option<usize>)
    ensures
        match res {
            Some(i) => i < checked@.len() && checked@[i as int] is Ok && forall|k: int|
                0 <= k < i ==> checked@[k] is Err,
            None => forall|k: int| 0 <= k < checked@.len() ==> checked@[k] is Err,
        },
{
    let mut i: usize = 0;
    while i < checked.len()
        invariant
            i <= checked.len(),
            forall|k: int| 0 <= k < i ==> checked@[k] is Err,
        decreases checked.len() - i,
    {
        if checked[i].is_ok() {
            return Some(i);
        }
        i = i + 1;
    }
    None
}

} // verus!
