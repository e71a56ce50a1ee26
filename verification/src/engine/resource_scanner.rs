//! The language packs of a StringTables directory, and the SHA-256 digests
//! by which the tool recognises file contents.
use sha2::Digest;
use vstd::prelude::*;

use crate::engine::language_mapper::{display_name_of, get_display_name, ResourceFile};
use crate::order::{lemma_map_multiset, sort_by_key, sorted_by_key, Keyed};
use crate::text::{ascii_upper_seq, is_ascii_seq, chars_of, eq_ignore_ascii_case_seq, slice_chars, string_from, uppercase_of};

verus! {

/// A language pack found in the StringTables directory.
#[derive(Debug, Clone)]
pub struct LanguagePack {
    pub code: String,
    pub display_name: String,
    pub file_name: String,
    pub path: String,
    pub size: u64,
    pub sha256: String,
    pub modified_at: String,
    pub readable: bool,
    pub writable: bool,
}

impl Keyed for LanguagePack {
    open spec fn key_view(&self) -> Seq<char> {
        self.code@
    }

    fn key_chars(&self) -> (k: Vec<char>) {
        chars_of(self.code.as_str())
    }
}

/// What was read of one file of the StringTables directory.
#[derive(Debug, Clone)]
pub struct ScannedFile {
    pub file_name: String,
    pub path: String,
    pub size: u64,
    /// Lower-case hex SHA-256 of the content; empty when it could not be read.
    pub sha256: String,
    /// Modification time, ISO 8601.
    pub modified_at: String,
    /// The content could be read.
    pub readable: bool,
    pub writable: bool,
}

/// The language code of a pack file: its name without the `.zip` extension
/// (matched in any ASCII case), in the case it has on disk (`br.zip` gives
/// `br`). `None` for other files and for a bare `.zip`.
pub open spec fn pack_code(file_name: Seq<char>) -> Option<Seq<char>> {
    if file_name.len() > 4 && eq_ignore_ascii_case_seq(file_name.skip(file_name.len() - 4), ".zip"@) {
        Some(file_name.take(file_name.len() - 4))
    } else {
        None
    }
}

/// The language code of a pack file; see `pack_code`.
pub fn language_code(file_name: &str) -> (res: Option<String>)
    ensures
        match res {
            Some(c) => pack_code(file_name@) == Some(c@),
            None => pack_code(file_name@) is None,
        },
{
    let v = chars_of(file_name);
    if v.len() <= 4 {
        return None;
    }
    let n = v.len() - 4;
    let ext = string_from(&slice_chars(&v, n, v.len()));
    assert(ext@ =~= file_name@.skip(file_name@.len() - 4));
    if crate::text::eq_ignore_ascii_case(ext.as_str(), ".zip") {
        let code = slice_chars(&v, 0, n);
        assert(code@ =~= file_name@.take(file_name@.len() - 4));
        Some(string_from(&code))
    } else {
        None
    }
}

pub open spec fn is_pack(f: ScannedFile) -> bool {
    pack_code(f.file_name@) is Some
}

/// The fields of a pack, text taken by content.
pub type PackView = (Seq<char>, Seq<char>, Seq<char>, Seq<char>, u64, Seq<char>, Seq<char>, bool, bool);

pub open spec fn pack_view(p: LanguagePack) -> PackView {
    (
        p.code@,
        p.display_name@,
        p.file_name@,
        p.path@,
        p.size,
        p.sha256@,
        p.modified_at@,
        p.readable,
        p.writable,
    )
}

/// The pack that a scanned `.zip` file is: its code, that code's display
/// name, and the file's own facts.
pub open spec fn scanned_pack_view(f: ScannedFile) -> PackView {
    let code = pack_code(f.file_name@)->0;
    (
        code,
        display_name_of(uppercase_of(code)),
        f.file_name@,
        f.path@,
        f.size,
        f.sha256@,
        f.modified_at@,
        f.readable,
        f.writable,
    )
}

pub open spec fn is_pack_file(f: ResourceFile) -> bool {
    pack_code(f.file_name@) is Some
}

/// How many language packs (`.zip` files, see `pack_code`) are among the
/// files of a directory.
pub fn count_packs(files: &Vec<ResourceFile>) -> (n: usize)
    ensures
        n == files@.filter(|f: ResourceFile| is_pack_file(f)).len(),
{
    let ghost pred = |f: ResourceFile| is_pack_file(f);
    let mut n: usize = 0;
    let mut i: usize = 0;
    assert(files@.take(0).filter(pred) =~= Seq::<ResourceFile>::empty());
    while i < files.len()
        invariant
            i <= files.len(),
            pred == (|f: ResourceFile| is_pack_file(f)),
            n == files@.take(i as int).filter(pred).len(),
            n <= i,
        decreases files.len() - i,
    {
        proof {
            reveal_with_fuel(Seq::<_>::filter, 1);
            assert(files@.take(i + 1).drop_last() =~= files@.take(i as int));
            assert(files@.take(i + 1).last() == files@[i as int]);
        }
        if language_code(files[i].file_name.as_str()).is_some() {
            n = n + 1;
        }
        i = i + 1;
    }
    assert(files@.take(files.len() as int) =~= files@);
    n
}

/// A pack carries the display name of its code, looked up with the code in
/// upper case: codes that differ only in letter case (FH5's `br`, FH6's `BR`)
/// get the same name.
pub open spec fn named_by_code(p: LanguagePack) -> bool {
    &&& p.display_name@ == display_name_of(uppercase_of(p.code@))
    &&& is_ascii_seq(p.code@) ==> p.display_name@ == display_name_of(ascii_upper_seq(p.code@))
}

/// The language packs among the scanned files of a StringTables directory:
/// one per `.zip` file, sorted by language code.
pub fn scan_string_tables(files: &Vec<ScannedFile>) -> (res: Vec<LanguagePack>)
    ensures
        res@.map_values(|p: LanguagePack| pack_view(p)).to_multiset() == files@.filter(
            |f: ScannedFile| is_pack(f),
        ).map_values(|f: ScannedFile| scanned_pack_view(f)).to_multiset(),
        sorted_by_key(res@, false),
        forall|i: int| 0 <= i < res@.len() ==> named_by_code(#[trigger] res@[i]),
{
    let ghost pred = |f: ScannedFile| is_pack(f);
    let ghost pv = |p: LanguagePack| pack_view(p);
    let ghost sv = |f: ScannedFile| scanned_pack_view(f);
    let mut packs: Vec<LanguagePack> = Vec::new();
    let mut i: usize = 0;
    assert(files@.take(0).filter(pred) =~= Seq::<ScannedFile>::empty());
    assert(packs@.map_values(pv) =~= Seq::<PackView>::empty());
    while i < files.len()
        invariant
            i <= files.len(),
            pred == (|f: ScannedFile| is_pack(f)),
            pv == (|p: LanguagePack| pack_view(p)),
            sv == (|f: ScannedFile| scanned_pack_view(f)),
            packs@.map_values(pv) == files@.take(i as int).filter(pred).map_values(sv),
            forall|k: int| 0 <= k < packs@.len() ==> named_by_code(#[trigger] packs@[k]),
        decreases files.len() - i,
    {
        let f = &files[i];
        proof {
            reveal_with_fuel(Seq::<_>::filter, 1);
            assert(files@.take(i + 1).drop_last() =~= files@.take(i as int));
        }
        let ghost before = packs@;
        match language_code(f.file_name.as_str()) {
            Some(code) => {
                let name = get_display_name(code.as_str());
                let pack = LanguagePack {
                    code,
                    display_name: name.to_owned(),
                    file_name: f.file_name.clone(),
                    path: f.path.clone(),
                    size: f.size,
                    sha256: f.sha256.clone(),
                    modified_at: f.modified_at.clone(),
                    readable: f.readable,
                    writable: f.writable,
                };
                packs.push(pack);
                assert(packs@.map_values(pv) =~= before.map_values(pv).push(pv(pack)));
                assert(packs@.map_values(pv) =~= files@.take(i + 1).filter(pred).map_values(sv));
            },
            None => {
                assert(packs@.map_values(pv) =~= files@.take(i + 1).filter(pred).map_values(sv));
            },
        }
        i = i + 1;
    }
    assert(files@.take(files.len() as int) =~= files@);
    let ghost unsorted = packs@;
    let res = sort_by_key(packs, false);
    proof {
        lemma_map_multiset(res@, unsorted, pv);
        broadcast use vstd::seq_lib::to_multiset_contains;

        assert forall|i: int| 0 <= i < res@.len() implies named_by_code(#[trigger] res@[i]) by {
            assert(res@.contains(res@[i]));
            assert(res@.to_multiset().count(res@[i]) > 0);
            assert(unsorted.to_multiset().count(res@[i]) > 0);
            assert(unsorted.contains(res@[i]));
        }
    }
    res
}

/// Of the packs a scan gives, two whose (ASCII) codes differ only in letter
/// case carry the same display name, and an ASCII code is named by its
/// upper-case form: FH5's `br.zip` is named as FH6's `BR.zip` is.
pub proof fn law_scan_names_ignore_case(res: Seq<LanguagePack>, i: int, j: int)
    requires
        forall|k: int| 0 <= k < res.len() ==> named_by_code(#[trigger] res[k]),
        0 <= i < res.len(),
        0 <= j < res.len(),
        is_ascii_seq(res[i].code@),
        is_ascii_seq(res[j].code@),
    ensures
        res[i].display_name@ == display_name_of(ascii_upper_seq(res[i].code@)),
        eq_ignore_ascii_case_seq(res[i].code@, res[j].code@) ==> res[i].display_name@
            == res[j].display_name@,
{
    assert(named_by_code(res[i]));
    assert(named_by_code(res[j]));
    if eq_ignore_ascii_case_seq(res[i].code@, res[j].code@) {
        crate::engine::language_mapper::law_codes_ignore_ascii_case(res[i].code@, res[j].code@);
    }
}

// ---------------------------------------------------------------------------
// SHA-256
// ---------------------------------------------------------------------------
/// What SHA-256 gives for a sequence of bytes.
pub uninterp spec fn sha256_of(data: Seq<u8>) -> Seq<u8>;

/// `sha2::Sha256::digest`: the SHA-256 digest of `data`, named
/// `sha256_of(data)`; a digest is 32 bytes long.
#[verifier::external_body]
fn sha256_digest(data: &[u8]) -> (res: Vec<u8>)
    ensures
        res@ == sha256_of(data@),
        res@.len() == 32,
{
    sha2::Sha256::digest(data).to_vec()
}

/// A hex digit in lower case.
pub open spec fn hex_digit(n: int) -> char {
    if n < 10 {
        (('0' as int) + n) as char
    } else {
        (('a' as int) + n - 10) as char
    }
}

/// Lower-case hex of a byte sequence, two digits per byte, high nibble first.
pub open spec fn hex_of(bytes: Seq<u8>) -> Seq<char>
    decreases bytes.len(),
{
    if bytes.len() == 0 {
        seq![]
    } else {
        hex_of(bytes.drop_last()) + seq![
            hex_digit(bytes.last() as int / 16),
            hex_digit(bytes.last() as int % 16),
        ]
    }
}

fn hex_digit_exec(n: u8) -> (c: char)
    requires
        n < 16,
    ensures
        c == hex_digit(n as int),
{
    match n {
        0 => '0',
        1 => '1',
        2 => '2',
        3 => '3',
        4 => '4',
        5 => '5',
        6 => '6',
        7 => '7',
        8 => '8',
        9 => '9',
        10 => 'a',
        11 => 'b',
        12 => 'c',
        13 => 'd',
        14 => 'e',
        _ => 'f',
    }
}

/// Lower-case hex of `bytes`.
pub fn to_hex(bytes: &[u8]) -> (res: String)
    ensures
        res@ == hex_of(bytes@),
{
    let mut out: Vec<char> = Vec::new();
    let mut i: usize = 0;
    assert(bytes@.take(0) =~= Seq::<u8>::empty());
    while i < bytes.len()
        invariant
            i <= bytes@.len(),
            out@ == hex_of(bytes@.take(i as int)),
        decreases bytes.len() - i,
    {
        let b = bytes[i];
        out.push(hex_digit_exec(b / 16));
        out.push(hex_digit_exec(b % 16));
        assert(bytes@.take(i + 1).drop_last() =~= bytes@.take(i as int));
        assert(bytes@.take(i + 1).last() == b);
        assert(out@ =~= hex_of(bytes@.take(i + 1)));
        i = i + 1;
    }
    assert(bytes@.take(bytes@.len() as int) =~= bytes@);
    string_from(&out)
}

pub open spec fn is_lower_hex_char(c: char) -> bool {
    ('0' <= c <= '9') || ('a' <= c <= 'f')
}

/// The SHA-256 digest of `data` in lower-case hex: 64 hex digits.
pub fn sha256_hex(data: &[u8]) -> (res: String)
    ensures
        res@ == hex_of(sha256_of(data@)),
        res@.len() == 64,
        forall|i: int| 0 <= i < res@.len() ==> is_lower_hex_char(#[trigger] res@[i]),
{
    let digest = sha256_digest(data);
    proof {
        lemma_hex_shape(digest@);
    }
    to_hex(digest.as_slice())
}

/// Hex has two digits per byte, each `0`-`9` or `a`-`f`.
pub proof fn lemma_hex_shape(bytes: Seq<u8>)
    ensures
        hex_of(bytes).len() == 2 * bytes.len(),
        forall|i: int| 0 <= i < hex_of(bytes).len() ==> is_lower_hex_char(#[trigger] hex_of(bytes)[i]),
    decreases bytes.len(),
{
    if bytes.len() > 0 {
        lemma_hex_shape(bytes.drop_last());
        let h = hex_of(bytes);
        let prev = hex_of(bytes.drop_last());
        let b = bytes.last() as int;
        assert(0 <= b / 16 < 16 && 0 <= b % 16 < 16);
        assert forall|i: int| 0 <= i < h.len() implies is_lower_hex_char(#[trigger] h[i]) by {
            if i < prev.len() {
                assert(h[i] == prev[i]);
            }
        }
    }
}

} // verus!
