//! Steam's per-game language setting: the mapping from a language code to
//! Steam's language name, and reading and rewriting the `"language"` entries
//! of an `appmanifest_*.acf` file's text.
use vstd::prelude::*;

use crate::text::{
    chars_of, concat_chars, contains_char, find_char_from, find_from, join_lines,
    leading_ws, leading_ws_len, lemma_find_from_is, lemma_lines_no_newline, lemma_lines_of_join,
    lemma_trim_end_non_ws_last, lemma_trim_start_is_suffix, lemma_trim_start_ws_prefix,
    lemma_trim_strip_cr, lines, slice_chars, split_lines, starts_with, starts_with_chars, string_from,
    strip_cr, to_uppercase, ascii_upper_seq, is_ascii_seq, trim, trim_chars, uppercase_of, is_ws,
};

verus! {

// ---------------------------------------------------------------------------
// Language codes
// ---------------------------------------------------------------------------
/// Steam's name of the language whose (upper-case) code is `up`.
pub open spec fn steam_language_of(up: Seq<char>) -> Option<Seq<char>> {
    if up == "EN"@ || up == "GB"@ {
        Some("english"@)
    } else if up == "JP"@ {
        Some("japanese"@)
    } else if up == "CHS"@ {
        Some("schinese"@)
    } else if up == "CHT"@ {
        Some("tchinese"@)
    } else if up == "FR"@ {
        Some("french"@)
    } else if up == "DE"@ {
        Some("german"@)
    } else if up == "ES"@ {
        Some("spanish"@)
    } else if up == "MX"@ {
        Some("latam"@)
    } else if up == "IT"@ {
        Some("italian"@)
    } else if up == "PT"@ {
        Some("portuguese"@)
    } else if up == "BR"@ {
        Some("brazilian"@)
    } else if up == "KO"@ {
        Some("korean"@)
    } else if up == "RU"@ {
        Some("russian"@)
    } else if up == "PL"@ {
        Some("polish"@)
    } else if up == "NL"@ {
        Some("dutch"@)
    } else if up == "TR"@ {
        Some("turkish"@)
    } else if up == "DK"@ {
        Some("danish"@)
    } else if up == "SV"@ {
        Some("swedish"@)
    } else if up == "NO"@ {
        Some("norwegian"@)
    } else if up == "FI"@ {
        Some("finnish"@)
    } else if up == "CZ"@ {
        Some("czech"@)
    } else if up == "HU"@ {
        Some("hungarian"@)
    } else if up == "EL"@ {
        Some("greek"@)
    } else {
        None
    }
}

/// Whether two strings hold the same characters.
pub fn str_eq(a: &str, b: &str) -> (res: bool)
    ensures
        res == (a@ == b@),
{
    let va = chars_of(a);
    let vb = chars_of(b);
    if va.len() != vb.len() {
        return false;
    }
    let mut i: usize = 0;
    while i < va.len()
        invariant
            va@ == a@,
            vb@ == b@,
            va.len() == vb.len(),
            i <= va.len(),
            forall|k: int| 0 <= k < i ==> a@[k] == b@[k],
        decreases va.len() - i,
    {
        if va[i] != vb[i] {
            return false;
        }
        i = i + 1;
    }
    assert(a@ =~= b@);
    true
}

/// Steam's language name for a language code, whatever its case
/// (the code is compared by its upper-case form); `None` for an unknown code.
pub fn code_to_steam_language(code: &str) -> (res: Option<&'static str>)
    ensures
        match res {
            Some(name) => steam_language_of(uppercase_of(code@)) == Some(name@),
            None => steam_language_of(uppercase_of(code@)) is None,
        },
        is_ascii_seq(code@) ==> uppercase_of(code@) == ascii_upper_seq(code@),
{
    let upper = to_uppercase(code);
    let up = upper.as_str();
    if str_eq(up, "EN") || str_eq(up, "GB") {
        Some("english")
    } else if str_eq(up, "JP") {
        Some("japanese")
    } else if str_eq(up, "CHS") {
        Some("schinese")
    } else if str_eq(up, "CHT") {
        Some("tchinese")
    } else if str_eq(up, "FR") {
        Some("french")
    } else if str_eq(up, "DE") {
        Some("german")
    } else if str_eq(up, "ES") {
        Some("spanish")
    } else if str_eq(up, "MX") {
        Some("latam")
    } else if str_eq(up, "IT") {
        Some("italian")
    } else if str_eq(up, "PT") {
        Some("portuguese")
    } else if str_eq(up, "BR") {
        Some("brazilian")
    } else if str_eq(up, "KO") {
        Some("korean")
    } else if str_eq(up, "RU") {
        Some("russian")
    } else if str_eq(up, "PL") {
        Some("polish")
    } else if str_eq(up, "NL") {
        Some("dutch")
    } else if str_eq(up, "TR") {
        Some("turkish")
    } else if str_eq(up, "DK") {
        Some("danish")
    } else if str_eq(up, "SV") {
        Some("swedish")
    } else if str_eq(up, "NO") {
        Some("norwegian")
    } else if str_eq(up, "FI") {
        Some("finnish")
    } else if str_eq(up, "CZ") {
        Some("czech")
    } else if str_eq(up, "HU") {
        Some("hungarian")
    } else if str_eq(up, "EL") {
        Some("greek")
    } else {
        None
    }
}

// ---------------------------------------------------------------------------
// Quoted values
// ---------------------------------------------------------------------------
/// The text between the third and the fourth `"` of `s`: the value of a
/// `"key" "value"` line. `None` when `s` holds fewer than four `"`.
pub open spec fn quoted_value(s: Seq<char>) -> Option<Seq<char>> {
    let q0 = find_from(s, '"', 0);
    let q1 = find_from(s, '"', q0 + 1);
    let q2 = find_from(s, '"', q1 + 1);
    let q3 = find_from(s, '"', q2 + 1);
    if q3 < s.len() {
        Some(s.subrange(q2 + 1, q3))
    } else {
        None
    }
}

/// The text between the first and the second `"` of `s`: the key of a
/// `"key" "value"` line. `None` when `s` holds fewer than two `"`.
pub open spec fn quoted_key(s: Seq<char>) -> Option<Seq<char>> {
    let q0 = find_from(s, '"', 0);
    let q1 = find_from(s, '"', q0 + 1);
    if q1 < s.len() {
        Some(s.subrange(q0 + 1, q1))
    } else {
        None
    }
}

/// `quoted_value` on a vector of characters.
pub fn quoted_value_chars(v: &Vec<char>) -> (res: Option<Vec<char>>)
    ensures
        match res {
            Some(r) => quoted_value(v@) == Some(r@),
            None => quoted_value(v@) is None,
        },
{
    let q0 = find_char_from(v, '"', 0);
    if q0 >= v.len() {
        proof {
            lemma_find_from_past_end(v@, '"', q0 + 1);
            lemma_find_from_past_end(v@, '"', v@.len() as int + 1);
        }
        return None;
    }
    let q1 = find_char_from(v, '"', q0 + 1);
    if q1 >= v.len() {
        proof {
            lemma_find_from_past_end(v@, '"', v@.len() as int + 1);
        }
        return None;
    }
    let q2 = find_char_from(v, '"', q1 + 1);
    if q2 >= v.len() {
        proof {
            lemma_find_from_past_end(v@, '"', v@.len() as int + 1);
        }
        return None;
    }
    let q3 = find_char_from(v, '"', q2 + 1);
    if q3 >= v.len() {
        return None;
    }
    Some(slice_chars(v, q2 + 1, q3))
}

/// `quoted_key` on a vector of characters.
pub fn quoted_key_chars(v: &Vec<char>) -> (res: Option<Vec<char>>)
    ensures
        match res {
            Some(r) => quoted_key(v@) == Some(r@),
            None => quoted_key(v@) is None,
        },
{
    let q0 = find_char_from(v, '"', 0);
    if q0 >= v.len() {
        proof {
            lemma_find_from_past_end(v@, '"', v@.len() as int + 1);
        }
        return None;
    }
    let q1 = find_char_from(v, '"', q0 + 1);
    if q1 >= v.len() {
        return None;
    }
    Some(slice_chars(v, q0 + 1, q1))
}

pub proof fn lemma_find_from_past_end(s: Seq<char>, c: char, from: int)
    requires
        from >= s.len(),
    ensures
        find_from(s, c, from) == s.len(),
{
}

/// The value of a `"key" "value"` line: the text between its third and
/// fourth `"`, or `None` when the line holds fewer than four.
pub fn extract_quoted_value(line: &str) -> (res: Option<String>)
    ensures
        match res {
            Some(r) => quoted_value(line@) == Some(r@),
            None => quoted_value(line@) is None,
        },
{
    let v = chars_of(line);
    match quoted_value_chars(&v) {
        Some(r) => Some(string_from(&r)),
        None => None,
    }
}

// ---------------------------------------------------------------------------
// The "language" entries of an app manifest
// ---------------------------------------------------------------------------
/// `"language"`, quotes included.
pub open spec fn language_key() -> Seq<char> {
    seq!['"', 'l', 'a', 'n', 'g', 'u', 'a', 'g', 'e', '"']
}

/// What a rewritten entry holds between the key and the new value.
pub open spec fn language_separator() -> Seq<char> {
    seq!['\t', '\t', '"']
}

/// A line is a language entry when, trimmed, it begins with `"language"`.
pub open spec fn is_language_line(l: Seq<char>) -> bool {
    starts_with(trim(l), language_key())
}

/// The language that a reader of the manifest finds: the value of the first
/// language entry (`None` if there is none, or if that entry has no value).
pub open spec fn manifest_language(lines: Seq<Seq<char>>) -> Option<Seq<char>>
    decreases lines.len(),
{
    if lines.len() == 0 {
        None
    } else if is_language_line(lines[0]) {
        quoted_value(trim(lines[0]))
    } else {
        manifest_language(lines.drop_first())
    }
}

/// The first value found among the language entries, scanning them in order.
pub open spec fn first_language_value(lines: Seq<Seq<char>>) -> Option<Seq<char>>
    decreases lines.len(),
{
    if lines.len() == 0 {
        None
    } else {
        match first_language_value(lines.drop_last()) {
            Some(v) => Some(v),
            None => if is_language_line(lines.last()) {
                quoted_value(trim(lines.last()))
            } else {
                None
            },
        }
    }
}

/// A line after the rewrite: a language entry becomes `"language"\t\t"<new>"`
/// behind its original indentation; any other line stays as it is.
pub open spec fn rewrite_line(l: Seq<char>, new_language: Seq<char>) -> Seq<char> {
    if is_language_line(l) {
        leading_ws(l) + language_key() + language_separator() + new_language + seq!['"']
    } else {
        l
    }
}

/// The manifest text after every language entry is set to `new_language`:
/// each line of `content`, rewritten, followed by `'\n'`.
pub open spec fn rewritten_manifest(content: Seq<char>, new_language: Seq<char>) -> Seq<char> {
    join_lines(lines(content).map_values(|l: Seq<char>| rewrite_line(l, new_language)))
}

/// The language that a manifest's text names: the value of its first
/// `"language"` entry.
pub fn read_language_entry(content: &str) -> (res: Option<String>)
    ensures
        match res {
            Some(r) => manifest_language(lines(content@)) == Some(r@),
            None => manifest_language(lines(content@)) is None,
        },
{
    let v = chars_of(content);
    let ls = split_lines(&v);
    let key: Vec<char> = vec!['"', 'l', 'a', 'n', 'g', 'u', 'a', 'g', 'e', '"'];
    assert(key@ =~= language_key());
    let ghost all = lines(content@);
    let mut i: usize = 0;
    assert(all.skip(0) =~= all);
    while i < ls.len()
        invariant
            v@ == content@,
            key@ == language_key(),
            all == lines(content@),
            ls@.len() == all.len(),
            forall|k: int| 0 <= k < ls@.len() ==> #[trigger] ls@[k]@ == all[k],
            i <= ls.len(),
            manifest_language(all) == manifest_language(all.skip(i as int)),
        decreases ls.len() - i,
    {
        let t = trim_chars(&ls[i]);
        assert(all.skip(i as int)[0] == all[i as int]);
        if starts_with_chars(&t, &key) {
            return match quoted_value_chars(&t) {
                Some(r) => Some(string_from(&r)),
                None => None,
            };
        }
        assert(all.skip(i as int).drop_first() =~= all.skip(i + 1));
        i = i + 1;
    }
    None
}

/// Sets every `"language"` entry of a manifest's text to `new_language`.
/// Returns the new text and the value that the first language entry with a
/// value held before (empty when there is none).
pub fn rewrite_language_entries(content: &str, new_language: &str) -> (res: (String, String))
    ensures
        res.0@ == rewritten_manifest(content@, new_language@),
        res.1@ == match first_language_value(lines(content@)) {
            Some(v) => v,
            None => Seq::<char>::empty(),
        },
{
    let v = chars_of(content);
    let nv = chars_of(new_language);
    let ls = split_lines(&v);
    let key: Vec<char> = vec!['"', 'l', 'a', 'n', 'g', 'u', 'a', 'g', 'e', '"'];
    let sep: Vec<char> = vec!['\t', '\t', '"'];
    assert(key@ =~= language_key());
    assert(sep@ =~= language_separator());
    let ghost all = lines(content@);
    let ghost f = |l: Seq<char>| rewrite_line(l, new_language@);
    let mut out: Vec<char> = Vec::new();
    let mut old: Option<Vec<char>> = None;
    let mut i: usize = 0;
    assert(all.take(0).map_values(f) =~= Seq::<Seq<char>>::empty());
    while i < ls.len()
        invariant
            v@ == content@,
            nv@ == new_language@,
            key@ == language_key(),
            sep@ == language_separator(),
            all == lines(content@),
            f == (|l: Seq<char>| rewrite_line(l, new_language@)),
            ls@.len() == all.len(),
            forall|k: int| 0 <= k < ls@.len() ==> #[trigger] ls@[k]@ == all[k],
            i <= ls.len(),
            out@ == join_lines(all.take(i as int).map_values(f)),
            match old {
                Some(o) => first_language_value(all.take(i as int)) == Some(o@),
                None => first_language_value(all.take(i as int)) is None,
            },
        decreases ls.len() - i,
    {
        let line = &ls[i];
        let t = trim_chars(line);
        let ghost prefix = all.take(i as int);
        assert(all.take(i + 1).drop_last() =~= prefix);
        assert(all.take(i + 1).last() == all[i as int]);
        assert(all.take(i + 1).map_values(f) =~= prefix.map_values(f).push(f(all[i as int])));
        let mut rewritten: Vec<char>;
        if starts_with_chars(&t, &key) {
            if old.is_none() {
                old = quoted_value_chars(&t);
            }
            let n = leading_ws_len(line);
            let indent = slice_chars(line, 0, n);
            assert(indent@ =~= leading_ws(all[i as int]));
            rewritten = concat_chars(&indent, &key);
            rewritten = concat_chars(&rewritten, &sep);
            rewritten = concat_chars(&rewritten, &nv);
            rewritten.push('"');
            assert(rewritten@ =~= f(all[i as int]));
        } else {
            rewritten = line.clone();
            assert(rewritten@ =~= f(all[i as int]));
        }
        out = concat_chars(&out, &rewritten);
        out.push('\n');
        proof {
            let s = all.take(i + 1).map_values(f);
            assert(s.drop_last() =~= prefix.map_values(f));
            assert(s.last() == f(all[i as int]));
        }
        assert(out@ =~= join_lines(all.take(i + 1).map_values(f)));
        i = i + 1;
    }
    assert(all.take(ls.len() as int) =~= all);
    let text = string_from(&out);
    let old_text = match old {
        Some(o) => string_from(&o),
        None => String::new(),
    };
    (text, old_text)
}

// ---------------------------------------------------------------------------
// Laws
// ---------------------------------------------------------------------------
/// The entry that the rewrite writes, once trimmed, reads back as the new language.
pub proof fn lemma_rewritten_entry(l: Seq<char>, new_language: Seq<char>)
    requires
        !contains_char(new_language, '"'),
        is_language_line(l),
    ensures
        is_language_line(rewrite_line(l, new_language)),
        strip_cr(rewrite_line(l, new_language)) == rewrite_line(l, new_language),
        quoted_value(trim(rewrite_line(l, new_language))) == Some(new_language),
{
    let r = rewrite_line(l, new_language);
    let t = language_key() + language_separator() + new_language + seq!['"'];
    lemma_trim_start_is_suffix(l);
    let w = leading_ws(l);
    assert forall|k: int| 0 <= k < w.len() implies is_ws(#[trigger] w[k]) by {
        assert(w[k] == l[k]);
    }
    assert(r =~= w + t);
    assert(r.last() == '"');
    lemma_trim_end_non_ws_last(r);
    lemma_trim_start_ws_prefix(w, t);
    assert(trim(r) == t);
    assert(t.take(10) =~= language_key());
    lemma_find_from_is(t, '"', 0, 0);
    lemma_find_from_is(t, '"', 1, 9);
    lemma_find_from_is(t, '"', 10, 12);
    let n = new_language.len() as int;
    assert forall|k: int| 13 <= k < 13 + n implies t[k] != '"' by {
        assert(t[k] == new_language[k - 13]);
    }
    lemma_find_from_is(t, '"', 13, 13 + n);
    assert(t.subrange(13, 13 + n) =~= new_language);
}

/// A line that is not a language entry stays one when a final `'\r'` goes.
pub proof fn lemma_strip_cr_keeps_kind(l: Seq<char>)
    ensures
        is_language_line(strip_cr(l)) == is_language_line(l),
        trim(strip_cr(l)) == trim(l),
{
    lemma_trim_strip_cr(l);
}

proof fn lemma_read_after_rewrite(ls: Seq<Seq<char>>, new_language: Seq<char>)
    requires
        !contains_char(new_language, '"'),
        exists|k: int| 0 <= k < ls.len() && is_language_line(#[trigger] ls[k]),
    ensures
        manifest_language(
            ls.map_values(|l: Seq<char>| rewrite_line(l, new_language)).map_values(
                |l: Seq<char>| strip_cr(l),
            ),
        ) == Some(new_language),
    decreases ls.len(),
{
    let rs = ls.map_values(|l: Seq<char>| rewrite_line(l, new_language)).map_values(
        |l: Seq<char>| strip_cr(l),
    );
    if is_language_line(ls[0]) {
        lemma_rewritten_entry(ls[0], new_language);
        assert(rs[0] == rewrite_line(ls[0], new_language));
    } else {
        lemma_strip_cr_keeps_kind(ls[0]);
        assert(rs[0] == strip_cr(ls[0]));
        let k = choose|k: int| 0 <= k < ls.len() && is_language_line(#[trigger] ls[k]);
        assert(k > 0);
        assert(is_language_line(ls.drop_first()[k - 1]));
        lemma_read_after_rewrite(ls.drop_first(), new_language);
        assert(rs.drop_first() =~= ls.drop_first().map_values(
            |l: Seq<char>| rewrite_line(l, new_language),
        ).map_values(|l: Seq<char>| strip_cr(l)));
    }
}

/// Reading a manifest after its language was set gives the language that was
/// set, provided the text had a language entry and the new value holds no
/// `"`, `'\n'` or `'\r'`.
pub proof fn law_read_after_set(content: Seq<char>, new_language: Seq<char>)
    requires
        exists|k: int| 0 <= k < lines(content).len() && is_language_line(#[trigger] lines(content)[k]),
        !contains_char(new_language, '"'),
        !contains_char(new_language, '\n'),
    ensures
        manifest_language(lines(rewritten_manifest(content, new_language))) == Some(new_language),
{
    let ls = lines(content);
    let f = |l: Seq<char>| rewrite_line(l, new_language);
    let rs = ls.map_values(f);
    lemma_lines_no_newline(content);
    assert forall|i: int, k: int| 0 <= i < rs.len() && 0 <= k < rs[i].len() implies #[trigger] rs[i][k]
        != '\n' by {
        let l = ls[i];
        if is_language_line(l) {
            lemma_trim_start_is_suffix(l);
            let w = leading_ws(l);
            let t = language_key() + language_separator() + new_language + seq!['"'];
            assert(rs[i] =~= w + t);
            if k < w.len() {
                assert(rs[i][k] == l[k]);
                assert(l[k] == lines(content)[i][k]);
            } else if 13 + w.len() <= k < 13 + w.len() + new_language.len() {
                assert(rs[i][k] == new_language[k - 13 - w.len()]);
            } else {
                assert(rs[i][k] == t[k - w.len()]);
            }
        } else {
            assert(rs[i] == l);
            assert(l[k] == lines(content)[i][k]);
        }
    }
    lemma_lines_of_join(rs);
    lemma_read_after_rewrite(ls, new_language);
}

/// What the rewrite reports as the old language is what a reader found before,
/// whenever the manifest's first language entry has a value.
pub proof fn law_set_returns_previous(lines: Seq<Seq<char>>)
    requires
        manifest_language(lines) is Some,
    ensures
        first_language_value(lines) == manifest_language(lines),
    decreases lines.len(),
{
    if lines.len() > 0 {
        if is_language_line(lines[0]) {
            lemma_first_value_from_first(lines);
        } else {
            law_set_returns_previous(lines.drop_first());
            lemma_first_value_skip_non_entry(lines);
        }
    }
}

proof fn lemma_first_value_from_first(lines: Seq<Seq<char>>)
    requires
        lines.len() > 0,
        is_language_line(lines[0]),
        quoted_value(trim(lines[0])) is Some,
    ensures
        first_language_value(lines) == quoted_value(trim(lines[0])),
    decreases lines.len(),
{
    if lines.len() > 1 {
        assert(lines.drop_last()[0] == lines[0]);
        lemma_first_value_from_first(lines.drop_last());
    } else {
        assert(lines.drop_last() =~= Seq::<Seq<char>>::empty());
        assert(first_language_value(lines.drop_last()) is None);
        assert(lines.last() == lines[0]);
    }
}

proof fn lemma_first_value_skip_non_entry(lines: Seq<Seq<char>>)
    requires
        lines.len() > 0,
        !is_language_line(lines[0]),
    ensures
        first_language_value(lines) == first_language_value(lines.drop_first()),
    decreases lines.len(),
{
    if lines.len() > 1 {
        lemma_first_value_skip_non_entry(lines.drop_last());
        assert(lines.drop_last().drop_first() =~= lines.drop_first().drop_last());
        assert(lines.drop_first().last() == lines.last());
        assert(lines.drop_last()[0] == lines[0]);
    } else {
        assert(lines.drop_last() =~= Seq::<Seq<char>>::empty());
        assert(lines.drop_first() =~= Seq::<Seq<char>>::empty());
    }
}

} // verus!
