//! Lists the QML side hands over as text: comma-separated ids, newline
//! separated names, and the packed tag-editor fields.

use vstd::prelude::*;
use crate::text::{
    chars_of, parse_i64, parse_i64_spec, parse_u32, parse_u32_spec, split_on, string_of, trim, trimmed,
};

verus! {

/// Ids read from comma-separated fields: each field is trimmed, empty fields
/// and fields that are not an `i64` are skipped, the rest keep their order.
pub open spec fn id_fields(fields: Seq<Seq<char>>) -> Seq<i64>
    decreases fields.len(),
{
    if fields.len() == 0 {
        Seq::empty()
    } else {
        let rest = id_fields(fields.drop_last());
        let t = trim(fields.last());
        if t.len() == 0 {
            rest
        } else {
            match parse_i64_spec(t) {
                Some(v) => rest.push(v),
                None => rest,
            }
        }
    }
}

/// Names read from newline-separated fields: trimmed, blank ones skipped.
pub open spec fn name_fields(fields: Seq<Seq<char>>) -> Seq<Seq<char>>
    decreases fields.len(),
{
    if fields.len() == 0 {
        Seq::empty()
    } else {
        let rest = name_fields(fields.drop_last());
        let t = trim(fields.last());
        if t.len() == 0 {
            rest
        } else {
            rest.push(t)
        }
    }
}

/// The ids a comma-separated list holds.
pub open spec fn id_list(csv: Seq<char>) -> Seq<i64> {
    id_fields(split_on(csv, ','))
}

/// The names a newline-separated block holds.
pub open spec fn name_list(block: Seq<char>) -> Seq<Seq<char>> {
    name_fields(split_on(block, '\n'))
}

proof fn lemma_split_step(s: Seq<char>, i: int, sep: char)
    requires
        0 <= i < s.len(),
    ensures
        split_on(s.subrange(0, i + 1), sep) == ({
            let r = split_on(s.subrange(0, i), sep);
            if s[i] == sep {
                r.push(Seq::<char>::empty())
            } else {
                r.update(r.len() - 1, r.last().push(s[i]))
            }
        }),
{
    assert(s.subrange(0, i + 1).drop_last() =~= s.subrange(0, i));
}

/// Fold one finished field into the id list.
fn push_id_field(out: &mut Vec<i64>, field: &Vec<char>)
    ensures
        ({
            let t = trim(field@);
            final(out)@ == if t.len() == 0 {
                old(out)@
            } else {
                match parse_i64_spec(t) {
                    Some(v) => old(out)@.push(v),
                    None => old(out)@,
                }
            }
        }),
{
    let t = trimmed(field);
    if t.len() > 0 {
        match parse_i64(&t) {
            Some(v) => out.push(v),
            None => {},
        }
    }
}

/// Comma-separated library ids from a Play-all request, in order; blank and
/// malformed fields are skipped.
pub fn parse_id_list(csv: &str) -> (ids: Vec<i64>)
    ensures
        ids@ == id_list(csv@),
{
    let s = chars_of(csv);
    let mut out: Vec<i64> = Vec::new();
    let mut field: Vec<char> = Vec::new();
    let mut i: usize = 0;
    assert(s@.subrange(0, 0) =~= Seq::<char>::empty());
    while i < s.len()
        invariant
            i <= s@.len(),
            ({
                let sp = split_on(s@.subrange(0, i as int), ',');
                &&& sp.len() >= 1
                &&& field@ == sp.last()
                &&& out@ == id_fields(sp.drop_last())
            }),
        decreases s@.len() - i,
    {
        let ghost sp = split_on(s@.subrange(0, i as int), ',');
        proof {
            lemma_split_step(s@, i as int, ',');
        }
        let c = s[i];
        if c == ',' {
            push_id_field(&mut out, &field);
            field = Vec::new();
            let ghost sp2 = sp.push(Seq::<char>::empty());
            assert(sp2.drop_last() =~= sp);
            assert(sp.drop_last().push(sp.last()) =~= sp);
        } else {
            field.push(c);
            let ghost sp2 = sp.update(sp.len() - 1, sp.last().push(c));
            assert(sp2.drop_last() =~= sp.drop_last());
        }
        i = i + 1;
    }
    let ghost sp = split_on(s@.subrange(0, i as int), ',');
    push_id_field(&mut out, &field);
    assert(s@.subrange(0, i as int) =~= s@);
    assert(sp.drop_last().push(sp.last()) =~= sp);
    out
}

/// The names' character views.
pub open spec fn name_views(names: Seq<String>) -> Seq<Seq<char>> {
    names.map_values(|n: String| n@)
}

/// Newline-separated artist names from a Play-all request, trimmed, blank
/// lines skipped, in order.
pub fn parse_name_list(block: &str) -> (names: Vec<String>)
    ensures
        name_views(names@) == name_list(block@),
{
    let s = chars_of(block);
    let mut out: Vec<String> = Vec::new();
    let mut field: Vec<char> = Vec::new();
    let mut i: usize = 0;
    assert(s@.subrange(0, 0) =~= Seq::<char>::empty());
    assert(name_views(out@) =~= Seq::<Seq<char>>::empty());
    while i < s.len()
        invariant
            i <= s@.len(),
            ({
                let sp = split_on(s@.subrange(0, i as int), '\n');
                &&& sp.len() >= 1
                &&& field@ == sp.last()
                &&& name_views(out@) == name_fields(sp.drop_last())
            }),
        decreases s@.len() - i,
    {
        let ghost sp = split_on(s@.subrange(0, i as int), '\n');
        proof {
            lemma_split_step(s@, i as int, '\n');
        }
        let c = s[i];
        if c == '\n' {
            let t = trimmed(&field);
            if t.len() > 0 {
                let ghost before = out@;
                out.push(string_of(t.as_slice()));
                assert(name_views(out@) =~= name_views(before).push(t@));
            }
            field = Vec::new();
            let ghost sp2 = sp.push(Seq::<char>::empty());
            assert(sp2.drop_last() =~= sp);
            assert(sp.drop_last().push(sp.last()) =~= sp);
        } else {
            field.push(c);
            let ghost sp2 = sp.update(sp.len() - 1, sp.last().push(c));
            assert(sp2.drop_last() =~= sp.drop_last());
        }
        i = i + 1;
    }
    let ghost sp = split_on(s@.subrange(0, i as int), '\n');
    let t = trimmed(&field);
    if t.len() > 0 {
        let ghost before = out@;
        out.push(string_of(t.as_slice()));
        assert(name_views(out@) =~= name_views(before).push(t@));
    }
    assert(s@.subrange(0, i as int) =~= s@);
    assert(sp.drop_last().push(sp.last()) =~= sp);
    out
}

/// A tag-editor field: trimmed, `None` when blank.
pub fn nonempty_str(value: &str) -> (r: Option<String>)
    ensures
        r is None <==> trim(value@).len() == 0,
        r matches Some(t) ==> t@ == trim(value@),
{
    let t = trimmed(&chars_of(value));
    if t.len() == 0 {
        None
    } else {
        Some(string_of(t.as_slice()))
    }
}

/// A positive number field (track, disc, year): trimmed, `None` when blank,
/// malformed, or zero.
pub fn parse_u32_str(value: &str) -> (r: Option<u32>)
    ensures
        r == (match parse_u32_spec(trim(value@)) {
            Some(n) => if trim(value@).len() > 0 && n > 0 {
                Some(n)
            } else {
                None
            },
            None => None,
        }),
{
    let t = trimmed(&chars_of(value));
    if t.len() == 0 {
        return None;
    }
    match parse_u32(&t) {
        Some(n) => if n > 0 {
            Some(n)
        } else {
            None
        },
        None => None,
    }
}

/// The pieces of `s` cut at every `sep`, in order.
pub fn split_fields(s: &str, sep: char) -> (parts: Vec<String>)
    ensures
        name_views(parts@) == split_on(s@, sep),
{
    let c = chars_of(s);
    let mut out: Vec<String> = Vec::new();
    let mut field: Vec<char> = Vec::new();
    let mut i: usize = 0;
    assert(c@.subrange(0, 0) =~= Seq::<char>::empty());
    assert(name_views(out@) =~= Seq::<Seq<char>>::empty());
    while i < c.len()
        invariant
            i <= c@.len(),
            ({
                let sp = split_on(c@.subrange(0, i as int), sep);
                &&& sp.len() >= 1
                &&& field@ == sp.last()
                &&& name_views(out@) == sp.drop_last()
            }),
        decreases c@.len() - i,
    {
        let ghost sp = split_on(c@.subrange(0, i as int), sep);
        proof {
            lemma_split_step(c@, i as int, sep);
        }
        let ch = c[i];
        if ch == sep {
            let ghost before = out@;
            out.push(string_of(field.as_slice()));
            assert(name_views(out@) =~= name_views(before).push(field@));
            field = Vec::new();
            let ghost sp2 = sp.push(Seq::<char>::empty());
            assert(sp2.drop_last() =~= sp);
            assert(sp.drop_last().push(sp.last()) =~= sp);
        } else {
            field.push(ch);
            let ghost sp2 = sp.update(sp.len() - 1, sp.last().push(ch));
            assert(sp2.drop_last() =~= sp.drop_last());
        }
        i = i + 1;
    }
    let ghost sp = split_on(c@.subrange(0, i as int), sep);
    let ghost before = out@;
    out.push(string_of(field.as_slice()));
    assert(name_views(out@) =~= name_views(before).push(field@));
    assert(c@.subrange(0, i as int) =~= c@);
    assert(sp.drop_last().push(sp.last()) =~= sp);
    out
}

/// The `k`-th packed field, empty past the last one.
pub open spec fn packed_field(parts: Seq<Seq<char>>, k: int) -> Seq<char> {
    if k < parts.len() {
        parts[k]
    } else {
        Seq::empty()
    }
}

/// A text field as the tag editor stores it: trimmed, `None` when blank.
pub open spec fn text_field(value: Seq<char>) -> Option<Seq<char>> {
    if trim(value).len() == 0 {
        None
    } else {
        Some(trim(value))
    }
}

/// A number field as the tag editor stores it: trimmed, `None` when blank,
/// malformed or zero.
pub open spec fn number_field(value: Seq<char>) -> Option<u32> {
    match parse_u32_spec(trim(value)) {
        Some(n) => if trim(value).len() > 0 && n > 0 {
            Some(n)
        } else {
            None
        },
        None => None,
    }
}

/// Tag edits from the editor; `None` leaves a tag empty.
#[derive(Debug)]
pub struct TagEdit {
    pub title: Option<String>,
    pub artist: Option<String>,
    pub album: Option<String>,
    pub track_number: Option<u32>,
    pub disc_number: Option<u32>,
    pub year: Option<u32>,
    pub genre: Option<String>,
    pub composer: Option<String>,
}

/// An optional text's characters.
pub open spec fn opt_chars(s: Option<String>) -> Option<Seq<char>> {
    match s {
        Some(t) => Some(t@),
        None => None,
    }
}

/// The edits packed as title, artist, album, track, disc, year, genre,
/// composer, separated by U+001F; missing trailing fields are blank.
pub open spec fn tag_edit_spec(packed: Seq<char>, edit: TagEdit) -> bool {
    let parts = split_on(packed, '\u{1f}');
    &&& opt_chars(edit.title) == text_field(packed_field(parts, 0))
    &&& opt_chars(edit.artist) == text_field(packed_field(parts, 1))
    &&& opt_chars(edit.album) == text_field(packed_field(parts, 2))
    &&& edit.track_number == number_field(packed_field(parts, 3))
    &&& edit.disc_number == number_field(packed_field(parts, 4))
    &&& edit.year == number_field(packed_field(parts, 5))
    &&& opt_chars(edit.genre) == text_field(packed_field(parts, 6))
    &&& opt_chars(edit.composer) == text_field(packed_field(parts, 7))
}

fn field_at(parts: &Vec<String>, k: usize) -> (f: String)
    ensures
        f@ == packed_field(name_views(parts@), k as int),
{
    if k < parts.len() {
        parts[k].clone()
    } else {
        String::new()
    }
}

fn text_field_at(parts: &Vec<String>, k: usize) -> (r: Option<String>)
    ensures
        opt_chars(r) == text_field(packed_field(name_views(parts@), k as int)),
{
    nonempty_str(field_at(parts, k).as_str())
}

fn number_field_at(parts: &Vec<String>, k: usize) -> (r: Option<u32>)
    ensures
        r == number_field(packed_field(name_views(parts@), k as int)),
{
    parse_u32_str(field_at(parts, k).as_str())
}

/// Unpack the tag editor's fields.
pub fn parse_tag_edit(packed: &str) -> (edit: TagEdit)
    ensures
        tag_edit_spec(packed@, edit),
{
    let parts = split_fields(packed, '\u{1f}');
    TagEdit {
        title: text_field_at(&parts, 0),
        artist: text_field_at(&parts, 1),
        album: text_field_at(&parts, 2),
        track_number: number_field_at(&parts, 3),
        disc_number: number_field_at(&parts, 4),
        year: number_field_at(&parts, 5),
        genre: text_field_at(&parts, 6),
        composer: text_field_at(&parts, 7),
    }
}

} // verus!
