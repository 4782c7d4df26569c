//! The dictionary source file: which rows it keeps and how each is written.
use vstd::prelude::*;
use crate::dictionary::{Entry, opt_view};

verus! {

/// What a tag cell names: one tag, a hundred groups `(GGxx,EEEE)`, or a
/// hundred elements `(GGGG,EExx)`.
#[derive(Debug, Clone, Copy, PartialEq, Eq, Structural)]
pub enum TagRangeKind {
    Single,
    Group100,
    Element100,
}

/// An upper-case hexadecimal digit.
pub open spec fn is_hex(c: char) -> bool {
    ('0' <= c && c <= '9') || ('A' <= c && c <= 'F')
}

pub open spec fn hex_run(s: Seq<char>, from: int, n: int) -> bool {
    forall|i: int| from <= i < from + n ==> is_hex(#[trigger] s[i])
}

/// The pattern that a whole tag cell matches, if any: `(GGGG,EEEE)`,
/// `(GGxx,EEEE)` or `(GGGG,EExx)`, with upper-case hexadecimal digits.
pub open spec fn tag_pattern(s: Seq<char>) -> Option<TagRangeKind> {
    if s.len() != 11 || s[0] != '(' || s[5] != ',' || s[10] != ')' || !hex_run(s, 1, 2)
        || !hex_run(s, 6, 2) {
        None
    } else if hex_run(s, 3, 2) && hex_run(s, 8, 2) {
        Some(TagRangeKind::Single)
    } else if s[3] == 'x' && s[4] == 'x' && hex_run(s, 8, 2) {
        Some(TagRangeKind::Group100)
    } else if hex_run(s, 3, 2) && s[8] == 'x' && s[9] == 'x' {
        Some(TagRangeKind::Element100)
    } else {
        None
    }
}

/// The tag expression written for a tag cell of the given pattern.
pub open spec fn tag_expr(s: Seq<char>, kind: TagRangeKind) -> Seq<char> {
    match kind {
        TagRangeKind::Single => "Single(Tag(0x"@ + s.subrange(1, 5) + ", 0x"@ + s.subrange(6, 10)
            + "))"@,
        TagRangeKind::Group100 => "Group100(Tag(0x"@ + s.subrange(1, 3) + "00, 0x"@ + s.subrange(
            6,
            10,
        ) + "))"@,
        TagRangeKind::Element100 => "Element100(Tag(0x"@ + s.subrange(1, 5) + ", 0x"@
            + s.subrange(6, 8) + "00))"@,
    }
}

/// The VR cell, empty where absent, with `See Note` read as `UN See Note`.
pub open spec fn normalized_vr(vr: Option<Seq<char>>) -> Seq<char> {
    let v = match vr {
        Some(v) => v,
        None => Seq::empty(),
    };
    if v == "See Note"@ {
        "UN See Note"@
    } else {
        v
    }
}

/// The first two characters of the VR (all of it, where shorter).
pub open spec fn vr_primary(v: Seq<char>) -> Seq<char> {
    if v.len() >= 2 {
        v.subrange(0, 2)
    } else {
        v
    }
}

/// The rest of the VR past its first two characters, as a comment, or
/// nothing where no rest is left.
pub open spec fn vr_remainder_comment(v: Seq<char>) -> Seq<char> {
    if v.len() > 2 {
        " /*"@ + v.subrange(2, v.len() as int) + " */"@
    } else {
        Seq::empty()
    }
}

/// The notes as an end-of-line comment, or nothing where there are none.
pub open spec fn notes_comment(obs: Option<Seq<char>>) -> Seq<char> {
    match obs {
        Some(o) => if o.len() > 0 {
            " // "@ + o
        } else {
            Seq::empty()
        },
        None => Seq::empty(),
    }
}

/// The line written for a row, or `None` where the row is left out: it has
/// no keyword, it is retired while retired rows are excluded, or its tag
/// matches none of the three patterns.
pub open spec fn entry_line_spec(
    tag: Seq<char>,
    alias: Option<Seq<char>>,
    vr: Option<Seq<char>>,
    obs: Option<Seq<char>>,
    include_retired: bool,
) -> Option<Seq<char>> {
    match alias {
        None => None,
        Some(a) => if a.len() == 0 {
            None
        } else if obs == Some("RET"@) && !include_retired {
            None
        } else {
            match tag_pattern(tag) {
                None => None,
                Some(kind) => {
                    let v = normalized_vr(vr);
                    Some(
                        "    E { tag: "@ + tag_expr(tag, kind) + ", alias: \""@ + a + "\", vr: "@
                            + vr_primary(v) + vr_remainder_comment(v) + " },"@ + notes_comment(obs)
                            + "\n"@,
                    )
                },
            }
        },
    }
}

pub open spec fn entry_line_of(e: Entry, include_retired: bool) -> Option<Seq<char>> {
    entry_line_spec(e.tag@, opt_view(e.alias), opt_view(e.vr), opt_view(e.obs), include_retired)
}

/// The lines of the rows that are kept, in order.
pub open spec fn lines_spec(s: Seq<Entry>, include_retired: bool) -> Seq<char>
    decreases s.len(),
{
    if s.len() == 0 {
        Seq::empty()
    } else {
        lines_spec(s.drop_last(), include_retired) + match entry_line_of(s.last(), include_retired) {
            Some(l) => l,
            None => Seq::empty(),
        }
    }
}

/// The opening of the dictionary source file, up to the first entry.
pub const CODE_HEADER: &'static str = "//! Automatically generated. Edit at your own risk.\n\nuse dicom_core::dictionary::{DictionaryEntryRef, TagRange::*};\nuse dicom_core::Tag;\nuse dicom_core::VR::*;\n\ntype E = DictionaryEntryRef<'static>;\n\n#[rustfmt::skip]\npub const ENTRIES: &[E] = &[\n";

/// The closing of the dictionary source file.
pub const CODE_FOOTER: &'static str = "];\n";

fn is_hex_char(c: char) -> (r: bool)
    ensures
        r == is_hex(c),
{
    ('0' <= c && c <= '9') || ('A' <= c && c <= 'F')
}

fn hex_run_at(s: &str, from: usize, n: usize) -> (r: bool)
    requires
        from + n <= s@.len() <= usize::MAX,
    ensures
        r == hex_run(s@, from as int, n as int),
{
    let mut i: usize = from;
    while i < from + n
        invariant
            from <= i <= from + n,
            from + n <= s@.len() <= usize::MAX,
            forall|j: int| from <= j < i ==> is_hex(#[trigger] s@[j]),
        decreases from + n - i,
    {
        if !is_hex_char(s.get_char(i)) {
            return false;
        }
        i = i + 1;
    }
    true
}

/// The pattern that the tag cell matches, if any.
pub fn parse_tag_pattern(tag: &str) -> (r: Option<TagRangeKind>)
    ensures
        r == tag_pattern(tag@),
{
    if tag.unicode_len() != 11 {
        return None;
    }
    if tag.get_char(0) != '(' || tag.get_char(5) != ',' || tag.get_char(10) != ')'
        || !hex_run_at(tag, 1, 2) || !hex_run_at(tag, 6, 2) {
        return None;
    }
    let high_group = hex_run_at(tag, 3, 2);
    let high_element = hex_run_at(tag, 8, 2);
    if high_group && high_element {
        Some(TagRangeKind::Single)
    } else if tag.get_char(3) == 'x' && tag.get_char(4) == 'x' && high_element {
        Some(TagRangeKind::Group100)
    } else if high_group && tag.get_char(8) == 'x' && tag.get_char(9) == 'x' {
        Some(TagRangeKind::Element100)
    } else {
        None
    }
}

/// The tag expression for a tag cell that matches `kind`.
pub fn tag_expression(tag: &str, kind: TagRangeKind) -> (r: String)
    requires
        tag_pattern(tag@) == Some(kind),
    ensures
        r@ == tag_expr(tag@, kind),
{
    match kind {
        TagRangeKind::Single => {
            let mut r = String::from_str("Single(Tag(0x");
            r.append(tag.substring_char(1, 5));
            r.append(", 0x");
            r.append(tag.substring_char(6, 10));
            r.append("))");
            r
        },
        TagRangeKind::Group100 => {
            let mut r = String::from_str("Group100(Tag(0x");
            r.append(tag.substring_char(1, 3));
            r.append("00, 0x");
            r.append(tag.substring_char(6, 10));
            r.append("))");
            r
        },
        TagRangeKind::Element100 => {
            let mut r = String::from_str("Element100(Tag(0x");
            r.append(tag.substring_char(1, 5));
            r.append(", 0x");
            r.append(tag.substring_char(6, 8));
            r.append("00))");
            r
        },
    }
}

/// The line written for a row, or `None` where the row is left out.
pub fn entry_line(entry: &Entry, include_retired: bool) -> (r: Option<String>)
    ensures
        opt_view(r) == entry_line_of(*entry, include_retired),
{
    let alias = match &entry.alias {
        Some(a) => a,
        None => return None,
    };
    if alias.unicode_len() == 0 {
        return None;
    }
    let retired = match &entry.obs {
        Some(o) => *o == String::from_str("RET"),
        None => false,
    };
    if retired && !include_retired {
        return None;
    }
    let kind = match parse_tag_pattern(entry.tag.as_str()) {
        Some(k) => k,
        None => return None,
    };
    let mut vr = match &entry.vr {
        Some(v) => v.clone(),
        None => String::new(),
    };
    if vr == String::from_str("See Note") {
        vr = String::from_str("UN See Note");
    }
    let vr_len = vr.unicode_len();
    let mut line = String::from_str("    E { tag: ");
    line.append(tag_expression(entry.tag.as_str(), kind).as_str());
    line.append(", alias: \"");
    line.append(alias.as_str());
    line.append("\", vr: ");
    if vr_len >= 2 {
        line.append(vr.as_str().substring_char(0, 2));
    } else {
        line.append(vr.as_str());
    }
    if vr_len > 2 {
        line.append(" /*");
        line.append(vr.as_str().substring_char(2, vr_len));
        line.append(" */");
    }
    line.append(" },");
    match &entry.obs {
        Some(o) => if o.unicode_len() > 0 {
            line.append(" // ");
            line.append(o.as_str());
        },
        None => {},
    }
    line.append("\n");
    Some(line)
}

/// The whole dictionary source file for the given rows, in their order.
pub fn code_file(entries: &Vec<Entry>, include_retired: bool) -> (r: String)
    ensures
        r@ == CODE_HEADER@ + lines_spec(entries@, include_retired) + CODE_FOOTER@,
{
    let mut out = String::from_str(CODE_HEADER);
    let mut i: usize = 0;
    while i < entries.len()
        invariant
            i <= entries.len(),
            out@ == CODE_HEADER@ + lines_spec(entries@.subrange(0, i as int), include_retired),
        decreases entries.len() - i,
    {
        let ghost before = out@;
        match entry_line(&entries[i], include_retired) {
            Some(l) => out.append(l.as_str()),
            None => {},
        }
        assert(entries@.subrange(0, i + 1).drop_last() =~= entries@.subrange(0, i as int));
        assert(entries@.subrange(0, i + 1).last() == entries@[i as int]);
        i = i + 1;
    }
    assert(entries@.subrange(0, entries.len() as int) =~= entries@);
    out.append(CODE_FOOTER);
    out
}

/// Rows without a keyword and rows whose tag matches no pattern are never
/// written; a retired row that is otherwise kept is written exactly when
/// retired rows are included.
pub proof fn lemma_row_filter(
    tag: Seq<char>,
    alias: Option<Seq<char>>,
    vr: Option<Seq<char>>,
    obs: Option<Seq<char>>,
    include_retired: bool,
)
    ensures
        (alias is None || alias == Some(Seq::<char>::empty())) ==> entry_line_spec(
            tag,
            alias,
            vr,
            obs,
            include_retired,
        ) is None,
        tag_pattern(tag) is None ==> entry_line_spec(tag, alias, vr, obs, include_retired) is None,
        obs == Some("RET"@) && entry_line_spec(tag, alias, vr, obs, true) is Some ==> (
        entry_line_spec(tag, alias, vr, obs, include_retired) is Some <==> include_retired),
        obs != Some("RET"@) ==> entry_line_spec(tag, alias, vr, obs, include_retired)
            == entry_line_spec(tag, alias, vr, obs, true),
{
}

} // verus!
