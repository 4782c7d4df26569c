use dicom_tokens::codegen::{
    code_file, entry_line, parse_tag_pattern, tag_expression, TagRangeKind, CODE_FOOTER,
    CODE_HEADER,
};
use dicom_tokens::dictionary::{Entry, EntryScanner, ScanStep, XmlEvent, XmlReadingState};

fn entry(tag: &str, alias: Option<&str>, vr: Option<&str>, obs: Option<&str>) -> Entry {
    Entry {
        tag: tag.to_string(),
        name: Some("Name".to_string()),
        alias: alias.map(|s| s.to_string()),
        vr: vr.map(|s| s.to_string()),
        vm: Some("1".to_string()),
        obs: obs.map(|s| s.to_string()),
    }
}

fn start(name: &str, id: Option<&str>) -> XmlEvent {
    XmlEvent::Start { local_name: name.to_string(), id: id.map(|s| s.to_string()) }
}

fn end(name: &str) -> XmlEvent {
    XmlEvent::End { local_name: name.to_string() }
}

fn text(t: &str) -> XmlEvent {
    XmlEvent::Text(t.to_string())
}

#[test]
fn single_tag_row_line() {
    let e = entry("(0028,0010)", Some("Rows"), Some("US"), None);
    assert_eq!(
        entry_line(&e, true),
        Some("    E { tag: Single(Tag(0x0028, 0x0010)), alias: \"Rows\", vr: US },\n".to_string())
    );
    let e = entry("(0028,0010)", Some("Rows"), Some("US"), Some(""));
    assert_eq!(
        entry_line(&e, false),
        Some("    E { tag: Single(Tag(0x0028, 0x0010)), alias: \"Rows\", vr: US },\n".to_string())
    );
}

#[test]
fn retired_group_range_row() {
    let e = entry("(50xx,0200)", Some("DisplayInformation"), Some("CS"), Some("RET"));
    assert_eq!(entry_line(&e, false), None);
    assert_eq!(
        entry_line(&e, true),
        Some(
            "    E { tag: Group100(Tag(0x5000, 0x0200)), alias: \"DisplayInformation\", vr: CS }, // RET\n"
                .to_string()
        )
    );
}

#[test]
fn element_range_row() {
    let e = entry("(1000,00x0)", Some("Bad"), Some("US"), None);
    assert_eq!(entry_line(&e, true), None);
    let e = entry("(1010,00xx)", Some("ZonalMap"), Some("US"), Some("RET"));
    assert_eq!(
        entry_line(&e, true),
        Some("    E { tag: Element100(Tag(0x1010, 0x0000)), alias: \"ZonalMap\", vr: US }, // RET\n".to_string())
    );
}

#[test]
fn rows_without_keyword_are_skipped() {
    assert_eq!(entry_line(&entry("(0028,0010)", None, Some("US"), None), true), None);
    assert_eq!(entry_line(&entry("(0028,0010)", Some(""), Some("US"), None), true), None);
}

#[test]
fn unrecognised_tags_are_skipped() {
    for tag in ["(0028,001)", "(0028,001g)", "(gggg,eeee)", "0028,0010", "(0028;0010)", "(0028,0010) "] {
        assert_eq!(entry_line(&entry(tag, Some("Rows"), Some("US"), None), true), None);
    }
    assert_eq!(parse_tag_pattern("(0028,00a0)"), None);
}

#[test]
fn tag_patterns() {
    assert_eq!(parse_tag_pattern("(0028,0010)"), Some(TagRangeKind::Single));
    assert_eq!(parse_tag_pattern("(60xx,3000)"), Some(TagRangeKind::Group100));
    assert_eq!(parse_tag_pattern("(7FE0,00xx)"), Some(TagRangeKind::Element100));
    assert_eq!(parse_tag_pattern("(xxxx,0010)"), None);
    assert_eq!(tag_expression("(60xx,3000)", TagRangeKind::Group100), "Group100(Tag(0x6000, 0x3000))");
    assert_eq!(tag_expression("(7FE0,00xx)", TagRangeKind::Element100), "Element100(Tag(0x7FE0, 0x0000))");
    assert_eq!(tag_expression("(ABCD,EF01)", TagRangeKind::Single), "Single(Tag(0xABCD, 0xEF01))");
}

#[test]
fn see_note_vr_becomes_unknown_with_comment() {
    let e = entry("(0028,1101)", Some("RedPaletteColorLookupTableDescriptor"), Some("See Note"), None);
    assert_eq!(
        entry_line(&e, true),
        Some("    E { tag: Single(Tag(0x0028, 0x1101)), alias: \"RedPaletteColorLookupTableDescriptor\", vr: UN /* See Note */ },\n".to_string())
    );
    let e = entry("(0028,0106)", Some("SmallestImagePixelValue"), Some("US or SS"), None);
    assert_eq!(
        entry_line(&e, true),
        Some("    E { tag: Single(Tag(0x0028, 0x0106)), alias: \"SmallestImagePixelValue\", vr: US /* or SS */ },\n".to_string())
    );
}

#[test]
fn code_file_keeps_rows_in_order() {
    let rows = vec![
        entry("(0028,0010)", Some("Rows"), Some("US"), None),
        entry("(50xx,0200)", Some("DisplayInformation"), Some("CS"), Some("RET")),
        entry("(0028,0011)", Some("Columns"), Some("US"), None),
    ];
    let expected = format!(
        "{}{}{}{}",
        CODE_HEADER,
        "    E { tag: Single(Tag(0x0028, 0x0010)), alias: \"Rows\", vr: US },\n",
        "    E { tag: Single(Tag(0x0028, 0x0011)), alias: \"Columns\", vr: US },\n",
        CODE_FOOTER
    );
    assert_eq!(code_file(&rows, false), expected);
    assert!(code_file(&rows, true).contains("// RET"));
    assert_eq!(code_file(&vec![], true), format!("{}{}", CODE_HEADER, CODE_FOOTER));
    assert!(CODE_HEADER.ends_with("pub const ENTRIES: &[E] = &[\n"));
}

#[test]
fn scanner_reads_a_table_row() {
    let mut s = EntryScanner::new();
    assert_eq!(s.feed(start("table", Some("table_5-1"))), ScanStep::Continue);
    assert_eq!(s.state, XmlReadingState::Off);
    assert_eq!(s.feed(start("table", Some("table_6-1"))), ScanStep::Continue);
    assert_eq!(s.state, XmlReadingState::InTableHead);
    assert_eq!(s.feed(start("para", None)), ScanStep::Continue);
    assert_eq!(s.state, XmlReadingState::InTableHead);
    s.feed(start("tbody", None));
    assert_eq!(s.state, XmlReadingState::InTable);
    s.feed(start("tr", None));
    let cells = ["(0028,\u{200b}0010)", "Rows", "Ro\u{200b}ws", "US", "1"];
    for c in cells {
        s.feed(start("td", None));
        s.feed(start("para", None));
        s.feed(text(c));
        s.feed(end("para"));
        s.feed(end("td"));
    }
    s.feed(start("td", None));
    s.feed(start("para", None));
    s.feed(end("para"));
    s.feed(end("td"));
    assert_eq!(s.state, XmlReadingState::InCellObs);
    let row = s.feed(end("tr"));
    assert_eq!(
        row,
        ScanStep::Row(Entry {
            tag: "(0028,0010)".to_string(),
            name: Some("Rows".to_string()),
            alias: Some("Rows".to_string()),
            vr: Some("US".to_string()),
            vm: Some("1".to_string()),
            obs: None,
        })
    );
    assert_eq!(s.state, XmlReadingState::InTable);
    assert!(s.tag.is_none());
    assert_eq!(s.feed(end("tr")), ScanStep::Continue);
    assert_eq!(s.feed(end("tbody")), ScanStep::Finished);
}

#[test]
fn scanner_cells_past_the_sixth_are_ignored() {
    let mut s = EntryScanner::new();
    s.feed(start("table", Some("table_6-1")));
    s.feed(start("tbody", None));
    for _ in 0..7 {
        s.feed(start("para", None));
    }
    assert_eq!(s.state, XmlReadingState::InCellUnknown);
    s.feed(text("extra"));
    s.feed(start("para", None));
    assert_eq!(s.state, XmlReadingState::InCellUnknown);
    assert!(s.obs.is_none());
    assert_eq!(s.feed(end("tr")), ScanStep::Continue);
    assert_eq!(s.feed(XmlEvent::Eof), ScanStep::Finished);
}
