use mixtuur::cubase::{
    bytes_match, color_value_text, cubase_color, is_cubase_folder, parse_cubase_pitch_name,
    AttributeLookup, PitchColorRewriter, RewriteAction, XmlTag, XmlTagKind,
};

fn tag(kind: XmlTagKind, element: &str, name: Option<&str>, value: Option<&str>) -> XmlTag {
    let lookup = |v: Option<&str>| match v {
        Some(s) => AttributeLookup::Present(s.as_bytes().to_vec()),
        None => AttributeLookup::Absent,
    };
    XmlTag {
        kind,
        element: element.as_bytes().to_vec(),
        name_attribute: lookup(name),
        value_attribute: lookup(value),
    }
}

#[test]
fn cubase_pitch_names() {
    let names = [
        "C", "C#/Db", "D", "D#/Eb", "E", "F", "F#/Gb", "G", "G#/Ab", "A", "A#/Bb", "B",
    ];
    for (i, n) in names.iter().enumerate() {
        assert_eq!(parse_cubase_pitch_name(n.as_bytes()), Some(i as u8));
    }
    assert_eq!(parse_cubase_pitch_name(b"C#"), None);
    assert_eq!(parse_cubase_pitch_name(b"c"), None);
    assert_eq!(parse_cubase_pitch_name(b""), None);
    assert!(bytes_match(b"Set", "Set"));
    assert!(!bytes_match(b"Sets", "Set"));
}

#[test]
fn cubase_color_packs_argb() {
    assert_eq!(cubase_color(0x3D, 0x70, 0xE8), 0xFF3D70E8);
    assert_eq!(cubase_color(0, 0, 0), 0xFF000000);
    assert_eq!(color_value_text(cubase_color(0x3D, 0x70, 0xE8)), "4282216680");
    assert_eq!(color_value_text(0), "0");
    assert_eq!(color_value_text(u32::MAX), "4294967295");
}

#[test]
fn cubase_folder_names() {
    assert!(is_cubase_folder("Cubase 14"));
    assert!(is_cubase_folder("Cubase 13_64"));
    assert!(!is_cubase_folder("Cubase"));
    assert!(!is_cubase_folder("Nuendo 13"));
    assert!(!is_cubase_folder("cubase 14"));
}

#[test]
fn rewriter_replaces_only_pitch_colors() {
    let mut rw = PitchColorRewriter::new();
    // A Color outside the pitch colours is kept.
    assert_eq!(rw.step(&tag(XmlTagKind::Empty, "int", Some("Color"), Some("1"))), RewriteAction::Keep);
    assert_eq!(rw.step(&tag(XmlTagKind::Start, "member", Some("pitchColors"), None)), RewriteAction::Keep);
    assert!(rw.in_pitch_colors);
    assert_eq!(rw.step(&tag(XmlTagKind::Start, "list", Some("Set"), None)), RewriteAction::Keep);
    assert!(rw.in_set_list);
    assert_eq!(rw.step(&tag(XmlTagKind::Start, "item", None, None)), RewriteAction::Keep);
    // A Color before the item's name is kept.
    assert_eq!(rw.step(&tag(XmlTagKind::Empty, "int", Some("Color"), Some("1"))), RewriteAction::Keep);
    assert_eq!(rw.step(&tag(XmlTagKind::Empty, "string", Some("Name"), Some("F#/Gb"))), RewriteAction::Keep);
    assert_eq!(rw.current_semitone, Some(6));
    assert_eq!(
        rw.step(&tag(XmlTagKind::Empty, "int", Some("Color"), Some("4278190080"))),
        RewriteAction::ReplaceColor(6)
    );
    assert_eq!(rw.step(&tag(XmlTagKind::Empty, "int", Some("Other"), Some("1"))), RewriteAction::Keep);
    assert_eq!(rw.step(&tag(XmlTagKind::End, "item", None, None)), RewriteAction::Keep);
    assert_eq!(rw.current_semitone, None);
    assert_eq!(rw.step(&tag(XmlTagKind::End, "list", None, None)), RewriteAction::Keep);
    assert!(!rw.in_set_list);
    assert_eq!(rw.step(&tag(XmlTagKind::End, "member", None, None)), RewriteAction::Keep);
    assert!(!rw.in_pitch_colors);
}

#[test]
fn rewriter_fails_on_unreadable_attributes_it_needs() {
    let mut rw = PitchColorRewriter::new();
    let mut bad = tag(XmlTagKind::Start, "member", None, None);
    bad.name_attribute = AttributeLookup::Malformed;
    assert_eq!(rw.step(&bad), RewriteAction::Fail);
    // An unreadable attribute on an element the rewriting ignores is fine.
    let mut ignored = tag(XmlTagKind::Start, "other", None, None);
    ignored.name_attribute = AttributeLookup::Malformed;
    assert_eq!(rw.step(&ignored), RewriteAction::Keep);
    // A list outside the pitch colours is not entered.
    assert_eq!(rw.step(&tag(XmlTagKind::Start, "list", Some("Set"), None)), RewriteAction::Keep);
    assert!(!rw.in_set_list);
}
