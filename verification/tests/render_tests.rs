use mixtuur::render::{row_marker, separator_width, table_header};

#[test]
fn separator_matches_header_exactly() {
    for explain in [false, true] {
        let comment_hdr = if explain { "  Comment" } else { "" };
        let header = format!(
            "{:<5}  {:<9}  {:<3}  {:<3}  {:<3}{}",
            "Pitch", "Degree", "H", "S", "V", comment_hdr
        );
        assert_eq!(table_header(explain), header);
        assert_eq!(separator_width(explain), header.chars().count());
    }
    assert_eq!(separator_width(false), 31);
    assert_eq!(separator_width(true), 40);
}

#[test]
fn row_markers() {
    assert_eq!(row_marker(0, true), "▶");
    assert_eq!(row_marker(4, true), "●");
    assert_eq!(row_marker(3, false), " ");
}
