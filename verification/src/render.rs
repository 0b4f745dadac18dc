//! Layout of the twelve-pitch colour table: its header, the separator line
//! beneath it, and the marker at the start of each row.

use vstd::prelude::*;

verus! {

/// The column headers: `Pitch` padded to 5 characters, `Degree` to 9, and
/// `H`, `S`, `V` to 3 each, separated by two spaces, followed by the
/// comment column's title when comments are shown.
pub open spec fn header_text(explain: bool) -> Seq<char> {
    "Pitch"@ + "  "@ + "Degree   "@ + "  "@ + "H  "@ + "  "@ + "S  "@ + "  "@ + "V  "@ + if explain {
        "  Comment"@
    } else {
        ""@
    }
}

/// The column headers of the colour table.
pub fn table_header(explain: bool) -> (r: String)
    ensures
        r@ == header_text(explain),
{
    let mut s = String::from_str("Pitch");
    s.append("  ");
    s.append("Degree   ");
    s.append("  ");
    s.append("H  ");
    s.append("  ");
    s.append("S  ");
    s.append("  ");
    s.append("V  ");
    if explain {
        s.append("  Comment");
    } else {
        s.append("");
    }
    s
}

/// Length of the separator line drawn beneath the column headers: exactly
/// as many characters as the header has (31, or 40 with the comment
/// column).
pub fn separator_width(explain: bool) -> (r: usize)
    ensures
        r == header_text(explain).len(),
        r == (if explain {
            40usize
        } else {
            31usize
        }),
{
    let header = table_header(explain);
    proof {
        reveal_strlit("Pitch");
        reveal_strlit("  ");
        reveal_strlit("Degree   ");
        reveal_strlit("H  ");
        reveal_strlit("S  ");
        reveal_strlit("V  ");
        reveal_strlit("  Comment");
        reveal_strlit("");
    }
    header.as_str().unicode_len()
}

/// Marker at the start of a row: `▶` for the tonic, `●` for the other
/// in-scale pitches, a space otherwise.
pub fn row_marker(interval: u8, in_scale: bool) -> (r: &'static str)
    ensures
        r@ == (if interval == 0 {
            "▶"@
        } else if in_scale {
            "●"@
        } else {
            " "@
        }),
{
    if interval == 0 {
        "▶"
    } else if in_scale {
        "●"
    } else {
        " "
    }
}

} // verus!
