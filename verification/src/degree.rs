//! Degree symbols, degree names, harmonic function labels, and comment
//! strings for in-scale and chromatic notes.

use vstd::prelude::*;

use crate::scale::{builtin_view, lemma_builtin_scales_wf, Scale, ScaleView, SCALE_COUNT};
use crate::text::{decimal, push_char, push_decimal, str_eq};

verus! {

/// Roman-numeral degree symbol for a chromatic interval (0-11).
pub open spec fn degree_symbol(interval: int) -> Seq<char> {
    if interval == 0 {
        "I"@
    } else if interval == 1 {
        "IIb"@
    } else if interval == 2 {
        "II"@
    } else if interval == 3 {
        "IIIb"@
    } else if interval == 4 {
        "III"@
    } else if interval == 5 {
        "IV"@
    } else if interval == 6 {
        "IV#/Vb"@
    } else if interval == 7 {
        "V"@
    } else if interval == 8 {
        "VIb"@
    } else if interval == 9 {
        "VI"@
    } else if interval == 10 {
        "VIIb"@
    } else if interval == 11 {
        "VII"@
    } else {
        "?"@
    }
}

/// Interval of degree `pos` in the Ionian (major) scale.
pub open spec fn ionian_interval(pos: int) -> int {
    if pos == 0 {
        0
    } else if pos == 1 {
        2
    } else if pos == 2 {
        4
    } else if pos == 3 {
        5
    } else if pos == 4 {
        7
    } else if pos == 5 {
        9
    } else {
        11
    }
}

/// Name of degree `pos` of a seven-note scale before any quality suffix.
pub open spec fn base_degree_name(pos: int) -> Seq<char> {
    if pos == 0 {
        "Tonic"@
    } else if pos == 1 {
        "Supertonic"@
    } else if pos == 2 {
        "Mediant"@
    } else if pos == 3 {
        "Subdominant"@
    } else if pos == 4 {
        "Dominant"@
    } else if pos == 5 {
        "Submediant"@
    } else {
        "Leading tone"@
    }
}

/// Quality suffix for a degree `diff` semitones away from its Ionian
/// counterpart.
pub open spec fn quality_suffix(diff: int) -> Seq<char> {
    if diff == 1 {
        "♯"@
    } else if diff == -1 {
        "♭"@
    } else if diff == 2 {
        "𝄪"@
    } else if diff == -2 {
        "𝄫"@
    } else {
        ""@
    }
}

/// The name [`degree_name_heptatonic`] gives to degree `pos` at `interval`.
pub open spec fn heptatonic_degree_name(pos: int, interval: int) -> Seq<char> {
    if pos == 6 {
        if interval == 11 {
            "Leading tone"@
        } else {
            "Subtonic"@
        }
    } else {
        base_degree_name(pos) + quality_suffix(interval - ionian_interval(pos))
    }
}

/// The label [`function_label`] gives.
pub open spec fn harmonic_function(pos: int, interval: int, is_major_context: bool) -> Seq<char> {
    if pos == 0 || pos == 2 {
        "(T)"@
    } else if pos == 1 || pos == 3 {
        "(S)"@
    } else if pos == 4 {
        if interval == 6 {
            "   "@
        } else {
            "(D)"@
        }
    } else if pos == 5 {
        if is_major_context {
            "(T)"@
        } else {
            "(S)"@
        }
    } else if pos == 6 {
        "(D)"@
    } else {
        "   "@
    }
}

/// Whether degree `pos` at `interval` is the characteristic tone of the
/// mode with Circle-of-Fifths offset `mode_fifth_offset`.
pub open spec fn characteristic(pos: int, interval: int, mode_fifth_offset: int) -> bool {
    if mode_fifth_offset == 1 {
        pos == 3 && interval == 6
    } else if mode_fifth_offset == -1 {
        pos == 6 && interval == 10
    } else if mode_fifth_offset == -2 {
        pos == 5 && interval == 9
    } else if mode_fifth_offset == -4 {
        pos == 1 && interval == 1
    } else if mode_fifth_offset == -5 {
        pos == 4 && interval == 6
    } else {
        false
    }
}

/// Roman-numeral degree symbol for any chromatic interval (0-11).
///
/// This is the canonical harmonic label regardless of scale membership;
/// used in the "Deg" display column and in comment strings for chromatic notes.
pub fn interval_to_degree_symbol(interval: u8) -> (r: &'static str)
    ensures
        r@ == degree_symbol(interval as int),
{
    match interval {
        0 => "I",
        1 => "IIb",
        2 => "II",
        3 => "IIIb",
        4 => "III",
        5 => "IV",
        6 => "IV#/Vb",
        7 => "V",
        8 => "VIb",
        9 => "VI",
        10 => "VIIb",
        11 => "VII",
        _ => "?",
    }
}

/// Degree name for a scale degree at position `pos` (0-indexed) in a 7-note
/// scale.
///
/// Quality suffix (♭/♯) is computed by comparing to the parallel Ionian
/// interval, so Dorian's pos-2 (interval 3) yields `"Mediant♭"` and Lydian's
/// pos-3 (interval 6) yields `"Subdominant♯"`.
///
/// The seventh degree (pos 6) is a special case: `"Leading tone"` (interval
/// 11) and `"Subtonic"` (interval 10) are qualitatively distinct roles, not
/// the same degree with a flat.  No ♭/♯ suffix is added; the name itself
/// encodes the distinction.
pub fn degree_name_heptatonic(pos: usize, interval: u8) -> (r: String)
    requires
        pos < 7,
    ensures
        r@ == heptatonic_degree_name(pos as int, interval as int),
{
    if pos == 6 {
        return if interval == 11 {
            String::from_str("Leading tone")
        } else {
            String::from_str("Subtonic")
        };
    }
    let (base, ionian_int): (&str, u8) = match pos {
        0 => ("Tonic", 0),
        1 => ("Supertonic", 2),
        2 => ("Mediant", 4),
        3 => ("Subdominant", 5),
        4 => ("Dominant", 7),
        _ => ("Submediant", 9),
    };
    let diff: i16 = interval as i16 - ionian_int as i16;
    let suffix = match diff {
        1 => "♯",
        -1 => "♭",
        2 => "𝄪",
        -2 => "𝄫",
        _ => "",
    };
    let mut s = String::from_str(base);
    s.append(suffix);
    s
}

/// Harmonic-function label: `"(T)"` tonic, `"(S)"` subdominant/pre-dominant,
/// `"(D)"` dominant, or `"   "` (no stable function).
///
/// `is_major_context` is `true` for Lydian, Ionian, Mixolydian
/// (`mode_fifth_offset ≥ −1`).  It determines whether the Submediant (pos 5)
/// is a tonic parallel (major context) or a subdominant preparation (minor).
///
/// Locrian's Vb (pos 4, interval 6) destroys dominant function → `"   "`.
pub fn function_label(pos: usize, interval: u8, is_major_context: bool) -> (r: &'static str)
    ensures
        r@ == harmonic_function(pos as int, interval as int, is_major_context),
{
    match pos {
        0 => "(T)",
        1 => "(S)",
        2 => "(T)",
        3 => "(S)",
        4 => {
            if interval == 6 {
                "   "
            } else {
                "(D)"
            }
        },
        5 => {
            if is_major_context {
                "(T)"
            } else {
                "(S)"
            }
        },
        6 => "(D)",
        _ => "   ",
    }
}

/// Returns `true` when this scale degree is the **characteristic tone** of its
/// mode, the single interval that most distinguishes it from its neighbour on
/// the Circle of Fifths brightness spectrum:
///
/// | Mode       | Characteristic vs. neighbour   |
/// |------------|--------------------------------|
/// | Lydian     | IV# (pos 3, int 6) vs Ionian   |
/// | Ionian     | none (reference)               |
/// | Mixolydian | VIIb (pos 6, int 10) vs Ionian |
/// | Dorian     | VI=  (pos 5, int 9) vs Aeolian |
/// | Aeolian    | none (reference minor)         |
/// | Phrygian   | IIb  (pos 1, int 1) vs Aeolian |
/// | Locrian    | Vb   (pos 4, int 6) vs Phrygian|
///
/// Harmonic and Melodic Minor characteristic tones are handled separately.
pub fn is_characteristic(pos: usize, interval: u8, mode_fifth_offset: i8) -> (r: bool)
    ensures
        r == characteristic(pos as int, interval as int, mode_fifth_offset as int),
{
    match mode_fifth_offset {
        1 => pos == 3 && interval == 6,
        0 => false,
        -1 => pos == 6 && interval == 10,
        -2 => pos == 5 && interval == 9,
        -3 => false,
        -4 => pos == 1 && interval == 1,
        -5 => pos == 4 && interval == 6,
        _ => false,
    }
}

/// The comment for an in-scale note of a pure diatonic seven-note mode:
/// function label, degree name, and a `[char.]` marker on the mode's
/// characteristic tone.
pub open spec fn diatonic_comment(
    pos: int,
    interval: int,
    mode_fifth_offset: int,
    is_major_context: bool,
) -> Seq<char> {
    harmonic_function(pos, interval, is_major_context) + " "@ + heptatonic_degree_name(pos, interval)
        + if characteristic(pos, interval, mode_fifth_offset) {
        " [char.]"@
    } else {
        ""@
    }
}

/// The comment for an in-scale note of Harmonic or Melodic Minor: the raised
/// degrees are annotated, everything else reads as in Aeolian.
pub open spec fn minor_variant_comment(pos: int, interval: int, scale_name: Seq<char>) -> Seq<char> {
    if scale_name == "Harmonic Minor"@ && pos == 4 && interval == 7 {
        "(D) Dominant"@
    } else if scale_name == "Harmonic Minor"@ && pos == 6 && interval == 11 {
        "(D) Leading tone VII♯ [char.]"@
    } else if scale_name == "Melodic Minor"@ && pos == 5 && interval == 9 {
        "(S) Submediant VI♯ [char.]"@
    } else if scale_name == "Melodic Minor"@ && pos == 6 && interval == 11 {
        "(D) Leading tone VII♯ [char.]"@
    } else {
        diatonic_comment(pos, interval, -3, false)
    }
}

/// Index of the first occurrence of `x` in `s`.
pub open spec fn first_position(s: Seq<u8>, x: u8) -> int {
    choose|i: int| 0 <= i < s.len() && s[i] == x && forall|k: int| 0 <= k < i ==> s[k] != x
}

/// The comment for a note of a scale that does not have seven notes.
pub open spec fn non_heptatonic_comment(interval: int, scale: ScaleView) -> Seq<char> {
    let pos = first_position(scale.intervals, interval as u8);
    if scale.name == "Pentatonic"@ {
        if pos == 0 {
            "(T) Tonic"@
        } else if pos == 1 {
            "(S) Supertonic"@
        } else if pos == 2 {
            "(T) Mediant"@
        } else if pos == 3 {
            "(D) Dominant"@
        } else if pos == 4 {
            "(T) Submediant"@
        } else {
            "    ?"@
        }
    } else if scale.name == "No Scale"@ {
        let func = if interval == 0 || interval == 9 {
            "(T)"@
        } else if interval == 2 || interval == 5 {
            "(S)"@
        } else if interval == 7 || interval == 11 {
            "(D)"@
        } else {
            "   "@
        };
        func + " "@ + degree_symbol(interval)
    } else {
        "    interval "@ + decimal(interval as nat)
    }
}

/// Musical glyphs for the ASCII accidentals of a degree symbol: `bb` → 𝄫,
/// `##` → 𝄪, `b` → ♭, `#` → ♯, read from left to right.
pub open spec fn accidental_glyphs(s: Seq<char>) -> Seq<char>
    decreases s.len(),
{
    if s.len() == 0 {
        Seq::empty()
    } else if s.len() >= 2 && s[0] == 'b' && s[1] == 'b' {
        seq!['𝄫'] + accidental_glyphs(s.subrange(2, s.len() as int))
    } else if s.len() >= 2 && s[0] == '#' && s[1] == '#' {
        seq!['𝄪'] + accidental_glyphs(s.subrange(2, s.len() as int))
    } else if s[0] == 'b' {
        seq!['♭'] + accidental_glyphs(s.drop_first())
    } else if s[0] == '#' {
        seq!['♯'] + accidental_glyphs(s.drop_first())
    } else {
        seq![s[0]] + accidental_glyphs(s.drop_first())
    }
}

/// The theoretical role of a chromatic interval, refined for minor
/// (`is_minor`) or major context.
pub open spec fn chromatic_role(interval: int, is_minor: bool) -> Seq<char> {
    if interval == 1 {
        if is_minor {
            "Neapolitan or II♭ (borrowed from Phrygian)"@
        } else {
            "Neapolitan chord (II♭, borrowed from Phrygian)"@
        }
    } else if interval == 3 {
        if is_minor {
            "III♭ (parallel major mediant)"@
        } else {
            "III♭ (borrowed from parallel minor)"@
        }
    } else if interval == 4 {
        if is_minor {
            "III♮ (from harmonic or melodic minor)"@
        } else {
            "III (Mediant)"@
        }
    } else if interval == 6 {
        "Tritone (IV♯ or V♭)"@
    } else if interval == 8 {
        if is_minor {
            "VI♭ (submediant of parallel major)"@
        } else {
            "VI♭ (borrowed from parallel minor; chromatic mediant)"@
        }
    } else if interval == 10 {
        if is_minor {
            "VII♭ (Subtonic, Aeolian VII)"@
        } else {
            "VII♭ (borrowed from parallel minor or Mixolydian)"@
        }
    } else if interval == 11 {
        if is_minor {
            "VII♯ leading tone (harmonic minor)"@
        } else {
            "VII (Leading tone)"@
        }
    } else if interval == 9 {
        if is_minor {
            "VI♮ (Dorian or melodic minor)"@
        } else {
            "VI (Submediant)"@
        }
    } else if interval == 2 {
        "II (Supertonic)"@
    } else if interval == 5 {
        "IV (Subdominant)"@
    } else if interval == 7 {
        "V (Dominant)"@
    } else if interval == 0 {
        "I (Tonic)"@
    } else {
        ""@
    }
}

/// The comment for a chromatic (out-of-scale) note.
pub open spec fn chromatic_comment(interval: int, mode_fifth_offset: int) -> Seq<char> {
    "    "@ + accidental_glyphs(degree_symbol(interval)) + ", "@ + chromatic_role(
        interval,
        mode_fifth_offset <= -2,
    )
}

/// The comment [`build_comment`] gives.
pub open spec fn comment(interval: int, in_scale: bool, scale: ScaleView) -> Seq<char> {
    if !in_scale {
        chromatic_comment(interval, scale.mode_fifth_offset)
    } else if scale.intervals.len() == 7 {
        let pos = first_position(scale.intervals, interval as u8);
        if scale.name == "Harmonic Minor"@ || scale.name == "Melodic Minor"@ {
            minor_variant_comment(pos, interval, scale.name)
        } else {
            diatonic_comment(pos, interval, scale.mode_fifth_offset, scale.mode_fifth_offset >= -1)
        }
    } else {
        non_heptatonic_comment(interval, scale)
    }
}

/// Comment for an in-scale note in a pure diatonic 7-note mode.
fn comment_diatonic_heptatonic(
    pos: usize,
    interval: u8,
    mode_fifth_offset: i8,
    is_major_context: bool,
) -> (r: String)
    requires
        pos < 7,
    ensures
        r@ == diatonic_comment(pos as int, interval as int, mode_fifth_offset as int, is_major_context),
{
    let func = function_label(pos, interval, is_major_context);
    let name = degree_name_heptatonic(pos, interval);
    let marker = if is_characteristic(pos, interval, mode_fifth_offset) {
        " [char.]"
    } else {
        ""
    };
    let mut s = String::from_str(func);
    s.append(" ");
    s.append(name.as_str());
    s.append(marker);
    s
}

/// Comment for an in-scale note in Harmonic or Melodic Minor.
///
/// These scales share the Aeolian key signature but raise one (harmonic) or
/// two (melodic) scale degrees.  The raised degrees are characteristic and
/// receive an explicit # annotation.  All other degrees fall through to the
/// standard Aeolian-context comment.
fn comment_minor_variant(pos: usize, interval: u8, scale_name: &str) -> (r: String)
    requires
        pos < 7,
    ensures
        r@ == minor_variant_comment(pos as int, interval as int, scale_name@),
{
    let harmonic = str_eq(scale_name, "Harmonic Minor");
    let melodic = str_eq(scale_name, "Melodic Minor");
    if harmonic && pos == 4 && interval == 7 {
        String::from_str("(D) Dominant")
    } else if harmonic && pos == 6 && interval == 11 {
        String::from_str("(D) Leading tone VII♯ [char.]")
    } else if melodic && pos == 5 && interval == 9 {
        String::from_str("(S) Submediant VI♯ [char.]")
    } else if melodic && pos == 6 && interval == 11 {
        String::from_str("(D) Leading tone VII♯ [char.]")
    } else {
        comment_diatonic_heptatonic(pos, interval, -3, false)
    }
}

/// Position of the first occurrence of `interval` among the scale's
/// intervals.
fn position_of(intervals: &[u8], interval: u8) -> (r: usize)
    requires
        intervals@.contains(interval),
    ensures
        r == first_position(intervals@, interval),
        r < intervals@.len(),
{
    let n = intervals.len();
    let mut i: usize = 0;
    while i < n
        invariant
            n == intervals@.len(),
            i <= n,
            intervals@.contains(interval),
            forall|k: int| 0 <= k < i ==> intervals@[k] != interval,
        decreases n - i,
    {
        if intervals[i] == interval {
            let ghost found = i as int;
            assert(0 <= found < intervals@.len() && intervals@[found] == interval && forall|k: int|
                0 <= k < found ==> intervals@[k] != interval);
            let ghost chosen = first_position(intervals@, interval);
            assert(chosen == found) by {
                if chosen < found {
                    assert(intervals@[chosen] != interval);
                } else if chosen > found {
                    assert(intervals@[found] != interval);
                }
            }
            return i;
        }
        i = i + 1;
    }
    assert(false);
    0
}

/// Comment for a note in a non-heptatonic scale.
fn comment_non_heptatonic(interval: u8, scale: &Scale) -> (r: String)
    requires
        scale.intervals@.contains(interval),
    ensures
        r@ == non_heptatonic_comment(interval as int, scale@),
{
    let pos = position_of(scale.intervals, interval);
    if str_eq(scale.name, "Pentatonic") {
        let (func, name) = match pos {
            0 => ("(T)", "Tonic"),
            1 => ("(S)", "Supertonic"),
            2 => ("(T)", "Mediant"),
            3 => ("(D)", "Dominant"),
            4 => ("(T)", "Submediant"),
            _ => ("   ", "?"),
        };
        let mut s = String::from_str(func);
        s.append(" ");
        s.append(name);
        proof {
            reveal_strlit("(T) Tonic");
            reveal_strlit("(S) Supertonic");
            reveal_strlit("(T) Mediant");
            reveal_strlit("(D) Dominant");
            reveal_strlit("(T) Submediant");
            reveal_strlit("    ?");
            reveal_strlit("(T)");
            reveal_strlit("(S)");
            reveal_strlit("(D)");
            reveal_strlit("   ");
            reveal_strlit(" ");
            reveal_strlit("Tonic");
            reveal_strlit("Supertonic");
            reveal_strlit("Mediant");
            reveal_strlit("Dominant");
            reveal_strlit("Submediant");
            reveal_strlit("?");
        }
        assert(s@ =~= non_heptatonic_comment(interval as int, scale@));
        return s;
    }
    if str_eq(scale.name, "No Scale") {
        let sym = interval_to_degree_symbol(interval);
        let func = match interval {
            0 => "(T)",
            2 | 5 => "(S)",
            7 | 11 => "(D)",
            9 => "(T)",
            _ => "   ",
        };
        let mut s = String::from_str(func);
        s.append(" ");
        s.append(sym);
        return s;
    }
    let mut s = String::from_str("    interval ");
    push_decimal(&mut s, interval as u32);
    s
}

/// Writes the ASCII accidentals of `sym` as musical glyphs.
fn glyphs_of(sym: &str) -> (r: String)
    ensures
        r@ == accidental_glyphs(sym@),
{
    let n = sym.unicode_len();
    let mut out = String::new();
    let mut i: usize = 0;
    assert(sym@.subrange(0, n as int) =~= sym@);
    while i < n
        invariant
            n == sym@.len(),
            i <= n,
            out@ + accidental_glyphs(sym@.subrange(i as int, n as int)) == accidental_glyphs(sym@),
        decreases n - i,
    {
        let ghost rest = sym@.subrange(i as int, n as int);
        let c = sym.get_char(i);
        let pair = i + 1 < n && sym.get_char(i + 1) == c;
        if pair && c == 'b' {
            assert(rest.subrange(2, rest.len() as int) =~= sym@.subrange(i + 2, n as int));
            push_char(&mut out, '𝄫');
            i = i + 2;
        } else if pair && c == '#' {
            assert(rest.subrange(2, rest.len() as int) =~= sym@.subrange(i + 2, n as int));
            push_char(&mut out, '𝄪');
            i = i + 2;
        } else {
            assert(rest.drop_first() =~= sym@.subrange(i + 1, n as int));
            let g = if c == 'b' {
                '♭'
            } else if c == '#' {
                '♯'
            } else {
                c
            };
            push_char(&mut out, g);
            i = i + 1;
        }
        assert(out@ + accidental_glyphs(sym@.subrange(i as int, n as int)) =~= accidental_glyphs(sym@));
    }
    assert(sym@.subrange(n as int, n as int) =~= Seq::<char>::empty());
    assert(out@ =~= accidental_glyphs(sym@));
    out
}

/// Brief description of a chromatic (out-of-scale) note.
///
/// Each interval has a standard theoretical role relative to the tonal centre;
/// the description is refined for major vs minor context where they differ.
fn comment_chromatic(interval: u8, mode_fifth_offset: i8) -> (r: String)
    ensures
        r@ == chromatic_comment(interval as int, mode_fifth_offset as int),
{
    let sym = glyphs_of(interval_to_degree_symbol(interval));
    let is_minor = mode_fifth_offset <= -2;
    let desc = match interval {
        1 => {
            if is_minor {
                "Neapolitan or II♭ (borrowed from Phrygian)"
            } else {
                "Neapolitan chord (II♭, borrowed from Phrygian)"
            }
        },
        3 => {
            if is_minor {
                "III♭ (parallel major mediant)"
            } else {
                "III♭ (borrowed from parallel minor)"
            }
        },
        4 => {
            if is_minor {
                "III♮ (from harmonic or melodic minor)"
            } else {
                "III (Mediant)"
            }
        },
        6 => "Tritone (IV♯ or V♭)",
        8 => {
            if is_minor {
                "VI♭ (submediant of parallel major)"
            } else {
                "VI♭ (borrowed from parallel minor; chromatic mediant)"
            }
        },
        10 => {
            if is_minor {
                "VII♭ (Subtonic, Aeolian VII)"
            } else {
                "VII♭ (borrowed from parallel minor or Mixolydian)"
            }
        },
        11 => {
            if is_minor {
                "VII♯ leading tone (harmonic minor)"
            } else {
                "VII (Leading tone)"
            }
        },
        9 => {
            if is_minor {
                "VI♮ (Dorian or melodic minor)"
            } else {
                "VI (Submediant)"
            }
        },
        2 => "II (Supertonic)",
        5 => "IV (Subdominant)",
        7 => "V (Dominant)",
        0 => "I (Tonic)",
        _ => "",
    };
    let mut s = String::from_str("    ");
    s.append(sym.as_str());
    s.append(", ");
    s.append(desc);
    s
}

/// Full comment for a note at the given interval.
///
/// Dispatches to the appropriate helper depending on whether the note is
/// in-scale or chromatic, and on the scale type.
pub fn build_comment(interval: u8, in_scale: bool, scale: &Scale) -> (r: String)
    requires
        in_scale ==> scale.intervals@.contains(interval),
    ensures
        r@ == comment(interval as int, in_scale, scale@),
{
    if !in_scale {
        return comment_chromatic(interval, scale.mode_fifth_offset);
    }
    let is_major_context = scale.mode_fifth_offset >= -1;
    if scale.intervals.len() == 7 {
        let pos = position_of(scale.intervals, interval);
        if str_eq(scale.name, "Harmonic Minor") || str_eq(scale.name, "Melodic Minor") {
            comment_minor_variant(pos, interval, scale.name)
        } else {
            comment_diatonic_heptatonic(pos, interval, scale.mode_fifth_offset, is_major_context)
        }
    } else {
        comment_non_heptatonic(interval, scale)
    }
}

/// Degrees that sit where the Ionian scale puts them carry no quality
/// suffix; the seventh Ionian degree is the leading tone.
pub proof fn lemma_ionian_degrees_unaltered(pos: int)
    requires
        0 <= pos < 7,
    ensures
        pos < 6 ==> heptatonic_degree_name(pos, ionian_interval(pos)) == base_degree_name(pos),
        pos == 6 ==> heptatonic_degree_name(pos, ionian_interval(pos)) == "Leading tone"@,
{
    reveal_strlit("");
    assert(base_degree_name(pos) + ""@ =~= base_degree_name(pos));
}

/// A mode has at most one characteristic tone.
pub proof fn lemma_single_characteristic_tone(
    pos1: int,
    interval1: int,
    pos2: int,
    interval2: int,
    mode_fifth_offset: int,
)
    requires
        characteristic(pos1, interval1, mode_fifth_offset),
        characteristic(pos2, interval2, mode_fifth_offset),
    ensures
        pos1 == pos2 && interval1 == interval2,
{
}

/// Function labels are three characters wide.
proof fn lemma_function_label_width(pos: int, interval: int, is_major_context: bool)
    ensures
        harmonic_function(pos, interval, is_major_context).len() == 3,
{
    reveal_strlit("(T)");
    reveal_strlit("(S)");
    reveal_strlit("(D)");
    reveal_strlit("   ");
}

/// No comment is empty, whatever the interval and the scale.
pub proof fn lemma_comment_nonempty(interval: int, in_scale: bool, scale: ScaleView)
    ensures
        comment(interval, in_scale, scale).len() > 0,
{
    reveal_strlit("    ");
    reveal_strlit("    interval ");
    reveal_strlit("(D) Dominant");
    reveal_strlit("(D) Leading tone VII♯ [char.]");
    reveal_strlit("(S) Submediant VI♯ [char.]");
    reveal_strlit("(T) Tonic");
    reveal_strlit("(S) Supertonic");
    reveal_strlit("(T) Mediant");
    reveal_strlit("(T) Submediant");
    reveal_strlit("    ?");
    let pos = first_position(scale.intervals, interval as u8);
    lemma_function_label_width(pos, interval, scale.mode_fifth_offset >= -1);
    lemma_function_label_width(pos, interval, false);
    lemma_function_label_width(0, 0, true);
    lemma_function_label_width(1, 0, true);
    lemma_function_label_width(6, 0, true);
    lemma_function_label_width(7, 0, true);
}

/// Number of degrees among the first `n` of `scale` that are the
/// characteristic tone of its mode.
pub open spec fn characteristic_count(scale: ScaleView, n: int) -> int
    decreases n,
{
    if n <= 0 {
        0
    } else {
        characteristic_count(scale, n - 1) + if characteristic(
            n - 1,
            scale.intervals[n - 1] as int,
            scale.mode_fifth_offset,
        ) {
            1int
        } else {
            0int
        }
    }
}

/// Each of the modes Dorian, Phrygian, Lydian, Mixolydian and Locrian has
/// exactly one characteristic tone among its degrees; Major, Aeolian,
/// Harmonic Minor, Melodic Minor, Pentatonic and No Scale have none.
pub proof fn lemma_builtin_characteristic_tones(index: int)
    requires
        0 <= index < SCALE_COUNT,
    ensures
        characteristic_count(builtin_view(index), builtin_view(index).intervals.len() as int) == if 4
            <= index <= 8 {
            1int
        } else {
            0int
        },
{
    reveal_with_fuel(characteristic_count, 13);
    if index == 0 {
    } else if index == 1 {
    } else if index == 2 {
    } else if index == 3 {
    } else if index == 4 {
    } else if index == 5 {
    } else if index == 6 {
    } else if index == 7 {
    } else if index == 8 {
    } else if index == 9 {
    } else {
    }
}

/// In a scale with distinct intervals, an interval's first position is
/// its only position.
proof fn lemma_first_position_of_distinct(scale: ScaleView, pos: int)
    requires
        scale.wf(),
        0 <= pos < scale.intervals.len(),
    ensures
        first_position(scale.intervals, scale.intervals[pos]) == pos,
{
    let iv = scale.intervals;
    let x = iv[pos];
    assert(0 <= pos < iv.len() && iv[pos] == x && forall|k: int| 0 <= k < pos ==> iv[k] != x);
    let c = first_position(iv, x);
    if c < pos {
        assert(iv[c] < iv[pos]);
    } else if c > pos {
        assert(iv[pos] < iv[c]);
    }
}

/// The first three characters of a text.
pub open spec fn label_of(text: Seq<char>) -> Seq<char> {
    text.subrange(0, 3)
}

/// In a seven-note mode other than Harmonic or Melodic Minor, the
/// submediant (sixth degree) has tonic function, `(T)`, in a major context
/// (mode offset −1 or above: Lydian, Ionian, Mixolydian) and subdominant
/// function, `(S)`, otherwise (Dorian, Aeolian, Phrygian, Locrian).
pub proof fn lemma_submediant_function(scale: ScaleView)
    requires
        scale.wf(),
        scale.intervals.len() == 7,
        scale.name != "Harmonic Minor"@,
        scale.name != "Melodic Minor"@,
    ensures
        label_of(comment(scale.intervals[5] as int, true, scale)) == if scale.mode_fifth_offset >= -1 {
            "(T)"@
        } else {
            "(S)"@
        },
{
    lemma_first_position_of_distinct(scale, 5);
    reveal_strlit("(T)");
    reveal_strlit("(S)");
    let c = comment(scale.intervals[5] as int, true, scale);
    let f = harmonic_function(5, scale.intervals[5] as int, scale.mode_fifth_offset >= -1);
    assert(c == f + (" "@ + heptatonic_degree_name(5, scale.intervals[5] as int) + if characteristic(
        5,
        scale.intervals[5] as int,
        scale.mode_fifth_offset,
    ) {
        " [char.]"@
    } else {
        ""@
    }));
    assert(label_of(c) =~= f);
}

/// The chromatic palette (No Scale) labels the notes of the major scale
/// with the function the major scale gives the same degree (tonic, second
/// and fourth as in Major, fifth and seventh dominant, sixth tonic), except
/// the third; the third and every chromatic interval are unlabelled.
pub proof fn lemma_no_scale_labels_follow_major(scale: ScaleView, interval: int)
    requires
        scale.name == "No Scale"@,
        scale.intervals.len() != 7,
        0 <= interval < 12,
    ensures
        (builtin_view(0).intervals.contains(interval as u8) && interval != 4) ==> label_of(
            comment(interval, true, scale),
        ) == label_of(comment(interval, true, builtin_view(0))),
        !(builtin_view(0).intervals.contains(interval as u8) && interval != 4) ==> label_of(
            comment(interval, true, scale),
        ) == "   "@,
{
    reveal_strlit("No Scale");
    reveal_strlit("Pentatonic");
    reveal_strlit("Major");
    reveal_strlit("Harmonic Minor");
    reveal_strlit("Melodic Minor");
    reveal_strlit("(T)");
    reveal_strlit("(S)");
    reveal_strlit("(D)");
    reveal_strlit("   ");
    reveal_strlit(" ");
    let major = builtin_view(0);
    lemma_builtin_scales_wf(0);
    assert("No Scale"@.len() == 8 && "Pentatonic"@.len() == 10);
    assert(scale.name != "Pentatonic"@);
    let c = comment(interval, true, scale);
    let func = if interval == 0 || interval == 9 {
        "(T)"@
    } else if interval == 2 || interval == 5 {
        "(S)"@
    } else if interval == 7 || interval == 11 {
        "(D)"@
    } else {
        "   "@
    };
    assert(c == func + (" "@ + degree_symbol(interval)));
    assert(label_of(c) =~= func);
    if major.intervals.contains(interval as u8) && interval != 4 {
        let pos = choose|pos: int| 0 <= pos < 7 && major.intervals[pos] == interval as u8;
        lemma_first_position_of_distinct(major, pos);
        let m = comment(interval, true, major);
        let f = harmonic_function(pos, interval, true);
        assert("Major"@.len() == 5 && "Harmonic Minor"@.len() == 14 && "Melodic Minor"@.len() == 13);
        assert(major.name != "Harmonic Minor"@ && major.name != "Melodic Minor"@);
        assert(m == f + (" "@ + heptatonic_degree_name(pos, interval) + if characteristic(
            pos,
            interval,
            0,
        ) {
            " [char.]"@
        } else {
            ""@
        }));
        assert(label_of(m) =~= f);
    } else {
        if interval == 0 || interval == 2 || interval == 5 || interval == 7 || interval == 9 || interval == 11 {
            assert(major.intervals.contains(interval as u8)) by {
                let pos = if interval == 0 { 0int } else if interval == 2 { 1 } else if interval == 5 { 3 } else if interval == 7 { 4 } else if interval == 9 { 5 } else { 6 };
                assert(major.intervals[pos] == interval as u8);
            }
        }
    }
}

/// In a seven-note mode other than Harmonic or Melodic Minor the comment
/// of each degree opens with its harmonic function: the first and third
/// degrees are tonic `(T)`, the second and fourth subdominant `(S)`, the
/// seventh dominant `(D)`, and the fifth dominant unless it is a diminished
/// fifth (six semitones, as in Locrian), which has no function (`   `).
pub proof fn lemma_mode_function_labels(scale: ScaleView, pos: int)
    requires
        scale.wf(),
        scale.intervals.len() == 7,
        scale.name != "Harmonic Minor"@,
        scale.name != "Melodic Minor"@,
        0 <= pos < 7,
        pos != 5,
    ensures
        label_of(comment(scale.intervals[pos] as int, true, scale)) == if pos == 0 || pos == 2 {
            "(T)"@
        } else if pos == 1 || pos == 3 {
            "(S)"@
        } else if pos == 4 && scale.intervals[pos] == 6 {
            "   "@
        } else {
            "(D)"@
        },
{
    lemma_first_position_of_distinct(scale, pos);
    reveal_strlit("(T)");
    reveal_strlit("(S)");
    reveal_strlit("(D)");
    reveal_strlit("   ");
    let interval = scale.intervals[pos] as int;
    let c = comment(interval, true, scale);
    let f = harmonic_function(pos, interval, scale.mode_fifth_offset >= -1);
    assert(c == f + (" "@ + heptatonic_degree_name(pos, interval) + if characteristic(
        pos,
        interval,
        scale.mode_fifth_offset,
    ) {
        " [char.]"@
    } else {
        ""@
    }));
    assert(label_of(c) =~= f);
}

/// A chromatic note's comment depends on the mode only through whether the
/// mode is minor (offset −2 or below: Dorian, Aeolian, Phrygian, Locrian and
/// the minor scales) or major: any two minor modes, or any two major modes,
/// describe it alike, whatever else the scales hold.
pub proof fn lemma_chromatic_comment_minor_or_major(interval: int, s1: ScaleView, s2: ScaleView)
    requires
        (s1.mode_fifth_offset <= -2 && s2.mode_fifth_offset <= -2) || (s1.mode_fifth_offset >= -1
            && s2.mode_fifth_offset >= -1),
    ensures
        comment(interval, false, s1) == comment(interval, false, s2),
{
}

/// Outside the seventh degree, a degree a semitone above the major scale's
/// is named with `♯`, one a semitone below with `♭`, and one where the major
/// scale has it with no suffix.
pub proof fn lemma_degree_quality_against_major(pos: int)
    requires
        0 <= pos < 6,
    ensures
        heptatonic_degree_name(pos, builtin_view(0).intervals[pos] + 1) == base_degree_name(pos)
            + "♯"@,
        heptatonic_degree_name(pos, builtin_view(0).intervals[pos] - 1) == base_degree_name(pos)
            + "♭"@,
        heptatonic_degree_name(pos, builtin_view(0).intervals[pos] as int) == base_degree_name(pos),
{
    reveal_strlit("");
    assert(base_degree_name(pos) + ""@ =~= base_degree_name(pos));
}

/// Roman numeral of the degree at position `pos` (0-based).
pub open spec fn roman_numeral(pos: int) -> Seq<char> {
    if pos == 0 {
        "I"@
    } else if pos == 1 {
        "II"@
    } else if pos == 2 {
        "III"@
    } else if pos == 3 {
        "IV"@
    } else if pos == 4 {
        "V"@
    } else if pos == 5 {
        "VI"@
    } else {
        "VII"@
    }
}

/// The degree symbol of an interval of the major scale is the roman numeral
/// of its degree; a minor second, third, sixth or seventh is that degree's
/// numeral followed by `b`; the tritone is `IV#/Vb`.
pub proof fn lemma_degree_symbols_follow_major(pos: int)
    requires
        0 <= pos < 7,
    ensures
        degree_symbol(builtin_view(0).intervals[pos] as int) == roman_numeral(pos),
        (pos == 1 || pos == 2 || pos == 5 || pos == 6) ==> degree_symbol(
            builtin_view(0).intervals[pos] - 1,
        ) == roman_numeral(pos) + "b"@,
        degree_symbol(6) == roman_numeral(3) + "#/"@ + roman_numeral(4) + "b"@,
{
    reveal_strlit("I");
    reveal_strlit("II");
    reveal_strlit("III");
    reveal_strlit("IV");
    reveal_strlit("V");
    reveal_strlit("VI");
    reveal_strlit("VII");
    reveal_strlit("IIb");
    reveal_strlit("IIIb");
    reveal_strlit("VIb");
    reveal_strlit("VIIb");
    reveal_strlit("IV#/Vb");
    reveal_strlit("b");
    reveal_strlit("#/");
    assert(degree_symbol(6) =~= roman_numeral(3) + "#/"@ + roman_numeral(4) + "b"@);
    if pos == 1 {
        assert(degree_symbol(1) =~= roman_numeral(1) + "b"@);
    } else if pos == 2 {
        assert(degree_symbol(3) =~= roman_numeral(2) + "b"@);
    } else if pos == 5 {
        assert(degree_symbol(8) =~= roman_numeral(5) + "b"@);
    } else if pos == 6 {
        assert(degree_symbol(10) =~= roman_numeral(6) + "b"@);
    }
}

/// Harmonic and Melodic Minor comment every degree they share with Aeolian
/// exactly as Aeolian does; each degree they raise keeps Aeolian's function
/// label and is marked as characteristic (`[char.]`).
#[verifier::rlimit(40)]
pub proof fn lemma_minor_scales_follow_aeolian(index: int, pos: int)
    requires
        index == 2 || index == 3,
        0 <= pos < 7,
    ensures
        builtin_view(index).intervals[pos] == builtin_view(1).intervals[pos] ==> comment(
            builtin_view(index).intervals[pos] as int,
            true,
            builtin_view(index),
        ) == comment(builtin_view(1).intervals[pos] as int, true, builtin_view(1)),
        builtin_view(index).intervals[pos] != builtin_view(1).intervals[pos] ==> ({
            let c = comment(builtin_view(index).intervals[pos] as int, true, builtin_view(index));
            let a = comment(builtin_view(1).intervals[pos] as int, true, builtin_view(1));
            &&& label_of(c) == label_of(a)
            &&& c.len() >= 7 && c.subrange(c.len() - 7, c.len() as int) == "[char.]"@
        }),
{
    let scale = builtin_view(index);
    let aeolian = builtin_view(1);
    lemma_builtin_scales_wf(index);
    lemma_builtin_scales_wf(1);
    lemma_first_position_of_distinct(scale, pos);
    lemma_first_position_of_distinct(aeolian, pos);
    reveal_strlit("Aeolian");
    reveal_strlit("Harmonic Minor");
    reveal_strlit("Melodic Minor");
    assert("Aeolian"@.len() == 7 && "Harmonic Minor"@.len() == 14 && "Melodic Minor"@.len() == 13);
    assert("Harmonic Minor"@ != "Melodic Minor"@);
    let iv = scale.intervals[pos] as int;
    let av = aeolian.intervals[pos] as int;
    if iv != av {
        reveal_strlit("(D) Leading tone VII♯ [char.]");
        reveal_strlit("(S) Submediant VI♯ [char.]");
        reveal_strlit("[char.]");
        reveal_strlit("(S)");
        reveal_strlit("(D)");
        reveal_strlit(" ");
        reveal_strlit(" [char.]");
        reveal_strlit("Submediant");
        reveal_strlit("Subtonic");
        reveal_strlit("");
        reveal_strlit("♭");
        let c = comment(iv, true, scale);
        let a = comment(av, true, aeolian);
        let f = harmonic_function(pos, av, false);
        assert(a == f + (" "@ + heptatonic_degree_name(pos, av) + if characteristic(pos, av, -3) {
            " [char.]"@
        } else {
            ""@
        }));
        assert(label_of(a) =~= f);
        assert(label_of(c) =~= f);
        assert(c.subrange(c.len() - 7, c.len() as int) =~= "[char.]"@);
    } else if pos == 4 {
        reveal_strlit("(D) Dominant");
        reveal_strlit("(D)");
        reveal_strlit(" ");
        reveal_strlit("Dominant");
        reveal_strlit("");
        assert(comment(av, true, aeolian) =~= "(D) Dominant"@);
    }
}

/// The major pentatonic scale comments each of its notes exactly as the
/// major scale comments the same note.
#[verifier::rlimit(40)]
pub proof fn lemma_pentatonic_comments_follow_major(pos: int)
    requires
        0 <= pos < 5,
    ensures
        comment(builtin_view(9).intervals[pos] as int, true, builtin_view(9)) == comment(
            builtin_view(9).intervals[pos] as int,
            true,
            builtin_view(0),
        ),
{
    let pent = builtin_view(9);
    let major = builtin_view(0);
    let interval = pent.intervals[pos] as int;
    lemma_builtin_scales_wf(9);
    lemma_builtin_scales_wf(0);
    lemma_first_position_of_distinct(pent, pos);
    let mpos = if pos < 3 {
        pos
    } else {
        pos + 1
    };
    assert(major.intervals[mpos] == pent.intervals[pos]);
    lemma_first_position_of_distinct(major, mpos);
    reveal_strlit("(T) Tonic");
    reveal_strlit("(S) Supertonic");
    reveal_strlit("(T) Mediant");
    reveal_strlit("(D) Dominant");
    reveal_strlit("(T) Submediant");
    reveal_strlit("(T)");
    reveal_strlit("(S)");
    reveal_strlit("(D)");
    reveal_strlit(" ");
    reveal_strlit("Tonic");
    reveal_strlit("Supertonic");
    reveal_strlit("Mediant");
    reveal_strlit("Dominant");
    reveal_strlit("Submediant");
    reveal_strlit("");
    reveal_strlit("Pentatonic");
    reveal_strlit("No Scale");
    reveal_strlit("Major");
    reveal_strlit("Harmonic Minor");
    reveal_strlit("Melodic Minor");
    assert("Pentatonic"@.len() == 10 && "Major"@.len() == 5 && "Harmonic Minor"@.len() == 14
        && "Melodic Minor"@.len() == 13);
    assert(comment(interval, true, pent) =~= comment(interval, true, major));
}

} // verus!
