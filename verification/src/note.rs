//! Diatonic, non-heptatonic, and chromatic note naming.

use vstd::prelude::*;

use crate::pitch::{natural_semitone, parsed_pitch, pitch_of_name, Accidental, Pitch};
use crate::scale::{builtin_view, Scale, ScaleView};
use crate::text::{ascii_lowercase, lemma_lowercase_absorbs_case, str_eq, trimmed};

verus! {

/// Letter name for a letter index (C D E F G A B).
pub open spec fn letter_name(letter: int) -> Seq<char> {
    if letter == 0 {
        "C"@
    } else if letter == 1 {
        "D"@
    } else if letter == 2 {
        "E"@
    } else if letter == 3 {
        "F"@
    } else if letter == 4 {
        "G"@
    } else if letter == 5 {
        "A"@
    } else {
        "B"@
    }
}

/// Chromatic pitch name using sharp spelling.
pub open spec fn sharp_name(semitone: int) -> Seq<char> {
    if semitone == 0 {
        "C"@
    } else if semitone == 1 {
        "C#"@
    } else if semitone == 2 {
        "D"@
    } else if semitone == 3 {
        "D#"@
    } else if semitone == 4 {
        "E"@
    } else if semitone == 5 {
        "F"@
    } else if semitone == 6 {
        "F#"@
    } else if semitone == 7 {
        "G"@
    } else if semitone == 8 {
        "G#"@
    } else if semitone == 9 {
        "A"@
    } else if semitone == 10 {
        "A#"@
    } else {
        "B"@
    }
}

/// Chromatic pitch name using flat spelling.
pub open spec fn flat_name(semitone: int) -> Seq<char> {
    if semitone == 0 {
        "C"@
    } else if semitone == 1 {
        "Db"@
    } else if semitone == 2 {
        "D"@
    } else if semitone == 3 {
        "Eb"@
    } else if semitone == 4 {
        "E"@
    } else if semitone == 5 {
        "F"@
    } else if semitone == 6 {
        "Gb"@
    } else if semitone == 7 {
        "G"@
    } else if semitone == 8 {
        "Ab"@
    } else if semitone == 9 {
        "A"@
    } else if semitone == 10 {
        "Bb"@
    } else {
        "B"@
    }
}

/// The accidental written after a letter that is `diff` semitones (mod 12)
/// below the sounding pitch, when it is at most a double accidental.
pub open spec fn accidental_mark(diff: int) -> Option<Seq<char>> {
    if diff == 0 {
        Some(""@)
    } else if diff == 1 {
        Some("#"@)
    } else if diff == 2 {
        Some("##"@)
    } else if diff == 11 {
        Some("b"@)
    } else if diff == 10 {
        Some("bb"@)
    } else {
        None
    }
}

/// Pitch class of `tonic` moved up by `interval` semitones.
pub open spec fn pitch_class(tonic: Pitch, interval: int) -> int {
    (tonic.semitone + interval) % 12
}

/// Semitones (mod 12) from the natural note of `letter` up to `pitch_class`.
pub open spec fn letter_distance(letter: int, pitch_class: int) -> int {
    (pitch_class - natural_semitone(letter)) % 12
}

/// `pitch_class` written with the letter `letter` and the accidental that
/// makes up the difference, when that is at most a double accidental.
pub open spec fn spelled_with_letter(letter: int, pitch_class: int) -> Option<Seq<char>> {
    match accidental_mark(letter_distance(letter, pitch_class)) {
        Some(mark) => Some(letter_name(letter) + mark),
        None => None,
    }
}

/// The name [`chromatic_note_name`] gives: the key-signature convention.
pub open spec fn chromatic_name(tonic: Pitch, interval: int, mode_offset: int) -> Seq<char> {
    if tonic.flat_spelling(mode_offset) {
        flat_name(pitch_class(tonic, interval))
    } else {
        sharp_name(pitch_class(tonic, interval))
    }
}

/// The name [`diatonic_note_name`] gives: degree `degree_pos` takes the
/// letter `degree_pos` steps above the tonic's letter; a distance that no
/// double accidental covers is marked `?`.
pub open spec fn diatonic_name(tonic: Pitch, degree_pos: int, interval: int) -> Seq<char> {
    let letter = (tonic.letter + degree_pos) % 7;
    match spelled_with_letter(letter, pitch_class(tonic, interval)) {
        Some(name) => name,
        None => letter_name(letter) + "?"@,
    }
}

/// Letter steps above the tonic used for an interval of a non-heptatonic
/// scale; the tritone takes the fifth letter under flat spelling and the
/// fourth otherwise.
pub open spec fn letter_offset(interval: int, use_flat: bool) -> int {
    if interval == 0 {
        0
    } else if interval == 1 || interval == 2 {
        1
    } else if interval == 3 || interval == 4 {
        2
    } else if interval == 5 {
        3
    } else if interval == 6 {
        if use_flat {
            4
        } else {
            3
        }
    } else if interval == 7 {
        4
    } else if interval == 8 || interval == 9 {
        5
    } else if interval == 10 || interval == 11 {
        6
    } else {
        0
    }
}

/// The name [`non_heptatonic_note_name`] gives.
pub open spec fn non_heptatonic_name(tonic: Pitch, interval: int, scale: ScaleView) -> Seq<char> {
    if scale.name == "No Scale"@ {
        chromatic_name(tonic, interval, scale.mode_fifth_offset)
    } else {
        let use_flat = tonic.flat_spelling(scale.mode_fifth_offset);
        let letter = (tonic.letter + letter_offset(interval, use_flat)) % 7;
        match spelled_with_letter(letter, pitch_class(tonic, interval)) {
            Some(name) => name,
            None => chromatic_name(tonic, interval, scale.mode_fifth_offset),
        }
    }
}

/// Semitone of a natural note, by letter index.
fn natural_semitone_of(letter: usize) -> (r: u8)
    requires
        letter < 7,
    ensures
        r == natural_semitone(letter as int),
{
    match letter {
        0 => 0,
        1 => 2,
        2 => 4,
        3 => 5,
        4 => 7,
        5 => 9,
        _ => 11,
    }
}

/// Letter name by letter index.
fn letter_name_of(letter: usize) -> (r: &'static str)
    requires
        letter < 7,
    ensures
        r@ == letter_name(letter as int),
{
    match letter {
        0 => "C",
        1 => "D",
        2 => "E",
        3 => "F",
        4 => "G",
        5 => "A",
        _ => "B",
    }
}

/// Sharp-spelled name of a pitch class.
fn sharp_name_of(semitone: usize) -> (r: &'static str)
    requires
        semitone < 12,
    ensures
        r@ == sharp_name(semitone as int),
{
    match semitone {
        0 => "C",
        1 => "C#",
        2 => "D",
        3 => "D#",
        4 => "E",
        5 => "F",
        6 => "F#",
        7 => "G",
        8 => "G#",
        9 => "A",
        10 => "A#",
        _ => "B",
    }
}

/// Flat-spelled name of a pitch class.
fn flat_name_of(semitone: usize) -> (r: &'static str)
    requires
        semitone < 12,
    ensures
        r@ == flat_name(semitone as int),
{
    match semitone {
        0 => "C",
        1 => "Db",
        2 => "D",
        3 => "Eb",
        4 => "E",
        5 => "F",
        6 => "Gb",
        7 => "G",
        8 => "Ab",
        9 => "A",
        10 => "Bb",
        _ => "B",
    }
}

/// Semitones (mod 12) from the natural note of `letter` up to `pitch_class`.
fn letter_distance_of(letter: usize, pitch_class: u32) -> (r: u32)
    requires
        letter < 7,
        pitch_class < 12,
    ensures
        r == letter_distance(letter as int, pitch_class as int),
        r < 12,
{
    let nat_semi = natural_semitone_of(letter) as u32;
    (pitch_class + 12 - nat_semi) % 12
}

/// `base` followed by the accidental for `diff`, if there is one.
fn with_accidental(base: &str, diff: u32) -> (r: Option<String>)
    ensures
        match accidental_mark(diff as int) {
            Some(mark) => r is Some && r->0@ == base@ + mark,
            None => r is None,
        },
{
    let mark = match diff {
        0 => "",
        1 => "#",
        2 => "##",
        11 => "b",
        10 => "bb",
        _ => {
            return None;
        },
    };
    let mut s = String::from_str(base);
    s.append(mark);
    Some(s)
}

/// Names a note by its **position within a 7-note (heptatonic) scale**.
///
/// Uses diatonic letter assignment: each successive scale degree steps one
/// letter up from the tonic.  The accidental is derived by comparing the
/// actual semitone to the natural semitone for that letter.
///
/// This is why D harmonic minor produces **both** Bb (degree 5) and C#
/// (degree 6, VII# leading tone), each degree gets its own correct letter.
pub fn diatonic_note_name(tonic: Pitch, degree_pos: usize, interval: u8) -> (r: String)
    requires
        tonic.letter + degree_pos <= usize::MAX,
    ensures
        r@ == diatonic_name(tonic, degree_pos as int, interval as int),
{
    let letter_idx = (tonic.letter as usize + degree_pos) % 7;
    let abs_semi = (tonic.semitone as u32 + interval as u32) % 12;
    let diff = letter_distance_of(letter_idx, abs_semi);
    let base = letter_name_of(letter_idx);
    match with_accidental(base, diff) {
        Some(name) => name,
        None => {
            let mut s = String::from_str(base);
            s.append("?");
            s
        },
    }
}

/// Names an out-of-scale (chromatic) note using the key-signature convention.
///
/// Uses the sharp or flat spelling table according to [`Pitch::uses_flats`].
pub fn chromatic_note_name(tonic: Pitch, interval: u8, mode_offset: i8) -> (r: &'static str)
    requires
        tonic.flat_spelling_defined(mode_offset as int),
    ensures
        r@ == chromatic_name(tonic, interval as int, mode_offset as int),
{
    let abs_semi = ((tonic.semitone as u32 + interval as u32) % 12) as usize;
    if tonic.uses_flats(mode_offset) {
        flat_name_of(abs_semi)
    } else {
        sharp_name_of(abs_semi)
    }
}

/// Names a note from a non-heptatonic scale using an interval-to-letter-offset
/// map.
pub fn non_heptatonic_note_name(tonic: Pitch, interval: u8, scale: &Scale) -> (r: String)
    requires
        tonic.flat_spelling_defined(scale.mode_fifth_offset as int),
    ensures
        r@ == non_heptatonic_name(tonic, interval as int, scale@),
{
    if str_eq(scale.name, "No Scale") {
        return String::from_str(chromatic_note_name(tonic, interval, scale.mode_fifth_offset));
    }
    // Vb vs IV#: choose letter based on key convention.

    let use_flat = tonic.uses_flats(scale.mode_fifth_offset);
    let letter_offset: usize = match interval {
        0 => 0,
        1 => 1,
        2 => 1,
        3 => 2,
        4 => 2,
        5 => 3,
        6 => {
            if use_flat {
                4
            } else {
                3
            }
        },
        7 => 4,
        8 => 5,
        9 => 5,
        10 => 6,
        11 => 6,
        _ => 0,
    };
    let letter_idx = (tonic.letter as usize + letter_offset) % 7;
    let abs_semi = (tonic.semitone as u32 + interval as u32) % 12;
    let diff = letter_distance_of(letter_idx, abs_semi);
    let base = letter_name_of(letter_idx);
    match with_accidental(base, diff) {
        Some(name) => name,
        None => String::from_str(chromatic_note_name(tonic, interval, scale.mode_fifth_offset)),
    }
}

/// The name the in-scale note at position `pos` of `scale` receives.
pub open spec fn degree_note_name(tonic: Pitch, scale: ScaleView, pos: int) -> Seq<char> {
    if scale.intervals.len() == 7 {
        diatonic_name(tonic, pos, scale.intervals[pos] as int)
    } else {
        non_heptatonic_name(tonic, scale.intervals[pos] as int, scale)
    }
}

/// The twelve slots after the first `n` scale degrees have written their
/// names, each into the slot of its pitch class (a later degree overwrites
/// an earlier one in the same slot); unwritten slots are empty.
pub open spec fn degree_names(tonic: Pitch, scale: ScaleView, n: int) -> Seq<Seq<char>>
    decreases n,
{
    if n <= 0 {
        Seq::new(12, |i: int| Seq::<char>::empty())
    } else {
        degree_names(tonic, scale, n - 1).update(
            pitch_class(tonic, scale.intervals[n - 1] as int),
            degree_note_name(tonic, scale, n - 1),
        )
    }
}

/// The slot table always has twelve slots.
proof fn lemma_degree_names_len(tonic: Pitch, scale: ScaleView, n: int)
    ensures
        degree_names(tonic, scale, n).len() == 12,
    decreases n,
{
    if n > 0 {
        lemma_degree_names_len(tonic, scale, n - 1);
    }
}

/// Interval from the tonic up to pitch class `pc`.
pub open spec fn interval_to(tonic: Pitch, pc: int) -> int {
    (pc + 12 - tonic.semitone) % 12
}

/// The twelve names [`build_note_names`] gives, indexed by pitch class:
/// in-scale slots carry their degree's name, the others the key-signature
/// convention's name.
pub open spec fn note_names(tonic: Pitch, scale: ScaleView) -> Seq<Seq<char>> {
    let written = degree_names(tonic, scale, scale.intervals.len() as int);
    Seq::new(
        12,
        |pc: int|
            if written[pc].len() == 0 {
                chromatic_name(tonic, interval_to(tonic, pc), scale.mode_fifth_offset)
            } else {
                written[pc]
            },
    )
}

/// Builds the complete array of note names for all 12 chromatic positions,
/// given a tonic and a scale.
///
/// In-scale notes use diatonic (or non-heptatonic) letter assignment;
/// out-of-scale positions use the flat/sharp key-signature convention.
pub fn build_note_names(tonic: Pitch, scale: &Scale) -> (names: [String; 12])
    requires
        tonic.semitone <= 12,
        tonic.flat_spelling_defined(scale.mode_fifth_offset as int),
    ensures
        forall|pc: int| 0 <= pc < 12 ==> #[trigger] names@[pc]@ == note_names(tonic, scale@)[pc],
{
    let mut names: [String; 12] = [
        String::new(),
        String::new(),
        String::new(),
        String::new(),
        String::new(),
        String::new(),
        String::new(),
        String::new(),
        String::new(),
        String::new(),
        String::new(),
        String::new(),
    ];
    let n = scale.intervals.len();
    let heptatonic = n == 7;
    let mut pos: usize = 0;
    while pos < n
        invariant
            n == scale@.intervals.len(),
            heptatonic == (n == 7),
            pos <= n,
            tonic.flat_spelling_defined(scale.mode_fifth_offset as int),
            forall|k: int|
                0 <= k < 12 ==> #[trigger] names@[k]@ == degree_names(tonic, scale@, pos as int)[k],
        decreases n - pos,
    {
        let interval = scale.intervals[pos];
        let abs_semi = ((tonic.semitone as u32 + interval as u32) % 12) as usize;
        let name = if heptatonic {
            diatonic_note_name(tonic, pos, interval)
        } else {
            non_heptatonic_note_name(tonic, interval, scale)
        };
        proof {
            lemma_degree_names_len(tonic, scale@, pos as int);
            lemma_degree_names_len(tonic, scale@, pos + 1);
        }
        names[abs_semi] = name;
        pos = pos + 1;
    }
    let ghost written = degree_names(tonic, scale@, n as int);
    proof {
        lemma_degree_names_len(tonic, scale@, n as int);
    }
    let mut i: u8 = 0;
    while i < 12
        invariant
            i <= 12,
            tonic.semitone <= 12,
            tonic.flat_spelling_defined(scale.mode_fifth_offset as int),
            written == degree_names(tonic, scale@, scale@.intervals.len() as int),
            written.len() == 12,
            forall|k: int| 0 <= k < i ==> #[trigger] names@[k]@ == note_names(tonic, scale@)[k],
            forall|k: int| i <= k < 12 ==> #[trigger] names@[k]@ == written[k],
        decreases 12 - i,
    {
        if names[i as usize].as_str().is_empty() {
            let interval = (i + 12 - tonic.semitone) % 12;
            names[i as usize] = String::from_str(
                chromatic_note_name(tonic, interval, scale.mode_fifth_offset),
            );
        }
        i = i + 1;
    }
    names
}

/// `name` writes pitch class `pc` as a letter followed by at most a double
/// accidental that bridges the distance from the letter's natural note.
pub open spec fn spells(name: Seq<char>, pc: int) -> bool {
    exists|letter: int| 0 <= letter < 7 && spelled_with_letter(letter, pc) == Some(name)
}

/// `name` is a letter followed by `?`: no accidental up to a double one
/// bridges the distance from that letter.
pub open spec fn marked_unspellable(name: Seq<char>) -> bool {
    exists|letter: int| 0 <= letter < 7 && name == letter_name(letter) + "?"@
}

/// The text a pitch was spelled with: its letter and its accidental.
pub open spec fn pitch_spelling(p: Pitch) -> Seq<char> {
    letter_name(p.letter as int) + match p.accidental {
        Accidental::Natural => ""@,
        Accidental::Sharp => "#"@,
        Accidental::Flat => "b"@,
    }
}

proof fn lemma_letter_name_nonempty(letter: int)
    ensures
        letter_name(letter).len() > 0,
{
    reveal_strlit("C");
    reveal_strlit("D");
    reveal_strlit("E");
    reveal_strlit("F");
    reveal_strlit("G");
    reveal_strlit("A");
    reveal_strlit("B");
}

/// Every entry of the sharp spelling table writes its own pitch class.
proof fn lemma_sharp_name_spells(pc: int)
    requires
        0 <= pc < 12,
    ensures
        spells(sharp_name(pc), pc),
        sharp_name(pc).len() > 0,
{
    if pc == 0 {
        reveal_strlit("C"); reveal_strlit("C"); reveal_strlit("");
        assert(sharp_name(pc) =~= letter_name(0) + ""@);
        assert(spelled_with_letter(0, pc) == Some(sharp_name(pc)));
    } else if pc == 1 {
        reveal_strlit("C#"); reveal_strlit("C"); reveal_strlit("#");
        assert(sharp_name(pc) =~= letter_name(0) + "#"@);
        assert(spelled_with_letter(0, pc) == Some(sharp_name(pc)));
    } else if pc == 2 {
        reveal_strlit("D"); reveal_strlit("D"); reveal_strlit("");
        assert(sharp_name(pc) =~= letter_name(1) + ""@);
        assert(spelled_with_letter(1, pc) == Some(sharp_name(pc)));
    } else if pc == 3 {
        reveal_strlit("D#"); reveal_strlit("D"); reveal_strlit("#");
        assert(sharp_name(pc) =~= letter_name(1) + "#"@);
        assert(spelled_with_letter(1, pc) == Some(sharp_name(pc)));
    } else if pc == 4 {
        reveal_strlit("E"); reveal_strlit("E"); reveal_strlit("");
        assert(sharp_name(pc) =~= letter_name(2) + ""@);
        assert(spelled_with_letter(2, pc) == Some(sharp_name(pc)));
    } else if pc == 5 {
        reveal_strlit("F"); reveal_strlit("F"); reveal_strlit("");
        assert(sharp_name(pc) =~= letter_name(3) + ""@);
        assert(spelled_with_letter(3, pc) == Some(sharp_name(pc)));
    } else if pc == 6 {
        reveal_strlit("F#"); reveal_strlit("F"); reveal_strlit("#");
        assert(sharp_name(pc) =~= letter_name(3) + "#"@);
        assert(spelled_with_letter(3, pc) == Some(sharp_name(pc)));
    } else if pc == 7 {
        reveal_strlit("G"); reveal_strlit("G"); reveal_strlit("");
        assert(sharp_name(pc) =~= letter_name(4) + ""@);
        assert(spelled_with_letter(4, pc) == Some(sharp_name(pc)));
    } else if pc == 8 {
        reveal_strlit("G#"); reveal_strlit("G"); reveal_strlit("#");
        assert(sharp_name(pc) =~= letter_name(4) + "#"@);
        assert(spelled_with_letter(4, pc) == Some(sharp_name(pc)));
    } else if pc == 9 {
        reveal_strlit("A"); reveal_strlit("A"); reveal_strlit("");
        assert(sharp_name(pc) =~= letter_name(5) + ""@);
        assert(spelled_with_letter(5, pc) == Some(sharp_name(pc)));
    } else if pc == 10 {
        reveal_strlit("A#"); reveal_strlit("A"); reveal_strlit("#");
        assert(sharp_name(pc) =~= letter_name(5) + "#"@);
        assert(spelled_with_letter(5, pc) == Some(sharp_name(pc)));
    } else if pc == 11 {
        reveal_strlit("B"); reveal_strlit("B"); reveal_strlit("");
        assert(sharp_name(pc) =~= letter_name(6) + ""@);
        assert(spelled_with_letter(6, pc) == Some(sharp_name(pc)));
    }
}

/// Every entry of the flat spelling table writes its own pitch class.
proof fn lemma_flat_name_spells(pc: int)
    requires
        0 <= pc < 12,
    ensures
        spells(flat_name(pc), pc),
        flat_name(pc).len() > 0,
{
    if pc == 0 {
        reveal_strlit("C"); reveal_strlit("C"); reveal_strlit("");
        assert(flat_name(pc) =~= letter_name(0) + ""@);
        assert(spelled_with_letter(0, pc) == Some(flat_name(pc)));
    } else if pc == 1 {
        reveal_strlit("Db"); reveal_strlit("D"); reveal_strlit("b");
        assert(flat_name(pc) =~= letter_name(1) + "b"@);
        assert(spelled_with_letter(1, pc) == Some(flat_name(pc)));
    } else if pc == 2 {
        reveal_strlit("D"); reveal_strlit("D"); reveal_strlit("");
        assert(flat_name(pc) =~= letter_name(1) + ""@);
        assert(spelled_with_letter(1, pc) == Some(flat_name(pc)));
    } else if pc == 3 {
        reveal_strlit("Eb"); reveal_strlit("E"); reveal_strlit("b");
        assert(flat_name(pc) =~= letter_name(2) + "b"@);
        assert(spelled_with_letter(2, pc) == Some(flat_name(pc)));
    } else if pc == 4 {
        reveal_strlit("E"); reveal_strlit("E"); reveal_strlit("");
        assert(flat_name(pc) =~= letter_name(2) + ""@);
        assert(spelled_with_letter(2, pc) == Some(flat_name(pc)));
    } else if pc == 5 {
        reveal_strlit("F"); reveal_strlit("F"); reveal_strlit("");
        assert(flat_name(pc) =~= letter_name(3) + ""@);
        assert(spelled_with_letter(3, pc) == Some(flat_name(pc)));
    } else if pc == 6 {
        reveal_strlit("Gb"); reveal_strlit("G"); reveal_strlit("b");
        assert(flat_name(pc) =~= letter_name(4) + "b"@);
        assert(spelled_with_letter(4, pc) == Some(flat_name(pc)));
    } else if pc == 7 {
        reveal_strlit("G"); reveal_strlit("G"); reveal_strlit("");
        assert(flat_name(pc) =~= letter_name(4) + ""@);
        assert(spelled_with_letter(4, pc) == Some(flat_name(pc)));
    } else if pc == 8 {
        reveal_strlit("Ab"); reveal_strlit("A"); reveal_strlit("b");
        assert(flat_name(pc) =~= letter_name(5) + "b"@);
        assert(spelled_with_letter(5, pc) == Some(flat_name(pc)));
    } else if pc == 9 {
        reveal_strlit("A"); reveal_strlit("A"); reveal_strlit("");
        assert(flat_name(pc) =~= letter_name(5) + ""@);
        assert(spelled_with_letter(5, pc) == Some(flat_name(pc)));
    } else if pc == 10 {
        reveal_strlit("Bb"); reveal_strlit("B"); reveal_strlit("b");
        assert(flat_name(pc) =~= letter_name(6) + "b"@);
        assert(spelled_with_letter(6, pc) == Some(flat_name(pc)));
    } else if pc == 11 {
        reveal_strlit("B"); reveal_strlit("B"); reveal_strlit("");
        assert(flat_name(pc) =~= letter_name(6) + ""@);
        assert(spelled_with_letter(6, pc) == Some(flat_name(pc)));
    }
}

/// A chromatic name writes its own pitch class.
proof fn lemma_chromatic_name_spells(tonic: Pitch, interval: int, mode_offset: int)
    ensures
        spells(chromatic_name(tonic, interval, mode_offset), pitch_class(tonic, interval)),
        chromatic_name(tonic, interval, mode_offset).len() > 0,
{
    lemma_sharp_name_spells(pitch_class(tonic, interval));
    lemma_flat_name_spells(pitch_class(tonic, interval));
}

/// The name of a scale degree writes the degree's pitch class, unless it is
/// marked with `?`.
proof fn lemma_degree_note_name_spells(tonic: Pitch, scale: ScaleView, pos: int)
    requires
        0 <= pos < scale.intervals.len(),
    ensures
        spells(degree_note_name(tonic, scale, pos), pitch_class(tonic, scale.intervals[pos] as int))
            || marked_unspellable(degree_note_name(tonic, scale, pos)),
        degree_note_name(tonic, scale, pos).len() > 0,
{
    let interval = scale.intervals[pos] as int;
    let pc = pitch_class(tonic, interval);
    lemma_chromatic_name_spells(tonic, interval, scale.mode_fifth_offset);
    let letter = if scale.intervals.len() == 7 {
        (tonic.letter + pos) % 7
    } else {
        (tonic.letter + letter_offset(interval, tonic.flat_spelling(scale.mode_fifth_offset))) % 7
    };
    lemma_letter_name_nonempty(letter);
    if spelled_with_letter(letter, pc) is Some {
        assert(spelled_with_letter(letter, pc) == Some(
            letter_name(letter) + accidental_mark(letter_distance(letter, pc))->0,
        ));
    }
}

/// Every written slot holds a name of its own pitch class (or one marked
/// with `?`); unwritten slots are empty.
proof fn lemma_written_slots_spell(tonic: Pitch, scale: ScaleView, n: int)
    requires
        0 <= n <= scale.intervals.len(),
    ensures
        degree_names(tonic, scale, n).len() == 12,
        forall|pc: int|
            0 <= pc < 12 && #[trigger] degree_names(tonic, scale, n)[pc].len() > 0 ==> spells(
                degree_names(tonic, scale, n)[pc],
                pc,
            ) || marked_unspellable(degree_names(tonic, scale, n)[pc]),
    decreases n,
{
    lemma_degree_names_len(tonic, scale, n);
    if n > 0 {
        lemma_written_slots_spell(tonic, scale, n - 1);
        lemma_degree_note_name_spells(tonic, scale, n - 1);
    }
}

/// Every one of the twelve names is a name of its own pitch class, unless
/// it is a letter marked with `?` (a scale degree that no accidental up to
/// a double one can spell from its letter); no name is empty.
#[verifier::spinoff_prover]
#[verifier::rlimit(40)]
pub proof fn lemma_note_names_spell_their_pitch_class(tonic: Pitch, scale: ScaleView, pc: int)
    requires
        0 <= pc < 12,
    ensures
        spells(note_names(tonic, scale)[pc], pc) || marked_unspellable(
            note_names(tonic, scale)[pc],
        ),
        note_names(tonic, scale)[pc].len() > 0,
{
    let n = scale.intervals.len() as int;
    lemma_written_slots_spell(tonic, scale, n);
    let written = degree_names(tonic, scale, n);
    if written[pc].len() == 0 {
        let interval = interval_to(tonic, pc);
        lemma_chromatic_name_spells(tonic, interval, scale.mode_fifth_offset);
        assert(pitch_class(tonic, interval) == pc);
    }
}

/// In a well-formed scale the degrees land in distinct slots, so each
/// degree's name stays in its slot.
proof fn lemma_degree_slot_kept(tonic: Pitch, scale: ScaleView, n: int, pos: int)
    requires
        scale.wf(),
        0 <= pos < n <= scale.intervals.len(),
    ensures
        degree_names(tonic, scale, n)[pitch_class(tonic, scale.intervals[pos] as int)]
            == degree_note_name(tonic, scale, pos),
    decreases n,
{
    lemma_degree_names_len(tonic, scale, n);
    lemma_degree_names_len(tonic, scale, n - 1);
    if pos < n - 1 {
        lemma_degree_slot_kept(tonic, scale, n - 1, pos);
        let a = scale.intervals[pos] as int;
        let b = scale.intervals[n - 1] as int;
        assert(a < b < 12);
        assert(pitch_class(tonic, a) != pitch_class(tonic, b)) by {
            let s = tonic.semitone as int;
            assert((s + a) % 12 != (s + b) % 12) by (nonlinear_arith)
                requires
                    0 <= a < b < 12,
                    s >= 0,
            ;
        }
    }
}

/// A pitch spelled with one of the seventeen usual names (no Cb, Fb, E# or
/// B#).
pub open spec fn usual_spelling(p: Pitch) -> bool {
    &&& p.wf()
    &&& p.accidental == Accidental::Sharp ==> p.letter != 2 && p.letter != 6
    &&& p.accidental == Accidental::Flat ==> p.letter != 0 && p.letter != 3
}

/// The chromatic spelling tables write usually spelled pitches as they are
/// spelled: naturals in both, sharps in the sharp table, flats in the flat
/// table.
proof fn lemma_tables_keep_usual_spelling(p: Pitch)
    requires
        usual_spelling(p),
    ensures
        p.accidental != Accidental::Flat ==> sharp_name(p.semitone as int) == pitch_spelling(p),
        p.accidental != Accidental::Sharp ==> flat_name(p.semitone as int) == pitch_spelling(p),
{
    reveal_strlit("");
    reveal_strlit("#");
    reveal_strlit("b");
    if p.semitone == 0 {
        reveal_strlit("C");
        assert(p.accidental != Accidental::Flat ==> sharp_name(0) =~= pitch_spelling(p));
        assert(p.accidental != Accidental::Sharp ==> flat_name(0) =~= pitch_spelling(p));
    } else if p.semitone == 1 {
        reveal_strlit("C"); reveal_strlit("C#"); reveal_strlit("D"); reveal_strlit("Db");
        assert(p.accidental != Accidental::Flat ==> sharp_name(1) =~= pitch_spelling(p));
        assert(p.accidental != Accidental::Sharp ==> flat_name(1) =~= pitch_spelling(p));
    } else if p.semitone == 2 {
        reveal_strlit("D");
        assert(p.accidental != Accidental::Flat ==> sharp_name(2) =~= pitch_spelling(p));
        assert(p.accidental != Accidental::Sharp ==> flat_name(2) =~= pitch_spelling(p));
    } else if p.semitone == 3 {
        reveal_strlit("D"); reveal_strlit("D#"); reveal_strlit("E"); reveal_strlit("Eb");
        assert(p.accidental != Accidental::Flat ==> sharp_name(3) =~= pitch_spelling(p));
        assert(p.accidental != Accidental::Sharp ==> flat_name(3) =~= pitch_spelling(p));
    } else if p.semitone == 4 {
        reveal_strlit("E");
        assert(p.accidental != Accidental::Flat ==> sharp_name(4) =~= pitch_spelling(p));
        assert(p.accidental != Accidental::Sharp ==> flat_name(4) =~= pitch_spelling(p));
    } else if p.semitone == 5 {
        reveal_strlit("F");
        assert(p.accidental != Accidental::Flat ==> sharp_name(5) =~= pitch_spelling(p));
        assert(p.accidental != Accidental::Sharp ==> flat_name(5) =~= pitch_spelling(p));
    } else if p.semitone == 6 {
        reveal_strlit("F"); reveal_strlit("F#"); reveal_strlit("G"); reveal_strlit("Gb");
        assert(p.accidental != Accidental::Flat ==> sharp_name(6) =~= pitch_spelling(p));
        assert(p.accidental != Accidental::Sharp ==> flat_name(6) =~= pitch_spelling(p));
    } else if p.semitone == 7 {
        reveal_strlit("G");
        assert(p.accidental != Accidental::Flat ==> sharp_name(7) =~= pitch_spelling(p));
        assert(p.accidental != Accidental::Sharp ==> flat_name(7) =~= pitch_spelling(p));
    } else if p.semitone == 8 {
        reveal_strlit("A"); reveal_strlit("Ab"); reveal_strlit("G"); reveal_strlit("G#");
        assert(p.accidental != Accidental::Flat ==> sharp_name(8) =~= pitch_spelling(p));
        assert(p.accidental != Accidental::Sharp ==> flat_name(8) =~= pitch_spelling(p));
    } else if p.semitone == 9 {
        reveal_strlit("A");
        assert(p.accidental != Accidental::Flat ==> sharp_name(9) =~= pitch_spelling(p));
        assert(p.accidental != Accidental::Sharp ==> flat_name(9) =~= pitch_spelling(p));
    } else if p.semitone == 10 {
        reveal_strlit("A"); reveal_strlit("A#"); reveal_strlit("B"); reveal_strlit("Bb");
        assert(p.accidental != Accidental::Flat ==> sharp_name(10) =~= pitch_spelling(p));
        assert(p.accidental != Accidental::Sharp ==> flat_name(10) =~= pitch_spelling(p));
    } else if p.semitone == 11 {
        reveal_strlit("B");
        assert(p.accidental != Accidental::Flat ==> sharp_name(11) =~= pitch_spelling(p));
        assert(p.accidental != Accidental::Sharp ==> flat_name(11) =~= pitch_spelling(p));
    }
}

/// Every pitch named by one of the seventeen accepted names is usually
/// spelled.
pub proof fn lemma_named_pitch_usual(name: Seq<char>, p: Pitch)
    requires
        pitch_of_name(name) == Some(p),
    ensures
        usual_spelling(p),
{
}

/// The tonic keeps the spelling it was given: for any pitch that
/// [`Pitch::parse`](crate::pitch::Pitch::parse) can produce and any
/// well-formed scale, the name in the tonic's slot is the tonic's own
/// letter and accidental.
pub proof fn lemma_tonic_keeps_its_spelling(name: Seq<char>, tonic: Pitch, scale: ScaleView)
    requires
        pitch_of_name(name) == Some(tonic),
        scale.wf(),
    ensures
        note_names(tonic, scale)[tonic.semitone as int] == pitch_spelling(tonic),
{
    lemma_named_pitch_usual(name, tonic);
    lemma_usual_tonic_keeps_its_spelling(tonic, scale);
}

/// The tonic's slot carries the tonic's own spelling whenever that spelling
/// is one of the usual ones.
#[verifier::spinoff_prover]
#[verifier::rlimit(40)]
pub proof fn lemma_usual_tonic_keeps_its_spelling(tonic: Pitch, scale: ScaleView)
    requires
        usual_spelling(tonic),
        scale.wf(),
    ensures
        note_names(tonic, scale)[tonic.semitone as int] == pitch_spelling(tonic),
{
    let n = scale.intervals.len() as int;
    lemma_degree_slot_kept(tonic, scale, n, 0);
    lemma_letter_name_nonempty(tonic.letter as int);
    assert(pitch_class(tonic, 0) == tonic.semitone);
    assert(spelled_with_letter(tonic.letter as int, tonic.semitone as int) == Some(
        pitch_spelling(tonic),
    ));
    lemma_tables_keep_usual_spelling(tonic);
}

/// In a seven-note scale each degree takes the letter that many steps above
/// the tonic's letter, so the seven degrees use seven different letters.
pub proof fn lemma_heptatonic_degrees_step_letters(tonic: Pitch, scale: ScaleView, pos: int)
    requires
        scale.wf(),
        scale.intervals.len() == 7,
        0 <= pos < 7,
    ensures
        ({
            let name = note_names(tonic, scale)[pitch_class(tonic, scale.intervals[pos] as int)];
            let letter = letter_name((tonic.letter + pos) % 7);
            letter.len() <= name.len() && name.subrange(0, letter.len() as int) == letter
        }),
{
    let letter_idx = (tonic.letter + pos) % 7;
    let pc = pitch_class(tonic, scale.intervals[pos] as int);
    lemma_degree_slot_kept(tonic, scale, 7, pos);
    lemma_letter_name_nonempty(letter_idx);
    let letter = letter_name(letter_idx);
    let name = diatonic_name(tonic, pos, scale.intervals[pos] as int);
    let tail = match spelled_with_letter(letter_idx, pc) {
        Some(_) => accidental_mark(letter_distance(letter_idx, pc))->0,
        None => "?"@,
    };
    assert(name == letter + tail);
    assert(name.subrange(0, letter.len() as int) =~= letter);
}

// With the tonic fixed by a branch, the solver checks every degree of
// every built-in seven-note scale by evaluation.
#[verifier::rlimit(100)]
#[verifier::spinoff_prover]
proof fn lemma_builtin_degree_spelled(tonic: Pitch, index: int, pos: int)
    requires
        usual_spelling(tonic),
        0 <= index < 9,
        0 <= pos < 7,
    ensures
        spelled_with_letter(
            (tonic.letter + pos) % 7,
            pitch_class(tonic, builtin_view(index).intervals[pos] as int),
        ) is Some,
{
    if tonic.letter == 0 {
        match tonic.accidental {
            Accidental::Natural => {},
            Accidental::Sharp => {},
            Accidental::Flat => {},
        }
    } else if tonic.letter == 1 {
        match tonic.accidental {
            Accidental::Natural => {},
            Accidental::Sharp => {},
            Accidental::Flat => {},
        }
    } else if tonic.letter == 2 {
        match tonic.accidental {
            Accidental::Natural => {},
            Accidental::Sharp => {},
            Accidental::Flat => {},
        }
    } else if tonic.letter == 3 {
        match tonic.accidental {
            Accidental::Natural => {},
            Accidental::Sharp => {},
            Accidental::Flat => {},
        }
    } else if tonic.letter == 4 {
        match tonic.accidental {
            Accidental::Natural => {},
            Accidental::Sharp => {},
            Accidental::Flat => {},
        }
    } else if tonic.letter == 5 {
        match tonic.accidental {
            Accidental::Natural => {},
            Accidental::Sharp => {},
            Accidental::Flat => {},
        }
    } else {
        match tonic.accidental {
            Accidental::Natural => {},
            Accidental::Sharp => {},
            Accidental::Flat => {},
        }
    }
}

/// Every degree of a seven-note scale can be spelled from its letter.
#[verifier::opaque]
pub open spec fn degrees_spelled(tonic: Pitch, scale: ScaleView) -> bool {
    scale.intervals.len() == 7 ==> forall|pos: int|
        0 <= pos < 7 ==> #[trigger] spelled_with_letter(
            (tonic.letter + pos) % 7,
            pitch_class(tonic, scale.intervals[pos] as int),
        ) is Some
}

proof fn lemma_written_slots_spell_exactly(tonic: Pitch, scale: ScaleView, n: int)
    requires
        0 <= n <= scale.intervals.len(),
        degrees_spelled(tonic, scale),
    ensures
        degree_names(tonic, scale, n).len() == 12,
        forall|pc: int|
            0 <= pc < 12 && #[trigger] degree_names(tonic, scale, n)[pc].len() > 0 ==> spells(
                degree_names(tonic, scale, n)[pc],
                pc,
            ),
    decreases n,
{
    lemma_degree_names_len(tonic, scale, n);
    reveal(degrees_spelled);
    if n > 0 {
        lemma_written_slots_spell_exactly(tonic, scale, n - 1);
        let pos = n - 1;
        let interval = scale.intervals[pos] as int;
        let pc = pitch_class(tonic, interval);
        lemma_chromatic_name_spells(tonic, interval, scale.mode_fifth_offset);
        let letter = if scale.intervals.len() == 7 {
            (tonic.letter + pos) % 7
        } else {
            (tonic.letter + letter_offset(interval, tonic.flat_spelling(scale.mode_fifth_offset))) % 7
        };
        if spelled_with_letter(letter, pc) is Some {
            assert(spelled_with_letter(letter, pc) == Some(
                letter_name(letter) + accidental_mark(letter_distance(letter, pc))->0,
            ));
        }
        assert(spells(degree_note_name(tonic, scale, pos), pc));
    }
}

/// Seven-note scales whose degrees can all be spelled from their letters
/// give every pitch class a name that spells it: no name needs a `?`.
#[verifier::spinoff_prover]
#[verifier::rlimit(40)]
pub proof fn lemma_spelled_degrees_spell_every_pitch(tonic: Pitch, scale: ScaleView, pc: int)
    requires
        degrees_spelled(tonic, scale),
        0 <= pc < 12,
    ensures
        spells(note_names(tonic, scale)[pc], pc),
{
    let n = scale.intervals.len() as int;
    lemma_written_slots_spell_exactly(tonic, scale, n);
    let written = degree_names(tonic, scale, n);
    if written[pc].len() == 0 {
        let interval = interval_to(tonic, pc);
        lemma_chromatic_name_spells(tonic, interval, scale.mode_fifth_offset);
        assert(pitch_class(tonic, interval) == pc);
    }
}

/// For every tonic spelled with one of the seventeen usual names and every
/// built-in scale, each of the twelve names spells its own pitch class; no
/// name is marked with `?`.
pub proof fn lemma_builtin_scales_spell_every_pitch(tonic: Pitch, index: int, pc: int)
    requires
        usual_spelling(tonic),
        0 <= index < 11,
        0 <= pc < 12,
    ensures
        spells(note_names(tonic, builtin_view(index))[pc], pc),
{
    let scale = builtin_view(index);
    reveal(degrees_spelled);
    assert forall|pos: int|
        0 <= pos < 7 && scale.intervals.len() == 7 implies #[trigger] spelled_with_letter(
        (tonic.letter + pos) % 7,
        pitch_class(tonic, scale.intervals[pos] as int),
    ) is Some by {
        lemma_builtin_degree_spelled(tonic, index, pos);
    }
    lemma_spelled_degrees_spell_every_pitch(tonic, scale, pc);
}

/// A name that spells a pitch class is not empty and does not end in `?`;
/// a name marked unspellable ends in `?`.
pub proof fn lemma_question_mark_tells_unspelled(name: Seq<char>, pc: int)
    ensures
        spells(name, pc) ==> name.len() > 0 && name.last() != '?',
        marked_unspellable(name) ==> name.len() > 0 && name.last() == '?',
{
    reveal_strlit("C");
    reveal_strlit("D");
    reveal_strlit("E");
    reveal_strlit("F");
    reveal_strlit("G");
    reveal_strlit("A");
    reveal_strlit("B");
    reveal_strlit("");
    reveal_strlit("#");
    reveal_strlit("##");
    reveal_strlit("b");
    reveal_strlit("bb");
    reveal_strlit("?");
    if spells(name, pc) {
        let letter = choose|letter: int| 0 <= letter < 7 && spelled_with_letter(letter, pc) == Some(name);
        let mark = accidental_mark(letter_distance(letter, pc))->0;
        assert(name == letter_name(letter) + mark);
        assert(name.last() == (if mark.len() > 0 { mark.last() } else { letter_name(letter).last() }));
    }
    if marked_unspellable(name) {
        let letter = choose|letter: int| 0 <= letter < 7 && name == letter_name(letter) + "?"@;
        assert(name.last() == '?');
    }
}

/// What [`diatonic_note_name`] gives starts with the letter `degree_pos`
/// steps above the tonic's, and either spells the degree's pitch class or
/// ends in `?`: a name without a `?` always spells its pitch class.
pub proof fn lemma_diatonic_name_spells(tonic: Pitch, degree_pos: int, interval: int)
    requires
        tonic.letter + degree_pos >= 0,
    ensures
        ({
            let name = diatonic_name(tonic, degree_pos, interval);
            let letter = letter_name((tonic.letter + degree_pos) % 7);
            &&& letter.len() <= name.len()
            &&& name.subrange(0, letter.len() as int) == letter
            &&& spells(name, pitch_class(tonic, interval)) <==> name.last() != '?'
        }),
{
    let letter_idx = (tonic.letter + degree_pos) % 7;
    let pc = pitch_class(tonic, interval);
    let name = diatonic_name(tonic, degree_pos, interval);
    let letter = letter_name(letter_idx);
    lemma_letter_name_nonempty(letter_idx);
    let tail = match spelled_with_letter(letter_idx, pc) {
        Some(_) => accidental_mark(letter_distance(letter_idx, pc))->0,
        None => "?"@,
    };
    assert(name == letter + tail);
    assert(name.subrange(0, letter.len() as int) =~= letter);
    lemma_question_mark_tells_unspelled(name, pc);
    if spelled_with_letter(letter_idx, pc) is Some {
        assert(spells(name, pc));
    } else {
        assert(marked_unspellable(name));
    }
}

/// What [`non_heptatonic_note_name`] gives always spells the note's pitch
/// class: it falls back on the key-signature spelling where the chosen
/// letter would need more than a double accidental, so it never ends in
/// `?`.
pub proof fn lemma_non_heptatonic_name_spells(tonic: Pitch, interval: int, scale: ScaleView)
    ensures
        spells(non_heptatonic_name(tonic, interval, scale), pitch_class(tonic, interval)),
        non_heptatonic_name(tonic, interval, scale).len() > 0,
        non_heptatonic_name(tonic, interval, scale).last() != '?',
{
    let pc = pitch_class(tonic, interval);
    lemma_chromatic_name_spells(tonic, interval, scale.mode_fifth_offset);
    let letter = (tonic.letter + letter_offset(interval, tonic.flat_spelling(scale.mode_fifth_offset))) % 7;
    if spelled_with_letter(letter, pc) is Some {
        assert(spelled_with_letter(letter, pc) == Some(
            letter_name(letter) + accidental_mark(letter_distance(letter, pc))->0,
        ));
    }
    lemma_question_mark_tells_unspelled(non_heptatonic_name(tonic, interval, scale), pc);
}

/// The seven degrees of a seven-note scale take seven different letters.
pub proof fn lemma_heptatonic_letters_distinct(tonic: Pitch, pos1: int, pos2: int)
    requires
        0 <= pos1 < 7,
        0 <= pos2 < 7,
        pos1 != pos2,
    ensures
        (tonic.letter + pos1) % 7 != (tonic.letter + pos2) % 7,
{
}

/// A scale of other than seven notes (except the chromatic palette, No
/// Scale) spells each note as a seven-note mode spells the same degree:
/// the notes of the major scale as in Major, the minor second, third, sixth
/// and seventh as in Phrygian, and the tritone as Locrian's lowered fifth
/// under flat spelling or Lydian's raised fourth otherwise.  So in C major
/// pentatonic the sixth is A, taking the letter five steps above C.
pub proof fn lemma_non_heptatonic_spells_like_modes(tonic: Pitch, scale: ScaleView, pos: int)
    requires
        usual_spelling(tonic),
        scale.name != "No Scale"@,
        0 <= pos < 7,
    ensures
        non_heptatonic_name(tonic, builtin_view(0).intervals[pos] as int, scale) == diatonic_name(
            tonic,
            pos,
            builtin_view(0).intervals[pos] as int,
        ),
        non_heptatonic_name(tonic, builtin_view(5).intervals[pos] as int, scale) == diatonic_name(
            tonic,
            pos,
            builtin_view(5).intervals[pos] as int,
        ),
        tonic.flat_spelling(scale.mode_fifth_offset) ==> non_heptatonic_name(tonic, 6, scale)
            == diatonic_name(tonic, 4, 6),
        !tonic.flat_spelling(scale.mode_fifth_offset) ==> non_heptatonic_name(tonic, 6, scale)
            == diatonic_name(tonic, 3, 6),
{
    lemma_builtin_degree_spelled(tonic, 0, pos);
    lemma_builtin_degree_spelled(tonic, 5, pos);
    lemma_builtin_degree_spelled(tonic, 8, 4);
    lemma_builtin_degree_spelled(tonic, 6, 3);
    assert(builtin_view(8).intervals[4] == 6);
    assert(builtin_view(6).intervals[3] == 6);
}

/// Semitone of the natural note a letter character names (C D E F G A B).
pub open spec fn letter_value(c: char) -> Option<int> {
    if c == 'C' {
        Some(0)
    } else if c == 'D' {
        Some(2)
    } else if c == 'E' {
        Some(4)
    } else if c == 'F' {
        Some(5)
    } else if c == 'G' {
        Some(7)
    } else if c == 'A' {
        Some(9)
    } else if c == 'B' {
        Some(11)
    } else {
        None
    }
}

/// Whether every character of `s` is an accidental, `#` or `b`.
pub open spec fn all_accidentals(s: Seq<char>) -> bool {
    forall|i: int| 0 <= i < s.len() ==> (#[trigger] s[i] == '#' || s[i] == 'b')
}

/// Semitones that accidentals move a note: one up per `#`, one down per `b`.
pub open spec fn accidentals_value(s: Seq<char>) -> int
    decreases s.len(),
{
    if s.len() == 0 {
        0
    } else {
        accidentals_value(s.drop_last()) + if s.last() == '#' {
            1int
        } else if s.last() == 'b' {
            -1int
        } else {
            0int
        }
    }
}

/// The pitch class a written note name denotes, read off its characters: a
/// letter C–B followed by accidentals, the letter's natural semitone moved
/// by the accidentals, mod 12.
pub open spec fn denoted_pitch(name: Seq<char>) -> Option<int> {
    if name.len() > 0 && letter_value(name[0]) is Some && all_accidentals(name.drop_first()) {
        Some((letter_value(name[0])->0 + accidentals_value(name.drop_first())) % 12)
    } else {
        None
    }
}

/// A name that spells a pitch class is a letter followed by at most two
/// accidentals, and it denotes that pitch class.
pub proof fn lemma_spelled_name_denotes(name: Seq<char>, pc: int)
    requires
        spells(name, pc),
    ensures
        denoted_pitch(name) == Some(pc % 12),
        name.len() <= 3,
{
    reveal_strlit("C");
    reveal_strlit("D");
    reveal_strlit("E");
    reveal_strlit("F");
    reveal_strlit("G");
    reveal_strlit("A");
    reveal_strlit("B");
    reveal_strlit("");
    reveal_strlit("#");
    reveal_strlit("##");
    reveal_strlit("b");
    reveal_strlit("bb");
    reveal_with_fuel(accidentals_value, 3);
    let letter = choose|letter: int| 0 <= letter < 7 && spelled_with_letter(letter, pc) == Some(name);
    let d = letter_distance(letter, pc);
    let mark = accidental_mark(d)->0;
    let l = letter_name(letter);
    assert(name == l + mark);
    assert(l.len() == 1);
    assert(name[0] == l[0]);
    assert(name.drop_first() =~= mark);
    assert(letter_value(name[0]) == Some(natural_semitone(letter)));
    let v = accidentals_value(mark);
    assert(all_accidentals(mark));
    assert(v == if d <= 2 { d } else { d - 12 });
    assert((natural_semitone(letter) + v) % 12 == pc % 12);
}

/// For every tonic spelled with one of the seventeen usual names and every
/// built-in scale, the name in each of the twelve slots denotes that slot's
/// pitch class: its letter's natural semitone moved by its `#`s and `b`s
/// (at most two) gives the slot's number.
pub proof fn lemma_builtin_names_denote_their_slot(tonic: Pitch, index: int, pc: int)
    requires
        usual_spelling(tonic),
        0 <= index < 11,
        0 <= pc < 12,
    ensures
        denoted_pitch(note_names(tonic, builtin_view(index))[pc]) == Some(pc),
        note_names(tonic, builtin_view(index))[pc].len() <= 3,
{
    lemma_builtin_scales_spell_every_pitch(tonic, index, pc);
    lemma_spelled_name_denotes(note_names(tonic, builtin_view(index))[pc], pc);
}

/// Writing out a parsed pitch gives back the name it was parsed from, up to
/// the case of its letters: the letter and the accidental of the result are
/// the ones written in the input.
#[verifier::rlimit(40)]
pub proof fn lemma_parse_reads_letter_and_accidental(s: Seq<char>, p: Pitch)
    requires
        parsed_pitch(s) == Some(p),
    ensures
        ascii_lowercase(pitch_spelling(p)) == ascii_lowercase(trimmed(s)),
{
    let name = ascii_lowercase(trimmed(s));
    lemma_lowercase_absorbs_case(trimmed(s));
    reveal_strlit("C");
    reveal_strlit("D");
    reveal_strlit("E");
    reveal_strlit("F");
    reveal_strlit("G");
    reveal_strlit("A");
    reveal_strlit("B");
    reveal_strlit("");
    reveal_strlit("#");
    reveal_strlit("b");
    assert(ascii_lowercase(pitch_spelling(p)) =~= name);
}

/// The key-signature convention writes a chromatic note with the key's
/// accidental: under flat spelling its name holds no `#`, otherwise no `b`;
/// either way it denotes the note's pitch class.
pub proof fn lemma_chromatic_name_follows_key(tonic: Pitch, interval: int, mode_offset: int)
    ensures
        tonic.flat_spelling(mode_offset) ==> !chromatic_name(tonic, interval, mode_offset).contains('#'),
        !tonic.flat_spelling(mode_offset) ==> !chromatic_name(tonic, interval, mode_offset).contains('b'),
        denoted_pitch(chromatic_name(tonic, interval, mode_offset)) == Some(pitch_class(tonic, interval)),
{
    let pc = pitch_class(tonic, interval);
    let name = chromatic_name(tonic, interval, mode_offset);
    lemma_chromatic_name_spells(tonic, interval, mode_offset);
    lemma_spelled_name_denotes(name, pc);
    assert(pc % 12 == pc);
    reveal_strlit("C");
    reveal_strlit("D");
    reveal_strlit("E");
    reveal_strlit("F");
    reveal_strlit("G");
    reveal_strlit("A");
    reveal_strlit("B");
    reveal_strlit("C#");
    reveal_strlit("D#");
    reveal_strlit("F#");
    reveal_strlit("G#");
    reveal_strlit("A#");
    reveal_strlit("Db");
    reveal_strlit("Eb");
    reveal_strlit("Gb");
    reveal_strlit("Ab");
    reveal_strlit("Bb");
    if name.contains('#') || name.contains('b') {
        let k = choose|k: int| 0 <= k < name.len() && (name[k] == '#' || name[k] == 'b');
        assert(name.len() <= 2);
    }
}

} // verus!
