//! Pitches: a semitone, the accidental it was spelled with, and its letter.

use vstd::prelude::*;

use crate::text::{
    ascii_lowercase, ascii_uppercase, lemma_lowercase_absorbs_case, lemma_trimmed_idempotent,
    lemma_trimmed_lowercase, lemma_trimmed_uppercase, to_ascii_lower, trim_bounds, trimmed,
};

verus! {

/// How the user spelled an enharmonic note.
#[derive(Clone, Copy, Debug, PartialEq, Eq, Structural)]
pub enum Accidental {
    /// No accidental: C, D, E, F, G, A, B.
    Natural,
    /// Raised by a semitone: C#, D#, F#, G#, A#.
    Sharp,
    /// Lowered by a semitone: Db, Eb, Gb, Ab, Bb.
    Flat,
}

/// A musical pitch with its semitone position, accidental spelling, and
/// diatonic letter.
///
/// The `letter` field is an index into the natural note sequence
/// C=0, D=1, E=2, F=3, G=4, A=5, B=6.
#[derive(Clone, Copy, Debug, PartialEq, Eq, Structural)]
pub struct Pitch {
    /// Absolute semitone (0 = C ... 11 = B).
    pub semitone: u8,
    /// Accidental spelling as supplied by the user.
    pub accidental: Accidental,
    /// Diatonic letter index: 0 = C, 1 = D, 2 = E, 3 = F, 4 = G, 5 = A, 6 = B.
    pub letter: u8,
}

/// Semitone of the natural note with letter index `letter` (C D E F G A B).
pub open spec fn natural_semitone(letter: int) -> int {
    if letter == 0 {
        0
    } else if letter == 1 {
        2
    } else if letter == 2 {
        4
    } else if letter == 3 {
        5
    } else if letter == 4 {
        7
    } else if letter == 5 {
        9
    } else {
        11
    }
}

/// Semitones by which an accidental moves its letter.
pub open spec fn accidental_shift(a: Accidental) -> int {
    match a {
        Accidental::Natural => 0,
        Accidental::Sharp => 1,
        Accidental::Flat => -1,
    }
}

/// Position of a semitone on the Circle of Fifths: `semitone × 7 mod 12`.
pub open spec fn fifths_position(semitone: int) -> int {
    (semitone * 7) % 12
}

/// The pitch a lower-case note name stands for, if it is one of the
/// seventeen names C, C#, Db, D, D#, Eb, E, F, F#, Gb, G, G#, Ab, A, A#, Bb, B.
pub open spec fn pitch_of_name(name: Seq<char>) -> Option<Pitch> {
    let p = |semitone: u8, accidental: Accidental, letter: u8|
        Some(Pitch { semitone, accidental, letter });
    if name == seq!['c'] {
        p(0, Accidental::Natural, 0)
    } else if name == seq!['c', '#'] {
        p(1, Accidental::Sharp, 0)
    } else if name == seq!['d', 'b'] {
        p(1, Accidental::Flat, 1)
    } else if name == seq!['d'] {
        p(2, Accidental::Natural, 1)
    } else if name == seq!['d', '#'] {
        p(3, Accidental::Sharp, 1)
    } else if name == seq!['e', 'b'] {
        p(3, Accidental::Flat, 2)
    } else if name == seq!['e'] {
        p(4, Accidental::Natural, 2)
    } else if name == seq!['f'] {
        p(5, Accidental::Natural, 3)
    } else if name == seq!['f', '#'] {
        p(6, Accidental::Sharp, 3)
    } else if name == seq!['g', 'b'] {
        p(6, Accidental::Flat, 4)
    } else if name == seq!['g'] {
        p(7, Accidental::Natural, 4)
    } else if name == seq!['g', '#'] {
        p(8, Accidental::Sharp, 4)
    } else if name == seq!['a', 'b'] {
        p(8, Accidental::Flat, 5)
    } else if name == seq!['a'] {
        p(9, Accidental::Natural, 5)
    } else if name == seq!['a', '#'] {
        p(10, Accidental::Sharp, 5)
    } else if name == seq!['b', 'b'] {
        p(10, Accidental::Flat, 6)
    } else if name == seq!['b'] {
        p(11, Accidental::Natural, 6)
    } else {
        None
    }
}

/// What [`Pitch::parse`] gives for the text `s`: the name with surrounding
/// whitespace removed and ASCII letters in lower case.
pub open spec fn parsed_pitch(s: Seq<char>) -> Option<Pitch> {
    pitch_of_name(ascii_lowercase(trimmed(s)))
}

impl Pitch {
    /// A pitch whose fields agree: the semitone is that of its letter moved
    /// by its accidental.
    pub open spec fn wf(self) -> bool {
        &&& self.semitone < 12
        &&& self.letter < 7
        &&& (natural_semitone(self.letter as int) + accidental_shift(self.accidental)) % 12
            == self.semitone as int
    }

    /// Whether out-of-scale notes are spelled with flats under a mode whose
    /// Circle-of-Fifths offset is `mode_offset`.
    pub open spec fn flat_spelling(self, mode_offset: int) -> bool {
        match self.accidental {
            Accidental::Flat => true,
            Accidental::Sharp => false,
            Accidental::Natural => (fifths_position(self.semitone as int) + mode_offset) % 12 >= 7,
        }
    }

    /// The key-signature rule can be evaluated without overflowing an `i8`.
    pub open spec fn flat_spelling_defined(self, mode_offset: int) -> bool {
        self.accidental == Accidental::Natural ==> fifths_position(self.semitone as int)
            + mode_offset <= 127
    }

    /// Parses a note name into a [`Pitch`], returning `None` for unknown input.
    ///
    /// Recognised names (case-insensitive): C, C#, Db, D, D#, Eb, E, F, F#,
    /// Gb, G, G#, Ab, A, A#, Bb, B.
    pub fn parse(s: &str) -> (r: Option<Pitch>)
        ensures
            r == parsed_pitch(s@),
            r matches Some(p) ==> p.wf(),
    {
        let (start, end) = trim_bounds(s);
        let ghost name = ascii_lowercase(trimmed(s@));
        let len = end - start;
        if len == 1 {
            let c = to_ascii_lower(s.get_char(start));
            assert(name =~= seq![c]);
            assert(name.len() == 1 && name[0] == c);
            match c {
                'c' => Some(Pitch { semitone: 0, accidental: Accidental::Natural, letter: 0 }),
                'd' => Some(Pitch { semitone: 2, accidental: Accidental::Natural, letter: 1 }),
                'e' => Some(Pitch { semitone: 4, accidental: Accidental::Natural, letter: 2 }),
                'f' => Some(Pitch { semitone: 5, accidental: Accidental::Natural, letter: 3 }),
                'g' => Some(Pitch { semitone: 7, accidental: Accidental::Natural, letter: 4 }),
                'a' => Some(Pitch { semitone: 9, accidental: Accidental::Natural, letter: 5 }),
                'b' => Some(Pitch { semitone: 11, accidental: Accidental::Natural, letter: 6 }),
                _ => None,
            }
        } else if len == 2 {
            let c0 = to_ascii_lower(s.get_char(start));
            let c1 = to_ascii_lower(s.get_char(start + 1));
            assert(name =~= seq![c0, c1]);
            assert(name.len() == 2 && name[0] == c0 && name[1] == c1);
            if c1 == '#' {
                match c0 {
                    'c' => Some(Pitch { semitone: 1, accidental: Accidental::Sharp, letter: 0 }),
                    'd' => Some(Pitch { semitone: 3, accidental: Accidental::Sharp, letter: 1 }),
                    'f' => Some(Pitch { semitone: 6, accidental: Accidental::Sharp, letter: 3 }),
                    'g' => Some(Pitch { semitone: 8, accidental: Accidental::Sharp, letter: 4 }),
                    'a' => Some(Pitch { semitone: 10, accidental: Accidental::Sharp, letter: 5 }),
                    _ => None,
                }
            } else if c1 == 'b' {
                match c0 {
                    'd' => Some(Pitch { semitone: 1, accidental: Accidental::Flat, letter: 1 }),
                    'e' => Some(Pitch { semitone: 3, accidental: Accidental::Flat, letter: 2 }),
                    'g' => Some(Pitch { semitone: 6, accidental: Accidental::Flat, letter: 4 }),
                    'a' => Some(Pitch { semitone: 8, accidental: Accidental::Flat, letter: 5 }),
                    'b' => Some(Pitch { semitone: 10, accidental: Accidental::Flat, letter: 6 }),
                    _ => None,
                }
            } else {
                None
            }
        } else {
            assert(name.len() != 1 && name.len() != 2);
            None
        }
    }

    /// Returns `true` when this tonic + mode combination should use flat
    /// spelling for out-of-scale (chromatic) notes.
    ///
    /// Rules (in priority order):
    /// 1. Flat-spelled input (Db, Eb ...) → always flats.
    /// 2. Sharp-spelled input (C#, D# ...) → always sharps.
    /// 3. Natural note → Circle-of-Fifths algorithm: CoF position of the
    ///    tonic, shifted by the mode's offset, ≥ 7 → flats.
    pub fn uses_flats(self, mode_offset: i8) -> (r: bool)
        requires
            self.flat_spelling_defined(mode_offset as int),
        ensures
            r == self.flat_spelling(mode_offset as int),
    {
        match self.accidental {
            Accidental::Flat => true,
            Accidental::Sharp => false,
            Accidental::Natural => {
                let cof: i8 = ((self.semitone as u32 * 7) % 12) as i8;
                let shifted: i8 = cof + mode_offset;
                let wrapped: i32 = (shifted as i32 + 132) % 12;
                assert(wrapped == (cof + mode_offset) % 12);
                wrapped >= 7
            }
        }
    }
}

/// Parsing ignores the case of the input and any whitespace around the
/// name: lower-casing the whole input, or upper-casing the trimmed name,
/// gives the same pitch (or the same `None`).
pub proof fn lemma_parse_ignores_case_and_padding(s: Seq<char>)
    ensures
        parsed_pitch(ascii_lowercase(s)) == parsed_pitch(s),
        parsed_pitch(ascii_uppercase(trimmed(s))) == parsed_pitch(s),
{
    lemma_trimmed_lowercase(s);
    lemma_lowercase_absorbs_case(trimmed(s));
    lemma_trimmed_uppercase(trimmed(s));
    lemma_trimmed_idempotent(s);
    lemma_lowercase_absorbs_case(trimmed(trimmed(s)));
}

/// For a naturally spelled tonic, flats are used exactly when the tonic's
/// Circle-of-Fifths position (`semitone × 7 mod 12`), moved by the mode
/// offset as it is, lands on position 7 or beyond (the flat side); e.g. A
/// Phrygian (3 − 4 ≡ 11) and E Locrian (4 − 5 ≡ 11) use flats.
pub proof fn lemma_natural_flat_rule(p: Pitch, mode_offset: int)
    requires
        p.accidental == Accidental::Natural,
    ensures
        p.flat_spelling(mode_offset) == (((p.semitone as int * 7) % 12 + mode_offset) % 12 >= 7),
{
}

/// A tonic spelled with a flat always uses flats, and one spelled with a
/// sharp always uses sharps, whatever the mode.
pub proof fn lemma_spelled_accidental_decides(p: Pitch, mode_offset: int)
    ensures
        p.accidental == Accidental::Flat ==> p.flat_spelling(mode_offset),
        p.accidental == Accidental::Sharp ==> !p.flat_spelling(mode_offset),
{
}

/// Modes that share a key signature spell alike: two naturally spelled
/// tonics whose Circle-of-Fifths positions, moved by their mode offsets,
/// meet on the circle get the same flat or sharp spelling (A Phrygian
/// spells like F major, A Aeolian like C major).
pub proof fn lemma_shared_key_signature_spells_alike(p: Pitch, o1: int, q: Pitch, o2: int)
    requires
        p.accidental == Accidental::Natural,
        q.accidental == Accidental::Natural,
        (p.semitone as int * 7 + o1) % 12 == (q.semitone as int * 7 + o2) % 12,
    ensures
        p.flat_spelling(o1) == q.flat_spelling(o2),
{
    assert(((p.semitone as int * 7) % 12 + o1) % 12 == (p.semitone as int * 7 + o1) % 12);
    assert(((q.semitone as int * 7) % 12 + o2) % 12 == (q.semitone as int * 7 + o2) % 12);
}

/// Spelling repeats around the circle: a mode offset and the same offset
/// moved by twelve fifths give the same spelling, for every tonic.
pub proof fn lemma_flat_spelling_periodic(p: Pitch, mode_offset: int)
    ensures
        p.flat_spelling(mode_offset) == p.flat_spelling(mode_offset + 12),
        p.flat_spelling(mode_offset) == p.flat_spelling(mode_offset - 12),
{
}

} // verus!
