use mixtuur::pitch::{Accidental, Pitch};

#[test]
fn pitch_parse_semitones_and_letters() {
    let cases: &[(&str, u8, u8, Accidental)] = &[
        ("C", 0, 0, Accidental::Natural),
        ("C#", 1, 0, Accidental::Sharp),
        ("Db", 1, 1, Accidental::Flat),
        ("D", 2, 1, Accidental::Natural),
        ("Eb", 3, 2, Accidental::Flat),
        ("F#", 6, 3, Accidental::Sharp),
        ("Gb", 6, 4, Accidental::Flat),
        ("G#", 8, 4, Accidental::Sharp),
        ("Ab", 8, 5, Accidental::Flat),
        ("Bb", 10, 6, Accidental::Flat),
        ("B", 11, 6, Accidental::Natural),
    ];
    for &(s, semi, letter, acc) in cases {
        let p = Pitch::parse(s).unwrap_or_else(|| panic!("failed to parse '{s}'"));
        assert_eq!(p.semitone, semi, "{s}: semitone");
        assert_eq!(p.letter, letter, "{s}: letter");
        assert_eq!(p.accidental, acc, "{s}: accidental");
    }
    assert!(Pitch::parse("H").is_none());
    assert!(Pitch::parse("").is_none());
}

#[test]
fn uses_flats_major() {
    let maj = 0i8;
    // Flat major keys: F Bb Eb Ab Db Gb Cb
    for note in ["F", "Bb", "Eb", "Ab", "Db"] {
        assert!(
            Pitch::parse(note).unwrap().uses_flats(maj),
            "{note} major should use flats"
        );
    }
    // Sharp major keys: G D A E B F#
    for note in ["G", "D", "A", "E", "B"] {
        assert!(
            !Pitch::parse(note).unwrap().uses_flats(maj),
            "{note} major should use sharps"
        );
    }
    // C major: no accidentals, sharp convention
    assert!(!Pitch::parse("C").unwrap().uses_flats(maj));
}

#[test]
fn uses_flats_minor() {
    let min = -3i8;
    for note in ["D", "G", "C", "F", "Bb", "Eb"] {
        assert!(
            Pitch::parse(note).unwrap().uses_flats(min),
            "{note} minor should use flats"
        );
    }
    for note in ["A", "E", "B"] {
        assert!(
            !Pitch::parse(note).unwrap().uses_flats(min),
            "{note} minor should use sharps"
        );
    }
    // Sharp-spelled input always sharps regardless of mode
    assert!(!Pitch::parse("F#").unwrap().uses_flats(min));
    assert!(!Pitch::parse("G#").unwrap().uses_flats(min));
    // Flat-spelled input always flats
    assert!(Pitch::parse("Bb").unwrap().uses_flats(min));
}

#[test]
fn parse_ignores_case_and_surrounding_whitespace() {
    let p = Pitch::parse("  eB\t").unwrap();
    assert_eq!(p.semitone, 3);
    assert_eq!(p.letter, 2);
    assert_eq!(p.accidental, Accidental::Flat);
    let q = Pitch::parse("\n f# ").unwrap();
    assert_eq!(q.semitone, 6);
    assert_eq!(q.accidental, Accidental::Sharp);
    // Whitespace in the middle is not trimmed.
    assert!(Pitch::parse("F #").is_none());
    // Non-ASCII whitespace is trimmed too (U+3000 ideographic space).
    assert_eq!(Pitch::parse("\u{3000}A\u{3000}").unwrap().semitone, 9);
    assert!(Pitch::parse("Cb").is_none());
    assert!(Pitch::parse("E#").is_none());
    assert!(Pitch::parse("C##").is_none());
}

#[test]
fn every_accepted_name_is_consistently_spelled() {
    let naturals = [0u8, 2, 4, 5, 7, 9, 11];
    for name in [
        "C", "C#", "Db", "D", "D#", "Eb", "E", "F", "F#", "Gb", "G", "G#", "Ab", "A", "A#", "Bb", "B",
    ] {
        let p = Pitch::parse(name).unwrap();
        let shift: i32 = match p.accidental {
            Accidental::Natural => 0,
            Accidental::Sharp => 1,
            Accidental::Flat => -1,
        };
        let expected = (naturals[p.letter as usize] as i32 + shift).rem_euclid(12);
        assert_eq!(p.semitone as i32, expected, "{name}");
    }
}

#[test]
fn uses_flats_follows_circle_of_fifths_for_naturals() {
    // Lydian (+1) on F: CoF(F) = 11, 11 + 1 = 12 -> 0 -> sharps.
    assert!(!Pitch::parse("F").unwrap().uses_flats(1));
    // Locrian (-5) on B: CoF(B) = 5, 5 - 5 = 0 -> sharps.
    assert!(!Pitch::parse("B").unwrap().uses_flats(-5));
    // Locrian (-5) on C: 0 - 5 = -5 -> 7 -> flats.
    assert!(Pitch::parse("C").unwrap().uses_flats(-5));
}

#[test]
fn whitespace_agrees_with_std_for_every_char() {
    for code in 0u32..=0x10FFFF {
        if let Some(c) = char::from_u32(code) {
            assert_eq!(mixtuur::text::char_is_whitespace(c), c.is_whitespace(), "U+{code:04X}");
        }
    }
}

#[test]
fn parse_same_after_case_changes() {
    for s in ["  bb ", "F#", " gB", "\tc#\n", "H", "Cb", "e"] {
        let upper = s.trim().to_ascii_uppercase();
        let lower = s.to_ascii_lowercase();
        assert_eq!(Pitch::parse(s), Pitch::parse(&upper), "{s}");
        assert_eq!(Pitch::parse(s), Pitch::parse(&lower), "{s}");
    }
}
