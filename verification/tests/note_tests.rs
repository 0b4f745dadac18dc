use mixtuur::note::{
    build_note_names, chromatic_note_name, diatonic_note_name, non_heptatonic_note_name,
};
use mixtuur::pitch::Pitch;
use mixtuur::scale::{builtin_scales, find_scale};

#[test]
fn diatonic_name_d_harmonic_minor() {
    // D harmonic minor: D E F G A Bb C#
    // Key sig: 1 flat (Bb) BUT the raised VII# is C#, a sharp.
    let scale = find_scale("Harmonic Minor").unwrap();
    let tonic = Pitch::parse("D").unwrap();
    let names = build_note_names(tonic, &scale);

    assert_eq!(names[2], "D", "Tonic");
    assert_eq!(names[4], "E", "Supertonic");
    assert_eq!(names[5], "F", "Mediant");
    assert_eq!(names[7], "G", "Subdominant");
    assert_eq!(names[9], "A", "Dominant");
    assert_eq!(names[10], "Bb", "Submediant is flat, from key sig");
    assert_eq!(names[1], "C#", "Leading tone is sharp, raised VII#");
}

#[test]
fn diatonic_name_g_harmonic_minor() {
    // G harmonic minor: G A Bb C D Eb F#
    let scale = find_scale("Harmonic Minor").unwrap();
    let tonic = Pitch::parse("G").unwrap();
    let names = build_note_names(tonic, &scale);

    assert_eq!(names[7], "G", "Tonic");
    assert_eq!(names[9], "A", "Supertonic");
    assert_eq!(names[10], "Bb", "IIIb is from key sig (2 flats)");
    assert_eq!(names[0], "C", "Subdominant");
    assert_eq!(names[2], "D", "Dominant");
    assert_eq!(names[3], "Eb", "VIb is from key sig");
    assert_eq!(names[6], "F#", "VII# leading tone is sharp");
}

#[test]
fn diatonic_name_bb_harmonic_minor() {
    // Bb harmonic minor: Bb C Db Eb F Gb A= (raised VII# = A natural)
    let scale = find_scale("Harmonic Minor").unwrap();
    let tonic = Pitch::parse("Bb").unwrap();
    let names = build_note_names(tonic, &scale);

    assert_eq!(names[10], "Bb", "Tonic");
    assert_eq!(names[0], "C", "Supertonic");
    assert_eq!(names[1], "Db", "IIIb");
    assert_eq!(names[3], "Eb", "Subdominant");
    assert_eq!(names[5], "F", "Dominant");
    assert_eq!(names[6], "Gb", "VIb");
    assert_eq!(names[9], "A", "VII# is raised from Ab to A natural");
}

#[test]
fn diatonic_name_gsharp_harmonic_minor() {
    // G# harmonic minor: G# A# B C# D# E F## (double sharp)
    let scale = find_scale("Harmonic Minor").unwrap();
    let tonic = Pitch::parse("G#").unwrap();
    let names = build_note_names(tonic, &scale);

    assert_eq!(names[8], "G#", "Tonic");
    assert_eq!(names[10], "A#", "Supertonic");
    assert_eq!(names[11], "B", "Mediant");
    assert_eq!(names[1], "C#", "Subdominant");
    assert_eq!(names[3], "D#", "Dominant");
    assert_eq!(names[4], "E", "Submediant");
    // F## = semitone 7 (enharmonic G=); the diatonic letter for pos 6 is F,
    // raised by 2 semitones above F= (semitone 5).
    assert_eq!(
        names[7], "F##",
        "VII# leading tone is double sharp (enharmonic G=)"
    );
}

#[test]
fn diatonic_name_melodic_minor() {
    // D melodic minor: D E F G A B C#
    let scale = find_scale("Melodic Minor").unwrap();
    let tonic = Pitch::parse("D").unwrap();
    let names = build_note_names(tonic, &scale);

    assert_eq!(names[2], "D", "Tonic");
    assert_eq!(names[4], "E", "Supertonic");
    assert_eq!(names[5], "F", "Mediant");
    assert_eq!(names[7], "G", "Subdominant");
    assert_eq!(names[9], "A", "Dominant");
    assert_eq!(names[11], "B", "VI# is raised from Bb");
    assert_eq!(names[1], "C#", "VII# leading tone");
}

#[test]
fn lydian_note_names_f() {
    // F Lydian: F G A B C D E  (IV# = B natural, not Cb)
    let scale = find_scale("Lydian").unwrap();
    let tonic = Pitch::parse("F").unwrap();
    let names = build_note_names(tonic, &scale);
    assert_eq!(names[11], "B", "IV# = B natural in F Lydian");
    assert_eq!(names[5], "F", "Tonic");
}

#[test]
fn locrian_note_names_c() {
    // C Locrian: C Db Eb F Gb Ab Bb  (Vb = Gb, not F#)
    let scale = find_scale("Locrian").unwrap();
    let tonic = Pitch::parse("C").unwrap();
    let names = build_note_names(tonic, &scale);
    assert_eq!(names[6], "Gb", "Vb in C Locrian = Gb, not F#");
}

#[test]
fn phrygian_note_names_e() {
    // E Phrygian: E F G A B C D
    let scale = find_scale("Phrygian").unwrap();
    let tonic = Pitch::parse("E").unwrap();
    let names = build_note_names(tonic, &scale);
    assert_eq!(names[5], "F", "IIb in E Phrygian = F");
}

#[test]
fn chromatic_slots_follow_key_signature() {
    // C major: out-of-scale notes use sharps.
    let major = find_scale("Major").unwrap();
    let c = Pitch::parse("C").unwrap();
    let names = build_note_names(c, &major);
    assert_eq!(names, ["C", "C#", "D", "D#", "E", "F", "F#", "G", "G#", "A", "A#", "B"]);
    // F major: out-of-scale notes use flats; Bb is in the scale.
    let f = Pitch::parse("F").unwrap();
    let names = build_note_names(f, &major);
    assert_eq!(names, ["C", "Db", "D", "Eb", "E", "F", "Gb", "G", "Ab", "A", "Bb", "B"]);
}

#[test]
fn tonic_keeps_its_spelling_in_every_scale() {
    for name in [
        "C", "C#", "Db", "D", "D#", "Eb", "E", "F", "F#", "Gb", "G", "G#", "Ab", "A", "A#", "Bb", "B",
    ] {
        let tonic = Pitch::parse(name).unwrap();
        for scale in builtin_scales().iter() {
            let names = build_note_names(tonic, scale);
            assert_eq!(names[tonic.semitone as usize], name, "{name} in {}", scale.name);
            for n in names.iter() {
                assert!(!n.is_empty());
            }
        }
    }
}

#[test]
fn note_name_helpers_exact_values() {
    let d = Pitch::parse("D").unwrap();
    assert_eq!(diatonic_note_name(d, 6, 11), "C#");
    assert_eq!(diatonic_note_name(d, 5, 8), "Bb");
    // A distance no double accidental covers is marked.
    assert_eq!(diatonic_note_name(d, 1, 7), "E?");
    assert_eq!(chromatic_note_name(d, 1, -3), "Eb");
    assert_eq!(chromatic_note_name(d, 1, 0), "D#");
    let pent = find_scale("Pentatonic").unwrap();
    let c = Pitch::parse("C").unwrap();
    assert_eq!(non_heptatonic_note_name(c, 4, &pent), "E");
    let gb = Pitch::parse("Gb").unwrap();
    assert_eq!(non_heptatonic_note_name(gb, 6, &pent), "Dbb");
    let chromatic = find_scale("chromatic").unwrap();
    assert_eq!(non_heptatonic_note_name(gb, 6, &chromatic), "C");
    assert_eq!(non_heptatonic_note_name(c, 6, &chromatic), "F#");
}

#[test]
fn builtin_scales_never_need_a_question_mark() {
    for name in [
        "C", "C#", "Db", "D", "D#", "Eb", "E", "F", "F#", "Gb", "G", "G#", "Ab", "A", "A#", "Bb", "B",
    ] {
        let tonic = Pitch::parse(name).unwrap();
        for scale in builtin_scales().iter() {
            for n in build_note_names(tonic, scale).iter() {
                assert!(!n.ends_with('?'), "{name} {}: {n}", scale.name);
            }
        }
    }
}

#[test]
fn unmarked_names_spell_their_pitch_class() {
    let naturals = [0i32, 2, 4, 5, 7, 9, 11];
    let letters = "CDEFGAB";
    let pitch_of = |n: &str| -> i32 {
        let letter = letters.find(&n[..1]).unwrap();
        let shift: i32 = n[1..].chars().map(|c| if c == '#' { 1 } else { -1 }).sum();
        (naturals[letter] + shift).rem_euclid(12)
    };
    let d = Pitch::parse("D").unwrap();
    for pos in 0..7usize {
        for interval in 0u8..12 {
            let n = diatonic_note_name(d, pos, interval);
            assert!(n.starts_with(&letters[(1 + pos) % 7..(1 + pos) % 7 + 1]));
            if !n.ends_with('?') {
                assert_eq!(pitch_of(&n), (2 + interval as i32) % 12, "{n}");
            }
        }
    }
    let pent = find_scale("Pentatonic").unwrap();
    for name in ["C", "Gb", "F#", "Bb"] {
        let t = Pitch::parse(name).unwrap();
        for interval in 0u8..12 {
            let n = non_heptatonic_note_name(t, interval, &pent);
            assert!(!n.ends_with('?'));
            assert_eq!(pitch_of(&n), (t.semitone as i32 + interval as i32) % 12, "{n}");
        }
    }
}
