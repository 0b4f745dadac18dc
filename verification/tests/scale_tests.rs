use mixtuur::cli::ScaleChoice;
use mixtuur::scale::{builtin_scales, find_scale};

#[test]
fn scale_lookup_aliases_and_normalization() {
    assert_eq!(find_scale("Harmonic Minor").unwrap().name, "Harmonic Minor");
    assert_eq!(find_scale("harmonicminor").unwrap().name, "Harmonic Minor");
    assert_eq!(find_scale("IONIAN").unwrap().name, "Major");
    assert_eq!(find_scale("minor").unwrap().name, "Aeolian");
    assert_eq!(find_scale("Myxolydian").unwrap().name, "Mixolydian");
    assert!(find_scale("Lydian Dominant").is_none());
}

#[test]
fn scale_lookup_doc_examples() {
    assert_eq!(find_scale("Major").unwrap().name, "Major");
    assert_eq!(find_scale("IONIAN").unwrap().name, "Major");
    assert_eq!(find_scale("harmonicminor").unwrap().name, "Harmonic Minor");
    assert!(find_scale("Lydian Dominant").is_none());
}

#[test]
fn scale_lookup_ignores_punctuation() {
    assert_eq!(find_scale("harmonic-minor").unwrap().name, "Harmonic Minor");
    assert_eq!(find_scale("  No_Scale!").unwrap().name, "No Scale");
    assert_eq!(find_scale("ALL").unwrap().name, "No Scale");
    assert_eq!(find_scale("major pentatonic").unwrap().name, "Pentatonic");
    assert!(find_scale("").is_none());
    assert!(find_scale("--").is_none());
}

#[test]
fn every_builtin_scale_found_by_name_and_alias() {
    for scale in builtin_scales().iter() {
        assert_eq!(find_scale(scale.name).unwrap().name, scale.name);
        for alias in scale.aliases {
            assert_eq!(find_scale(alias).unwrap().name, scale.name);
        }
        assert_eq!(scale.intervals[0], 0);
        assert!(scale.intervals.windows(2).all(|w| w[0] < w[1]));
    }
}

#[test]
fn scale_choices_resolve_to_their_scales() {
    let expected = [
        (ScaleChoice::Major, "Major", 0i8),
        (ScaleChoice::Aeolian, "Aeolian", -3),
        (ScaleChoice::HarmonicMinor, "Harmonic Minor", -3),
        (ScaleChoice::MelodicMinor, "Melodic Minor", -3),
        (ScaleChoice::Dorian, "Dorian", -2),
        (ScaleChoice::Phrygian, "Phrygian", -4),
        (ScaleChoice::Lydian, "Lydian", 1),
        (ScaleChoice::Mixolydian, "Mixolydian", -1),
        (ScaleChoice::Locrian, "Locrian", -5),
        (ScaleChoice::Pentatonic, "Pentatonic", 0),
        (ScaleChoice::NoScale, "No Scale", 0),
    ];
    for (choice, name, offset) in expected {
        let scale = choice.as_scale();
        assert_eq!(scale.name, name);
        assert_eq!(scale.mode_fifth_offset, offset);
    }
    assert_eq!(ScaleChoice::Pentatonic.as_scale().intervals, &[0, 2, 4, 7, 9]);
    assert_eq!(ScaleChoice::NoScale.as_scale().intervals.len(), 12);
}
