use mixtuur::degree::{
    build_comment, degree_name_heptatonic, function_label, interval_to_degree_symbol,
    is_characteristic,
};
use mixtuur::scale::{builtin_scales, find_scale};

#[test]
fn comment_format_major() {
    let scale = find_scale("Major").unwrap();
    assert_eq!(build_comment(0, true, &scale), "(T) Tonic");
    assert_eq!(build_comment(2, true, &scale), "(S) Supertonic");
    assert_eq!(build_comment(4, true, &scale), "(T) Mediant");
    assert_eq!(build_comment(5, true, &scale), "(S) Subdominant");
    assert_eq!(build_comment(7, true, &scale), "(D) Dominant");
    assert_eq!(build_comment(9, true, &scale), "(T) Submediant");
    assert_eq!(build_comment(11, true, &scale), "(D) Leading tone");
}

#[test]
fn comment_characteristic_marking() {
    let lydian = find_scale("Lydian").unwrap();
    let mixo = find_scale("Mixolydian").unwrap();
    let dorian = find_scale("Dorian").unwrap();
    let phrygian = find_scale("Phrygian").unwrap();
    let locrian = find_scale("Locrian").unwrap();

    assert!(
        build_comment(6, true, &lydian).contains("[char.]"),
        "Lydian IV# should be [char.]"
    );
    assert!(
        !build_comment(0, true, &lydian).contains("[char.]"),
        "Tonic should not be [char.]"
    );
    assert!(
        build_comment(10, true, &mixo).contains("[char.]"),
        "Mixolydian VIIb should be [char.]"
    );
    assert!(
        build_comment(9, true, &dorian).contains("[char.]"),
        "Dorian VI= should be [char.]"
    );
    assert!(
        build_comment(1, true, &phrygian).contains("[char.]"),
        "Phrygian IIb should be [char.]"
    );
    assert!(
        build_comment(6, true, &locrian).contains("[char.]"),
        "Locrian Vb should be [char.]"
    );
}

#[test]
fn comment_locrian_no_dominant_function() {
    let locrian = find_scale("Locrian").unwrap();
    let comment = build_comment(6, true, &locrian); // Vb
    assert!(
        comment.starts_with("   "),
        "Locrian Vb has no dominant function: {comment}"
    );
}

#[test]
fn comment_harmonic_minor_raised_degrees() {
    let scale = find_scale("Harmonic Minor").unwrap();
    let lt = build_comment(11, true, &scale);
    assert!(
        lt.contains("VII♯"),
        "Harmonic minor leading tone should be VII♯: {lt}"
    );
    assert!(
        lt.contains("[char.]"),
        "VII♯ should be characteristic: {lt}"
    );
    assert!(
        lt.starts_with("(D)"),
        "Leading tone is dominant function: {lt}"
    );
}

#[test]
fn comment_melodic_minor_raised_degrees() {
    let scale = find_scale("Melodic Minor").unwrap();
    let vi = build_comment(9, true, &scale);
    let vii = build_comment(11, true, &scale);
    assert!(vi.contains("VI♯"), "Melodic minor raised VI: {vi}");
    assert!(vii.contains("VII♯"), "Melodic minor raised VII: {vii}");
}

#[test]
fn comment_out_of_scale_chromatic() {
    let major = find_scale("Major").unwrap();
    let neap = build_comment(1, false, &major);
    let flat7 = build_comment(10, false, &major);

    assert!(
        neap.starts_with("   "),
        "Out-of-scale comment starts with spaces: {neap}"
    );
    assert!(neap.contains("II♭"), "Should label the degree: {neap}");
    assert!(flat7.contains("VII♭"), "Should label VII♭: {flat7}");
}

#[test]
fn comment_aeolian_subtonic() {
    let scale = find_scale("Aeolian").unwrap();
    let comment = build_comment(10, true, &scale);
    assert!(
        comment.contains("Subtonic"),
        "Aeolian VII is a subtonic: {comment}"
    );
    assert!(
        !comment.contains("Leading"),
        "Should NOT say 'Leading tone': {comment}"
    );
}

#[test]
fn degree_name_quality_suffixes() {
    let ionian_intervals: [u8; 7] = [0, 2, 4, 5, 7, 9, 11];
    for (pos, &int) in ionian_intervals.iter().enumerate() {
        let name = degree_name_heptatonic(pos, int);
        assert!(
            !name.contains('♭') && !name.contains('♯'),
            "Ionian pos {pos} (interval {int}) should have no suffix: {name}"
        );
    }
    assert_eq!(degree_name_heptatonic(3, 6), "Subdominant♯");
    assert_eq!(degree_name_heptatonic(1, 1), "Supertonic♭");
    assert_eq!(degree_name_heptatonic(4, 6), "Dominant♭");
    assert_eq!(degree_name_heptatonic(6, 10), "Subtonic");
    assert_eq!(degree_name_heptatonic(6, 11), "Leading tone");
}

#[test]
fn function_label_major_submediant_is_tonic() {
    assert_eq!(function_label(5, 9, true), "(T)");
    assert_eq!(function_label(5, 8, false), "(S)");
}

#[test]
fn function_label_locrian_flat_fifth_no_dominant() {
    assert_eq!(function_label(4, 6, false), "   ");
    assert_eq!(function_label(4, 7, false), "(D)");
}

#[test]
fn build_comment_never_panics_for_any_scale_and_interval() {
    for scale in builtin_scales().iter() {
        for &interval in scale.intervals {
            let c = build_comment(interval, true, scale);
            assert!(
                !c.is_empty(),
                "Scale '{}', interval {interval}: comment is empty",
                scale.name
            );
        }
        for interval in 0u8..12 {
            if !scale.intervals.contains(&interval) {
                let c = build_comment(interval, false, scale);
                assert!(
                    !c.is_empty(),
                    "Scale '{}', chromatic interval {interval}: out-of-scale comment empty",
                    scale.name
                );
            }
        }
    }
}

#[test]
fn comment_exact_texts() {
    let major = find_scale("Major").unwrap();
    assert_eq!(build_comment(1, false, &major), "    II♭, Neapolitan chord (II♭, borrowed from Phrygian)");
    assert_eq!(build_comment(6, false, &major), "    IV♯/V♭, Tritone (IV♯ or V♭)");
    let aeolian = find_scale("Aeolian").unwrap();
    assert_eq!(build_comment(11, false, &aeolian), "    VII, VII♯ leading tone (harmonic minor)");
    assert_eq!(build_comment(10, true, &aeolian), "(D) Subtonic");
    assert_eq!(build_comment(8, true, &aeolian), "(S) Submediant♭");
    let lydian = find_scale("Lydian").unwrap();
    assert_eq!(build_comment(6, true, &lydian), "(S) Subdominant♯ [char.]");
    let harmonic = find_scale("Harmonic Minor").unwrap();
    assert_eq!(build_comment(7, true, &harmonic), "(D) Dominant");
    assert_eq!(build_comment(3, true, &harmonic), "(T) Mediant♭");
    let melodic = find_scale("Melodic Minor").unwrap();
    assert_eq!(build_comment(9, true, &melodic), "(S) Submediant VI♯ [char.]");
    let pent = find_scale("Pentatonic").unwrap();
    assert_eq!(build_comment(7, true, &pent), "(D) Dominant");
    assert_eq!(build_comment(9, true, &pent), "(T) Submediant");
    let chromatic = find_scale("No Scale").unwrap();
    assert_eq!(build_comment(6, true, &chromatic), "    IV#/Vb");
    assert_eq!(build_comment(9, true, &chromatic), "(T) VI");
    assert_eq!(build_comment(11, true, &chromatic), "(D) VII");
}

#[test]
fn comment_for_other_scale_shapes_names_the_interval() {
    let custom = mixtuur::scale::Scale {
        name: "Whole Tone",
        aliases: &[],
        intervals: &[0, 2, 4, 6, 8, 10],
        mode_fifth_offset: 0,
    };
    assert_eq!(build_comment(10, true, &custom), "    interval 10");
    assert_eq!(build_comment(4, true, &custom), "    interval 4");
}

#[test]
fn degree_symbols_and_characteristic_tones() {
    let symbols = ["I", "IIb", "II", "IIIb", "III", "IV", "IV#/Vb", "V", "VIb", "VI", "VIIb", "VII"];
    for (i, s) in symbols.iter().enumerate() {
        assert_eq!(interval_to_degree_symbol(i as u8), *s);
    }
    assert_eq!(interval_to_degree_symbol(12), "?");
    assert!(is_characteristic(3, 6, 1));
    assert!(!is_characteristic(3, 5, 1));
    assert!(is_characteristic(6, 10, -1));
    assert!(is_characteristic(5, 9, -2));
    assert!(is_characteristic(1, 1, -4));
    assert!(is_characteristic(4, 6, -5));
    assert!(!is_characteristic(0, 0, 0));
    assert!(!is_characteristic(6, 10, -3));
}

#[test]
fn each_mode_has_its_characteristic_tones() {
    for scale in builtin_scales().iter() {
        let count = scale
            .intervals
            .iter()
            .enumerate()
            .filter(|&(pos, &int)| is_characteristic(pos, int, scale.mode_fifth_offset))
            .count();
        let expected = match scale.name {
            "Dorian" | "Phrygian" | "Lydian" | "Mixolydian" | "Locrian" => 1,
            _ => 0,
        };
        assert_eq!(count, expected, "{}", scale.name);
    }
}
