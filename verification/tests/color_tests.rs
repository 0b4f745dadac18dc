use mixtuur::color::{fifths_position_of, has_interval, pitch_color, COF_COLORS};
use mixtuur::pitch::Pitch;
use mixtuur::scale::find_scale;

/// The CoF mapping `(interval × 7) mod 12` is the mathematical core of
/// Malinowski's Harmonic Coloring.  Verify key theoretical properties:
///   - Root and P5 are adjacent on the CoF (distance 1)
///   - M3 is 4 steps away; m3 is 9 steps (= 3 steps counter-clockwise)
///   - Tritone is exactly opposite (6 steps)
#[test]
fn cof_mapping_theory() {
    let cof = |i: u8| (u32::from(i) * 7 % 12) as usize;
    assert_eq!(cof(0), 0, "Unison: CoF position 0");
    assert_eq!(cof(7), 1, "P5: one step clockwise");
    assert_eq!(cof(2), 2, "M2: two steps");
    assert_eq!(cof(9), 3, "M6: three steps");
    assert_eq!(cof(4), 4, "M3: four steps");
    assert_eq!(cof(11), 5, "M7: five steps");
    assert_eq!(cof(6), 6, "TT: directly opposite");
    assert_eq!(cof(1), 7, "m2: seven steps (= 5 steps ccw)");
    assert_eq!(cof(8), 8, "m6");
    assert_eq!(cof(3), 9, "m3: nine steps (= 3 steps ccw)");
    assert_eq!(cof(10), 10, "m7");
    assert_eq!(cof(5), 11, "P4: eleven steps (= 1 step ccw)");
    for i in 0u8..12 {
        assert_eq!(fifths_position_of(i), cof(i));
    }
}

/// The tonic (I) must be assigned the blue colour (first COF_COLORS entry).
#[test]
fn cof_tonic_is_blue() {
    let (r, g, b) = COF_COLORS[0];
    assert!(r < 100, "tonic blue: low red");
    assert!(g < 150, "tonic blue: moderate green");
    assert!(b > 200, "tonic blue: high blue");
}

/// The tritone (IV#/Vb, CoF position 6) should be yellow as the
/// complementary colour to blue, as in Malinowski's wheel.
#[test]
fn cof_tritone_is_yellow() {
    let (r, g, b) = COF_COLORS[6];
    assert!(r > 200, "tritone yellow: high red");
    assert!(g > 200, "tritone yellow: high green");
    assert!(b < 50, "tritone yellow: low blue");
}

#[test]
fn fifths_position_is_an_involution_and_a_fifth_is_one_step() {
    for i in 0u8..12 {
        let p = fifths_position_of(i);
        assert_eq!(fifths_position_of(p as u8), i as usize);
        let up = fifths_position_of((i + 7) % 12);
        assert_eq!(up, (p + 1) % 12);
    }
}

#[test]
fn pitch_colors_in_d_dorian() {
    let tonic = Pitch::parse("D").unwrap();
    let scale = find_scale("Dorian").unwrap();
    // The tonic is blue and in the scale.
    assert_eq!(pitch_color(2, tonic, &scale), (COF_COLORS[0], true));
    // A (a fifth above D) is one step round the circle.
    assert_eq!(pitch_color(9, tonic, &scale), (COF_COLORS[1], true));
    // G# is the tritone: yellow, out of the scale.
    assert_eq!(pitch_color(8, tonic, &scale), (COF_COLORS[6], false));
    // C# (major seventh) is out of Dorian.
    assert_eq!(pitch_color(1, tonic, &scale), (COF_COLORS[5], false));
    assert!(has_interval(scale.intervals, 9));
    assert!(!has_interval(scale.intervals, 11));
}
