//! The catalogue of built-in scales and lookup by name.

use vstd::prelude::*;

use crate::text::{ascii_lower, char_is_alphanumeric, is_alphanumeric, normalized, push_char, to_ascii_lower};

verus! {

/// A musical scale defined by ascending semitone intervals from the tonic.
#[derive(Clone, Copy, Debug)]
pub struct Scale {
    /// Display name, e.g. `"Harmonic Minor"`.
    pub name: &'static str,
    /// Alternative names accepted by [`find_scale`], e.g. `["minor", "naturalminor"]`.
    pub aliases: &'static [&'static str],
    /// Ascending semitone offsets from the tonic; the first element must be 0.
    pub intervals: &'static [u8],
    /// Circle-of-Fifths offset of this mode relative to Ionian (0).
    ///
    /// Used to determine flat/sharp key-signature spelling for out-of-scale
    /// notes.
    ///
    /// | Mode       | Offset | Rationale                       |
    /// |------------|--------|---------------------------------|
    /// | Lydian     |   +1   | raised IV = one fifth clockwise |
    /// | Ionian     |   --   | reference                       |
    /// | Mixolydian |   −1   | lowered VII = one fifth ccw     |
    /// | Dorian     |   −2   | two fifths ccw                  |
    /// | Aeolian    |   −3   | relative minor of Ionian        |
    /// | Phrygian   |   −4   | four fifths ccw                 |
    /// | Locrian    |   −5   | five fifths ccw                 |
    ///
    /// Harmonic Minor and Melodic Minor use −3 (same key signature as Aeolian);
    /// their raised degrees are chromatic accidentals inside the key.
    pub mode_fifth_offset: i8,
}

/// The mathematical content of a [`Scale`].
pub struct ScaleView {
    pub name: Seq<char>,
    pub aliases: Seq<Seq<char>>,
    pub intervals: Seq<u8>,
    pub mode_fifth_offset: int,
}

impl ScaleView {
    /// Intervals start at the tonic (0), ascend strictly and stay within
    /// the octave.
    pub open spec fn wf(self) -> bool {
        &&& self.intervals.len() >= 1
        &&& self.intervals[0] == 0
        &&& forall|i: int| 0 <= i < self.intervals.len() ==> #[trigger] self.intervals[i] < 12
        &&& forall|i: int, j: int|
            0 <= i < j < self.intervals.len() ==> #[trigger] self.intervals[i]
                < #[trigger] self.intervals[j]
    }
}

impl View for Scale {
    type V = ScaleView;

    open spec fn view(&self) -> ScaleView {
        ScaleView {
            name: self.name@,
            aliases: self.aliases@.map_values(|a: &str| a@),
            intervals: self.intervals@,
            mode_fifth_offset: self.mode_fifth_offset as int,
        }
    }
}

/// Number of built-in scales.
pub const SCALE_COUNT: usize = 11;

/// The built-in scale at `index`, in catalogue order: Major, Aeolian,
/// Harmonic Minor, Melodic Minor, Dorian, Phrygian, Lydian, Mixolydian,
/// Locrian, Pentatonic, No Scale.
pub open spec fn builtin_view(index: int) -> ScaleView {
    let v = |name: Seq<char>, aliases: Seq<Seq<char>>, intervals: Seq<u8>, off: int|
        ScaleView { name, aliases, intervals, mode_fifth_offset: off };
    if index == 0 {
        v("Major"@, seq!["ionian"@], seq![0, 2, 4, 5, 7, 9, 11], 0)
    } else if index == 1 {
        v("Aeolian"@, seq!["minor"@, "naturalminor"@], seq![0, 2, 3, 5, 7, 8, 10], -3)
    } else if index == 2 {
        v("Harmonic Minor"@, seq!["harmonic"@], seq![0, 2, 3, 5, 7, 8, 11], -3)
    } else if index == 3 {
        v("Melodic Minor"@, seq!["melodic"@], seq![0, 2, 3, 5, 7, 9, 11], -3)
    } else if index == 4 {
        v("Dorian"@, seq![], seq![0, 2, 3, 5, 7, 9, 10], -2)
    } else if index == 5 {
        v("Phrygian"@, seq![], seq![0, 1, 3, 5, 7, 8, 10], -4)
    } else if index == 6 {
        v("Lydian"@, seq![], seq![0, 2, 4, 6, 7, 9, 11], 1)
    } else if index == 7 {
        v("Mixolydian"@, seq!["myxolydian"@], seq![0, 2, 4, 5, 7, 9, 10], -1)
    } else if index == 8 {
        v("Locrian"@, seq![], seq![0, 1, 3, 5, 6, 8, 10], -5)
    } else if index == 9 {
        v("Pentatonic"@, seq!["majorpentatonic"@], seq![0, 2, 4, 7, 9], 0)
    } else {
        v(
            "No Scale"@,
            seq!["chromatic"@, "all"@],
            seq![0, 1, 2, 3, 4, 5, 6, 7, 8, 9, 10, 11],
            0,
        )
    }
}

/// The built-in scale at `index` (see [`builtin_view`] for the order).
pub fn builtin_scale(index: usize) -> (r: Scale)
    requires
        index < SCALE_COUNT,
    ensures
        r@ == builtin_view(index as int),
{
    if index == 0 {
        let r = Scale {
            name: "Major",
            aliases: &["ionian"],
            intervals: &[0, 2, 4, 5, 7, 9, 11],
            mode_fifth_offset: 0,
        };
        assert(r@.aliases =~= builtin_view(0).aliases);
        assert(r@.intervals =~= builtin_view(0).intervals);
        r
    } else if index == 1 {
        let r = Scale {
            name: "Aeolian",
            aliases: &["minor", "naturalminor"],
            intervals: &[0, 2, 3, 5, 7, 8, 10],
            mode_fifth_offset: -3,
        };
        assert(r@.aliases =~= builtin_view(1).aliases);
        assert(r@.intervals =~= builtin_view(1).intervals);
        r
    } else if index == 2 {
        let r = Scale {
            name: "Harmonic Minor",
            aliases: &["harmonic"],
            intervals: &[0, 2, 3, 5, 7, 8, 11],
            mode_fifth_offset: -3,
        };
        assert(r@.aliases =~= builtin_view(2).aliases);
        assert(r@.intervals =~= builtin_view(2).intervals);
        r
    } else if index == 3 {
        let r = Scale {
            name: "Melodic Minor",
            aliases: &["melodic"],
            intervals: &[0, 2, 3, 5, 7, 9, 11],
            mode_fifth_offset: -3,
        };
        assert(r@.aliases =~= builtin_view(3).aliases);
        assert(r@.intervals =~= builtin_view(3).intervals);
        r
    } else if index == 4 {
        let r = Scale {
            name: "Dorian",
            aliases: &[],
            intervals: &[0, 2, 3, 5, 7, 9, 10],
            mode_fifth_offset: -2,
        };
        assert(r@.aliases =~= builtin_view(4).aliases);
        assert(r@.intervals =~= builtin_view(4).intervals);
        r
    } else if index == 5 {
        let r = Scale {
            name: "Phrygian",
            aliases: &[],
            intervals: &[0, 1, 3, 5, 7, 8, 10],
            mode_fifth_offset: -4,
        };
        assert(r@.aliases =~= builtin_view(5).aliases);
        assert(r@.intervals =~= builtin_view(5).intervals);
        r
    } else if index == 6 {
        let r = Scale {
            name: "Lydian",
            aliases: &[],
            intervals: &[0, 2, 4, 6, 7, 9, 11],
            mode_fifth_offset: 1,
        };
        assert(r@.aliases =~= builtin_view(6).aliases);
        assert(r@.intervals =~= builtin_view(6).intervals);
        r
    } else if index == 7 {
        let r = Scale {
            name: "Mixolydian",
            aliases: &["myxolydian"],
            intervals: &[0, 2, 4, 5, 7, 9, 10],
            mode_fifth_offset: -1,
        };
        assert(r@.aliases =~= builtin_view(7).aliases);
        assert(r@.intervals =~= builtin_view(7).intervals);
        r
    } else if index == 8 {
        let r = Scale {
            name: "Locrian",
            aliases: &[],
            intervals: &[0, 1, 3, 5, 6, 8, 10],
            mode_fifth_offset: -5,
        };
        assert(r@.aliases =~= builtin_view(8).aliases);
        assert(r@.intervals =~= builtin_view(8).intervals);
        r
    } else if index == 9 {
        let r = Scale {
            name: "Pentatonic",
            aliases: &["majorpentatonic"],
            intervals: &[0, 2, 4, 7, 9],
            mode_fifth_offset: 0,
        };
        assert(r@.aliases =~= builtin_view(9).aliases);
        assert(r@.intervals =~= builtin_view(9).intervals);
        r
    } else {
        let r = Scale {
            name: "No Scale",
            aliases: &["chromatic", "all"],
            intervals: &[0, 1, 2, 3, 4, 5, 6, 7, 8, 9, 10, 11],
            mode_fifth_offset: 0,
        };
        assert(r@.aliases =~= builtin_view(10).aliases);
        assert(r@.intervals =~= builtin_view(10).intervals);
        r
    }
}

/// All built-in scales, in catalogue order.
pub fn builtin_scales() -> (r: [Scale; 11])
    ensures
        forall|i: int| 0 <= i < 11 ==> #[trigger] r@[i]@ == builtin_view(i),
{
    [
        builtin_scale(0),
        builtin_scale(1),
        builtin_scale(2),
        builtin_scale(3),
        builtin_scale(4),
        builtin_scale(5),
        builtin_scale(6),
        builtin_scale(7),
        builtin_scale(8),
        builtin_scale(9),
        builtin_scale(10),
    ]
}

/// Whether the name or one of the aliases of `s` normalises to `key`.
pub open spec fn answers_to(s: ScaleView, key: Seq<char>) -> bool {
    ||| normalized(s.name) == key
    ||| exists|j: int| 0 <= j < s.aliases.len() && normalized(#[trigger] s.aliases[j]) == key
}

/// Index of the first built-in scale at or after `from` that answers to `key`.
pub open spec fn first_answering(key: Seq<char>, from: int) -> Option<int>
    decreases 11 - from,
{
    if from < 0 || from >= 11 {
        None
    } else if answers_to(builtin_view(from), key) {
        Some(from)
    } else {
        first_answering(key, from + 1)
    }
}

/// Index of the built-in scale that [`find_scale`] returns for `name`.
pub open spec fn scale_index_for(name: Seq<char>) -> Option<int> {
    first_answering(normalized(name), 0)
}

/// Strips non-alphanumeric characters and lowercases `s`, producing a
/// normalised key used for fuzzy scale matching.
fn normalize_string(s: &str) -> (r: String)
    ensures
        r@ == normalized(s@),
{
    let n = s.unicode_len();
    let mut out = String::new();
    let mut i: usize = 0;
    assert(s@.subrange(0, 0) =~= Seq::<char>::empty());
    while i < n
        invariant
            n == s@.len(),
            i <= n,
            out@ == normalized(s@.subrange(0, i as int)),
        decreases n - i,
    {
        let c = s.get_char(i);
        assert(s@.subrange(0, i + 1).drop_last() =~= s@.subrange(0, i as int));
        if char_is_alphanumeric(c) {
            push_char(&mut out, to_ascii_lower(c));
        }
        i = i + 1;
    }
    assert(s@.subrange(0, n as int) =~= s@);
    out
}

/// Whether the name or one of the aliases of `s` normalises to `key`.
fn scale_answers_to(s: &Scale, key: &String) -> (r: bool)
    ensures
        r == answers_to(s@, key@),
{
    if normalize_string(s.name) == *key {
        return true;
    }
    let n = s.aliases.len();
    let mut j: usize = 0;
    while j < n
        invariant
            n == s.aliases@.len(),
            j <= n,
            normalized(s.name@) != key@,
            forall|k: int| 0 <= k < j ==> normalized(#[trigger] s@.aliases[k]) != key@,
        decreases n - j,
    {
        if normalize_string(s.aliases[j]) == *key {
            assert(normalized(s@.aliases[j as int]) == key@);
            return true;
        }
        j = j + 1;
    }
    false
}

/// Looks up a scale by name or alias, ignoring case and non-alphanumeric
/// characters.
///
/// Returns `None` when no scale matches.
pub fn find_scale(name: &str) -> (r: Option<Scale>)
    ensures
        match scale_index_for(name@) {
            Some(i) => r is Some && r->0@ == builtin_view(i),
            None => r is None,
        },
{
    let key = normalize_string(name);
    let mut i: usize = 0;
    while i < SCALE_COUNT
        invariant
            key@ == normalized(name@),
            i <= SCALE_COUNT,
            first_answering(key@, 0) == first_answering(key@, i as int),
        decreases SCALE_COUNT - i,
    {
        let s = builtin_scale(i);
        if scale_answers_to(&s, &key) {
            return Some(s);
        }
        i = i + 1;
    }
    None
}

/// The normalised name and aliases of the built-in scale at `index`.
pub open spec fn builtin_keys(index: int) -> Seq<Seq<char>> {
    if index == 0 {
        seq![seq!['m', 'a', 'j', 'o', 'r'], seq!['i', 'o', 'n', 'i', 'a', 'n']]
    } else if index == 1 {
        seq![seq!['a', 'e', 'o', 'l', 'i', 'a', 'n'], seq!['m', 'i', 'n', 'o', 'r'], seq!['n', 'a', 't', 'u', 'r', 'a', 'l', 'm', 'i', 'n', 'o', 'r']]
    } else if index == 2 {
        seq![seq!['h', 'a', 'r', 'm', 'o', 'n', 'i', 'c', 'm', 'i', 'n', 'o', 'r'], seq!['h', 'a', 'r', 'm', 'o', 'n', 'i', 'c']]
    } else if index == 3 {
        seq![seq!['m', 'e', 'l', 'o', 'd', 'i', 'c', 'm', 'i', 'n', 'o', 'r'], seq!['m', 'e', 'l', 'o', 'd', 'i', 'c']]
    } else if index == 4 {
        seq![seq!['d', 'o', 'r', 'i', 'a', 'n']]
    } else if index == 5 {
        seq![seq!['p', 'h', 'r', 'y', 'g', 'i', 'a', 'n']]
    } else if index == 6 {
        seq![seq!['l', 'y', 'd', 'i', 'a', 'n']]
    } else if index == 7 {
        seq![seq!['m', 'i', 'x', 'o', 'l', 'y', 'd', 'i', 'a', 'n'], seq!['m', 'y', 'x', 'o', 'l', 'y', 'd', 'i', 'a', 'n']]
    } else if index == 8 {
        seq![seq!['l', 'o', 'c', 'r', 'i', 'a', 'n']]
    } else if index == 9 {
        seq![seq!['p', 'e', 'n', 't', 'a', 't', 'o', 'n', 'i', 'c'], seq!['m', 'a', 'j', 'o', 'r', 'p', 'e', 'n', 't', 'a', 't', 'o', 'n', 'i', 'c']]
    } else {
        seq![seq!['n', 'o', 's', 'c', 'a', 'l', 'e'], seq!['c', 'h', 'r', 'o', 'm', 'a', 't', 'i', 'c'], seq!['a', 'l', 'l']]
    }
}

/// The normalised name and aliases of each built-in scale are its keys:
/// each literal is read character by character and normalised by
/// evaluation.
#[verifier::spinoff_prover]
proof fn lemma_keys(index: int)
    requires
        0 <= index < SCALE_COUNT,
    ensures
        normalized(builtin_view(index).name) == builtin_keys(index)[0],
        forall|j: int| 0 <= j < builtin_view(index).aliases.len()
            ==> normalized(#[trigger] builtin_view(index).aliases[j]) == builtin_keys(index)[j + 1],
        builtin_keys(index).len() == builtin_view(index).aliases.len() + 1,
{
    if index == 0 {
        reveal_strlit("Major");
        reveal_strlit("ionian");
        assert("Major"@ =~= seq!['M', 'a', 'j', 'o', 'r']);
        assert("ionian"@ =~= seq!['i', 'o', 'n', 'i', 'a', 'n']);
        reveal_with_fuel(normalized, 7);
        assert(normalized(seq!['M', 'a', 'j', 'o', 'r']) =~= seq!['m', 'a', 'j', 'o', 'r']);
        assert(normalized(seq!['i', 'o', 'n', 'i', 'a', 'n']) =~= seq!['i', 'o', 'n', 'i', 'a', 'n']);
    } else if index == 1 {
        reveal_strlit("Aeolian");
        reveal_strlit("minor");
        reveal_strlit("naturalminor");
        assert("Aeolian"@ =~= seq!['A', 'e', 'o', 'l', 'i', 'a', 'n']);
        assert("minor"@ =~= seq!['m', 'i', 'n', 'o', 'r']);
        assert("naturalminor"@ =~= seq!['n', 'a', 't', 'u', 'r', 'a', 'l', 'm', 'i', 'n', 'o', 'r']);
        reveal_with_fuel(normalized, 13);
        assert(normalized(seq!['A', 'e', 'o', 'l', 'i', 'a', 'n']) =~= seq!['a', 'e', 'o', 'l', 'i', 'a', 'n']);
        assert(normalized(seq!['m', 'i', 'n', 'o', 'r']) =~= seq!['m', 'i', 'n', 'o', 'r']);
        assert(normalized(seq!['n', 'a', 't', 'u', 'r', 'a', 'l', 'm', 'i', 'n', 'o', 'r']) =~= seq!['n', 'a', 't', 'u', 'r', 'a', 'l', 'm', 'i', 'n', 'o', 'r']);
    } else if index == 2 {
        reveal_strlit("Harmonic Minor");
        reveal_strlit("harmonic");
        assert("Harmonic Minor"@ =~= seq!['H', 'a', 'r', 'm', 'o', 'n', 'i', 'c', ' ', 'M', 'i', 'n', 'o', 'r']);
        assert("harmonic"@ =~= seq!['h', 'a', 'r', 'm', 'o', 'n', 'i', 'c']);
        reveal_with_fuel(normalized, 15);
        assert(normalized(seq!['H', 'a', 'r', 'm', 'o', 'n', 'i', 'c', ' ', 'M', 'i', 'n', 'o', 'r']) =~= seq!['h', 'a', 'r', 'm', 'o', 'n', 'i', 'c', 'm', 'i', 'n', 'o', 'r']);
        assert(normalized(seq!['h', 'a', 'r', 'm', 'o', 'n', 'i', 'c']) =~= seq!['h', 'a', 'r', 'm', 'o', 'n', 'i', 'c']);
    } else if index == 3 {
        reveal_strlit("Melodic Minor");
        reveal_strlit("melodic");
        assert("Melodic Minor"@ =~= seq!['M', 'e', 'l', 'o', 'd', 'i', 'c', ' ', 'M', 'i', 'n', 'o', 'r']);
        assert("melodic"@ =~= seq!['m', 'e', 'l', 'o', 'd', 'i', 'c']);
        reveal_with_fuel(normalized, 14);
        assert(normalized(seq!['M', 'e', 'l', 'o', 'd', 'i', 'c', ' ', 'M', 'i', 'n', 'o', 'r']) =~= seq!['m', 'e', 'l', 'o', 'd', 'i', 'c', 'm', 'i', 'n', 'o', 'r']);
        assert(normalized(seq!['m', 'e', 'l', 'o', 'd', 'i', 'c']) =~= seq!['m', 'e', 'l', 'o', 'd', 'i', 'c']);
    } else if index == 4 {
        reveal_strlit("Dorian");
        assert("Dorian"@ =~= seq!['D', 'o', 'r', 'i', 'a', 'n']);
        reveal_with_fuel(normalized, 7);
        assert(normalized(seq!['D', 'o', 'r', 'i', 'a', 'n']) =~= seq!['d', 'o', 'r', 'i', 'a', 'n']);
    } else if index == 5 {
        reveal_strlit("Phrygian");
        assert("Phrygian"@ =~= seq!['P', 'h', 'r', 'y', 'g', 'i', 'a', 'n']);
        reveal_with_fuel(normalized, 9);
        assert(normalized(seq!['P', 'h', 'r', 'y', 'g', 'i', 'a', 'n']) =~= seq!['p', 'h', 'r', 'y', 'g', 'i', 'a', 'n']);
    } else if index == 6 {
        reveal_strlit("Lydian");
        assert("Lydian"@ =~= seq!['L', 'y', 'd', 'i', 'a', 'n']);
        reveal_with_fuel(normalized, 7);
        assert(normalized(seq!['L', 'y', 'd', 'i', 'a', 'n']) =~= seq!['l', 'y', 'd', 'i', 'a', 'n']);
    } else if index == 7 {
        reveal_strlit("Mixolydian");
        reveal_strlit("myxolydian");
        assert("Mixolydian"@ =~= seq!['M', 'i', 'x', 'o', 'l', 'y', 'd', 'i', 'a', 'n']);
        assert("myxolydian"@ =~= seq!['m', 'y', 'x', 'o', 'l', 'y', 'd', 'i', 'a', 'n']);
        reveal_with_fuel(normalized, 11);
        assert(normalized(seq!['M', 'i', 'x', 'o', 'l', 'y', 'd', 'i', 'a', 'n']) =~= seq!['m', 'i', 'x', 'o', 'l', 'y', 'd', 'i', 'a', 'n']);
        assert(normalized(seq!['m', 'y', 'x', 'o', 'l', 'y', 'd', 'i', 'a', 'n']) =~= seq!['m', 'y', 'x', 'o', 'l', 'y', 'd', 'i', 'a', 'n']);
    } else if index == 8 {
        reveal_strlit("Locrian");
        assert("Locrian"@ =~= seq!['L', 'o', 'c', 'r', 'i', 'a', 'n']);
        reveal_with_fuel(normalized, 8);
        assert(normalized(seq!['L', 'o', 'c', 'r', 'i', 'a', 'n']) =~= seq!['l', 'o', 'c', 'r', 'i', 'a', 'n']);
    } else if index == 9 {
        reveal_strlit("Pentatonic");
        reveal_strlit("majorpentatonic");
        assert("Pentatonic"@ =~= seq!['P', 'e', 'n', 't', 'a', 't', 'o', 'n', 'i', 'c']);
        assert("majorpentatonic"@ =~= seq!['m', 'a', 'j', 'o', 'r', 'p', 'e', 'n', 't', 'a', 't', 'o', 'n', 'i', 'c']);
        reveal_with_fuel(normalized, 16);
        assert(normalized(seq!['P', 'e', 'n', 't', 'a', 't', 'o', 'n', 'i', 'c']) =~= seq!['p', 'e', 'n', 't', 'a', 't', 'o', 'n', 'i', 'c']);
        assert(normalized(seq!['m', 'a', 'j', 'o', 'r', 'p', 'e', 'n', 't', 'a', 't', 'o', 'n', 'i', 'c']) =~= seq!['m', 'a', 'j', 'o', 'r', 'p', 'e', 'n', 't', 'a', 't', 'o', 'n', 'i', 'c']);
    } else {
        reveal_strlit("No Scale");
        reveal_strlit("chromatic");
        reveal_strlit("all");
        assert("No Scale"@ =~= seq!['N', 'o', ' ', 'S', 'c', 'a', 'l', 'e']);
        assert("chromatic"@ =~= seq!['c', 'h', 'r', 'o', 'm', 'a', 't', 'i', 'c']);
        assert("all"@ =~= seq!['a', 'l', 'l']);
        reveal_with_fuel(normalized, 10);
        assert(normalized(seq!['N', 'o', ' ', 'S', 'c', 'a', 'l', 'e']) =~= seq!['n', 'o', 's', 'c', 'a', 'l', 'e']);
        assert(normalized(seq!['c', 'h', 'r', 'o', 'm', 'a', 't', 'i', 'c']) =~= seq!['c', 'h', 'r', 'o', 'm', 'a', 't', 'i', 'c']);
        assert(normalized(seq!['a', 'l', 'l']) =~= seq!['a', 'l', 'l']);
    }
}

/// Whether `s` answers to `key` is whether `key` is among the built-in keys.
proof fn lemma_answers_to_builtin(index: int, key: Seq<char>)
    requires
        0 <= index < SCALE_COUNT,
    ensures
        answers_to(builtin_view(index), key) <==> builtin_keys(index).contains(key),
{
    let v = builtin_view(index);
    let ks = builtin_keys(index);
    lemma_keys(index);
    if answers_to(v, key) {
        if normalized(v.name) == key {
            assert(ks[0] == key);
        } else {
            let j = choose|j: int| 0 <= j < v.aliases.len() && normalized(#[trigger] v.aliases[j]) == key;
            assert(ks[j + 1] == key);
        }
    }
    if ks.contains(key) {
        let k = choose|k: int| 0 <= k < ks.len() && ks[k] == key;
        if k > 0 {
            assert(normalized(v.aliases[k - 1]) == key);
        }
    }
}

/// No two built-in scales share a normalised name or alias.
proof fn lemma_keys_distinct(m1: int, m2: int, key: Seq<char>)
    requires
        0 <= m1 < SCALE_COUNT,
        0 <= m2 < SCALE_COUNT,
        builtin_keys(m1).contains(key),
        builtin_keys(m2).contains(key),
    ensures
        m1 == m2,
{
    let k1 = choose|k: int| 0 <= k < builtin_keys(m1).len() && builtin_keys(m1)[k] == key;
    let k2 = choose|k: int| 0 <= k < builtin_keys(m2).len() && builtin_keys(m2)[k] == key;
    assert(builtin_keys(m1)[k1] == builtin_keys(m2)[k2]);
    assert(builtin_keys(m1)[k1][0] == builtin_keys(m2)[k2][0]);
    assert(builtin_keys(m1)[k1].len() == builtin_keys(m2)[k2].len());
}

proof fn lemma_first_answering_from(key: Seq<char>, from: int, index: int)
    requires
        0 <= from <= index < SCALE_COUNT,
        builtin_keys(index).contains(key),
    ensures
        first_answering(key, from) == Some(index),
    decreases index - from,
{
    lemma_answers_to_builtin(from, key);
    if from < index {
        if builtin_keys(from).contains(key) {
            lemma_keys_distinct(from, index, key);
        }
        lemma_first_answering_from(key, from + 1, index);
    }
}

/// Every built-in scale is found by its display name and by each of its
/// aliases.
pub proof fn lemma_builtin_names_found(index: int)
    requires
        0 <= index < SCALE_COUNT,
    ensures
        scale_index_for(builtin_view(index).name) == Some(index),
        forall|j: int| 0 <= j < builtin_view(index).aliases.len()
            ==> scale_index_for(#[trigger] builtin_view(index).aliases[j]) == Some(index),
{
    let v = builtin_view(index);
    lemma_keys(index);
    assert(builtin_keys(index)[0] == normalized(v.name));
    lemma_first_answering_from(normalized(v.name), 0, index);
    assert forall|j: int| 0 <= j < v.aliases.len() implies scale_index_for(
        #[trigger] v.aliases[j],
    ) == Some(index) by {
        assert(builtin_keys(index)[j + 1] == normalized(v.aliases[j]));
        lemma_first_answering_from(normalized(v.aliases[j]), 0, index);
    }
}

/// Normalising twice changes nothing more than normalising once.
pub proof fn lemma_normalized_idempotent(s: Seq<char>)
    ensures
        normalized(normalized(s)) == normalized(s),
    decreases s.len(),
{
    if s.len() > 0 {
        lemma_normalized_idempotent(s.drop_last());
        let rest = normalized(s.drop_last());
        if is_alphanumeric(s.last()) {
            let pushed = rest.push(ascii_lower(s.last()));
            assert(pushed.drop_last() =~= rest);
        }
    }
}

/// Looking up an already normalised name finds the same scale as the name
/// itself: case and characters other than letters and digits are ignored.
pub proof fn lemma_lookup_ignores_case_and_punctuation(name: Seq<char>)
    ensures
        scale_index_for(normalized(name)) == scale_index_for(name),
{
    lemma_normalized_idempotent(name);
}

/// Every built-in scale starts at the tonic, ascends strictly and stays
/// within the octave.
pub proof fn lemma_builtin_scales_wf(index: int)
    requires
        0 <= index < SCALE_COUNT,
    ensures
        builtin_view(index).wf(),
{
}

} // verus!
