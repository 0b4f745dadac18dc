//! The scale choices offered on the command line and the parsed arguments.

use vstd::prelude::*;

use crate::scale::{builtin_scale, builtin_view, find_scale, lemma_builtin_names_found, Scale};

verus! {

/// All scales available for colour generation.
#[derive(Clone, Copy, Debug, PartialEq, Eq, Structural)]
pub enum ScaleChoice {
    /// Major scale.
    Major,
    /// Natural minor scale.
    Aeolian,
    /// Harmonic minor scale (raised VII).
    HarmonicMinor,
    /// Melodic minor scale (raised VI and VII).
    MelodicMinor,
    /// Dorian mode.
    Dorian,
    /// Phrygian mode.
    Phrygian,
    /// Lydian mode (raised IV).
    Lydian,
    /// Mixolydian mode (lowered VII).
    Mixolydian,
    /// Locrian mode (lowered II and V).
    Locrian,
    /// Major pentatonic scale.
    Pentatonic,
    /// Full chromatic palette.
    NoScale,
}

/// Position in the scale catalogue of the scale a choice stands for.
pub open spec fn choice_index(c: ScaleChoice) -> int {
    match c {
        ScaleChoice::Major => 0,
        ScaleChoice::Aeolian => 1,
        ScaleChoice::HarmonicMinor => 2,
        ScaleChoice::MelodicMinor => 3,
        ScaleChoice::Dorian => 4,
        ScaleChoice::Phrygian => 5,
        ScaleChoice::Lydian => 6,
        ScaleChoice::Mixolydian => 7,
        ScaleChoice::Locrian => 8,
        ScaleChoice::Pentatonic => 9,
        ScaleChoice::NoScale => 10,
    }
}

impl ScaleChoice {
    /// Resolves this choice to the corresponding built-in [`Scale`], looked
    /// up by its display name.
    pub fn as_scale(&self) -> (r: Scale)
        ensures
            r@ == builtin_view(choice_index(*self)),
    {
        let name = match self {
            ScaleChoice::Major => "Major",
            ScaleChoice::Aeolian => "Aeolian",
            ScaleChoice::HarmonicMinor => "Harmonic Minor",
            ScaleChoice::MelodicMinor => "Melodic Minor",
            ScaleChoice::Dorian => "Dorian",
            ScaleChoice::Phrygian => "Phrygian",
            ScaleChoice::Lydian => "Lydian",
            ScaleChoice::Mixolydian => "Mixolydian",
            ScaleChoice::Locrian => "Locrian",
            ScaleChoice::Pentatonic => "Pentatonic",
            ScaleChoice::NoScale => "No Scale",
        };
        proof {
            lemma_builtin_names_found(choice_index(*self));
            assert(name@ == builtin_view(choice_index(*self)).name);
        }
        match find_scale(name) {
            Some(s) => s,
            None => {
                assert(false);
                builtin_scale(0)
            },
        }
    }
}

/// Command-line arguments for mixtuur.
pub struct Cli {
    /// Root note of the key.
    pub tonic: String,
    /// Scale or mode to apply.
    pub scale: ScaleChoice,
    /// Show harmonic function labels for every pitch.
    pub explain: bool,
    /// Push the generated palette directly to Cubase's UserPreferences.xml
    pub push: bool,
}

} // verus!
