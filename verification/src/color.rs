//! The Circle-of-Fifths palette.
//!
//! Malinowski maps the artist's colour wheel onto the circle of fifths:
//! adjacent fifths are adjacent hues and the tonic (I) is blue.  Each palette
//! entry is indexed by Circle-of-Fifths position (0 = I, 1 = V, 2 = II ...);
//! a semitone interval sits at position `(interval × 7) % 12`, since
//! seven semitones make a fifth.  The values match the Cubase 12
//! "Harmonic Colors" pitch palette.

use vstd::prelude::*;

use crate::pitch::{fifths_position, Pitch};
use crate::scale::Scale;

verus! {

/// RGB triples for the twelve Circle-of-Fifths positions (0 = tonic, 1 = P5 ...).
pub const COF_COLORS: [(u8, u8, u8); 12] = [
    (0x3D, 0x70, 0xE8),
    (0x7C, 0x4E, 0xED),
    (0xA7, 0x4C, 0xF0),
    (0xD2, 0x47, 0xF0),
    (0xF9, 0x19, 0x2D),
    (0xF3, 0x8B, 0x1B),
    (0xE3, 0xE3, 0x00),
    (0xEB, 0xB7, 0x00),
    (0x00, 0xDF, 0x50),
    (0x00, 0xDF, 0xB1),
    (0x00, 0xDF, 0xDE),
    (0x1D, 0x94, 0xE4),
];


/// Interval from the tonic up to pitch class `semitone`.
pub open spec fn interval_above_tonic(tonic: Pitch, semitone: int) -> int {
    (semitone + 12 - tonic.semitone) % 12
}

/// Circle-of-Fifths position of a semitone interval.
pub fn fifths_position_of(interval: u8) -> (r: usize)
    ensures
        r as int == fifths_position(interval as int),
        r < 12,
{
    ((interval as u32 * 7) % 12) as usize
}

/// Whether `interval` is one of `intervals`.
pub fn has_interval(intervals: &[u8], interval: u8) -> (r: bool)
    ensures
        r == intervals@.contains(interval),
{
    let n = intervals.len();
    let mut i: usize = 0;
    while i < n
        invariant
            n == intervals@.len(),
            i <= n,
            forall|k: int| 0 <= k < i ==> intervals@[k] != interval,
        decreases n - i,
    {
        if intervals[i] == interval {
            assert(intervals@[i as int] == interval);
            return true;
        }
        i = i + 1;
    }
    false
}

/// The palette colour of pitch class `semitone` in the key of `tonic`, and
/// whether it belongs to `scale`: the colour is the palette entry at the
/// Circle-of-Fifths position of the interval from the tonic.
pub fn pitch_color(semitone: u8, tonic: Pitch, scale: &Scale) -> (r: ((u8, u8, u8), bool))
    requires
        semitone < 12,
        tonic.semitone <= 12,
    ensures
        r.0 == COF_COLORS@[fifths_position(interval_above_tonic(tonic, semitone as int))],
        r.1 == scale.intervals@.contains(interval_above_tonic(tonic, semitone as int) as u8),
{
    let interval = (semitone + 12 - tonic.semitone) % 12;
    let position = fifths_position_of(interval);
    (COF_COLORS[position], has_interval(scale.intervals, interval))
}

/// Twelve fifths make the octave: mapping an interval to its
/// Circle-of-Fifths position twice gives the interval back (7 × 7 = 49 ≡ 1
/// mod 12), so distinct intervals get distinct palette entries.
pub proof fn lemma_fifths_position_involution(interval: int)
    requires
        0 <= interval < 12,
    ensures
        0 <= fifths_position(interval) < 12,
        fifths_position(fifths_position(interval)) == interval,
{
    assert(((interval * 7) % 12) * 7 % 12 == interval) by (nonlinear_arith)
        requires
            0 <= interval < 12,
    ;
}

/// Going up a fifth (seven semitones) moves one step clockwise on the
/// Circle of Fifths.
pub proof fn lemma_fifth_up_is_one_step(interval: int)
    ensures
        fifths_position((interval + 7) % 12) == (fifths_position(interval) + 1) % 12,
{
    assert(((interval + 7) % 12) * 7 % 12 == ((interval * 7) % 12 + 1) % 12) by (nonlinear_arith);
}
/// Colour and membership are measured from the tonic as it is spelled
/// (accidental included): the pitch class `i` semitones above the tonic sits
/// at interval `i`, so it takes palette entry `i × 7 mod 12`, and the tonic
/// itself is always blue (palette entry 0).
pub proof fn lemma_measured_from_tonic(tonic: Pitch, i: int)
    requires
        tonic.semitone < 12,
        0 <= i < 12,
    ensures
        interval_above_tonic(tonic, (tonic.semitone + i) % 12) == i,
        COF_COLORS@[fifths_position(interval_above_tonic(tonic, (tonic.semitone + i) % 12))]
            == COF_COLORS@[(i * 7) % 12],
        COF_COLORS@[fifths_position(interval_above_tonic(tonic, tonic.semitone as int))]
            == COF_COLORS@[0],
{
}

} // verus!
