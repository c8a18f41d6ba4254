//! Where a key lies on the equal-tempered scale.
//!
//! A key's pitch is the reference pitch times the twelfth root of two
//! raised to the key's distance from the reference key. The distance is
//! settled here; raising the root to it is left to the renderer.

use vstd::prelude::*;

verus! {

/// The key that sounds at the reference pitch.
pub const REFERENCE_KEY: u8 = 49;

/// The reference pitch, in cycles per second.
pub const REFERENCE_HZ: u32 = 440;

/// Keys from one octave to the next.
pub const SEMITONES_PER_OCTAVE: u8 = 12;

/// How many semitones `key` lies above the reference key; negative below.
pub open spec fn semitones_above_reference(key: u8) -> int {
    key - REFERENCE_KEY
}

/// How many semitones `key` lies above the reference key; negative below.
pub fn semitone_offset(key: u8) -> (offset: i32)
    ensures
        offset == semitones_above_reference(key),
{
    key as i32 - REFERENCE_KEY as i32
}

/// The reference key lies no semitone from itself, a key one octave higher
/// lies twelve above its lower, a higher key lies further up, and no two
/// keys lie at the same distance.
pub proof fn keys_lie_at_their_own_distance(key: u8, other: u8)
    ensures
        semitones_above_reference(REFERENCE_KEY) == 0,
        other == key + SEMITONES_PER_OCTAVE ==> semitones_above_reference(other)
            == semitones_above_reference(key) + 12,
        key < other <==> semitones_above_reference(key) < semitones_above_reference(other),
        key == other <==> semitones_above_reference(key) == semitones_above_reference(other),
{
}

} // verus!
