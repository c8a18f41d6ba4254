//! The shape of one audio buffer: how many slots it has, and how much a
//! voice weighs at each of them.

use vstd::prelude::*;
use crate::fraction::Fraction;
use crate::voice::Voice;

verus! {

/// Slots in one buffer.
pub const FRAMES: usize = 256;

/// Slots that the output plays in one second.
pub const SAMPLE_RATE: u32 = 44_100;

/// The weight of a fading voice at `slot`: `1 - slot / FRAMES`, written as
/// one fraction over `FRAMES`.
pub open spec fn fade_at(slot: int) -> Fraction {
    Fraction { num: (FRAMES - slot) as u32, den: FRAMES as u32 }
}

/// The weight of `voice` at `slot`: one while its key is down, the fade
/// once it is up.
pub open spec fn gain_at(voice: Voice, slot: int) -> Fraction {
    if voice.alive {
        Fraction { num: FRAMES as u32, den: FRAMES as u32 }
    } else {
        fade_at(slot)
    }
}

/// Whether a buffer of `frames` slots is one that this synthesizer fills.
pub fn frames_match(frames: u32) -> (matches: bool)
    ensures
        matches == (frames == FRAMES),
{
    frames == 256
}

/// The weight of a fading voice at `slot` of the buffer.
pub fn fade(slot: usize) -> (weight: Fraction)
    requires
        slot < FRAMES,
    ensures
        weight == fade_at(slot as int),
{
    Fraction { num: (FRAMES - slot) as u32, den: FRAMES as u32 }
}

/// The weight of `voice` at `slot` of the buffer.
pub fn gain(voice: Voice, slot: usize) -> (weight: Fraction)
    requires
        slot < FRAMES,
    ensures
        weight == gain_at(voice, slot as int),
{
    if voice.alive {
        Fraction { num: FRAMES as u32, den: FRAMES as u32 }
    } else {
        fade(slot)
    }
}

/// The fade starts at one, stays above zero to the last slot of the
/// buffer, and is there one part in `FRAMES`.
pub proof fn fade_spans_the_buffer(slot: int)
    requires
        0 <= slot < FRAMES,
    ensures
        fade_at(slot).in_unit_range(),
        !fade_at(slot).is_zero(),
        fade_at(slot).is_one() <==> slot == 0,
        fade_at(FRAMES - 1) == (Fraction { num: 1, den: FRAMES as u32 }),
{
}

/// The fade falls from slot to slot, by the same step each time.
pub proof fn fade_falls_evenly(earlier: int, later: int)
    requires
        0 <= earlier < later < FRAMES,
    ensures
        fade_at(later).less_than(fade_at(earlier)),
        fade_at(earlier).num - fade_at(later).num == later - earlier,
        fade_at(earlier).den == fade_at(later).den,
{
    let step = fade_at(earlier).den as int;
    assert(fade_at(later).num * step < fade_at(earlier).num * step) by (nonlinear_arith)
        requires
            fade_at(later).num < fade_at(earlier).num,
            step > 0,
    ;
}

/// A voice whose key is down weighs one at every slot, a fading voice
/// weighs the fade, and no voice ever weighs more than one.
pub proof fn gain_follows_the_key(voice: Voice, slot: int)
    requires
        0 <= slot < FRAMES,
    ensures
        gain_at(voice, slot).in_unit_range(),
        voice.alive ==> gain_at(voice, slot).is_one(),
        !voice.alive ==> gain_at(voice, slot) == fade_at(slot),
{
}

} // verus!
