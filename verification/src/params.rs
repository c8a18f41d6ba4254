//! The synthesis parameters and the knobs that set them.

use vstd::prelude::*;
use crate::fraction::Fraction;
use crate::midi::MidiEvent;

verus! {

/// Controller id of the knob that sets the volume.
pub const KNOB_VOLUME: u8 = 7;

/// Controller id of the knob that sets the modulation rate.
pub const KNOB_RATIO: u8 = 72;

/// Controller id of the knob that sets the modulation depth.
pub const KNOB_SIZE: u8 = 73;

/// The controller value that stands for one.
pub const KNOB_FULL: u32 = 127;

/// The level that a knob at `value` stands for: `value / 127`.
pub open spec fn knob_level(value: u8) -> Fraction {
    Fraction { num: value as u32, den: KNOB_FULL }
}

/// Whether a knob with this controller id sets a parameter.
pub open spec fn is_mapped_knob(id: u8) -> bool {
    id == KNOB_VOLUME || id == KNOB_RATIO || id == KNOB_SIZE
}

/// The continuously variable parameters of the sound.
#[derive(Clone, Copy, Debug, PartialEq, Eq, Structural)]
pub struct Params {
    /// How loud every voice is.
    pub volume: Fraction,
    /// How fast the pitch of a voice swings around its key's pitch.
    pub ratio: Fraction,
    /// How far it swings.
    pub size: Fraction,
}

impl Params {
    /// Every parameter can be divided out.
    pub open spec fn valid(self) -> bool {
        self.volume.valid() && self.ratio.valid() && self.size.valid()
    }

    /// The parameters that a synthesizer starts with.
    pub open spec fn initial() -> Params {
        Params {
            volume: Fraction { num: 1, den: 10 },
            ratio: Fraction { num: 1, den: 2 },
            size: Fraction { num: 1, den: 2 },
        }
    }

    /// The parameters after the knob `id` was turned to `value`. A knob
    /// that sets no parameter changes nothing.
    pub open spec fn turned(self, id: u8, value: u8) -> Params {
        if id == KNOB_VOLUME {
            Params { volume: knob_level(value), ratio: self.ratio, size: self.size }
        } else if id == KNOB_RATIO {
            Params { volume: self.volume, ratio: knob_level(value), size: self.size }
        } else if id == KNOB_SIZE {
            Params { volume: self.volume, ratio: self.ratio, size: knob_level(value) }
        } else {
            self
        }
    }

    /// The parameters after `event`. Only knob events touch them.
    pub open spec fn after_event(self, event: MidiEvent) -> Params {
        match event {
            MidiEvent::Knob(id, value) => self.turned(id, value),
            _ => self,
        }
    }

    /// Whether `event` is one that sets a parameter.
    pub open spec fn is_setting(event: MidiEvent) -> bool {
        event matches MidiEvent::Knob(id, _) && is_mapped_knob(id)
    }

    /// The parameters that a synthesizer starts with: a tenth of the full
    /// volume, and modulation rate and depth at one half.
    pub fn new() -> (params: Params)
        ensures
            params == Params::initial(),
            params.valid(),
    {
        Params {
            volume: Fraction { num: 1, den: 10 },
            ratio: Fraction { num: 1, den: 2 },
            size: Fraction { num: 1, den: 2 },
        }
    }

    /// Turns the knob `id` to `value` and tells whether that knob sets a
    /// parameter.
    pub fn turn_knob(&mut self, id: u8, value: u8) -> (mapped: bool)
        ensures
            *final(self) == old(self).turned(id, value),
            mapped == is_mapped_knob(id),
            old(self).valid() ==> final(self).valid(),
    {
        let level = Fraction { num: value as u32, den: KNOB_FULL };
        match id {
            7 => {
                self.volume = level;
                true
            },
            73 => {
                self.size = level;
                true
            },
            72 => {
                self.ratio = level;
                true
            },
            _ => false,
        }
    }

    /// Applies `event` and tells whether it set a parameter. Any other
    /// event, a knob without a parameter too, leaves the parameters as
    /// they are.
    pub fn apply(&mut self, event: MidiEvent) -> (set: bool)
        ensures
            *final(self) == old(self).after_event(event),
            set == Params::is_setting(event),
            old(self).valid() ==> final(self).valid(),
    {
        match event {
            MidiEvent::Knob(id, value) => self.turn_knob(id, value),
            _ => false,
        }
    }
}

/// A knob value that MIDI can carry, one of seven bits, gives a level
/// between zero and one; the lowest gives zero and the highest gives one.
pub proof fn knob_level_in_unit_range(value: u8)
    ensures
        knob_level(value).valid(),
        value <= 127 <==> knob_level(value).in_unit_range(),
        value == 0 <==> knob_level(value).is_zero(),
        value == 127 <==> knob_level(value).is_one(),
{
}

/// A knob that sets no parameter leaves every parameter as it was, and a
/// knob that sets one leaves the other two.
pub proof fn knob_touches_its_parameter_only(params: Params, id: u8, value: u8)
    ensures
        !is_mapped_knob(id) ==> params.turned(id, value) == params,
        id != KNOB_VOLUME ==> params.turned(id, value).volume == params.volume,
        id != KNOB_RATIO ==> params.turned(id, value).ratio == params.ratio,
        id != KNOB_SIZE ==> params.turned(id, value).size == params.size,
        id == KNOB_VOLUME ==> params.turned(id, value).volume == knob_level(value),
        id == KNOB_RATIO ==> params.turned(id, value).ratio == knob_level(value),
        id == KNOB_SIZE ==> params.turned(id, value).size == knob_level(value),
{
}

} // verus!
