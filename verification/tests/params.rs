use midi_synth::fraction::Fraction;
use midi_synth::midi::MidiEvent;
use midi_synth::params::{Params, KNOB_FULL, KNOB_RATIO, KNOB_SIZE, KNOB_VOLUME};

#[test]
fn initial_parameters() {
    let params = Params::new();
    assert_eq!(params.volume, Fraction { num: 1, den: 10 });
    assert_eq!(params.ratio, Fraction { num: 1, den: 2 });
    assert_eq!(params.size, Fraction { num: 1, den: 2 });
    assert_eq!(params.volume.num as f64 / params.volume.den as f64, 0.1);
    assert_eq!(params.ratio.num as f64 / params.ratio.den as f64, 0.5);
}

#[test]
fn knob_ids() {
    assert_eq!(KNOB_VOLUME, 7);
    assert_eq!(KNOB_RATIO, 72);
    assert_eq!(KNOB_SIZE, 73);
    assert_eq!(KNOB_FULL, 127);
}

#[test]
fn volume_knob_at_full_sets_volume_to_one() {
    let mut params = Params::new();
    assert!(params.apply(MidiEvent::Knob(7, 127)));
    assert_eq!(params.volume, Fraction { num: 127, den: 127 });
    assert_eq!(params.volume.num as f64 / params.volume.den as f64, 1.0);
    assert_eq!(params.ratio, Fraction { num: 1, den: 2 });
    assert_eq!(params.size, Fraction { num: 1, den: 2 });
}

#[test]
fn volume_knob_at_zero_sets_volume_to_zero() {
    let mut params = Params::new();
    assert!(params.apply(MidiEvent::Knob(7, 0)));
    assert_eq!(params.volume, Fraction { num: 0, den: 127 });
    assert_eq!(params.volume.num as f64 / params.volume.den as f64, 0.0);
}

#[test]
fn size_and_ratio_knobs_set_their_parameter() {
    let mut params = Params::new();
    assert!(params.turn_knob(73, 64));
    assert_eq!(params.size, Fraction { num: 64, den: 127 });
    assert_eq!(params.ratio, Fraction { num: 1, den: 2 });
    assert!(params.turn_knob(72, 1));
    assert_eq!(params.ratio, Fraction { num: 1, den: 127 });
    assert_eq!(params.size, Fraction { num: 64, den: 127 });
    assert_eq!(params.volume, Fraction { num: 1, den: 10 });
}

#[test]
fn unmapped_knob_leaves_parameters_unchanged() {
    for id in 0..=255u8 {
        if id == 7 || id == 72 || id == 73 {
            continue;
        }
        let mut params = Params::new();
        params.turn_knob(7, 33);
        let before = params;
        assert!(!params.turn_knob(id, 99));
        assert_eq!(params, before);
        assert!(!params.apply(MidiEvent::Knob(id, 99)));
        assert_eq!(params, before);
    }
}

#[test]
fn other_events_leave_parameters_unchanged() {
    let mut params = Params::new();
    let before = params;
    assert!(!params.apply(MidiEvent::KeyPressed(7, 127)));
    assert!(!params.apply(MidiEvent::KeyReleased(7)));
    assert!(!params.apply(MidiEvent::Button(7)));
    assert!(!params.apply(MidiEvent::PitchBend(7)));
    assert!(!params.apply(MidiEvent::Unknown(176, 7, 127)));
    assert_eq!(params, before);
}

#[test]
fn knob_value_beyond_seven_bits_is_kept_as_it_came() {
    let mut params = Params::new();
    assert!(params.turn_knob(7, 255));
    assert_eq!(params.volume, Fraction { num: 255, den: 127 });
}
