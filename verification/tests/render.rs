use midi_synth::envelope::{fade, frames_match, gain, FRAMES, SAMPLE_RATE};
use midi_synth::fraction::Fraction;
use midi_synth::params::Params;
use midi_synth::tuning::{semitone_offset, REFERENCE_HZ};
use midi_synth::voice::{Voice, VoiceRegistry};

fn level(fraction: Fraction) -> f64 {
    fraction.num as f64 / fraction.den as f64
}

fn pitch_of(key: u8) -> f64 {
    1.05946309436f64.powi(semitone_offset(key)) * REFERENCE_HZ as f64
}

fn fill(registry: &mut VoiceRegistry, params: Params) -> Vec<f32> {
    let two_pi = 2.0 * std::f64::consts::PI;
    let step = 1.0 / SAMPLE_RATE as f64;
    let (volume, ratio, size) = (level(params.volume), level(params.ratio), level(params.size));
    let mut output = vec![1.0f32; FRAMES];
    for (slot, sample) in output.iter_mut().enumerate() {
        *sample = 0.0;
        for index in 0..registry.len() {
            let voice = registry.get(index).unwrap();
            let time = f64::from_bits(voice.phase);
            let bent = (1.0 + (ratio * time * two_pi).sin() * size) * pitch_of(voice.key);
            let delta = ((time * two_pi).sin() * volume) as f32;
            let weight = gain(voice, slot);
            *sample += delta * (weight.num as f32 / weight.den as f32);
            registry.set_phase(index, (time + step * bent).to_bits());
        }
    }
    registry.prune();
    output
}

#[test]
fn buffer_shape() {
    assert_eq!(FRAMES, 256);
    assert_eq!(SAMPLE_RATE, 44_100);
    assert!(frames_match(256));
    assert!(!frames_match(255));
    assert!(!frames_match(0));
    assert!(!frames_match(512));
}

#[test]
fn fade_falls_from_one_to_one_part_in_frames() {
    assert_eq!(fade(0), Fraction { num: 256, den: 256 });
    assert_eq!(fade(1), Fraction { num: 255, den: 256 });
    assert_eq!(fade(128), Fraction { num: 128, den: 256 });
    assert_eq!(fade(255), Fraction { num: 1, den: 256 });
}

#[test]
fn fade_is_one_minus_slot_over_frames() {
    let step = 1.0 / FRAMES as f32;
    let mut expected = 1.0f32;
    for slot in 0..FRAMES {
        let weight = fade(slot);
        assert_eq!(weight.num as f32 / weight.den as f32, expected);
        assert_eq!(level(weight), 1.0 - slot as f64 / FRAMES as f64);
        expected -= step;
    }
}

#[test]
fn a_living_voice_weighs_one_at_every_slot() {
    let voice = Voice { key: 49, phase: 0, alive: true };
    for slot in 0..FRAMES {
        assert_eq!(gain(voice, slot), Fraction { num: 256, den: 256 });
    }
}

#[test]
fn a_dead_voice_weighs_the_fade() {
    let voice = Voice { key: 49, phase: 0, alive: false };
    for slot in 0..FRAMES {
        assert_eq!(gain(voice, slot), fade(slot));
    }
    assert_eq!(gain(voice, 64), Fraction { num: 192, den: 256 });
}

#[test]
fn an_empty_registry_renders_silence() {
    let mut registry = VoiceRegistry::new();
    let mut params = Params::new();
    params.turn_knob(7, 127);
    let output = fill(&mut registry, params);
    assert_eq!(output.len(), FRAMES);
    assert!(output.iter().all(|sample| *sample == 0.0));
    assert_eq!(registry.len(), 0);
}

#[test]
fn one_living_voice_without_modulation_renders_a_sinusoid() {
    let mut registry = VoiceRegistry::new();
    registry.press(49);
    let mut params = Params::new();
    params.turn_knob(7, 127);
    params.turn_knob(72, 0);
    params.turn_knob(73, 0);
    let output = fill(&mut registry, params);
    let two_pi = 2.0 * std::f64::consts::PI;
    for (slot, sample) in output.iter().enumerate() {
        let expected = (two_pi * 440.0 * slot as f64 / SAMPLE_RATE as f64).sin();
        assert!((*sample as f64 - expected).abs() < 1e-6);
    }
    assert_eq!(registry.len(), 1);
    let time = f64::from_bits(registry.get(0).unwrap().phase);
    assert!((time - 440.0 * FRAMES as f64 / SAMPLE_RATE as f64).abs() < 1e-9);
}

#[test]
fn a_released_voice_fades_over_one_buffer_and_leaves() {
    let mut registry = VoiceRegistry::new();
    registry.press(49);
    let mut params = Params::new();
    params.turn_knob(7, 127);
    params.turn_knob(73, 0);
    fill(&mut registry, params);
    registry.release(49);
    let start = f64::from_bits(registry.get(0).unwrap().phase);
    let output = fill(&mut registry, params);
    let two_pi = 2.0 * std::f64::consts::PI;
    for (slot, sample) in output.iter().enumerate() {
        let time = start + 440.0 * slot as f64 / SAMPLE_RATE as f64;
        let expected = (two_pi * time).sin() * (1.0 - slot as f64 / FRAMES as f64);
        assert!((*sample as f64 - expected).abs() < 1e-6);
    }
    assert_eq!(registry.len(), 0);
    let silence = fill(&mut registry, params);
    assert!(silence.iter().all(|sample| *sample == 0.0));
}

#[test]
fn volume_zero_renders_silence() {
    let mut registry = VoiceRegistry::new();
    registry.press(49);
    registry.press(52);
    let mut params = Params::new();
    params.turn_knob(7, 0);
    let output = fill(&mut registry, params);
    assert!(output.iter().all(|sample| *sample == 0.0));
    assert_eq!(registry.len(), 2);
}

#[test]
fn accumulated_time_stays_finite_over_many_buffers() {
    let mut registry = VoiceRegistry::new();
    registry.press(0);
    registry.press(255);
    let mut params = Params::new();
    params.turn_knob(72, 127);
    params.turn_knob(73, 127);
    for _ in 0..200 {
        fill(&mut registry, params);
    }
    for index in 0..registry.len() {
        assert!(f64::from_bits(registry.get(index).unwrap().phase).is_finite());
    }
}
