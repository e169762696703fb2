use oxisynth::channel::CcAction;
use oxisynth::synth::{OxiError, Synth, SynthSettings};
use oxisynth::generator::GenParam;

fn synth() -> Synth {
    Synth::new(SynthSettings::default())
}

fn cc(s: &mut Synth, chan: u8, num: u16, val: u16) -> Result<CcAction, ()> {
    s.cc(chan, num, val).map(|(a, _)| a)
}

#[test]
fn new_synth_has_sixteen_channels() {
    let s = synth();
    assert_eq!(s.count_midi_channels(), 16);
    assert_eq!(s.count_audio_channels(), 1);
    assert_eq!(s.count_audio_groups(), 1);
    assert_eq!(s.count_effects_channels(), 2);
    assert_eq!(s.polyphony(), 256);
    assert_eq!(s.internal_buffer_size(), 64);
    assert_eq!(s.count_fonts(), 0);
}

#[test]
fn drum_channel_starts_on_bank_128() {
    let s = synth();
    assert_eq!(s.get_program(9), Ok((None, 128, 0)));
    assert_eq!(s.get_program(0), Ok((None, 0, 0)));
}

#[test]
fn default_controllers() {
    let s = synth();
    assert_eq!(s.get_cc(0, 7), Ok(100));
    assert_eq!(s.get_cc(0, 10), Ok(64));
    assert_eq!(s.get_cc(0, 11), Ok(127));
    assert_eq!(s.get_cc(0, 75), Ok(64));
    assert_eq!(s.get_cc(0, 1), Ok(0));
    assert_eq!(s.get_pitch_bend(0), Ok(0x2000));
    assert_eq!(s.get_pitch_wheel_sens(0), Ok(2));
}

#[test]
fn cc_then_get_cc() {
    let mut s = synth();
    assert_eq!(cc(&mut s, 3, 1, 42), Ok(CcAction::Modulate { ctrl: 1 }));
    assert_eq!(s.get_cc(3, 1), Ok(42));
}

#[test]
fn cc_out_of_range() {
    let mut s = synth();
    assert_eq!(cc(&mut s, 16, 1, 1), Err(()));
    assert_eq!(cc(&mut s, 0, 128, 1), Err(()));
    assert_eq!(cc(&mut s, 0, 1, 128), Err(()));
    assert_eq!(s.get_cc(16, 1), Err(OxiError::ChannelOutOfRange));
    assert_eq!(s.get_cc(0, 128), Err(OxiError::CtrlOutOfRange));
}

#[test]
fn sustain_release_damps() {
    let mut s = synth();
    assert_eq!(cc(&mut s, 0, 64, 127), Ok(CcAction::Nothing));
    assert_eq!(cc(&mut s, 0, 64, 0), Ok(CcAction::DampVoices));
}

#[test]
fn bank_select_by_controllers() {
    let mut s = synth();
    cc(&mut s, 0, 0, 1).unwrap();
    assert_eq!(s.get_program(0), Ok((None, 1, 0)));
    cc(&mut s, 0, 32, 5).unwrap();
    assert_eq!(s.get_program(0), Ok((None, 133, 0)));
    // ignored on the drum channel
    cc(&mut s, 9, 0, 3).unwrap();
    assert_eq!(s.get_program(9), Ok((None, 128, 0)));
}

#[test]
fn rpn_pitch_wheel_sensitivity() {
    let mut s = synth();
    cc(&mut s, 0, 101, 0).unwrap();
    cc(&mut s, 0, 100, 0).unwrap();
    assert_eq!(cc(&mut s, 0, 6, 12), Ok(CcAction::PitchWheelSens));
    assert_eq!(s.get_pitch_wheel_sens(0), Ok(12));
}

#[test]
fn rpn_fine_and_coarse_tune() {
    let mut s = synth();
    cc(&mut s, 0, 101, 0).unwrap();
    cc(&mut s, 0, 100, 1).unwrap();
    cc(&mut s, 0, 38, 3).unwrap();
    assert_eq!(cc(&mut s, 0, 6, 64), Ok(CcAction::FineTune { data: 64 * 128 + 3 }));
    cc(&mut s, 0, 100, 2).unwrap();
    assert_eq!(cc(&mut s, 0, 6, 70), Ok(CcAction::CoarseTune { value: 70 }));
}

#[test]
fn nrpn_sets_generator() {
    let mut s = synth();
    cc(&mut s, 0, 99, 120).unwrap();
    cc(&mut s, 0, 98, 8).unwrap(); // FilterFc, scale 2
    assert_eq!(
        cc(&mut s, 0, 6, 65),
        Ok(CcAction::SetGen { param: GenParam::FilterFc, value: (65 * 128 - 8192) * 2 })
    );
}

#[test]
fn all_controllers_off_keeps_volume() {
    let mut s = synth();
    cc(&mut s, 0, 7, 50).unwrap();
    cc(&mut s, 0, 1, 90).unwrap();
    assert_eq!(cc(&mut s, 0, 121, 0), Ok(CcAction::ResetControllers));
    assert_eq!(s.get_cc(0, 7), Ok(50));
    assert_eq!(s.get_cc(0, 1), Ok(0));
    assert_eq!(s.get_cc(0, 121), Ok(0));
}

#[test]
fn pitch_bend_roundtrip() {
    let mut s = synth();
    assert_eq!(s.pitch_bend(2, 1234), Ok(()));
    assert_eq!(s.get_pitch_bend(2), Ok(1234));
    assert_eq!(s.pitch_bend(20, 1), Err(OxiError::ChannelOutOfRange));
}

#[test]
fn pitch_wheel_sens_roundtrip() {
    let mut s = synth();
    assert_eq!(s.pitch_wheel_sens(2, 7), Ok(()));
    assert_eq!(s.get_pitch_wheel_sens(2), Ok(7));
}

#[test]
fn noteon_errors() {
    let mut s = synth();
    assert_eq!(s.noteon(0, 128, 1).unwrap_err(), OxiError::KeyOutOfRange);
    assert_eq!(s.noteon(0, 60, 128).unwrap_err(), OxiError::VelocityOutOfRange);
    assert_eq!(s.noteon(16, 60, 100).unwrap_err(), OxiError::ChannelOutOfRange);
    assert_eq!(s.noteon(0, 60, 100).unwrap_err(), OxiError::ChannelHasNoPreset);
}

#[test]
fn program_change_without_fonts() {
    let mut s = synth();
    assert_eq!(s.program_change(0, 128), Err(OxiError::ProgramOutOfRange));
    assert_eq!(s.program_change(16, 1), Err(OxiError::ChannelOutOfRange));
    assert_eq!(s.program_change(0, 5), Ok(()));
    assert_eq!(s.get_program(0), Ok((None, 0, 5)));
    assert!(s.channel_preset(0).is_none());
}

#[test]
fn set_polyphony_rejects_zero() {
    let mut s = synth();
    assert_eq!(s.set_polyphony(0), Err(()));
    assert_eq!(s.set_polyphony(32), Ok(()));
    assert_eq!(s.polyphony(), 32);
}

#[test]
fn nrpn_number_limit() {
    let mut s = synth();
    s.cc(0, 99, 120).unwrap();
    assert!(s.channels[0].cc_defined(98, 102));
    for _ in 0..3 {
        s.cc(0, 98, 102).unwrap();
    }
    // a fourth step of 10000 would pass 32767
    assert!(!s.channels[0].cc_defined(98, 102));
    assert!(s.channels[0].cc_defined(98, 5));
}

#[test]
fn status_codes() {
    assert_eq!(Synth::zero_ok(0), Ok(()));
    assert_eq!(Synth::zero_ok(-1), Err(()));
    assert_eq!(Synth::zero_ok(3), Err(()));
}

#[test]
fn audio_groups_wrap_channels() {
    let s = Synth::new(SynthSettings { audio_groups: 3, ..SynthSettings::default() });
    assert_eq!(s.audio_group(0), 0);
    assert_eq!(s.audio_group(4), 1);
    assert_eq!(s.audio_group(11), 2);
}
