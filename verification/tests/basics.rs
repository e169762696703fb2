use oxisynth::channel::{Channel, InterpolationMethod};
use oxisynth::chorus::{chorus_number_blocks, ChorusMode};
use oxisynth::generator::{gen_info, gen_scale_nrpn, GenParam, GEN_LAST};
use oxisynth::modulator::{Mod, ModInput, ModSource};
use oxisynth::synth::{MidiSettings, Synth, SynthSettings};
use oxisynth::tuning::TuningBank;
use oxisynth::types::{option_from_ptr, result_from_ptr, Error};
use oxisynth::voice::{VoiceAddMode, VoiceMods};

#[test]
fn generator_numbers_roundtrip() {
    for n in 0..GEN_LAST as u8 {
        let g = GenParam::from_u8(n).unwrap();
        assert_eq!(g.index(), n as usize);
        assert_eq!(gen_info(n as usize).num, g);
    }
    assert_eq!(GenParam::from_u8(60), Some(GenParam::Last));
    assert_eq!(GenParam::from_u8(61), None);
    assert_eq!(GenParam::FilterFc.index(), 8);
    assert_eq!(GenParam::ExclusiveClass.index(), 57);
}

#[test]
fn generator_defaults() {
    assert_eq!(gen_info(8).def, 13500);
    assert_eq!(gen_info(21).def, -12000);
    assert_eq!(gen_info(56).def, 100);
    assert_eq!(gen_info(58).def, -1);
    assert_eq!(gen_info(22).nrpn_scale, 4);
}

#[test]
fn nrpn_scaling() {
    // centred on 8192, times the generator's scale
    assert_eq!(gen_scale_nrpn(8, 8192), 0);
    assert_eq!(gen_scale_nrpn(8, 8192 + 100), 200);
    assert_eq!(gen_scale_nrpn(22, 8192 - 10), -40);
    assert_eq!(gen_scale_nrpn(0, 9000), 808);
    // limited to -8192..=8192 before scaling
    assert_eq!(gen_scale_nrpn(8, 100_000), 16384);
    assert_eq!(gen_scale_nrpn(8, -5), -16384);
    // scale 0
    assert_eq!(gen_scale_nrpn(14, 12345), 0);
}

#[test]
fn modulator_source_bits() {
    let s = ModSource::from_raw(0x0502);
    assert_eq!(s.index, 2);
    assert!(!s.is_cc && s.negative && !s.bipolar);
    assert_eq!(s.ty, 1);
    assert_eq!(s.flags(), 5);
    let cc = ModSource::from_raw(0x2381);
    assert_eq!(cc.index, 1);
    assert!(cc.is_cc && cc.negative && cc.bipolar);
    assert_eq!(cc.ty, 8);
    // unknown type contributes nothing to the flags
    assert_eq!(cc.flags(), 16 + 1 + 2);
}

#[test]
fn modulator_from_raw() {
    let m = Mod::from_raw(0x0502, 48, 960, 0, 0);
    assert_eq!(m.dest, GenParam::Attenuation);
    assert_eq!((m.amount, m.src1, m.flags1, m.src2, m.flags2), (960, 2, 5, 0, 0));
    // a transform other than linear turns it off
    assert_eq!(Mod::from_raw(0x0502, 48, 960, 0, 2).amount, 0);
    // so does an unknown source type
    assert_eq!(Mod::from_raw(0x2381, 48, 960, 0, 0).amount, 0);
    assert_eq!(m.get_dest(), GenParam::Attenuation);
}

#[test]
fn modulator_identity_and_sources() {
    let a = Mod::from_raw(0x0502, 48, 960, 0, 0);
    let b = Mod::from_raw(0x0502, 48, 100, 0, 0);
    let c = Mod::from_raw(0x0503, 48, 960, 0, 0);
    assert!(a.test_identity(&b) && b.test_identity(&a) && a.test_identity(&a));
    assert!(!a.test_identity(&c));
    assert!(a.has_source(false, 2));
    assert!(!a.has_source(true, 2));
    let cc = Mod::from_raw(0x0081, 8, 1, 0, 0);
    assert!(cc.has_source(true, 1) && !cc.has_source(false, 1));
}

#[test]
fn voice_mods_add_modes() {
    let a = Mod::from_raw(0x0502, 48, 960, 0, 0);
    let b = Mod::from_raw(0x0502, 48, 40, 0, 0);
    let mut v = VoiceMods::new();
    v.add_mod(&a, VoiceAddMode::Default);
    v.add_mod(&b, VoiceAddMode::Add);
    assert_eq!(v.mods.len(), 1);
    assert_eq!(v.mods[0].amount, 1000);
    v.add_mod(&b, VoiceAddMode::Overwrite);
    assert_eq!(v.mods[0].amount, 40);
    v.add_mod(&a, VoiceAddMode::Default);
    assert_eq!(v.mods.len(), 2);
    // a general source the synthesizer does not know is ignored
    let unknown = Mod::from_raw(0x0005, 48, 1, 0, 0);
    v.add_mod(&unknown, VoiceAddMode::Default);
    assert_eq!(v.mods.len(), 2);
    // at most 64
    let mut full = VoiceMods::new();
    for _ in 0..70 {
        full.add_mod(&a, VoiceAddMode::Default);
    }
    assert_eq!(full.mods.len(), 64);
    let mut d = VoiceMods::new();
    d.add_default_mods();
    assert_eq!(d.mods.len(), 10);
}

#[test]
fn error_messages_and_pointers() {
    assert_eq!(Error::Alloc.message(), "Allocation error");
    assert_eq!(Error::Path.message(), "Invalid path");
    assert_eq!(Error::Fluid("bad".to_string()).message(), "Fluidlite error: bad");
    assert_eq!(result_from_ptr(0), Err(Error::Alloc));
    assert_eq!(result_from_ptr(16), Ok(16));
    assert_eq!(option_from_ptr(0), None);
    assert_eq!(option_from_ptr(8), Some(8));
}

#[test]
fn chorus_blocks_are_limited() {
    assert_eq!(chorus_number_blocks(-3), 0);
    assert_eq!(chorus_number_blocks(3), 3);
    assert_eq!(chorus_number_blocks(99), 99);
    assert_eq!(chorus_number_blocks(100), 99);
    assert_eq!(ChorusMode::default(), ChorusMode::Sine);
}

#[test]
fn interpolation_orders() {
    assert_eq!(InterpolationMethod::default(), InterpolationMethod::FourthOrder);
    assert_eq!(InterpolationMethod::NoInterpolation.order(), 0);
    assert_eq!(InterpolationMethod::Linear.order(), 1);
    assert_eq!(InterpolationMethod::FourthOrder.order(), 4);
    assert_eq!(InterpolationMethod::SeventhOrder.order(), 7);
}

#[test]
fn set_interp_method_one_or_all_channels() {
    let mut s = Synth::new(SynthSettings::default());
    s.set_interp_method(Some(3), InterpolationMethod::Linear);
    assert_eq!(s.channels[3].get_interp_method(), InterpolationMethod::Linear);
    assert_eq!(s.channels[2].get_interp_method(), InterpolationMethod::FourthOrder);
    s.set_interp_method(None, InterpolationMethod::SeventhOrder);
    assert!(s.channels.iter().all(|c| c.get_interp_method() == InterpolationMethod::SeventhOrder));
}

#[test]
fn tuning_bank_add_get_remove() {
    let mut b: TuningBank<&str> = TuningBank::new();
    assert_eq!(b.len(), 0);
    b.add_tuning(0, 1, "a");
    b.add_tuning(0, 2, "b");
    assert_eq!(b.get_tuning(0, 1), Some(&"a"));
    b.add_tuning(0, 1, "c");
    assert_eq!(b.get_tuning(0, 1), Some(&"c"));
    assert_eq!(b.len(), 2);
    assert!(b.contains(0, 2));
    assert_eq!(b.remove_tuning(0, 2), Ok("b"));
    assert_eq!(b.remove_tuning(0, 2), Err(()));
    assert!(!b.contains(0, 2));
}

#[test]
fn channel_tuning_selection() {
    let mut s = Synth::new(SynthSettings::default());
    let mut b: TuningBank<u8> = TuningBank::new();
    b.add_tuning(1, 2, 7);
    assert_eq!(s.channel_select_tuning(&b, 0, 1, 2), Ok(()));
    assert_eq!(s.channels[0].tuning, Some((1, 2)));
    assert_eq!(
        s.channel_select_tuning(&b, 0, 1, 3),
        Err(oxisynth::synth::OxiError::TuningNotFound)
    );
    assert_eq!(s.channel_reset_tuning(0), Ok(()));
    assert_eq!(s.channels[0].tuning, None);
    assert_eq!(
        s.channel_reset_tuning(99),
        Err(oxisynth::synth::OxiError::ChannelOutOfRange)
    );
}

#[test]
fn channel_new_and_accessors() {
    let mut c = Channel::new(4, None);
    assert_eq!(c.get_num(), 4);
    assert_eq!(c.get_cc(7), 100);
    assert_eq!(c.get_cc(200), 0);
    c.set_banknum(3);
    c.set_prognum(9);
    c.set_sfontnum(Some(2));
    assert_eq!((c.get_banknum(), c.get_prognum(), c.get_sfontnum()), (3, 9, Some(2)));
    assert!(c.get_preset().is_none());
}

#[test]
fn key_and_channel_pressure() {
    let mut s = Synth::new(SynthSettings::default());
    assert_eq!(s.channel_pressure(0, 100), Ok(()));
    assert_eq!(s.channels[0].channel_pressure, 100);
    assert_eq!(s.key_pressure(0, 60, 90), Ok(()));
    assert_eq!(s.channels[0].key_pressure[60], 90);
    assert!(s.key_pressure(0, 128, 1).is_err());
    assert!(s.key_pressure(0, 60, 128).is_err());
}

#[test]
fn settings_defaults() {
    let s = SynthSettings::default();
    assert_eq!(s.polyphony, 256);
    assert_eq!(s.midi_channels, 16);
    assert_eq!(s.min_note_length, 10);
    assert!(s.drums_channel_active && s.reverb_active && s.chorus_active);
    assert_eq!(MidiSettings::default().portname, "");
}

#[test]
fn modulator_inputs() {
    let mut ch = Channel::new(0, None);
    ch.cc[7] = 90;
    ch.pitch_bend = 0x3000;
    ch.key_pressure[60] = 33;
    // volume controller
    let vol = Mod::from_raw(0x0587, 48, 960, 0, 0);
    assert_eq!(vol.input(&ch, 60, 100), ModInput::Active { v1: 90, range1: 127, v2: None });
    // velocity, with key as second source
    let vel = Mod::from_raw(0x0002, 48, 960, 0x0003, 0);
    assert_eq!(vel.input(&ch, 60, 100), ModInput::Active { v1: 100, range1: 127, v2: Some(60) });
    // pitch wheel is read over 0x4000
    let pw = Mod::from_raw(0x020e, 59, 12700, 0x0010, 0);
    assert_eq!(pw.input(&ch, 60, 100), ModInput::Active { v1: 0x3000, range1: 0x4000, v2: Some(2) });
    // key pressure of the note's key
    let kp = Mod::from_raw(0x000a, 48, 1, 0, 0);
    assert_eq!(kp.input(&ch, 60, 100), ModInput::Active { v1: 33, range1: 127, v2: None });
    // no primary source
    assert_eq!(Mod::from_raw(0x0000, 48, 1, 0, 0).input(&ch, 60, 100), ModInput::Silent);
    // unknown general secondary source
    assert_eq!(Mod::from_raw(0x0002, 48, 1, 0x0005, 0).input(&ch, 60, 100), ModInput::Silent);
    // unknown general primary source reads 0
    assert_eq!(
        Mod::from_raw(0x0005, 48, 1, 0, 0).input(&ch, 60, 100),
        ModInput::Active { v1: 0, range1: 127, v2: None }
    );
    // the velocity-to-filter default modulator is built in
    let defaults = oxisynth::modulator::default_mods();
    assert_eq!(defaults[1].input(&ch, 60, 100), ModInput::Silent);
}
