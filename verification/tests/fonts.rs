use oxisynth::generator::GenParam;
use oxisynth::loader::{import_preset, SoundFontLoader};
use oxisynth::modulator::{Mod, ModSource};
use oxisynth::noteon::VoicePlan;
use oxisynth::soundfont::{
    GenAmount, SampleInfo, SfFont, SfGen, SfInstrument, SfMod, SfPreset, SfZone, SoundFont,
};
use oxisynth::synth::{NoteOn, OxiError, Synth, SynthSettings};

fn gen(ty: u16, amount: GenAmount) -> SfGen {
    SfGen { ty, amount }
}

fn zone(gens: Vec<SfGen>) -> SfZone {
    SfZone { gens, mods: vec![] }
}

fn preset(name: &str, bank: u16, num: u16, inst: u16) -> SfPreset {
    SfPreset {
        name: name.to_string(),
        bank,
        preset: num,
        zones: vec![zone(vec![gen(43, GenAmount::Range(0, 127)), gen(41, GenAmount::Word(inst))])],
    }
}

/// One instrument: a global zone setting the filter cutoff, then two zones
/// splitting the keyboard between samples "low" and "high".
fn sf_font() -> SfFont {
    SfFont {
        presets: vec![preset("Piano", 0, 0, 0), preset("", 1, 5, 0), preset("Drums", 128, 0, 0)],
        instruments: vec![SfInstrument {
            name: "Keys".to_string(),
            zones: vec![
                zone(vec![gen(8, GenAmount::Int(5000))]),
                zone(vec![gen(43, GenAmount::Range(0, 60)), gen(53, GenAmount::Word(0))]),
                zone(vec![
                    gen(43, GenAmount::Range(61, 127)),
                    gen(8, GenAmount::Int(6000)),
                    gen(53, GenAmount::Word(1)),
                ]),
            ],
        }],
        sample_names: vec!["low".to_string(), "high".to_string()],
    }
}

fn samples() -> Vec<SampleInfo> {
    vec![
        SampleInfo { name: "low".to_string(), in_rom: false },
        SampleInfo { name: "high".to_string(), in_rom: false },
    ]
}

fn loaded() -> SoundFont {
    SoundFont::import(&sf_font(), &samples()).unwrap()
}

#[test]
fn import_keeps_presets_in_order() {
    let f = loaded();
    assert_eq!(f.id, 0);
    assert_eq!(f.presets.len(), 3);
    assert_eq!(f.presets[0].name, "Piano");
    assert_eq!((f.presets[0].bank, f.presets[0].num), (0, 0));
    assert_eq!((f.presets[2].bank, f.presets[2].num), (128, 0));
    let z = &f.presets[0].zones[0];
    assert_eq!((z.keylo, z.keyhi), (0, 127));
    let inst = z.inst.as_ref().unwrap();
    assert_eq!(inst.name, "Keys");
    let g = inst.global_zone.as_ref().unwrap();
    assert_eq!(g.gen[8], Some(5000));
    assert_eq!(inst.zones.len(), 2);
    assert_eq!(inst.zones[0].sample.unwrap().index, 0);
    assert_eq!((inst.zones[1].keylo, inst.zones[1].keyhi), (61, 127));
}

#[test]
fn nameless_preset_is_named_by_bank_and_program() {
    let font = sf_font();
    let d = import_preset(&font, &font.presets[1], &samples()).unwrap();
    assert_eq!(d.name, "Bank:1,Preset5");
    assert_eq!(loaded().presets[1].name, "Bank:1,Preset5");
}

#[test]
fn missing_sample_fails_the_load() {
    let only_low = vec![SampleInfo { name: "low".to_string(), in_rom: false }];
    assert!(SoundFont::import(&sf_font(), &only_low).is_err());
    let mut loader = SoundFontLoader::new();
    assert!(loader.load(&sf_font(), &only_low).is_none());
    assert!(loader.load(&sf_font(), &samples()).is_some());
}

#[test]
fn unnamed_instrument_is_untitled() {
    let mut font = sf_font();
    font.instruments[0].name = String::new();
    let f = SoundFont::import(&font, &samples()).unwrap();
    assert_eq!(f.presets[0].zones[0].inst.as_ref().unwrap().name, "<untitled>");
}

#[test]
fn modulator_records_are_imported() {
    let mut font = sf_font();
    font.instruments[0].zones[1].mods = vec![SfMod {
        src: ModSource::from_raw(0x0081),
        dest: GenParam::FilterFc.index() as u16,
        amount: -2400,
        amt_src: ModSource::from_raw(0),
        transform: 0,
    }];
    let f = SoundFont::import(&font, &samples()).unwrap();
    let m = f.presets[0].zones[0].inst.as_ref().unwrap().zones[0].mods[0];
    assert_eq!(m.dest, GenParam::FilterFc);
    assert_eq!(m.amount, -2400);
    assert_eq!(m.src1, 1);
    assert_eq!(m.flags1, 16);
}

fn synth_with_font() -> Synth {
    let mut s = Synth::new(SynthSettings::default());
    assert_eq!(s.add_font(loaded(), true), 1);
    s
}

#[test]
fn add_font_resets_presets() {
    let s = synth_with_font();
    assert_eq!(s.count_fonts(), 1);
    assert_eq!(s.sfont(1).unwrap().get_id(), 1);
    assert!(s.sfont(2).is_none());
    assert_eq!(s.channel_preset(0).unwrap().get_name(), "Piano");
    assert_eq!(s.channel_preset(9).unwrap().get_name(), "Drums");
    assert_eq!(s.get_program(0), Ok((Some(1), 0, 0)));
}

#[test]
fn noteon_plans_one_voice_per_playing_zone() {
    let mut s = synth_with_font();
    let (id, plans) = match s.noteon(0, 40, 100) {
        Ok(NoteOn::Start { id, plans, attack }) => {
            assert!(attack.is_empty());
            (id, plans)
        }
        other => panic!("unexpected {:?}", other),
    };
    assert_eq!(id, 0);
    assert_eq!(plans.len(), 1);
    let p: &VoicePlan = &plans[0];
    assert_eq!(p.sample, 0);
    // the global zone's value, the local zone sets none
    assert_eq!(p.inst_gens[8], Some(5000));
    // the default modulators
    assert_eq!(p.mods.len(), 10);
    match s.noteon(0, 80, 100) {
        Ok(NoteOn::Start { id, plans, .. }) => {
            assert_eq!(id, 1);
            assert_eq!(plans[0].sample, 1);
            assert_eq!(plans[0].inst_gens[8], Some(6000));
        }
        other => panic!("unexpected {:?}", other),
    }
    assert_eq!(s.storeid, 1);
    assert_eq!(s.noteid, 2);
}

#[test]
fn can_play_checks_preset() {
    let f = loaded();
    assert!(f.presets[0].can_play(60, 100));
    let mut bad = (*f.presets[0]).clone();
    bad.zones[0].gen.pop();
    assert!(!bad.can_play(60, 100));
}

#[test]
fn program_change_falls_back() {
    let mut s = synth_with_font();
    // program 7 of bank 0 does not exist: program 0 of bank 0 stands in
    assert_eq!(s.program_change(0, 7), Ok(()));
    assert_eq!(s.channel_preset(0).unwrap().get_name(), "Piano");
    assert_eq!(s.get_program(0), Ok((Some(1), 0, 7)));
    s.bank_select(0, 1).unwrap();
    assert_eq!(s.program_change(0, 5), Ok(()));
    assert_eq!(s.channel_preset(0).unwrap().get_name(), "Bank:1,Preset5");
}

#[test]
fn program_select_needs_a_preset() {
    let mut s = synth_with_font();
    assert_eq!(s.program_select(0, 1, 1, 5), Ok(()));
    assert_eq!(s.get_program(0), Ok((Some(1), 1, 5)));
    assert_eq!(
        s.program_select(0, 1, 3, 3),
        Err(OxiError::PresetNotFound { bank_id: 3, preset_id: 3, sfont_id: 1 })
    );
    assert_eq!(s.program_select(40, 1, 1, 5), Err(OxiError::ChannelOutOfRange));
}

#[test]
fn bank_offsets_shift_banks() {
    let mut s = synth_with_font();
    assert_eq!(s.bank_offset(1), None);
    s.set_bank_offset(1, 10);
    assert_eq!(s.bank_offset(1), Some(10));
    s.set_bank_offset(1, 11);
    assert_eq!(s.bank_offset(1), Some(11));
    // bank 12 of the stack is bank 1 of the font
    assert_eq!(s.program_select(0, 1, 12, 5), Ok(()));
    s.remove_bank_offset(1);
    assert_eq!(s.bank_offset(1), None);
}

#[test]
fn remove_font_forgets_it() {
    let mut s = synth_with_font();
    assert_eq!(s.remove_font(7, true), Err(()));
    assert_eq!(s.remove_font(1, true), Ok(()));
    assert!(s.sfont(1).is_none());
    assert_eq!(s.count_fonts(), 0);
    assert!(s.channel_preset(0).is_none());
    // ids are not given out again
    assert_eq!(s.add_font(loaded(), false), 2);
}

#[test]
fn second_font_goes_on_top() {
    let mut s = synth_with_font();
    let mut other = sf_font();
    other.presets[0].name = "Organ".to_string();
    let f = SoundFont::import(&other, &samples()).unwrap();
    assert_eq!(s.add_font(f, true), 2);
    assert_eq!(s.nth_sfont(0).unwrap().get_id(), 2);
    assert_eq!(s.nth_sfont(1).unwrap().get_id(), 1);
    assert_eq!(s.channel_preset(0).unwrap().get_name(), "Organ");
}

#[test]
fn default_modulators_are_ten() {
    let mods: Vec<Mod> = oxisynth::modulator::default_mods();
    assert_eq!(mods.len(), 10);
    assert_eq!(mods[0].dest, GenParam::Attenuation);
}

#[test]
fn readable_records() {
    let font = sf_font();
    assert!(font.is_readable());
    // a signed word where a range belongs
    let mut bad = sf_font();
    bad.presets[0].zones[0].gens[0] = gen(43, GenAmount::Int(3));
    assert!(!bad.is_readable());
    // a link to a sample header that does not exist
    let mut bad = sf_font();
    bad.instruments[0].zones[1].gens[1] = gen(53, GenAmount::Word(9));
    assert!(!bad.is_readable());
    // a generator number past the last one
    let mut bad = sf_font();
    bad.instruments[0].zones[0].gens[0] = gen(70, GenAmount::Int(1));
    assert!(!bad.is_readable());
}

fn single_preset_font(name: &str) -> SoundFont {
    let mut f = sf_font();
    f.presets = vec![preset(name, 0, 0, 0)];
    SoundFont::import(&f, &samples()).unwrap()
}

#[test]
fn two_fonts_keep_their_presets() {
    let mut s = Synth::new(SynthSettings::default());
    assert_eq!(s.count_fonts(), 0);
    let sin = s.add_font(single_preset_font("Sine Wave"), true);
    assert_eq!(s.count_fonts(), 1);
    let p = s.sfont(sin).unwrap().get_preset(0, 0).unwrap();
    assert_eq!((p.get_name(), p.get_banknum(), p.get_num()), ("Sine Wave", 0, 0));
    let boom = s.add_font(single_preset_font("Boomwhacker"), true);
    assert_eq!(s.count_fonts(), 2);
    assert_ne!(sin, boom);
    let p = s.sfont(boom).unwrap().get_preset(0, 0).unwrap();
    assert_eq!((p.get_name(), p.get_banknum(), p.get_num()), ("Boomwhacker", 0, 0));
    // the first font keeps its id and its preset
    assert_eq!(s.nth_sfont(1).unwrap().get_id(), sin);
    let p = s.sfont(sin).unwrap().get_preset(0, 0).unwrap();
    assert_eq!(p.get_name(), "Sine Wave");
}

#[test]
fn plan_generator_values() {
    let mut s = synth_with_font();
    let plans = match s.noteon(0, 40, 100) {
        Ok(NoteOn::Start { plans, .. }) => plans,
        other => panic!("unexpected {:?}", other),
    };
    let (vals, set) = plans[0].gen_values();
    assert_eq!(vals.len(), 60);
    // set by the instrument's global zone
    assert_eq!(vals[8], 5000);
    assert!(set[8]);
    // defaults elsewhere
    assert_eq!(vals[21], -12000);
    assert_eq!(vals[56], 100);
    assert!(!set[21]);
}

#[test]
fn key_and_velocity_ranges_are_kept_apart() {
    let mut font = sf_font();
    font.instruments[0].zones[1] = zone(vec![
        gen(43, GenAmount::Range(10, 20)),
        gen(44, GenAmount::Range(30, 40)),
        gen(53, GenAmount::Word(0)),
    ]);
    font.presets[0].zones[0] = zone(vec![
        gen(44, GenAmount::Range(5, 90)),
        gen(43, GenAmount::Range(0, 127)),
        gen(41, GenAmount::Word(0)),
    ]);
    let f = SoundFont::import(&font, &samples()).unwrap();
    let pz = &f.presets[0].zones[0];
    assert_eq!((pz.keylo, pz.keyhi), (0, 127));
    assert_eq!((pz.vello, pz.velhi), (5, 90));
    let iz = &pz.inst.as_ref().unwrap().zones[0];
    assert_eq!((iz.keylo, iz.keyhi), (10, 20));
    assert_eq!((iz.vello, iz.velhi), (30, 40));
    let other = &pz.inst.as_ref().unwrap().zones[1];
    assert_eq!((other.vello, other.velhi), (0, 128));
}

#[test]
fn presets_are_sorted_by_bank_and_program() {
    let mut font = sf_font();
    font.presets = vec![
        preset("Drums", 128, 0, 0),
        preset("Strings", 0, 48, 0),
        preset("Piano", 0, 0, 0),
        preset("Second piano", 0, 0, 0),
        preset("Organ", 1, 5, 0),
    ];
    let f = SoundFont::import(&font, &samples()).unwrap();
    let order: Vec<(u32, u32, &str)> =
        f.presets.iter().map(|p| (p.bank, p.num, p.name.as_str())).collect();
    assert_eq!(
        order,
        vec![
            (0, 0, "Piano"),
            (0, 0, "Second piano"),
            (0, 48, "Strings"),
            (1, 5, "Organ"),
            (128, 0, "Drums"),
        ]
    );
}

#[test]
fn removing_the_top_font_uncovers_the_one_below() {
    let mut s = synth_with_font();
    let mut other = sf_font();
    other.presets[0].name = "Organ".to_string();
    let f = SoundFont::import(&other, &samples()).unwrap();
    assert_eq!(s.add_font(f, true), 2);
    assert_eq!(s.channel_preset(0).unwrap().get_name(), "Organ");
    // channel 1 selects font 1 explicitly; channel 0 follows the stack
    assert_eq!(s.program_select(1, 1, 0, 0), Ok(()));
    assert_eq!(s.remove_font(2, true), Ok(()));
    assert_eq!(s.channel_preset(0).unwrap().get_name(), "Piano");
    assert_eq!(s.channel_preset(1).unwrap().get_name(), "Piano");
    assert_eq!(s.get_program(0), Ok((Some(1), 0, 0)));
}

#[test]
fn removing_a_font_without_reset_updates_selected_presets() {
    let mut s = synth_with_font();
    let f = SoundFont::import(&sf_font(), &samples()).unwrap();
    assert_eq!(s.add_font(f, false), 2);
    assert_eq!(s.program_select(3, 2, 0, 0), Ok(()));
    assert_eq!(s.remove_font(2, false), Ok(()));
    // channel 3 still names font 2, which is gone: it has no preset now
    assert!(s.channel_preset(3).is_none());
    assert_eq!(s.get_program(3), Ok((Some(2), 0, 0)));
    // channel 0 keeps its preset from font 1
    assert_eq!(s.channel_preset(0).unwrap().get_name(), "Piano");
}

#[test]
fn default_names_write_numbers_in_decimal() {
    let font = sf_font();
    let p = preset("", 0, 0, 0);
    assert_eq!(import_preset(&font, &p, &samples()).unwrap().name, "Bank:0,Preset0");
    let p = preset("", 128, 127, 0);
    assert_eq!(import_preset(&font, &p, &samples()).unwrap().name, "Bank:128,Preset127");
    let p = preset("", 65535, 10, 0);
    assert_eq!(import_preset(&font, &p, &samples()).unwrap().name, "Bank:65535,Preset10");
}

#[test]
fn add_preset_inserts_after_equal_keys() {
    let mut f = SoundFont { id: 0, name: String::new(), presets: vec![] };
    let data = |name: &str, bank: u32, num: u32| {
        std::rc::Rc::new(oxisynth::soundfont::PresetData {
            name: name.to_string(),
            bank,
            num,
            global_zone: None,
            zones: vec![],
        })
    };
    f.add_preset(data("b", 1, 0));
    f.add_preset(data("a", 0, 7));
    f.add_preset(data("c", 1, 0));
    f.add_preset(data("d", 0, 200));
    f.add_preset(data("e", 128, 0));
    let names: Vec<&str> = f.presets.iter().map(|p| p.name.as_str()).collect();
    assert_eq!(names, vec!["a", "d", "b", "c", "e"]);
}

#[test]
fn fresh_synth_takes_two_fonts() {
    let mut s = Synth::new(SynthSettings::default());
    let first = s.add_font(loaded(), true);
    let mut other = sf_font();
    other.presets[0].name = "Organ".to_string();
    let second = s.add_font(SoundFont::import(&other, &samples()).unwrap(), true);
    assert_eq!((first, second), (1, 2));
    assert_eq!(s.count_fonts(), 2);
    let p = s.sfont(first).unwrap().get_preset(0, 0).unwrap();
    assert_eq!((p.get_name(), p.get_banknum(), p.get_num()), ("Piano", 0, 0));
    let p = s.sfont(second).unwrap().get_preset(0, 0).unwrap();
    assert_eq!((p.get_name(), p.get_banknum(), p.get_num()), ("Organ", 0, 0));
}
