use oxisynth::channel::{CcAction, Channel};
use oxisynth::synth::{NoteOn, Synth, SynthSettings};
use oxisynth::voice::{VoiceEnvelope, VoiceId, VoiceStatus};
use oxisynth::voice_pool::{next_section, SampleBounds, SanityCheck, VoicePool, VoiceState, PHASE_UNIT};

fn channels(n: u8) -> Vec<Channel> {
    (0..n).map(|i| Channel::new(i, None)).collect()
}

fn playing(id: usize, chan: u8, key: u8) -> VoiceState {
    VoiceState {
        id,
        chan,
        key,
        vel: 100,
        channel_id: chan as usize,
        status: VoiceStatus::On,
        volenv_section: VoiceEnvelope::Decay,
        ticks: 1000,
        ..VoiceState::clean()
    }
}

fn pool_with(voices: Vec<VoiceState>) -> VoicePool {
    let n = voices.len();
    VoicePool { voices, polyphony_limit: n }
}

#[test]
fn new_pool_is_clean() {
    let p = VoicePool::new(4);
    assert_eq!(p.polyphony_limit, 4);
    assert_eq!(p.voices.len(), 4);
    assert!(p.voices.iter().all(|v| *v == VoiceState::clean() && v.is_available()));
    assert_eq!(p.first_available(), Some(VoiceId(0)));
}

#[test]
fn voice_predicates() {
    let v = playing(1, 0, 60);
    assert!(v.is_on() && v.is_playing() && !v.is_available());
    let r = VoiceState { volenv_section: VoiceEnvelope::Release, ..v };
    assert!(!r.is_on() && r.is_playing());
    let s = VoiceState { status: VoiceStatus::Sustained, ..v };
    assert!(!s.is_on() && s.is_playing());
    let mut o = v;
    o.off();
    assert!(o.is_available() && !o.is_playing());
    assert_eq!(o.chan, 0xff);
    assert_eq!(o.volenv_section, VoiceEnvelope::Finished);
    assert_eq!(o.status, VoiceStatus::Off);
}

#[test]
fn noteoff_releases_matching_voices() {
    let ch = channels(2);
    let mut attack = playing(1, 0, 60);
    attack.volenv_section = VoiceEnvelope::Attack;
    let mut p = pool_with(vec![attack, playing(2, 0, 61), playing(3, 1, 60), playing(4, 0, 60)]);
    let r = p.noteoff(&ch, 0, 0, 60);
    assert_eq!(r, vec![VoiceId(0)]);
    assert_eq!(p.voices[0].volenv_section, VoiceEnvelope::Release);
    assert_eq!(p.voices[0].modenv_section, VoiceEnvelope::Release);
    assert_eq!(p.voices[3].volenv_section, VoiceEnvelope::Release);
    assert_eq!(p.voices[1].volenv_section, VoiceEnvelope::Decay);
    assert_eq!(p.voices[2].volenv_section, VoiceEnvelope::Decay);
    assert!(!p.voices[0].is_on() && !p.voices[3].is_on());
}

#[test]
fn short_note_release_is_delayed() {
    let ch = channels(1);
    let mut v = playing(1, 0, 60);
    v.ticks = 5;
    let mut p = pool_with(vec![v]);
    assert!(p.noteoff(&ch, 10, 0, 60).is_empty());
    assert_eq!(p.voices[0].noteoff_ticks, 10);
    assert!(p.voices[0].is_on());
}

#[test]
fn sustain_pedal_holds_then_damps() {
    let mut ch = channels(1);
    ch[0].cc[64] = 127;
    let mut p = pool_with(vec![playing(1, 0, 60)]);
    p.noteoff(&ch, 0, 0, 60);
    assert_eq!(p.voices[0].status, VoiceStatus::Sustained);
    assert!(p.voices[0].is_playing());
    ch[0].cc[64] = 0;
    p.damp_voices(&ch, 0, 0);
    assert_eq!(p.voices[0].volenv_section, VoiceEnvelope::Release);
}

#[test]
fn all_notes_off_and_same_note_release() {
    let ch = channels(2);
    let mut p = pool_with(vec![playing(1, 0, 60), playing(2, 0, 62), playing(3, 1, 60)]);
    p.release_voice_on_same_note(&ch, 0, 60, 1, 0);
    assert_eq!(p.voices[0].volenv_section, VoiceEnvelope::Decay);
    p.release_voice_on_same_note(&ch, 0, 60, 7, 0);
    assert_eq!(p.voices[0].volenv_section, VoiceEnvelope::Release);
    p.all_notes_off(&ch, 0, 0);
    assert_eq!(p.voices[1].volenv_section, VoiceEnvelope::Release);
    assert_eq!(p.voices[2].volenv_section, VoiceEnvelope::Decay);
}

#[test]
fn all_sounds_off_stops_one_channel() {
    let mut p = pool_with(vec![playing(1, 0, 60), playing(2, 1, 60)]);
    p.all_sounds_off(0);
    assert!(p.voices[0].is_available());
    assert!(p.voices[1].is_playing());
}

#[test]
fn system_reset_frees_every_voice() {
    let mut p = pool_with(vec![playing(1, 0, 60), playing(2, 1, 60), VoiceState::clean()]);
    p.system_reset();
    assert!(p.voices.iter().all(|v| v.is_available() && v.status == VoiceStatus::Off));
}

#[test]
fn polyphony_limit_turns_off_voices_above() {
    let mut p = pool_with(vec![playing(1, 0, 60), playing(2, 0, 61), playing(3, 0, 62)]);
    assert_eq!(p.set_polyphony_limit(0), Err(()));
    assert_eq!(p.set_polyphony_limit(4), Err(()));
    assert_eq!(p.polyphony_limit, 3);
    assert_eq!(p.set_polyphony_limit(1), Ok(()));
    assert_eq!(p.polyphony_limit, 1);
    assert!(p.voices[0].is_playing());
    assert!(!p.voices[1].is_playing() && !p.voices[2].is_playing());
    assert_eq!(p.first_available(), None);
}

#[test]
fn first_available_skips_busy_voices() {
    let p = pool_with(vec![playing(1, 0, 60), VoiceState::clean(), VoiceState::clean()]);
    assert_eq!(p.first_available(), Some(VoiceId(1)));
}

#[test]
fn exclusive_class_kills_other_notes() {
    let hat = |id: usize, class: i32| VoiceState { exclusive_class: class, ..playing(id, 9, 42) };
    let mut p = pool_with(vec![hat(1, 5), hat(2, 6), hat(3, 5), hat(3, 5)]);
    let killed = p.start_voice(VoiceId(3));
    assert_eq!(killed, vec![VoiceId(0)]);
    assert_eq!(p.voices[0].exclusive_class, 0);
    assert_eq!(p.voices[0].volenv_section, VoiceEnvelope::Release);
    assert_eq!(p.voices[1].volenv_section, VoiceEnvelope::Decay);
    assert_eq!(p.voices[2].volenv_section, VoiceEnvelope::Decay);
    assert_eq!(p.voices[3].status, VoiceStatus::On);
    assert_eq!(p.voices[3].sanity, SanityCheck::Startup);
    // class 0 kills nothing
    let mut q = pool_with(vec![hat(1, 0), hat(2, 0)]);
    assert!(q.kill_by_exclusive_class(VoiceId(1)).is_empty());
}

#[test]
fn kill_excl_leaves_silent_voices() {
    let mut v = VoiceState::clean();
    assert!(!v.kill_excl());
    assert_eq!(v, VoiceState::clean());
    let mut w = VoiceState { exclusive_class: 3, ..playing(1, 0, 60) };
    assert!(w.kill_excl());
    assert_eq!(w.exclusive_class, 0);
    assert_eq!(w.volenv_section, VoiceEnvelope::Release);
}

fn bounds() -> SampleBounds {
    SampleBounds { start: 100, end: 1000, loopstart: 200, loopend: 800 }
}

#[test]
fn sanity_orders_and_clamps_positions() {
    let mut v = VoiceState { start: 2000, end: 50, sanity: SanityCheck::Startup, ..playing(1, 0, 60) };
    assert!(!v.check_sample_sanity(bounds()));
    assert_eq!((v.start, v.end), (100, 1000));
    assert_eq!(v.phase, 100 * PHASE_UNIT);
    assert_eq!(v.sanity, SanityCheck::Done);
    // done: nothing changes
    let before = v;
    assert!(!v.check_sample_sanity(bounds()));
    assert_eq!(v, before);
}

#[test]
fn sanity_turns_off_empty_voice() {
    let mut v = VoiceState { start: 5, end: 10, sanity: SanityCheck::Pending, ..playing(1, 0, 60) };
    v.check_sample_sanity(bounds());
    assert_eq!((v.start, v.end), (100, 100));
    assert_eq!(v.status, VoiceStatus::Off);
}

#[test]
fn sanity_handles_loops() {
    let mut v = VoiceState {
        start: 100,
        end: 1000,
        loopstart: 900,
        loopend: 300,
        sample_mode: 1,
        phase: 950 * PHASE_UNIT,
        sanity: SanityCheck::Pending,
        ..playing(1, 0, 60)
    };
    assert!(!v.check_sample_sanity(bounds()));
    assert_eq!((v.loopstart, v.loopend), (300, 900));
    assert_eq!(v.sample_mode, 1);
    assert_eq!(v.phase, 300 * PHASE_UNIT);

    let mut short = VoiceState { loopstart: 400, loopend: 401, sample_mode: 3, sanity: SanityCheck::Pending, start: 100, end: 1000, ..playing(1, 0, 60) };
    short.check_sample_sanity(bounds());
    assert_eq!(short.sample_mode, 0);

    let mut inner = VoiceState { loopstart: 300, loopend: 700, sample_mode: 1, sanity: SanityCheck::Pending, start: 100, end: 1000, ..playing(1, 0, 60) };
    assert!(inner.check_sample_sanity(bounds()));

    let mut wide = VoiceState { loopstart: 0, loopend: 5000, sample_mode: 3, sanity: SanityCheck::Pending, start: 100, end: 1000, ..playing(1, 0, 60) };
    assert!(!wide.check_sample_sanity(bounds()));
    assert_eq!((wide.loopstart, wide.loopend), (100, 1001));
}

fn started_synth() -> Synth {
    let mut s = Synth::new(SynthSettings { polyphony: 4, ..SynthSettings::default() });
    let v = VoiceState { volenv_section: VoiceEnvelope::Attack, ..playing(7, 0, 60) };
    s.start_voice(VoiceId(0), v);
    s
}

#[test]
fn synth_noteoff_releases_started_voice() {
    let mut s = started_synth();
    assert_eq!(s.voices.voices[0].status, VoiceStatus::On);
    assert_eq!(s.noteoff(0, 60), vec![VoiceId(0)]);
    assert_eq!(s.voices.voices[0].volenv_section, VoiceEnvelope::Release);
}

#[test]
fn synth_noteon_velocity_zero_releases() {
    let mut s = started_synth();
    assert_eq!(s.noteon(0, 60, 0), Ok(NoteOn::Release { attack: vec![VoiceId(0)] }));
    assert!(!s.voices.voices[0].is_on());
}

#[test]
fn synth_cc_drives_voices() {
    let mut s = started_synth();
    assert_eq!(s.cc(0, 123, 0), Ok((CcAction::AllNotesOff, vec![VoiceId(0)])));
    let mut s = started_synth();
    assert_eq!(s.cc(0, 120, 0), Ok((CcAction::AllSoundsOff, vec![])));
    assert!(s.voices.voices[0].is_available());
    let mut s = started_synth();
    s.cc(0, 64, 127).unwrap();
    s.noteoff(0, 60);
    assert_eq!(s.voices.voices[0].status, VoiceStatus::Sustained);
    assert_eq!(s.cc(0, 64, 0), Ok((CcAction::DampVoices, vec![VoiceId(0)])));
    assert_eq!(s.voices.voices[0].volenv_section, VoiceEnvelope::Release);
}

#[test]
fn synth_system_reset_stops_voices() {
    let mut s = started_synth();
    s.system_reset();
    assert!(s.voices.voices.iter().all(|v| v.is_available()));
}

#[test]
fn synth_set_polyphony_limits_pool() {
    let mut s = started_synth();
    assert_eq!(s.set_polyphony(2), Ok(()));
    assert_eq!(s.voices.polyphony_limit, 2);
    assert_eq!(s.set_polyphony(10), Ok(()));
    assert_eq!(s.polyphony(), 10);
    assert_eq!(s.voices.polyphony_limit, 2);
}

#[test]
fn envelope_sections_are_skipped_by_length() {
    // delay 0 blocks, attack 3, hold 0, decay 2, sustain forever
    let lengths = [0, 3, 0, 2, u32::MAX, 5, u32::MAX];
    let mut v = VoiceState { volenv_section: VoiceEnvelope::Delay, volenv_count: 0, ..playing(1, 0, 60) };
    assert!(!v.skip_volenv_sections(&lengths));
    assert_eq!((v.volenv_section, v.volenv_count), (VoiceEnvelope::Attack, 0));
    v.volenv_count = 3;
    assert!(!v.skip_volenv_sections(&lengths));
    assert_eq!((v.volenv_section, v.volenv_count), (VoiceEnvelope::Decay, 0));
    v.volenv_count = 2;
    assert!(v.skip_volenv_sections(&lengths));
    assert_eq!((v.volenv_section, v.volenv_count), (VoiceEnvelope::Sustain, 0));
    v.step_volenv(false);
    assert_eq!(v.volenv_count, 1);
    v.step_volenv(true);
    assert_eq!((v.volenv_section, v.volenv_count), (VoiceEnvelope::Release, 1));
    let mut m = VoiceState { modenv_section: VoiceEnvelope::Hold, modenv_count: 7, ..playing(1, 0, 60) };
    m.skip_modenv_sections(&lengths);
    assert_eq!((m.modenv_section, m.modenv_count), (VoiceEnvelope::Decay, 0));
    m.step_modenv(true);
    assert_eq!((m.modenv_section, m.modenv_count), (VoiceEnvelope::Sustain, 1));
    assert_eq!(next_section(VoiceEnvelope::Finished), VoiceEnvelope::Finished);
}
