use vstd::prelude::*;

use crate::channel::{Channel, CcAction, InterpolationMethod, spec_cc_defined, spec_is_new_channel};
use crate::font_bank::FontBank;
use crate::noteon::{VoicePlan, spec_noteon_ok, spec_note_pairs, spec_is_plan, spec_zone_inst};
use crate::soundfont::{Preset, SoundFont};
use crate::tuning::TuningBank;
use crate::voice::{VoiceId, VoiceStatus};
use crate::voice_pool::{Release, VoicePool, VoiceState, spec_polyphony_set, spec_release_done, spec_sounds_off, spec_excludes, SanityCheck};

verus! {

/// The integer settings of a synthesizer.
#[derive(Debug, Clone, Copy, PartialEq, Eq, Structural)]
pub struct SynthSettings {
    pub dump: bool,
    pub reverb_active: bool,
    pub chorus_active: bool,
    pub ladspa_active: bool,
    pub drums_channel_active: bool,
    /// Most voices sounding at once (default 256).
    pub polyphony: u16,
    /// Number of MIDI channels (default 16).
    pub midi_channels: u8,
    /// Number of audio channels (default 1).
    pub audio_channels: i32,
    /// Number of audio groups (default 1).
    pub audio_groups: i32,
    /// Number of effects channels (default 2).
    pub effects_channels: i32,
    /// Shortest note, in milliseconds (default 10).
    pub min_note_length: i32,
}

impl Default for SynthSettings {
    fn default() -> (r: Self)
        ensures
            !r.dump && r.reverb_active && r.chorus_active && !r.ladspa_active && r.drums_channel_active,
            r.polyphony == 256,
            r.midi_channels == 16,
            r.audio_channels == 1,
            r.audio_groups == 1,
            r.effects_channels == 2,
            r.min_note_length == 10,
    {
        SynthSettings {
            dump: false,
            reverb_active: true,
            chorus_active: true,
            ladspa_active: false,
            drums_channel_active: true,
            polyphony: 256,
            midi_channels: 16,
            audio_channels: 1,
            audio_groups: 1,
            effects_channels: 2,
            min_note_length: 10,
        }
    }
}

/// MIDI input settings.
#[derive(Debug, Clone, PartialEq, Eq)]
pub struct MidiSettings {
    pub portname: String,
}

impl Default for MidiSettings {
    fn default() -> (r: Self)
        ensures
            r.portname@.len() == 0,
    {
        MidiSettings { portname: String::new() }
    }
}

/// All settings.
#[derive(Debug, Clone, PartialEq, Eq)]
pub struct Settings {
    pub synth: SynthSettings,
    pub midi: MidiSettings,
}

/// Why a MIDI message was refused.
#[derive(Debug, Clone, Copy, PartialEq, Eq, Structural)]
pub enum OxiError {
    ChannelOutOfRange,
    KeyOutOfRange,
    VelocityOutOfRange,
    ChannelHasNoPreset,
    PresetNotFound { bank_id: u32, preset_id: u8, sfont_id: u32 },
    CtrlOutOfRange,
    CCValueOutOfRange,
    ProgramOutOfRange,
    ValueOutOfRange,
    TuningNotFound,
}

/// What a note-on message asks of the voices.
#[derive(Debug, Clone, PartialEq, Eq)]
pub enum NoteOn {
    /// Velocity 0: the note was released, as by a note-off message; `attack`
    /// names the released voices that left their attack section.
    Release { attack: Vec<VoiceId> },
    /// Voices of the channel on the same key with another note id were
    /// released (`attack` as above); one voice per plan is to start, with
    /// note id `id`.
    Start { id: usize, plans: Vec<VoicePlan>, attack: Vec<VoiceId> },
}

/// Synthesizer `new` is `old` after release `m` reached its voices (see
/// `spec_release_done`), with `r` naming the voices that left their attack
/// section; nothing else changed.
pub open spec fn spec_voices_released(old: Synth, new: Synth, m: Release, r: Seq<VoiceId>) -> bool {
    &&& spec_release_done(old.voices, new.voices, old.channels@, old.min_note_length_ticks, m, r)
    &&& new.settings == old.settings
    &&& new.channels == old.channels
    &&& new.font_bank == old.font_bank
    &&& new.noteid == old.noteid
    &&& new.storeid == old.storeid
    &&& new.min_note_length_ticks == old.min_note_length_ticks
}

/// The part of a synthesizer that handles MIDI messages, fonts and presets.
#[derive(Debug)]
pub struct Synth {
    pub settings: SynthSettings,
    pub channels: Vec<Channel>,
    pub font_bank: FontBank,
    /// Id the next note gets.
    pub noteid: usize,
    /// Id of the last note started.
    pub storeid: usize,
    pub voices: VoicePool,
    /// Samples a note plays at least before its release takes effect.
    pub min_note_length_ticks: u32,
}

/// The preset program change picks for a channel: the preset of the
/// channel's bank (bank 128 on the drum channel while drums are active),
/// else a substitute: program `prognum`, then program 0, of bank 0 for a
/// melodic bank; program 0 of bank 128 for the percussion bank.
pub open spec fn spec_program_choice(fb: FontBank, ch: Channel, prognum: u8, drums: bool) -> Option<Preset> {
    let banknum = ch.banknum;
    let first = if ch.channum == 9 && drums {
        fb.spec_find_preset(128, prognum)
    } else {
        fb.spec_find_preset(banknum, prognum)
    };
    if first is Some {
        first
    } else if banknum != 128 {
        let p0 = fb.spec_find_preset(0, prognum);
        if p0 is None && prognum != 0 {
            fb.spec_find_preset(0, 0)
        } else {
            p0
        }
    } else {
        fb.spec_find_preset(128, 0)
    }
}

/// The font id of a preset, if there is one.
pub open spec fn spec_preset_font(p: Option<Preset>) -> Option<u32> {
    match p {
        Some(p) => Some(p.sfont_id),
        None => None,
    }
}

/// Channel `b` is channel `a` with program `prognum` selected from preset `p`.
pub open spec fn spec_program_applied(a: Channel, b: Channel, prognum: u8, p: Option<Preset>) -> bool {
    b == (Channel { prognum, sfontnum: spec_preset_font(p), preset: p, ..a })
}

impl Synth {
    /// The synthesizer's invariant: one channel per MIDI channel, each
    /// numbered by its position, and a well formed font bank.
    pub open spec fn wf(&self) -> bool {
        &&& self.channels@.len() == self.settings.midi_channels
        &&& forall|i: int| 0 <= i < self.channels@.len() ==> #[trigger] self.channels@[i].channum == i
        &&& self.font_bank.wf()
        &&& self.voices.wf()
        &&& self.voices.channels_ok(self.channels@.len())
    }

    /// A message for channel `chan` reaches a channel.
    pub open spec fn has_channel(&self, chan: u8) -> bool {
        chan < self.channels@.len()
    }

    /// The channel `chan`.
    pub open spec fn chan(&self, chan: u8) -> Channel {
        self.channels@[chan as int]
    }

    /// All channels but `chan` are unchanged, and so is everything else
    /// but the channels.
    pub open spec fn only_channel_changed(&self, old: Synth, chan: u8) -> bool {
        &&& self.settings == old.settings
        &&& self.font_bank == old.font_bank
        &&& self.noteid == old.noteid
        &&& self.storeid == old.storeid
        &&& self.voices == old.voices
        &&& self.min_note_length_ticks == old.min_note_length_ticks
        &&& self.channels@.len() == old.channels@.len()
        &&& forall|i: int| 0 <= i < self.channels@.len() && i != chan ==> #[trigger] self.channels@[i] == old.channels@[i]
    }

    /// A synthesizer with the given settings and no fonts: every channel
    /// fully reset, the drum channel on bank 128 when drums are active.
    pub fn new(settings: SynthSettings) -> (r: Synth)
        ensures
            r.wf(),
            r.settings == settings,
            r.font_bank.fonts@.len() == 0,
            r.font_bank.bank_offsets@.len() == 0,
            r.font_bank.sfont_id == 0,
            r.noteid == 0,
            r.storeid == 0,
            r.min_note_length_ticks == 0,
            r.voices.polyphony_limit == settings.polyphony,
            r.voices.voices@.len() == settings.polyphony,
            forall|i: int| 0 <= i < settings.polyphony ==> #[trigger] r.voices.voices@[i] == VoiceState::spec_clean(),
            forall|i: int|
                0 <= i < r.channels@.len() ==> spec_is_new_channel(
                    Channel { banknum: 0, ..#[trigger] r.channels@[i] },
                    i as u8,
                    None,
                ) && r.channels@[i].banknum == (if i == 9 && settings.drums_channel_active { 128u32 } else { 0u32 }),
    {
        let font_bank = FontBank::new();
        let mut channels: Vec<Channel> = Vec::new();
        let mut i: u8 = 0;
        while i < settings.midi_channels
            invariant
                0 <= i <= settings.midi_channels,
                font_bank.fonts@.len() == 0,
                channels@.len() == i,
                forall|j: int| 0 <= j < i ==> spec_is_new_channel(#[trigger] channels@[j], j as u8, None),
            decreases settings.midi_channels - i,
        {
            let preset = font_bank.find_preset(0, 0);
            channels.push(Channel::new(i, preset));
            i += 1;
        }
        let voices = VoicePool::new(settings.polyphony as usize);
        let mut synth = Synth { settings, channels, font_bank, noteid: 0, storeid: 0, voices, min_note_length_ticks: 0 };
        if synth.settings.drums_channel_active {
            let _ = synth.bank_select(9, 128);
        }
        synth
    }

    /// The audio group the voices of channel `chan_id` play into: the
    /// channel's number modulo the number of audio groups (taken as a byte).
    pub fn audio_group(&self, chan_id: usize) -> (r: u8)
        requires
            self.wf(),
            chan_id < self.channels@.len(),
            self.settings.audio_groups as u8 != 0,
        ensures
            r == self.channels@[chan_id as int].channum % (self.settings.audio_groups as u8),
            r < self.settings.audio_groups as u8,
    {
        let groups = self.settings.audio_groups as u8;
        self.channels[chan_id].get_num() % groups
    }

    /// A status code as a result: 0 is success.
    pub fn zero_ok(ret: i32) -> (r: Result<(), ()>)
        ensures
            r is Ok <==> ret == 0,
    {
        if ret == 0 {
            Ok(())
        } else {
            Err(())
        }
    }

    /// Number of MIDI channels.
    pub fn count_midi_channels(&self) -> (r: u8)
        ensures
            r == self.settings.midi_channels,
    {
        self.settings.midi_channels
    }

    /// Number of audio channels.
    pub fn count_audio_channels(&self) -> (r: i32)
        ensures
            r == self.settings.audio_channels,
    {
        self.settings.audio_channels
    }

    /// Number of audio groups; usually the number of audio channels.
    pub fn count_audio_groups(&self) -> (r: i32)
        ensures
            r == self.settings.audio_groups,
    {
        self.settings.audio_groups
    }

    /// Number of effects channels.
    pub fn count_effects_channels(&self) -> (r: i32)
        ensures
            r == self.settings.effects_channels,
    {
        self.settings.effects_channels
    }

    /// The settings.
    pub fn settings(&self) -> (r: &SynthSettings)
        ensures
            *r == self.settings,
    {
        &self.settings
    }

    /// Turns the reverb on or off.
    pub fn set_reverb_on(&mut self, on: bool)
        ensures
            final(self).settings == (SynthSettings { reverb_active: on, ..old(self).settings }),
            final(self).channels == old(self).channels,
            final(self).font_bank == old(self).font_bank,
            final(self).noteid == old(self).noteid,
            final(self).storeid == old(self).storeid,
            final(self).voices == old(self).voices,
            final(self).min_note_length_ticks == old(self).min_note_length_ticks,
    {
        self.settings.reverb_active = on;
    }

    /// Turns the chorus on or off.
    pub fn set_chorus_on(&mut self, on: bool)
        ensures
            final(self).settings == (SynthSettings { chorus_active: on, ..old(self).settings }),
            final(self).channels == old(self).channels,
            final(self).font_bank == old(self).font_bank,
            final(self).noteid == old(self).noteid,
            final(self).storeid == old(self).storeid,
            final(self).voices == old(self).voices,
            final(self).min_note_length_ticks == old(self).min_note_length_ticks,
    {
        self.settings.chorus_active = on;
    }

    /// Sets the polyphony limit; fails for 0. The voice pool takes the new
    /// limit when it has that many voices (see `spec_polyphony_set`).
    pub fn set_polyphony(&mut self, polyphony: u16) -> (r: Result<(), ()>)
        requires
            old(self).wf(),
        ensures
            final(self).wf(),
            r is Err <==> polyphony < 1,
            r is Err ==> *final(self) == *old(self),
            r is Ok ==> final(self).settings == (SynthSettings { polyphony, ..old(self).settings }),
            r is Ok ==> spec_polyphony_set(old(self).voices, final(self).voices, polyphony as usize),
            final(self).channels == old(self).channels,
            final(self).font_bank == old(self).font_bank,
            final(self).noteid == old(self).noteid,
            final(self).storeid == old(self).storeid,
            final(self).min_note_length_ticks == old(self).min_note_length_ticks,
    {
        if polyphony < 1 {
            Err(())
        } else {
            self.settings.polyphony = polyphony;
            let _ = self.voices.set_polyphony_limit(polyphony as usize);
            proof {
                assert forall|i: int| 0 <= i < self.voices.voices@.len() && (#[trigger] self.voices.voices@[i]).spec_is_playing()
                    implies self.voices.voices@[i].channel_id < self.channels@.len() by {
                    if polyphony as usize >= 1 && polyphony as usize <= old(self).voices.voices@.len() {
                        assert(old(self).voices.voices@[i].spec_is_playing());
                    }
                }
            }
            Ok(())
        }
    }

    /// The polyphony limit.
    pub fn polyphony(&self) -> (r: u32)
        ensures
            r == self.settings.polyphony,
    {
        self.settings.polyphony as u32
    }

    /// The internal buffer size: the synthesizer always renders blocks of 64
    /// samples, whatever buffer the audio driver uses.
    pub fn internal_buffer_size(&self) -> (r: usize)
        ensures
            r == 64,
    {
        64
    }

    /// Handles a note-on message. Key and velocity must be below 128 and the
    /// channel must exist; velocity 0 releases the note (as `noteoff`); the
    /// channel needs a preset. Then the voices of the channel on the key from
    /// other notes are released, the note gets the next note id, and one voice
    /// plan for each zone pair of the preset that plays the note.
    pub fn noteon(&mut self, chan: u8, key: u8, vel: u8) -> (r: Result<NoteOn, OxiError>)
        requires
            old(self).wf(),
            key < 128 && vel < 128 && old(self).has_channel(chan) && vel != 0 ==> (old(self).chan(chan).preset matches Some(p) ==> spec_noteon_ok(*p.data, key, vel)),
        ensures
            final(self).wf(),
            key >= 128 ==> r == Err::<NoteOn, OxiError>(OxiError::KeyOutOfRange),
            key < 128 && vel >= 128 ==> r == Err::<NoteOn, OxiError>(OxiError::VelocityOutOfRange),
            key < 128 && vel < 128 && !old(self).has_channel(chan) ==> r == Err::<NoteOn, OxiError>(OxiError::ChannelOutOfRange),
            key < 128 && vel < 128 && old(self).has_channel(chan) && vel == 0 ==> r matches Ok(NoteOn::Release { .. }),
            key < 128 && vel < 128 && old(self).has_channel(chan) && vel != 0 && old(self).chan(chan).preset is None ==> r == Err::<NoteOn, OxiError>(OxiError::ChannelHasNoPreset),
            key < 128 && vel < 128 && old(self).has_channel(chan) && vel != 0 && old(self).chan(chan).preset is Some ==> r matches Ok(NoteOn::Start { .. }),
            r is Err ==> *final(self) == *old(self),
            r matches Ok(NoteOn::Release { attack }) ==> spec_voices_released(*old(self), *final(self), Release::Key { chan, key }, attack@),
            r matches Ok(NoteOn::Start { id, plans, attack }) ==> {
                let p = old(self).chan(chan).preset.unwrap().data;
                &&& key < 128 && vel < 128 && vel != 0 && old(self).has_channel(chan)
                &&& id == old(self).noteid
                &&& spec_release_done(old(self).voices, final(self).voices, old(self).channels@, old(self).min_note_length_ticks,
                        Release::OtherNote { chan, key, noteid: id }, attack@)
                &&& final(self).noteid == old(self).noteid.wrapping_add(1)
                &&& final(self).storeid == id
                &&& final(self).channels == old(self).channels
                &&& final(self).font_bank == old(self).font_bank
                &&& final(self).settings == old(self).settings
                &&& final(self).min_note_length_ticks == old(self).min_note_length_ticks
                &&& plans@.len() == spec_note_pairs(*p, key, vel).len()
                &&& forall|k: int| 0 <= k < plans@.len() ==> {
                    let (j, m) = spec_note_pairs(*p, key, vel)[k];
                    spec_is_plan(#[trigger] plans@[k], p.global_zone, p.zones@[j], spec_zone_inst(*p, j).global_zone, spec_zone_inst(*p, j).zones@[m])
                }
            },
    {
        if key >= 128 {
            return Err(OxiError::KeyOutOfRange);
        }
        if vel >= 128 {
            return Err(OxiError::VelocityOutOfRange);
        }
        if chan as usize >= self.channels.len() {
            return Err(OxiError::ChannelOutOfRange);
        }
        if vel == 0 {
            let attack = self.noteoff(chan, key);
            return Ok(NoteOn::Release { attack });
        }
        let plans = match &self.channels[chan as usize].preset {
            None => {
                return Err(OxiError::ChannelHasNoPreset);
            },
            Some(p) => p.data.noteon_plan(key, vel),
        };
        let id = self.noteid;
        let attack = self.voices.release_voice_on_same_note(&self.channels, chan, key, id, self.min_note_length_ticks);
        self.noteid = self.noteid.wrapping_add(1);
        self.storeid = id;
        Ok(NoteOn::Start { id, plans, attack })
    }

    /// Gives voice `id` the state `v` of a new note and starts it: first the
    /// voices its exclusive class excludes are killed (the result names
    /// them), then it plays (see `VoicePool::start_voice`).
    pub fn start_voice(&mut self, id: VoiceId, v: VoiceState) -> (r: Vec<VoiceId>)
        requires
            old(self).wf(),
            id.0 < old(self).voices.voices@.len(),
            v.channel_id < old(self).channels@.len(),
        ensures
            final(self).wf(),
            final(self).voices.polyphony_limit == old(self).voices.polyphony_limit,
            final(self).voices.voices@.len() == old(self).voices.voices@.len(),
            final(self).voices.voices@[id.0 as int] == (VoiceState { status: VoiceStatus::On, sanity: SanityCheck::Startup, ..v }),
            forall|i: int|
                0 <= i < old(self).voices.voices@.len() && i != id.0 ==> #[trigger] final(self).voices.voices@[i] == if i
                    < old(self).voices.polyphony_limit && spec_excludes(v, old(self).voices.voices@[i]) {
                    old(self).voices.voices@[i].spec_kill_excl()
                } else {
                    old(self).voices.voices@[i]
                },
            forall|i: int|
                0 <= i < old(self).voices.polyphony_limit && i != id.0 ==> (r@.contains(VoiceId(i as usize)) <==> spec_excludes(
                    v,
                    old(self).voices.voices@[i],
                )),
            final(self).settings == old(self).settings,
            final(self).channels == old(self).channels,
            final(self).font_bank == old(self).font_bank,
            final(self).noteid == old(self).noteid,
            final(self).storeid == old(self).storeid,
            final(self).min_note_length_ticks == old(self).min_note_length_ticks,
    {
        self.voices.voices.set(id.0, v);
        let ghost mid = self.voices;
        assert(mid.voices@[id.0 as int] == v);
        let r = self.voices.start_voice(id);
        proof {
            assert forall|i: int| 0 <= i < self.voices.voices@.len() && (#[trigger] self.voices.voices@[i]).spec_is_playing()
                implies self.voices.voices@[i].channel_id < self.channels@.len() by {
                if i != id.0 {
                    assert(mid.voices@[i] == old(self).voices.voices@[i]);
                    if i < mid.polyphony_limit && spec_excludes(v, mid.voices@[i]) {
                        assert(mid.voices@[i].spec_is_playing());
                    }
                }
            }
            assert forall|i: int|
                0 <= i < old(self).voices.voices@.len() && i != id.0 implies #[trigger] self.voices.voices@[i] == if i
                    < old(self).voices.polyphony_limit && spec_excludes(v, old(self).voices.voices@[i]) {
                    old(self).voices.voices@[i].spec_kill_excl()
                } else {
                    old(self).voices.voices@[i]
                } by {
                assert(mid.voices@[i] == old(self).voices.voices@[i]);
            }
            assert forall|i: int|
                0 <= i < old(self).voices.polyphony_limit && i != id.0 implies (r@.contains(VoiceId(i as usize)) <==> spec_excludes(
                    v,
                    old(self).voices.voices@[i],
                )) by {
                assert(mid.voices@[i] == old(self).voices.voices@[i]);
            }
        }
        r
    }

    /// Handles a note-off message: the voices of channel `chan` that are on
    /// and play `key` are released. The result names those that left their
    /// attack section.
    pub fn noteoff(&mut self, chan: u8, key: u8) -> (r: Vec<VoiceId>)
        requires
            old(self).wf(),
        ensures
            final(self).wf(),
            spec_voices_released(*old(self), *final(self), Release::Key { chan, key }, r@),
    {
        self.voices.noteoff(&self.channels, self.min_note_length_ticks, chan, key)
    }

    /// Releases every playing voice of channel `chan`. The result names those
    /// that left their attack section.
    pub fn all_notes_off(&mut self, chan: u8) -> (r: Vec<VoiceId>)
        requires
            old(self).wf(),
        ensures
            final(self).wf(),
            spec_voices_released(*old(self), *final(self), Release::Channel { chan }, r@),
    {
        self.voices.all_notes_off(&self.channels, self.min_note_length_ticks, chan)
    }

    /// Turns off every playing voice of channel `chan` at once.
    pub fn all_sounds_off(&mut self, chan: u8)
        requires
            old(self).wf(),
        ensures
            final(self).wf(),
            spec_sounds_off(old(self).voices, final(self).voices, chan),
            final(self).settings == old(self).settings,
            final(self).channels == old(self).channels,
            final(self).font_bank == old(self).font_bank,
            final(self).noteid == old(self).noteid,
            final(self).storeid == old(self).storeid,
            final(self).min_note_length_ticks == old(self).min_note_length_ticks,
    {
        self.voices.all_sounds_off(chan);
        proof {
            assert forall|i: int| 0 <= i < self.voices.voices@.len() && (#[trigger] self.voices.voices@[i]).spec_is_playing()
                implies self.voices.voices@[i].channel_id < self.channels@.len() by {
                assert(old(self).voices.voices@[i].spec_is_playing());
            }
        }
    }

    /// Handles a control change message: the channel must exist, controller
    /// and value must be below 128. The channel takes the change; when the
    /// sustain pedal goes up its sustained voices are released, on "all
    /// notes off" its playing voices are released, on "all sound off" they
    /// stop at once. The result says what else the channel's voices must do,
    /// and names the released voices that left their attack section.
    pub fn cc(&mut self, chan: u8, num: u16, val: u16) -> (r: Result<(CcAction, Vec<VoiceId>), ()>)
        requires
            old(self).wf(),
            old(self).has_channel(chan) && num < 128 && val < 128 ==> spec_cc_defined(old(self).chan(chan), num, val),
        ensures
            final(self).wf(),
            r is Err <==> !old(self).has_channel(chan) || num >= 128 || val >= 128,
            r is Err ==> *final(self) == *old(self),
            r matches Ok((a, attack)) ==> {
                &&& final(self).settings == old(self).settings
                &&& final(self).font_bank == old(self).font_bank
                &&& final(self).noteid == old(self).noteid
                &&& final(self).storeid == old(self).storeid
                &&& final(self).min_note_length_ticks == old(self).min_note_length_ticks
                &&& final(self).channels@.len() == old(self).channels@.len()
                &&& forall|i: int| 0 <= i < final(self).channels@.len() && i != chan ==> #[trigger] final(self).channels@[i] == old(self).channels@[i]
                &&& crate::channel::spec_cc_transition(old(self).chan(chan), num, val, old(self).settings.drums_channel_active, final(self).chan(chan))
                &&& a == crate::channel::spec_cc_action(old(self).chan(chan), crate::channel::spec_stored(old(self).chan(chan), num, val), num, val)
                &&& a == CcAction::DampVoices ==> spec_release_done(old(self).voices, final(self).voices, final(self).channels@,
                        old(self).min_note_length_ticks, Release::Sustained { chan }, attack@)
                &&& a == CcAction::AllNotesOff ==> spec_release_done(old(self).voices, final(self).voices, final(self).channels@,
                        old(self).min_note_length_ticks, Release::Channel { chan }, attack@)
                &&& a == CcAction::AllSoundsOff ==> spec_sounds_off(old(self).voices, final(self).voices, chan) && attack@.len() == 0
                &&& a != CcAction::DampVoices && a != CcAction::AllNotesOff && a != CcAction::AllSoundsOff
                        ==> final(self).voices == old(self).voices && attack@.len() == 0
            },
    {
        if chan as usize >= self.channels.len() {
            return Err(());
        }
        if num >= 128 {
            return Err(());
        }
        if val >= 128 {
            return Err(());
        }
        let drums = self.settings.drums_channel_active;
        let a = self.channels[chan as usize].control_change(num, val, drums);
        assert(self.voices.channels_ok(self.channels@.len()));
        let attack = match a {
            CcAction::DampVoices => self.voices.damp_voices(&self.channels, chan, self.min_note_length_ticks),
            CcAction::AllNotesOff => self.voices.all_notes_off(&self.channels, self.min_note_length_ticks, chan),
            CcAction::AllSoundsOff => {
                self.voices.all_sounds_off(chan);
                proof {
                    assert forall|i: int| 0 <= i < self.voices.voices@.len() && (#[trigger] self.voices.voices@[i]).spec_is_playing()
                        implies self.voices.voices@[i].channel_id < self.channels@.len() by {
                        assert(old(self).voices.voices@[i].spec_is_playing());
                    }
                }
                Vec::new()
            },
            _ => Vec::new(),
        };
        Ok((a, attack))
    }

    /// The value of controller `ctrl` of channel `chan`.
    pub fn get_cc(&self, chan: u8, ctrl: u16) -> (r: Result<u8, OxiError>)
        ensures
            !self.has_channel(chan) ==> r == Err::<u8, OxiError>(OxiError::ChannelOutOfRange),
            self.has_channel(chan) && ctrl >= 128 ==> r == Err::<u8, OxiError>(OxiError::CtrlOutOfRange),
            self.has_channel(chan) && ctrl < 128 ==> r == Ok::<u8, OxiError>(self.chan(chan).cc@[ctrl as int]),
    {
        if chan as usize >= self.channels.len() {
            return Err(OxiError::ChannelOutOfRange);
        }
        if ctrl >= 128 {
            return Err(OxiError::CtrlOutOfRange);
        }
        Ok(self.channels[chan as usize].cc[ctrl as usize])
    }

    /// Sets the pitch bend of channel `chan`.
    pub fn pitch_bend(&mut self, chan: u8, val: u16) -> (r: Result<(), OxiError>)
        requires
            old(self).wf(),
        ensures
            final(self).wf(),
            r is Err <==> !old(self).has_channel(chan),
            r is Err ==> r == Err::<(), OxiError>(OxiError::ChannelOutOfRange) && *final(self) == *old(self),
            r is Ok ==> final(self).only_channel_changed(*old(self), chan)
                && final(self).chan(chan) == (Channel { pitch_bend: val, ..old(self).chan(chan) }),
    {
        if chan as usize >= self.channels.len() {
            return Err(OxiError::ChannelOutOfRange);
        }
        self.channels[chan as usize].pitch_bend = val;
        Ok(())
    }

    /// The pitch bend of channel `chan`.
    pub fn get_pitch_bend(&self, chan: u8) -> (r: Result<u16, OxiError>)
        ensures
            !self.has_channel(chan) ==> r == Err::<u16, OxiError>(OxiError::ChannelOutOfRange),
            self.has_channel(chan) ==> r == Ok::<u16, OxiError>(self.chan(chan).pitch_bend),
    {
        if chan as usize >= self.channels.len() {
            return Err(OxiError::ChannelOutOfRange);
        }
        Ok(self.channels[chan as usize].pitch_bend)
    }

    /// Sets the pitch wheel sensitivity of channel `chan`.
    pub fn pitch_wheel_sens(&mut self, chan: u8, val: u8) -> (r: Result<(), OxiError>)
        requires
            old(self).wf(),
        ensures
            final(self).wf(),
            r is Err <==> !old(self).has_channel(chan),
            r is Err ==> r == Err::<(), OxiError>(OxiError::ChannelOutOfRange) && *final(self) == *old(self),
            r is Ok ==> final(self).only_channel_changed(*old(self), chan)
                && final(self).chan(chan) == (Channel { pitch_wheel_sensitivity: val, ..old(self).chan(chan) }),
    {
        if chan as usize >= self.channels.len() {
            return Err(OxiError::ChannelOutOfRange);
        }
        self.channels[chan as usize].pitch_wheel_sensitivity = val;
        Ok(())
    }

    /// The pitch wheel sensitivity of channel `chan`.
    pub fn get_pitch_wheel_sens(&self, chan: u8) -> (r: Result<u8, OxiError>)
        ensures
            !self.has_channel(chan) ==> r == Err::<u8, OxiError>(OxiError::ChannelOutOfRange),
            self.has_channel(chan) ==> r == Ok::<u8, OxiError>(self.chan(chan).pitch_wheel_sensitivity),
    {
        if chan as usize >= self.channels.len() {
            return Err(OxiError::ChannelOutOfRange);
        }
        Ok(self.channels[chan as usize].pitch_wheel_sensitivity)
    }

    /// Sets the channel pressure of channel `chan` (kept as a signed word).
    pub fn channel_pressure(&mut self, chan: u8, val: u16) -> (r: Result<(), OxiError>)
        requires
            old(self).wf(),
        ensures
            final(self).wf(),
            r is Err <==> !old(self).has_channel(chan),
            r is Err ==> r == Err::<(), OxiError>(OxiError::ChannelOutOfRange) && *final(self) == *old(self),
            r is Ok ==> final(self).only_channel_changed(*old(self), chan)
                && final(self).chan(chan) == (Channel { channel_pressure: val as i16, ..old(self).chan(chan) }),
    {
        if chan as usize >= self.channels.len() {
            return Err(OxiError::ChannelOutOfRange);
        }
        self.channels[chan as usize].channel_pressure = val as i16;
        Ok(())
    }

    /// Sets the pressure of key `key` on channel `chan` (aftertouch). Key
    /// and value must be below 128.
    pub fn key_pressure(&mut self, chan: u8, key: u8, val: u8) -> (r: Result<(), OxiError>)
        requires
            old(self).wf(),
        ensures
            final(self).wf(),
            key > 127 ==> r == Err::<(), OxiError>(OxiError::KeyOutOfRange),
            key <= 127 && val > 127 ==> r == Err::<(), OxiError>(OxiError::ValueOutOfRange),
            key <= 127 && val <= 127 && !old(self).has_channel(chan) ==> r == Err::<(), OxiError>(OxiError::ChannelOutOfRange),
            key <= 127 && val <= 127 && old(self).has_channel(chan) ==> r is Ok,
            r is Err ==> *final(self) == *old(self),
            r is Ok ==> key <= 127 && val <= 127 && old(self).has_channel(chan)
                && final(self).only_channel_changed(*old(self), chan)
                && final(self).chan(chan).key_pressure@ == old(self).chan(chan).key_pressure@.update(key as int, val as i8)
                && final(self).chan(chan).cc == old(self).chan(chan).cc
                && final(self).chan(chan).channel_pressure == old(self).chan(chan).channel_pressure
                && final(self).chan(chan).pitch_bend == old(self).chan(chan).pitch_bend,
    {
        if key > 127 {
            return Err(OxiError::KeyOutOfRange);
        }
        if val > 127 {
            return Err(OxiError::ValueOutOfRange);
        }
        if chan as usize >= self.channels.len() {
            return Err(OxiError::ChannelOutOfRange);
        }
        self.channels[chan as usize].key_pressure[key as usize] = val as i8;
        Ok(())
    }

    /// Selects bank `bank` on channel `chan`.
    pub fn bank_select(&mut self, chan: u8, bank: u32) -> (r: Result<(), OxiError>)
        requires
            old(self).wf(),
        ensures
            final(self).wf(),
            r is Err <==> !old(self).has_channel(chan),
            r is Err ==> r == Err::<(), OxiError>(OxiError::ChannelOutOfRange) && *final(self) == *old(self),
            r is Ok ==> final(self).only_channel_changed(*old(self), chan)
                && final(self).chan(chan) == (Channel { banknum: bank, ..old(self).chan(chan) }),
    {
        if chan as usize >= self.channels.len() {
            return Err(OxiError::ChannelOutOfRange);
        }
        self.channels[chan as usize].banknum = bank;
        Ok(())
    }

    /// Selects font `sfont_id` on channel `chan`.
    pub fn sfont_select(&mut self, chan: u8, sfont_id: u32) -> (r: Result<(), OxiError>)
        requires
            old(self).wf(),
        ensures
            final(self).wf(),
            r is Err <==> !old(self).has_channel(chan),
            r is Err ==> r == Err::<(), OxiError>(OxiError::ChannelOutOfRange) && *final(self) == *old(self),
            r is Ok ==> final(self).only_channel_changed(*old(self), chan)
                && final(self).chan(chan) == (Channel { sfontnum: Some(sfont_id), ..old(self).chan(chan) }),
    {
        if chan as usize >= self.channels.len() {
            return Err(OxiError::ChannelOutOfRange);
        }
        self.channels[chan as usize].sfontnum = Some(sfont_id);
        Ok(())
    }

    /// Selects on channel `chan` the preset of font `sfont_id` with bank
    /// `bank_num` and program `preset_num`, whatever fonts lie above it.
    pub fn program_select(&mut self, chan: u8, sfont_id: u32, bank_num: u32, preset_num: u8) -> (r: Result<(), OxiError>)
        requires
            old(self).wf(),
        ensures
            final(self).wf(),
            !old(self).has_channel(chan) ==> r == Err::<(), OxiError>(OxiError::ChannelOutOfRange),
            old(self).has_channel(chan) && old(self).font_bank.spec_get_preset(sfont_id, bank_num, preset_num) is None
                ==> r == Err::<(), OxiError>(OxiError::PresetNotFound { bank_id: bank_num, preset_id: preset_num, sfont_id }),
            r is Err ==> *final(self) == *old(self),
            old(self).has_channel(chan) && old(self).font_bank.spec_get_preset(sfont_id, bank_num, preset_num) is Some ==> r is Ok,
            r is Ok ==> old(self).has_channel(chan) && final(self).only_channel_changed(*old(self), chan)
                && final(self).chan(chan) == (Channel {
                    sfontnum: Some(sfont_id),
                    banknum: bank_num,
                    prognum: preset_num,
                    preset: old(self).font_bank.spec_get_preset(sfont_id, bank_num, preset_num),
                    ..old(self).chan(chan)
                }),
    {
        let preset = self.font_bank.get_preset(sfont_id, bank_num, preset_num);
        if chan as usize >= self.channels.len() {
            return Err(OxiError::ChannelOutOfRange);
        }
        if preset.is_none() {
            return Err(OxiError::PresetNotFound { bank_id: bank_num, preset_id: preset_num, sfont_id });
        }
        let ch = &mut self.channels[chan as usize];
        ch.sfontnum = Some(sfont_id);
        ch.banknum = bank_num;
        ch.prognum = preset_num;
        ch.preset = preset;
        Ok(())
    }

    /// The font, bank and program selected on channel `chan`.
    pub fn get_program(&self, chan: u8) -> (r: Result<(Option<u32>, u32, u32), OxiError>)
        ensures
            !self.has_channel(chan) ==> r == Err::<(Option<u32>, u32, u32), OxiError>(OxiError::ChannelOutOfRange),
            self.has_channel(chan) ==> r == Ok::<(Option<u32>, u32, u32), OxiError>(
                (self.chan(chan).sfontnum, self.chan(chan).banknum, self.chan(chan).prognum as u32),
            ),
    {
        if chan as usize >= self.channels.len() {
            return Err(OxiError::ChannelOutOfRange);
        }
        let ch = &self.channels[chan as usize];
        Ok((ch.sfontnum, ch.banknum, ch.prognum as u32))
    }

    /// Handles a program change: selects program `prognum` on channel
    /// `chan` and the preset for it, substituting one when the bank lacks it
    /// (see `spec_program_choice`); without any, the channel has no preset.
    pub fn program_change(&mut self, chan: u8, prognum: u8) -> (r: Result<(), OxiError>)
        requires
            old(self).wf(),
        ensures
            final(self).wf(),
            prognum >= 128 ==> r == Err::<(), OxiError>(OxiError::ProgramOutOfRange),
            prognum < 128 && !old(self).has_channel(chan) ==> r == Err::<(), OxiError>(OxiError::ChannelOutOfRange),
            r is Err <==> prognum >= 128 || !old(self).has_channel(chan),
            r is Err ==> *final(self) == *old(self),
            r is Ok ==> prognum < 128 && old(self).has_channel(chan) && final(self).only_channel_changed(*old(self), chan)
                && spec_program_applied(
                    old(self).chan(chan),
                    final(self).chan(chan),
                    prognum,
                    spec_program_choice(old(self).font_bank, old(self).chan(chan), prognum, old(self).settings.drums_channel_active),
                ),
    {
        if prognum >= 128 {
            return Err(OxiError::ProgramOutOfRange);
        }
        if chan as usize >= self.channels.len() {
            return Err(OxiError::ChannelOutOfRange);
        }
        let banknum = self.channels[chan as usize].banknum;
        let channum = self.channels[chan as usize].channum;
        let mut preset = if channum == 9 && self.settings.drums_channel_active {
            self.font_bank.find_preset(128, prognum)
        } else {
            self.font_bank.find_preset(banknum, prognum)
        };
        if preset.is_none() {
            if banknum != 128 {
                preset = self.font_bank.find_preset(0, prognum);
                if preset.is_none() && prognum != 0 {
                    preset = self.font_bank.find_preset(0, 0);
                }
            } else {
                preset = self.font_bank.find_preset(128, 0);
            }
        }
        let sfont = match &preset {
            Some(p) => Some(p.sfont_id),
            None => None,
        };
        let ch = &mut self.channels[chan as usize];
        ch.prognum = prognum;
        ch.sfontnum = sfont;
        ch.preset = preset;
        Ok(())
    }

    /// Sends a program change with its current program to every channel,
    /// so that each picks its preset again; useful after fonts change. A
    /// channel whose program is out of range keeps its state.
    pub fn program_reset(&mut self)
        requires
            old(self).wf(),
        ensures
            final(self).wf(),
            final(self).settings == old(self).settings,
            final(self).font_bank == old(self).font_bank,
            final(self).noteid == old(self).noteid,
            final(self).storeid == old(self).storeid,
            final(self).voices == old(self).voices,
            final(self).min_note_length_ticks == old(self).min_note_length_ticks,
            final(self).channels@.len() == old(self).channels@.len(),
            forall|i: int| 0 <= i < final(self).channels@.len() ==> spec_channel_reset(*old(self), i, #[trigger] final(self).channels@[i]),
    {
        let n = self.channels.len();
        let mut id: usize = 0;
        while id < n
            invariant
                n == self.channels@.len(),
                n == old(self).channels@.len(),
                n == self.settings.midi_channels,
                0 <= id <= n,
                self.wf(),
                self.settings == old(self).settings,
                self.font_bank == old(self).font_bank,
                self.noteid == old(self).noteid,
                self.storeid == old(self).storeid,
                self.voices == old(self).voices,
                self.min_note_length_ticks == old(self).min_note_length_ticks,
                forall|i: int| id <= i < n ==> #[trigger] self.channels@[i] == old(self).channels@[i],
                forall|i: int| 0 <= i < id ==> spec_channel_reset(*old(self), i, #[trigger] self.channels@[i]),
            decreases n - id,
        {
            let prog = self.channels[id].prognum;
            let _ = self.program_change(id as u8, prog);
            id += 1;
        }
    }
}

impl Synth {
    /// Loads a font: it goes on top of the font stack under a new id, which
    /// is returned. With `reset_presets`, every channel picks its preset
    /// again.
    pub fn add_font(&mut self, font: SoundFont, reset_presets: bool) -> (id: u32)
        requires
            old(self).wf(),
            old(self).font_bank.can_add(),
        ensures
            final(self).wf(),
            id == old(self).font_bank.sfont_id + 1,
            final(self).font_bank.sfont_id == id,
            final(self).font_bank.fonts@ == old(self).font_bank.fonts@.insert(0, SoundFont { id, ..font }),
            final(self).font_bank.bank_offsets == old(self).font_bank.bank_offsets,
            crate::font_bank::spec_font_pos(final(self).font_bank.fonts@, id) == Some(0int),
            final(self).settings == old(self).settings,
            final(self).noteid == old(self).noteid,
            final(self).storeid == old(self).storeid,
            final(self).voices == old(self).voices,
            final(self).min_note_length_ticks == old(self).min_note_length_ticks,
            !reset_presets ==> final(self).channels == old(self).channels,
            reset_presets ==> final(self).channels@.len() == old(self).channels@.len() && forall|i: int|
                0 <= i < final(self).channels@.len() ==> spec_channel_reset(
                    Synth { font_bank: final(self).font_bank, ..*old(self) },
                    i,
                    #[trigger] final(self).channels@[i],
                ),
    {
        let id = self.font_bank.add_font(font);
        if reset_presets {
            let ghost mid = *self;
            self.program_reset();
            assert(mid == (Synth { font_bank: self.font_bank, ..*old(self) }));
        }
        id
    }

    /// Puts on channel `i` the preset of its font, bank and program, when it
    /// has a font selected.
    pub fn update_presets(&mut self)
        requires
            old(self).wf(),
        ensures
            final(self).wf(),
            final(self).settings == old(self).settings,
            final(self).font_bank == old(self).font_bank,
            final(self).noteid == old(self).noteid,
            final(self).storeid == old(self).storeid,
            final(self).voices == old(self).voices,
            final(self).min_note_length_ticks == old(self).min_note_length_ticks,
            final(self).channels@.len() == old(self).channels@.len(),
            forall|i: int| 0 <= i < final(self).channels@.len() ==> spec_preset_updated(*old(self), i, #[trigger] final(self).channels@[i]),
    {
        let n = self.channels.len();
        let mut id: usize = 0;
        while id < n
            invariant
                n == self.channels@.len(),
                n == old(self).channels@.len(),
                0 <= id <= n,
                self.wf(),
                self.settings == old(self).settings,
                self.font_bank == old(self).font_bank,
                self.noteid == old(self).noteid,
                self.storeid == old(self).storeid,
                self.voices == old(self).voices,
                self.min_note_length_ticks == old(self).min_note_length_ticks,
                forall|i: int| id <= i < n ==> #[trigger] self.channels@[i] == old(self).channels@[i],
                forall|i: int| 0 <= i < id ==> spec_preset_updated(*old(self), i, #[trigger] self.channels@[i]),
            decreases n - id,
        {
            match self.channels[id].sfontnum {
                Some(sfontnum) => {
                    let banknum = self.channels[id].banknum;
                    let prognum = self.channels[id].prognum;
                    let preset = self.font_bank.get_preset(sfontnum, banknum, prognum);
                    self.channels[id].preset = preset;
                },
                None => {},
            }
            id += 1;
        }
    }

    /// Unloads the font with id `id`; fails when there is none. Channels
    /// then pick their presets again from the fonts left: all of them by a
    /// program change with `reset_presets`, else those with a font selected
    /// look up the preset of their font, bank and program.
    pub fn remove_font(&mut self, id: u32, reset_presets: bool) -> (r: Result<(), ()>)
        requires
            old(self).wf(),
        ensures
            final(self).wf(),
            r is Err <==> crate::font_bank::spec_font_pos(old(self).font_bank.fonts@, id) is None,
            r is Err ==> *final(self) == *old(self),
            r is Ok ==> crate::font_bank::spec_font_pos(final(self).font_bank.fonts@, id) is None,
            r is Ok ==> final(self).font_bank.fonts@ == old(self).font_bank.fonts@.remove(
                crate::font_bank::spec_font_pos(old(self).font_bank.fonts@, id).unwrap(),
            ),
            final(self).channels@.len() == old(self).channels@.len(),
            r is Ok && reset_presets ==> forall|i: int|
                0 <= i < final(self).channels@.len() ==> spec_channel_reset(
                    Synth { font_bank: final(self).font_bank, ..*old(self) },
                    i,
                    #[trigger] final(self).channels@[i],
                ),
            r is Ok && !reset_presets ==> forall|i: int|
                0 <= i < final(self).channels@.len() ==> spec_preset_updated(
                    Synth { font_bank: final(self).font_bank, ..*old(self) },
                    i,
                    #[trigger] final(self).channels@[i],
                ),
            final(self).settings == old(self).settings,
            final(self).font_bank.bank_offsets == old(self).font_bank.bank_offsets,
            final(self).noteid == old(self).noteid,
            final(self).storeid == old(self).storeid,
            final(self).voices == old(self).voices,
            final(self).min_note_length_ticks == old(self).min_note_length_ticks,
    {
        let sfont = self.font_bank.remove_font(id);
        match sfont {
            Some(_) => {
                proof {
                    let k = crate::font_bank::spec_font_pos(old(self).font_bank.fonts@, id).unwrap();
                    crate::font_bank::lemma_font_pos_found(old(self).font_bank.fonts@, id, 0);
                    let f = self.font_bank.fonts@;
                    assert forall|j: int| 0 <= j < f.len() implies #[trigger] f[j].id != id by {
                        let oj = if j < k { j } else { j + 1 };
                        assert(f[j] == old(self).font_bank.fonts@[oj]);
                    }
                    crate::font_bank::lemma_font_pos_absent(f, id, 0);
                }
                let ghost mid = *self;
                assert(mid == (Synth { font_bank: self.font_bank, ..*old(self) }));
                if reset_presets {
                    self.program_reset();
                } else {
                    self.update_presets();
                }
                Ok(())
            },
            None => Err(()),
        }
    }

    /// Number of loaded fonts.
    pub fn count_fonts(&self) -> (r: usize)
        ensures
            r == self.font_bank.fonts@.len(),
    {
        self.font_bank.count()
    }

    /// The font at position `num` of the stack; the top is 0.
    pub fn nth_sfont(&self, num: usize) -> (r: Option<&SoundFont>)
        ensures
            r == (if num < self.font_bank.fonts@.len() { Some(&self.font_bank.fonts@[num as int]) } else { None::<&SoundFont> }),
    {
        self.font_bank.get_nth_font(num)
    }

    /// The font with id `id`.
    pub fn sfont(&self, id: u32) -> (r: Option<&SoundFont>)
        ensures
            r matches Some(f) ==> crate::font_bank::spec_font_pos(self.font_bank.fonts@, id) matches Some(k)
                && *f == self.font_bank.fonts@[k],
            r is None ==> crate::font_bank::spec_font_pos(self.font_bank.fonts@, id) is None,
    {
        self.font_bank.get_font(id)
    }

    /// Sets the offset added to the bank numbers of font `sfont_id`.
    pub fn set_bank_offset(&mut self, sfont_id: u32, offset: u32)
        requires
            old(self).wf(),
        ensures
            final(self).wf(),
            crate::font_bank::spec_bank_offset(final(self).font_bank.bank_offsets@, sfont_id) == Some(offset),
            forall|other: u32| other != sfont_id ==> crate::font_bank::spec_bank_offset(final(self).font_bank.bank_offsets@, other)
                == crate::font_bank::spec_bank_offset(old(self).font_bank.bank_offsets@, other),
            final(self).font_bank.fonts == old(self).font_bank.fonts,
            final(self).font_bank.sfont_id == old(self).font_bank.sfont_id,
            final(self).channels == old(self).channels,
            final(self).settings == old(self).settings,
            final(self).noteid == old(self).noteid,
            final(self).storeid == old(self).storeid,
            final(self).voices == old(self).voices,
            final(self).min_note_length_ticks == old(self).min_note_length_ticks,
    {
        self.font_bank.set_bank_offset(sfont_id, offset);
        proof {
            crate::laws::lemma_set_offset(old(self).font_bank.bank_offsets@, self.font_bank.bank_offsets@, sfont_id, offset);
        }
    }

    /// The offset of the bank numbers of font `sfont_id`, if one was set.
    pub fn bank_offset(&self, sfont_id: u32) -> (r: Option<u32>)
        ensures
            r == crate::font_bank::spec_bank_offset(self.font_bank.bank_offsets@, sfont_id),
    {
        match self.font_bank.get_bank_offset(sfont_id) {
            Some(o) => Some(o.offset),
            None => None,
        }
    }

    /// Forgets the bank offset of font `sfont_id`.
    pub fn remove_bank_offset(&mut self, sfont_id: u32)
        requires
            old(self).wf(),
        ensures
            final(self).wf(),
            final(self).font_bank.bank_offsets@ == crate::font_bank::spec_without_offset(old(self).font_bank.bank_offsets@, sfont_id),
            final(self).font_bank.fonts == old(self).font_bank.fonts,
            final(self).font_bank.sfont_id == old(self).font_bank.sfont_id,
            final(self).channels == old(self).channels,
            final(self).settings == old(self).settings,
            final(self).noteid == old(self).noteid,
            final(self).storeid == old(self).storeid,
            final(self).voices == old(self).voices,
            final(self).min_note_length_ticks == old(self).min_note_length_ticks,
    {
        self.font_bank.remove_bank_offset(sfont_id);
    }

    /// The preset of channel `chan`, if any.
    pub fn channel_preset(&self, chan: u8) -> (r: Option<&Preset>)
        ensures
            !self.has_channel(chan) ==> r is None,
            self.has_channel(chan) ==> r == (match self.chan(chan).preset {
                Some(p) => Some(&p),
                None => None::<&Preset>,
            }),
    {
        if chan as usize >= self.channels.len() {
            return None;
        }
        self.channels[chan as usize].get_preset()
    }

    /// Sets the interpolation method of channel `chan`, or of every channel
    /// for `None`; a channel number out of range changes nothing.
    pub fn set_interp_method(&mut self, chan: Option<u8>, interp_method: InterpolationMethod)
        requires
            old(self).wf(),
        ensures
            final(self).wf(),
            final(self).settings == old(self).settings,
            final(self).font_bank == old(self).font_bank,
            final(self).noteid == old(self).noteid,
            final(self).storeid == old(self).storeid,
            final(self).voices == old(self).voices,
            final(self).min_note_length_ticks == old(self).min_note_length_ticks,
            final(self).channels@.len() == old(self).channels@.len(),
            forall|i: int| 0 <= i < final(self).channels@.len() ==> #[trigger] final(self).channels@[i] == (
                if chan is None || chan == Some(i as u8) {
                    Channel { interp_method, ..old(self).channels@[i] }
                } else {
                    old(self).channels@[i]
                }),
    {
        let n = self.channels.len();
        let mut i: usize = 0;
        while i < n
            invariant
                n == self.channels@.len(),
                n == old(self).channels@.len(),
                n == self.settings.midi_channels,
                0 <= i <= n,
                self.wf(),
                self.settings == old(self).settings,
                self.font_bank == old(self).font_bank,
                self.noteid == old(self).noteid,
                self.storeid == old(self).storeid,
                self.voices == old(self).voices,
                self.min_note_length_ticks == old(self).min_note_length_ticks,
                forall|j: int| i <= j < n ==> #[trigger] self.channels@[j] == old(self).channels@[j],
                forall|j: int| 0 <= j < i ==> #[trigger] self.channels@[j] == (
                    if chan is None || chan == Some(j as u8) {
                        Channel { interp_method, ..old(self).channels@[j] }
                    } else {
                        old(self).channels@[j]
                    }),
            decreases n - i,
        {
            let hit = match chan {
                None => true,
                Some(c) => self.channels[i].channum == c,
            };
            if hit {
                self.channels[i].interp_method = interp_method;
            }
            i += 1;
        }
    }

    /// Resets the synthesizer as the MIDI system reset message asks: every
    /// voice is turned off, every channel gets the preset of bank 0, program
    /// 0, and its controllers fully reset.
    pub fn system_reset(&mut self)
        requires
            old(self).wf(),
        ensures
            final(self).wf(),
            final(self).settings == old(self).settings,
            final(self).font_bank == old(self).font_bank,
            final(self).noteid == old(self).noteid,
            final(self).storeid == old(self).storeid,
            final(self).voices.polyphony_limit == old(self).voices.polyphony_limit,
            final(self).voices.voices@.len() == old(self).voices.voices@.len(),
            forall|i: int| 0 <= i < old(self).voices.voices@.len() ==> #[trigger] final(self).voices.voices@[i] == old(self).voices.voices@[i].spec_off(),
            final(self).min_note_length_ticks == old(self).min_note_length_ticks,
            final(self).channels@.len() == old(self).channels@.len(),
            forall|i: int| 0 <= i < final(self).channels@.len() ==> spec_channel_system_reset(*old(self), i, #[trigger] final(self).channels@[i]),
    {
        self.voices.system_reset();
        let ghost voices_after = self.voices;
        let preset = self.font_bank.find_preset(0, 0);
        let n = self.channels.len();
        let mut i: usize = 0;
        while i < n
            invariant
                n == self.channels@.len(),
                n == old(self).channels@.len(),
                0 <= i <= n,
                self.wf(),
                self.settings == old(self).settings,
                self.font_bank == old(self).font_bank,
                self.noteid == old(self).noteid,
                self.storeid == old(self).storeid,
                self.voices == voices_after,
                voices_after.polyphony_limit == old(self).voices.polyphony_limit,
                voices_after.voices@.len() == old(self).voices.voices@.len(),
                forall|k: int| 0 <= k < old(self).voices.voices@.len() ==> #[trigger] voices_after.voices@[k] == old(self).voices.voices@[k].spec_off(),
                self.min_note_length_ticks == old(self).min_note_length_ticks,
                preset == old(self).font_bank.spec_find_preset(0, 0),
                forall|j: int| i <= j < n ==> #[trigger] self.channels@[j] == old(self).channels@[j],
                forall|j: int| 0 <= j < i ==> spec_channel_system_reset(*old(self), j, #[trigger] self.channels@[j]),
            decreases n - i,
        {
            let p = share_preset(&preset);
            self.channels[i].init(p);
            self.channels[i].init_ctrl(false);
            i += 1;
        }
    }

    /// Selects on channel `chan` the tuning registered under `bank` and
    /// `prog`; fails when the channel or the tuning does not exist.
    pub fn channel_select_tuning<T>(&mut self, tunings: &TuningBank<T>, chan: u8, bank: u32, prog: u32) -> (r: Result<(), OxiError>)
        requires
            old(self).wf(),
        ensures
            final(self).wf(),
            !old(self).has_channel(chan) ==> r == Err::<(), OxiError>(OxiError::ChannelOutOfRange),
            old(self).has_channel(chan) && tunings.spec_get(bank, prog) is None ==> r == Err::<(), OxiError>(OxiError::TuningNotFound),
            old(self).has_channel(chan) && tunings.spec_get(bank, prog) is Some ==> r is Ok,
            r is Err ==> *final(self) == *old(self),
            r is Ok ==> old(self).has_channel(chan) && tunings.spec_get(bank, prog) is Some
                && final(self).only_channel_changed(*old(self), chan)
                && final(self).chan(chan) == (Channel { tuning: Some((bank, prog)), ..old(self).chan(chan) }),
    {
        if chan as usize >= self.channels.len() {
            return Err(OxiError::ChannelOutOfRange);
        }
        if !tunings.contains(bank, prog) {
            return Err(OxiError::TuningNotFound);
        }
        self.channels[chan as usize].tuning = Some((bank, prog));
        Ok(())
    }

    /// Puts channel `chan` back on the default well-tempered tuning.
    pub fn channel_reset_tuning(&mut self, chan: u8) -> (r: Result<(), OxiError>)
        requires
            old(self).wf(),
        ensures
            final(self).wf(),
            r is Err <==> !old(self).has_channel(chan),
            r is Err ==> r == Err::<(), OxiError>(OxiError::ChannelOutOfRange) && *final(self) == *old(self),
            r is Ok ==> final(self).only_channel_changed(*old(self), chan)
                && final(self).chan(chan) == (Channel { tuning: None, ..old(self).chan(chan) }),
    {
        if chan as usize >= self.channels.len() {
            return Err(OxiError::ChannelOutOfRange);
        }
        self.channels[chan as usize].tuning = None;
        Ok(())
    }
}

/// Another handle on the same preset, if there is one.
fn share_preset(p: &Option<Preset>) -> (r: Option<Preset>)
    ensures
        r == *p,
{
    match p {
        Some(p) => Some(p.share()),
        None => None,
    }
}

/// Channel `i` after its preset is looked up again.
pub open spec fn spec_preset_updated(old: Synth, i: int, ch: Channel) -> bool {
    let before = old.channels@[i];
    match before.sfontnum {
        Some(id) => ch == (Channel { preset: old.font_bank.spec_get_preset(id, before.banknum, before.prognum), ..before }),
        None => ch == before,
    }
}

/// Channel `i` after a system reset.
pub open spec fn spec_channel_system_reset(old: Synth, i: int, ch: Channel) -> bool {
    let before = old.channels@[i];
    &&& ch.channum == before.channum
    &&& ch.sfontnum is None
    &&& ch.banknum == 0
    &&& ch.prognum == 0
    &&& ch.preset == old.font_bank.spec_find_preset(0, 0)
    &&& ch.interp_method == InterpolationMethod::FourthOrder
    &&& ch.tuning is None
    &&& ch.nrpn_select == 0
    &&& !ch.nrpn_active
    &&& ch.bank_msb == before.bank_msb
    &&& ch.channel_pressure == 0
    &&& ch.pitch_bend == 0x2000
    &&& ch.pitch_wheel_sensitivity == 2
    &&& forall|k: int| 0 <= k < 128 ==> #[trigger] ch.key_pressure@[k] == 0
    &&& forall|k: int| 0 <= k < 128 ==> #[trigger] ch.cc@[k] == crate::channel::spec_reset_cc(before.cc@, false, k)
}

/// Channel `i` after a program reset: the program change took effect, or,
/// for a program out of range, the channel is unchanged.
pub open spec fn spec_channel_reset(old: Synth, i: int, ch: Channel) -> bool {
    let before = old.channels@[i];
    if before.prognum < 128 {
        spec_program_applied(
            before,
            ch,
            before.prognum,
            spec_program_choice(old.font_bank, before, before.prognum, old.settings.drums_channel_active),
        )
    } else {
        ch == before
    }
}

} // verus!
