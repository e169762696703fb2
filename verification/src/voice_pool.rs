use vstd::prelude::*;

use crate::channel::Channel;
use crate::voice::{VoiceEnvelope, VoiceId, VoiceStatus};

verus! {

/// Controller number of the sustain pedal.
pub const SUSTAIN_SWITCH: usize = 64;

/// Channel number a voice gets when it is turned off.
pub const NO_CHANNEL: u8 = 0xff;

/// One unit of sample position in a voice's phase (the phase is a 32.32
/// fixed point number).
pub const PHASE_UNIT: u64 = 0x1_0000_0000;

/// Position of an envelope section in playing order.
pub open spec fn spec_env_index(s: VoiceEnvelope) -> int {
    match s {
        VoiceEnvelope::Delay => 0,
        VoiceEnvelope::Attack => 1,
        VoiceEnvelope::Hold => 2,
        VoiceEnvelope::Decay => 3,
        VoiceEnvelope::Sustain => 4,
        VoiceEnvelope::Release => 5,
        VoiceEnvelope::Finished => 6,
    }
}

/// Position of an envelope section in playing order.
pub fn env_index(s: VoiceEnvelope) -> (r: u8)
    ensures
        r == spec_env_index(s),
{
    match s {
        VoiceEnvelope::Delay => 0,
        VoiceEnvelope::Attack => 1,
        VoiceEnvelope::Hold => 2,
        VoiceEnvelope::Decay => 3,
        VoiceEnvelope::Sustain => 4,
        VoiceEnvelope::Release => 5,
        VoiceEnvelope::Finished => 6,
    }
}

/// Whether the sample positions of a voice must be checked before it next
/// plays, and whether that check is the first one since the voice started.
#[derive(Debug, Clone, Copy, PartialEq, Eq, Structural)]
pub enum SanityCheck {
    /// The positions are known to be in order.
    Done,
    /// A generator that moves a position changed.
    Pending,
    /// The voice just started: checking the sample also sets its initial phase.
    Startup,
}

/// The bounds of the sample a voice plays, as sample indices.
#[derive(Debug, Clone, Copy, PartialEq, Eq, Structural)]
pub struct SampleBounds {
    pub start: i32,
    /// Last valid sample.
    pub end: i32,
    pub loopstart: i32,
    pub loopend: i32,
}

/// The state of a voice that decides what happens to it: the note it plays,
/// where it is in its life and in its envelopes, and the sample positions
/// it reads. (The sound itself is computed elsewhere.)
#[derive(Debug, Clone, Copy, PartialEq, Eq, Structural)]
pub struct VoiceState {
    /// Id of the note the voice belongs to.
    pub id: usize,
    /// MIDI channel number, `NO_CHANNEL` once the voice is off.
    pub chan: u8,
    pub key: u8,
    pub vel: u8,
    /// Index of the voice's channel among the synthesizer's channels.
    pub channel_id: usize,
    pub status: VoiceStatus,
    pub volenv_section: VoiceEnvelope,
    pub volenv_count: u32,
    pub modenv_section: VoiceEnvelope,
    pub modenv_count: u32,
    /// Samples played since the voice started.
    pub ticks: u32,
    /// Tick at which a delayed note-off takes effect, 0 for none.
    pub noteoff_ticks: u32,
    /// Exclusive class (generator 57, truncated); 0 for none.
    pub exclusive_class: i32,
    /// Sample mode (generator 54, truncated): 1 loops throughout, 3 loops
    /// until release, anything else does not loop.
    pub sample_mode: i32,
    pub start: i32,
    pub end: i32,
    pub loopstart: i32,
    pub loopend: i32,
    /// Playback position, 32.32 fixed point.
    pub phase: u64,
    pub sanity: SanityCheck,
}

/// Whether a sample mode loops.
pub open spec fn spec_loops(mode: i32) -> bool {
    mode == 1 || mode == 3
}

/// `x` brought into `[lo, hi]` (`lo` wins when `lo > hi`).
pub open spec fn spec_clamp(x: int, lo: int, hi: int) -> int {
    if x < lo {
        lo
    } else if x > hi {
        hi
    } else {
        x
    }
}

fn clamp_i32(x: i32, lo: i32, hi: i32) -> (r: i32)
    ensures
        r == spec_clamp(x as int, lo as int, hi as int),
{
    if x < lo {
        lo
    } else if x > hi {
        hi
    } else {
        x
    }
}

/// The sample index a phase points at.
pub open spec fn spec_phase_index(phase: u64) -> i32 {
    ((phase / PHASE_UNIT) as u32) as i32
}

/// The phase at the start of sample index `i`.
pub open spec fn spec_phase_at(i: i32) -> u64 {
    (i * PHASE_UNIT) as u64
}

impl VoiceState {
    /// A voice that has never played.
    pub open spec fn spec_clean() -> VoiceState {
        VoiceState {
            id: 0,
            chan: NO_CHANNEL,
            key: 0,
            vel: 0,
            channel_id: 0,
            status: VoiceStatus::Clean,
            volenv_section: VoiceEnvelope::Delay,
            volenv_count: 0,
            modenv_section: VoiceEnvelope::Delay,
            modenv_count: 0,
            ticks: 0,
            noteoff_ticks: 0,
            exclusive_class: 0,
            sample_mode: 0,
            start: 0,
            end: 0,
            loopstart: 0,
            loopend: 0,
            phase: 0,
            sanity: SanityCheck::Done,
        }
    }

    /// A voice that has never played.
    pub fn clean() -> (r: VoiceState)
        ensures
            r == VoiceState::spec_clean(),
    {
        VoiceState {
            id: 0,
            chan: NO_CHANNEL,
            key: 0,
            vel: 0,
            channel_id: 0,
            status: VoiceStatus::Clean,
            volenv_section: VoiceEnvelope::Delay,
            volenv_count: 0,
            modenv_section: VoiceEnvelope::Delay,
            modenv_count: 0,
            ticks: 0,
            noteoff_ticks: 0,
            exclusive_class: 0,
            sample_mode: 0,
            start: 0,
            end: 0,
            loopstart: 0,
            loopend: 0,
            phase: 0,
            sanity: SanityCheck::Done,
        }
    }

    pub open spec fn spec_is_available(self) -> bool {
        self.status == VoiceStatus::Clean || self.status == VoiceStatus::Off
    }

    pub open spec fn spec_is_on(self) -> bool {
        self.status == VoiceStatus::On && spec_env_index(self.volenv_section) < 5
    }

    pub open spec fn spec_is_playing(self) -> bool {
        self.status == VoiceStatus::On || self.status == VoiceStatus::Sustained
    }

    /// The voice can be given a new note: it never played or was turned off.
    pub fn is_available(&self) -> (r: bool)
        ensures
            r == self.spec_is_available(),
    {
        self.status == VoiceStatus::Clean || self.status == VoiceStatus::Off
    }

    /// The voice plays and its key is still held: it is on and its volume
    /// envelope has not reached the release section.
    pub fn is_on(&self) -> (r: bool)
        ensures
            r == self.spec_is_on(),
    {
        self.status == VoiceStatus::On && env_index(self.volenv_section) < 5
    }

    /// The voice sounds: it is on or held by the sustain pedal.
    pub fn is_playing(&self) -> (r: bool)
        ensures
            r == self.spec_is_playing(),
    {
        self.status == VoiceStatus::On || self.status == VoiceStatus::Sustained
    }

    /// The voice turned off.
    pub open spec fn spec_off(self) -> VoiceState {
        VoiceState {
            chan: NO_CHANNEL,
            volenv_section: VoiceEnvelope::Finished,
            volenv_count: 0,
            modenv_section: VoiceEnvelope::Finished,
            modenv_count: 0,
            status: VoiceStatus::Off,
            ..self
        }
    }

    /// Turns the voice off: it is no longer played and can take a new note.
    pub fn off(&mut self)
        ensures
            *final(self) == old(self).spec_off(),
    {
        self.chan = NO_CHANNEL;
        self.volenv_section = VoiceEnvelope::Finished;
        self.volenv_count = 0;
        self.modenv_section = VoiceEnvelope::Finished;
        self.modenv_count = 0;
        self.status = VoiceStatus::Off;
    }

    /// Both envelopes moved to their release section.
    pub open spec fn spec_released(self) -> VoiceState {
        VoiceState {
            volenv_section: VoiceEnvelope::Release,
            volenv_count: 0,
            modenv_section: VoiceEnvelope::Release,
            modenv_count: 0,
            ..self
        }
    }

    /// The voice after its key is released: before `min_ticks` samples have
    /// played the release is put off until then; with the sustain pedal down
    /// the voice is sustained; else both envelopes enter their release
    /// section.
    pub open spec fn spec_noteoff(self, sustained: bool, min_ticks: u32) -> VoiceState {
        if min_ticks > self.ticks {
            VoiceState { noteoff_ticks: min_ticks, ..self }
        } else if sustained {
            VoiceState { status: VoiceStatus::Sustained, ..self }
        } else {
            self.spec_released()
        }
    }

    /// Whether a note-off moves the volume envelope out of its attack
    /// section (whose value must then be carried over to the release).
    pub open spec fn spec_noteoff_in_attack(self, sustained: bool, min_ticks: u32) -> bool {
        min_ticks <= self.ticks && !sustained && self.volenv_section == VoiceEnvelope::Attack
    }

    /// Releases the voice's key (see `spec_noteoff`); the channel's sustain
    /// pedal (controller 64 at 64 or more) decides whether it is sustained.
    /// The result says whether the volume envelope left its attack section.
    pub fn noteoff(&mut self, channels: &Vec<Channel>, min_note_length_ticks: u32) -> (r: bool)
        requires
            old(self).channel_id < channels@.len(),
        ensures
            *final(self) == old(self).spec_noteoff(
                channels@[old(self).channel_id as int].cc@[SUSTAIN_SWITCH as int] >= 64,
                min_note_length_ticks,
            ),
            r == old(self).spec_noteoff_in_attack(
                channels@[old(self).channel_id as int].cc@[SUSTAIN_SWITCH as int] >= 64,
                min_note_length_ticks,
            ),
    {
        if min_note_length_ticks > self.ticks {
            self.noteoff_ticks = min_note_length_ticks;
            return false;
        }
        let sustained = channels[self.channel_id].cc[SUSTAIN_SWITCH] >= 64;
        if sustained {
            self.status = VoiceStatus::Sustained;
            false
        } else {
            let in_attack = self.volenv_section == VoiceEnvelope::Attack;
            self.volenv_section = VoiceEnvelope::Release;
            self.volenv_count = 0;
            self.modenv_section = VoiceEnvelope::Release;
            self.modenv_count = 0;
            in_attack
        }
    }

    /// The voice after another voice of its exclusive class started: a
    /// playing voice loses its class (so it is not killed twice) and enters
    /// its release section; other voices are unchanged.
    pub open spec fn spec_kill_excl(self) -> VoiceState {
        if !self.spec_is_playing() {
            self
        } else if self.volenv_section == VoiceEnvelope::Release {
            VoiceState { exclusive_class: 0, ..self }
        } else {
            VoiceState { exclusive_class: 0, ..self.spec_released() }
        }
    }

    /// Kills the voice for its exclusive class (see `spec_kill_excl`). The
    /// result says whether it was playing, in which case its release must
    /// also be sped up.
    pub fn kill_excl(&mut self) -> (r: bool)
        ensures
            *final(self) == old(self).spec_kill_excl(),
            r == old(self).spec_is_playing(),
    {
        if !self.is_playing() {
            return false;
        }
        self.exclusive_class = 0;
        if self.volenv_section != VoiceEnvelope::Release {
            self.volenv_section = VoiceEnvelope::Release;
            self.volenv_count = 0;
            self.modenv_section = VoiceEnvelope::Release;
            self.modenv_count = 0;
        }
        true
    }

    /// Starts the voice: it plays, and its sample positions are checked,
    /// with its initial phase, before it first sounds.
    pub fn start(&mut self)
        ensures
            *final(self) == (VoiceState { status: VoiceStatus::On, sanity: SanityCheck::Startup, ..*old(self) }),
    {
        self.sanity = SanityCheck::Startup;
        self.status = VoiceStatus::On;
    }
}

/// The voice after its sample positions are checked against the sample's
/// bounds `b`, with whether the loop now lies within the sample's own loop
/// (so the loop's noise floor estimate must be refreshed):
/// - start and end are kept within the sample and in order; when they meet
///   the voice is turned off;
/// - in a looping mode the loop points are kept within the sample (the loop
///   end may be one past it) and in order, and a loop shorter than two
///   samples stops the looping;
/// - on the first check after the voice started, a sample shorter than two
///   samples stops the looping and the phase is set to the start;
/// - a voice that loops now and whose phase lies at or past the loop end
///   jumps back to the loop start.
pub open spec fn spec_sanity(v: VoiceState, b: SampleBounds) -> (VoiceState, bool) {
    if v.sanity == SanityCheck::Done {
        (v, false)
    } else {
        let s0 = spec_clamp(v.start as int, b.start as int, b.end as int);
        let e0 = spec_clamp(v.end as int, b.start as int, b.end as int);
        let s = if s0 > e0 { e0 } else { s0 };
        let e = if s0 > e0 { s0 } else { e0 };
        if s == e {
            (VoiceState { start: s as i32, end: e as i32, ..v }.spec_off(), false)
        } else {
            let looping = spec_loops(v.sample_mode);
            let ls0 = spec_clamp(v.loopstart as int, b.start as int, b.end + 1);
            let le0 = spec_clamp(v.loopend as int, b.start as int, b.end + 1);
            let ls = if !looping { v.loopstart as int } else if ls0 > le0 { le0 } else { ls0 };
            let le = if !looping { v.loopend as int } else if ls0 > le0 { ls0 } else { le0 };
            let mode1 = if looping && le < ls + 2 { 0i32 } else { v.sample_mode };
            let refresh = looping && ls >= b.loopstart && le <= b.loopend;
            let startup = v.sanity == SanityCheck::Startup;
            let mode2 = if startup && b.end + 1 - b.start < 2 && spec_loops(mode1) { 0i32 } else { mode1 };
            let phase1 = if startup { spec_phase_at(s as i32) } else { v.phase };
            let loops_now = (mode2 == 3 && spec_env_index(v.volenv_section) < 5) || mode2 == 1;
            let phase2 = if loops_now && spec_phase_index(phase1) >= le { spec_phase_at(ls as i32) } else { phase1 };
            (
                VoiceState {
                    start: s as i32,
                    end: e as i32,
                    loopstart: ls as i32,
                    loopend: le as i32,
                    sample_mode: mode2,
                    phase: phase2,
                    sanity: SanityCheck::Done,
                    ..v
                },
                refresh,
            )
        }
    }
}

impl VoiceState {
    /// Keeps the voice's sample positions in order before it plays (see
    /// `spec_sanity`), once after each change of them.
    pub fn check_sample_sanity(&mut self, b: SampleBounds) -> (refresh: bool)
        requires
            0 <= b.start,
            0 <= b.end < i32::MAX,
        ensures
            (*final(self), refresh) == spec_sanity(*old(self), b),
    {
        if self.sanity == SanityCheck::Done {
            return false;
        }
        let min_index = b.start;
        let max_index_nonloop = b.end;
        let max_index_loop = b.end + 1;

        self.start = clamp_i32(self.start, min_index, max_index_nonloop);
        self.end = clamp_i32(self.end, min_index, max_index_nonloop);
        if self.start > self.end {
            let temp = self.start;
            self.start = self.end;
            self.end = temp;
        }
        if self.start == self.end {
            self.off();
            return false;
        }

        let mut refresh = false;
        if self.sample_mode == 3 || self.sample_mode == 1 {
            self.loopstart = clamp_i32(self.loopstart, min_index, max_index_loop);
            self.loopend = clamp_i32(self.loopend, min_index, max_index_loop);
            if self.loopstart > self.loopend {
                let temp = self.loopstart;
                self.loopstart = self.loopend;
                self.loopend = temp;
            }
            if (self.loopend as i64) < (self.loopstart as i64) + 2 {
                self.sample_mode = 0;
            }
            if self.loopstart >= b.loopstart && self.loopend <= b.loopend {
                refresh = true;
            }
        }

        if self.sanity == SanityCheck::Startup {
            if (max_index_loop as i64) - (min_index as i64) < 2 {
                if self.sample_mode == 3 || self.sample_mode == 1 {
                    self.sample_mode = 0;
                }
            }
            assert(0 <= self.start < 0x8000_0000);
            self.phase = (self.start as u64) * PHASE_UNIT;
        }

        if (self.sample_mode == 3 && env_index(self.volenv_section) < 5) || self.sample_mode == 1 {
            let phase = self.phase;
            let shifted = phase >> 32u64;
            assert(shifted == phase / 0x1_0000_0000) by (bit_vector)
                requires shifted == phase >> 32u64;
            let index_in_sample = #[verifier::truncate] (shifted as u32) as i32;
            if index_in_sample >= self.loopend {
                assert(0 <= self.loopstart < 0x8000_0000);
                self.phase = (self.loopstart as u64) * PHASE_UNIT;
            }
        }
        self.sanity = SanityCheck::Done;
        refresh
    }
}

/// The section after `s` (the finished section has none; it stays).
pub open spec fn spec_next_section(s: VoiceEnvelope) -> VoiceEnvelope {
    match s {
        VoiceEnvelope::Delay => VoiceEnvelope::Attack,
        VoiceEnvelope::Attack => VoiceEnvelope::Hold,
        VoiceEnvelope::Hold => VoiceEnvelope::Decay,
        VoiceEnvelope::Decay => VoiceEnvelope::Sustain,
        VoiceEnvelope::Sustain => VoiceEnvelope::Release,
        VoiceEnvelope::Release => VoiceEnvelope::Finished,
        VoiceEnvelope::Finished => VoiceEnvelope::Finished,
    }
}

/// The section after `s` (the finished section has none; it stays).
pub fn next_section(s: VoiceEnvelope) -> (r: VoiceEnvelope)
    ensures
        r == spec_next_section(s),
{
    match s {
        VoiceEnvelope::Delay => VoiceEnvelope::Attack,
        VoiceEnvelope::Attack => VoiceEnvelope::Hold,
        VoiceEnvelope::Hold => VoiceEnvelope::Decay,
        VoiceEnvelope::Decay => VoiceEnvelope::Sustain,
        VoiceEnvelope::Sustain => VoiceEnvelope::Release,
        VoiceEnvelope::Release => VoiceEnvelope::Finished,
        VoiceEnvelope::Finished => VoiceEnvelope::Finished,
    }
}

/// The section an envelope in section `s` with `count` blocks played in it
/// reaches when it skips every section whose length (`lengths`, in blocks,
/// by section) the count has reached; a skipped section restarts the count.
pub open spec fn spec_skip_sections(s: VoiceEnvelope, count: u32, lengths: Seq<u32>) -> (VoiceEnvelope, u32)
    decreases 6 - spec_env_index(s),
{
    if spec_env_index(s) < 6 && count >= lengths[spec_env_index(s)] {
        spec_skip_sections(spec_next_section(s), 0, lengths)
    } else {
        (s, count)
    }
}

/// Whether skipping sections from `s` with `count` leaves the decay section.
pub open spec fn spec_skips_decay(s: VoiceEnvelope, count: u32, lengths: Seq<u32>) -> bool
    decreases 6 - spec_env_index(s),
{
    if spec_env_index(s) < 6 && count >= lengths[spec_env_index(s)] {
        s == VoiceEnvelope::Decay || spec_skips_decay(spec_next_section(s), 0, lengths)
    } else {
        false
    }
}

fn skip_sections(s: VoiceEnvelope, count: u32, lengths: &[u32; 7]) -> (r: (VoiceEnvelope, u32, bool))
    ensures
        (r.0, r.1) == spec_skip_sections(s, count, lengths@),
        r.2 == spec_skips_decay(s, count, lengths@),
{
    let mut sec = s;
    let mut c = count;
    let mut decay = false;
    while env_index(sec) < 6 && c >= lengths[env_index(sec) as usize]
        invariant
            spec_skip_sections(sec, c, lengths@) == spec_skip_sections(s, count, lengths@),
            spec_skips_decay(s, count, lengths@) == (decay || spec_skips_decay(sec, c, lengths@)),
        decreases 6 - spec_env_index(sec),
    {
        if sec == VoiceEnvelope::Decay {
            decay = true;
        }
        sec = next_section(sec);
        c = 0;
    }
    (sec, c, decay)
}

impl VoiceState {
    /// Moves the volume envelope past the sections whose length (in
    /// blocks) it has played (see `spec_skip_sections`). The result says
    /// whether it left the decay section, whose end level it then takes.
    pub fn skip_volenv_sections(&mut self, lengths: &[u32; 7]) -> (left_decay: bool)
        ensures
            (final(self).volenv_section, final(self).volenv_count) == spec_skip_sections(
                old(self).volenv_section,
                old(self).volenv_count,
                lengths@,
            ),
            left_decay == spec_skips_decay(old(self).volenv_section, old(self).volenv_count, lengths@),
            *final(self) == (VoiceState {
                volenv_section: final(self).volenv_section,
                volenv_count: final(self).volenv_count,
                ..*old(self)
            }),
    {
        let (sec, c, decay) = skip_sections(self.volenv_section, self.volenv_count, lengths);
        self.volenv_section = sec;
        self.volenv_count = c;
        decay
    }

    /// Moves the modulation envelope past the sections whose length (in
    /// blocks) it has played (see `spec_skip_sections`).
    pub fn skip_modenv_sections(&mut self, lengths: &[u32; 7])
        ensures
            (final(self).modenv_section, final(self).modenv_count) == spec_skip_sections(
                old(self).modenv_section,
                old(self).modenv_count,
                lengths@,
            ),
            *final(self) == (VoiceState {
                modenv_section: final(self).modenv_section,
                modenv_count: final(self).modenv_count,
                ..*old(self)
            }),
    {
        let (sec, c, _) = skip_sections(self.modenv_section, self.modenv_count, lengths);
        self.modenv_section = sec;
        self.modenv_count = c;
    }

    /// The volume envelope's level left the range of its section: the next
    /// section starts; then one more block is counted.
    pub fn step_volenv(&mut self, out_of_range: bool)
        ensures
            *final(self) == (if out_of_range {
                VoiceState {
                    volenv_section: spec_next_section(old(self).volenv_section),
                    volenv_count: 1,
                    ..*old(self)
                }
            } else {
                VoiceState { volenv_count: old(self).volenv_count.wrapping_add(1), ..*old(self) }
            }),
    {
        if out_of_range {
            self.volenv_section = next_section(self.volenv_section);
            self.volenv_count = 0;
        }
        self.volenv_count = self.volenv_count.wrapping_add(1);
    }

    /// The modulation envelope's level left the range of its section: the
    /// next section starts; then one more block is counted.
    pub fn step_modenv(&mut self, out_of_range: bool)
        ensures
            *final(self) == (if out_of_range {
                VoiceState {
                    modenv_section: spec_next_section(old(self).modenv_section),
                    modenv_count: 1,
                    ..*old(self)
                }
            } else {
                VoiceState { modenv_count: old(self).modenv_count.wrapping_add(1), ..*old(self) }
            }),
    {
        if out_of_range {
            self.modenv_section = next_section(self.modenv_section);
            self.modenv_count = 0;
        }
        self.modenv_count = self.modenv_count.wrapping_add(1);
    }
}

/// The voices of a synthesizer. Only the first `polyphony_limit` of them
/// take notes.
#[derive(Debug)]
pub struct VoicePool {
    pub voices: Vec<VoiceState>,
    pub polyphony_limit: usize,
}

/// Which voices a release reaches.
#[derive(Debug, Clone, Copy, PartialEq, Eq, Structural)]
pub enum Release {
    /// Voices that are on, of channel `chan`, playing `key`.
    Key { chan: u8, key: u8 },
    /// Playing voices of channel `chan`.
    Channel { chan: u8 },
    /// Sustained voices of channel `chan`.
    Sustained { chan: u8 },
    /// Playing voices of channel `chan` on `key` that belong to another
    /// note than `noteid`.
    OtherNote { chan: u8, key: u8, noteid: usize },
}

/// Whether a release reaches voice `v`.
pub open spec fn spec_reaches(m: Release, v: VoiceState) -> bool {
    match m {
        Release::Key { chan, key } => v.spec_is_on() && v.chan == chan && v.key == key,
        Release::Channel { chan } => v.spec_is_playing() && v.chan == chan,
        Release::Sustained { chan } => v.chan == chan && v.status == VoiceStatus::Sustained,
        Release::OtherNote { chan, key, noteid } => v.spec_is_playing() && v.chan == chan && v.key == key && v.id != noteid,
    }
}

fn reaches(m: Release, v: &VoiceState) -> (r: bool)
    ensures
        r == spec_reaches(m, *v),
{
    match m {
        Release::Key { chan, key } => v.is_on() && v.chan == chan && v.key == key,
        Release::Channel { chan } => v.is_playing() && v.chan == chan,
        Release::Sustained { chan } => v.chan == chan && v.status == VoiceStatus::Sustained,
        Release::OtherNote { chan, key, noteid } => v.is_playing() && v.chan == chan && v.key == key && v.id != noteid,
    }
}

/// Whether the sustain pedal of voice `v`'s channel is down.
pub open spec fn spec_pedal_down(channels: Seq<Channel>, v: VoiceState) -> bool {
    channels[v.channel_id as int].cc@[SUSTAIN_SWITCH as int] >= 64
}

/// Pool `new` is pool `old` after the limit was set to `p`: a limit of 0 or
/// above the number of voices changes nothing; else the limit is `p` and the
/// playing voices at or above it are turned off.
pub open spec fn spec_polyphony_set(old: VoicePool, new: VoicePool, p: usize) -> bool {
    if p < 1 || p > old.voices@.len() {
        new == old
    } else {
        &&& new.polyphony_limit == p
        &&& new.voices@.len() == old.voices@.len()
        &&& forall|i: int|
            0 <= i < old.voices@.len() ==> #[trigger] new.voices@[i] == if i >= p && old.voices@[i].spec_is_playing() {
                old.voices@[i].spec_off()
            } else {
                old.voices@[i]
            }
    }
}

impl VoicePool {
    /// The pool's invariant: the limit does not exceed the number of voices.
    pub open spec fn wf(&self) -> bool {
        self.polyphony_limit <= self.voices@.len()
    }

    /// Every playing voice belongs to one of `n` channels.
    pub open spec fn channels_ok(&self, n: nat) -> bool {
        forall|i: int| 0 <= i < self.voices@.len() && (#[trigger] self.voices@[i]).spec_is_playing() ==> self.voices@[i].channel_id < n
    }

    /// `len` clean voices, all of which take notes.
    pub fn new(len: usize) -> (r: VoicePool)
        ensures
            r.wf(),
            r.polyphony_limit == len,
            r.voices@.len() == len,
            forall|i: int| 0 <= i < len ==> #[trigger] r.voices@[i] == VoiceState::spec_clean(),
    {
        let mut voices: Vec<VoiceState> = Vec::new();
        let mut i: usize = 0;
        while i < len
            invariant
                i <= len,
                voices@.len() == i,
                forall|j: int| 0 <= j < i ==> #[trigger] voices@[j] == VoiceState::spec_clean(),
            decreases len - i,
        {
            voices.push(VoiceState::clean());
            i += 1;
        }
        VoicePool { voices, polyphony_limit: len }
    }

    /// Sets how many voices take notes; voices above the new limit that are
    /// playing are turned off. A limit of 0 or above the number of voices is
    /// refused, with nothing changed.
    pub fn set_polyphony_limit(&mut self, polyphony: usize) -> (r: Result<(), ()>)
        requires
            old(self).wf(),
        ensures
            final(self).wf(),
            r is Err <==> polyphony < 1 || polyphony > old(self).voices@.len(),
            spec_polyphony_set(*old(self), *final(self), polyphony),
    {
        if polyphony < 1 || polyphony > self.voices.len() {
            return Err(());
        }
        self.polyphony_limit = polyphony;
        let mut i: usize = polyphony;
        while i < self.voices.len()
            invariant
                polyphony <= i <= self.voices@.len(),
                self.polyphony_limit == polyphony,
                polyphony <= old(self).voices@.len(),
                self.voices@.len() == old(self).voices@.len(),
                forall|j: int|
                    0 <= j < self.voices@.len() ==> #[trigger] self.voices@[j] == if polyphony <= j < i
                        && old(self).voices@[j].spec_is_playing() {
                        old(self).voices@[j].spec_off()
                    } else {
                        old(self).voices@[j]
                    },
            decreases self.voices@.len() - i,
        {
            let mut v = self.voices[i];
            if v.is_playing() {
                v.off();
                self.voices.set(i, v);
            }
            i += 1;
        }
        Ok(())
    }
}

/// Voice `v` after a release reaches it.
pub open spec fn spec_release_step(channels: Seq<Channel>, min_ticks: u32, v: VoiceState) -> VoiceState {
    v.spec_noteoff(spec_pedal_down(channels, v), min_ticks)
}

/// Whether a release moves voice `v` out of its attack section.
pub open spec fn spec_release_in_attack(channels: Seq<Channel>, min_ticks: u32, v: VoiceState) -> bool {
    v.spec_noteoff_in_attack(spec_pedal_down(channels, v), min_ticks)
}

impl VoicePool {
    /// The voices below the limit that `m` reaches are released (see
    /// `VoiceState::spec_noteoff`); the others are unchanged. The result
    /// names, once each, the released voices whose volume envelope left its
    /// attack section.
    pub fn release(&mut self, channels: &Vec<Channel>, min_note_length_ticks: u32, m: Release) -> (r: Vec<VoiceId>)
        requires
            old(self).wf(),
            old(self).channels_ok(channels@.len()),
        ensures
            final(self).wf(),
            final(self).channels_ok(channels@.len()),
            spec_release_done(*old(self), *final(self), channels@, min_note_length_ticks, m, r@),
    {
        let mut r: Vec<VoiceId> = Vec::new();
        let limit = self.polyphony_limit;
        let mut i: usize = 0;
        while i < limit
            invariant
                i <= limit,
                limit == self.polyphony_limit,
                limit == old(self).polyphony_limit,
                old(self).wf(),
                old(self).channels_ok(channels@.len()),
                self.voices@.len() == old(self).voices@.len(),
                forall|j: int|
                    0 <= j < self.voices@.len() ==> #[trigger] self.voices@[j] == if j < i && spec_reaches(
                        m,
                        old(self).voices@[j],
                    ) {
                        spec_release_step(channels@, min_note_length_ticks, old(self).voices@[j])
                    } else {
                        old(self).voices@[j]
                    },
                forall|j: int|
                    0 <= j < i ==> (r@.contains(VoiceId(j as usize)) <==> spec_reaches(m, old(self).voices@[j])
                        && spec_release_in_attack(channels@, min_note_length_ticks, old(self).voices@[j])),
                forall|j: int| 0 <= j < r@.len() ==> (#[trigger] r@[j]).0 < i,
                r@.no_duplicates(),
            decreases limit - i,
        {
            let ghost r_old = r@;
            let mut v = self.voices[i];
            let mut pushed = false;
            if reaches(m, &v) {
                assert(old(self).voices@[i as int].spec_is_playing());
                let in_attack = v.noteoff(channels, min_note_length_ticks);
                self.voices.set(i, v);
                if in_attack {
                    proof {
                        assert forall|j: int| 0 <= j < r@.len() implies r@[j] != VoiceId(i) by {
                            assert(r@[j].0 < i);
                        }
                    }
                    r.push(VoiceId(i));
                    pushed = true;
                }
            }
            proof {
                if pushed {
                    assert(r@ == r_old.push(VoiceId(i)));
                    assert(r@[r_old.len() as int] == VoiceId(i));
                } else {
                    assert(r@ == r_old);
                }
                assert forall|j: int| 0 <= j < i + 1 implies (r@.contains(VoiceId(j as usize)) <==> spec_reaches(m, old(self).voices@[j])
                        && spec_release_in_attack(channels@, min_note_length_ticks, old(self).voices@[j])) by {
                    if j < i {
                        if r@.contains(VoiceId(j as usize)) {
                            let k = choose|k: int| 0 <= k < r@.len() && r@[k] == VoiceId(j as usize);
                            if k < r_old.len() {
                                assert(r_old[k] == VoiceId(j as usize));
                                assert(r_old.contains(VoiceId(j as usize)));
                            }
                        }
                        if r_old.contains(VoiceId(j as usize)) {
                            let k = choose|k: int| 0 <= k < r_old.len() && r_old[k] == VoiceId(j as usize);
                            assert(r@[k] == VoiceId(j as usize));
                        }
                    } else {
                        if !pushed && r@.contains(VoiceId(j as usize)) {
                            let k = choose|k: int| 0 <= k < r@.len() && r@[k] == VoiceId(j as usize);
                            assert(r@[k].0 < i);
                        }
                    }
                }
            }
            i += 1;
        }
        proof {
            assert forall|j: int| 0 <= j < self.voices@.len() && (#[trigger] self.voices@[j]).spec_is_playing()
                implies self.voices@[j].channel_id < channels@.len() by {
                if j < limit && spec_reaches(m, old(self).voices@[j]) {
                    assert(old(self).voices@[j].spec_is_playing());
                }
            }
        }
        r
    }
}

/// Pool `new` is pool `old` after release `m`: the voices below the limit
/// that `m` reaches are released (see `VoiceState::spec_noteoff`), the
/// others are unchanged, and `r` names, once each, the released voices whose
/// volume envelope left its attack section.
pub open spec fn spec_release_done(
    old: VoicePool,
    new: VoicePool,
    channels: Seq<Channel>,
    min_ticks: u32,
    m: Release,
    r: Seq<VoiceId>,
) -> bool {
    &&& new.polyphony_limit == old.polyphony_limit
    &&& new.voices@.len() == old.voices@.len()
    &&& forall|i: int|
        0 <= i < old.voices@.len() ==> #[trigger] new.voices@[i] == if i < old.polyphony_limit && spec_reaches(
            m,
            old.voices@[i],
        ) {
            spec_release_step(channels, min_ticks, old.voices@[i])
        } else {
            old.voices@[i]
        }
    &&& forall|i: int|
        0 <= i < old.polyphony_limit ==> (r.contains(VoiceId(i as usize)) <==> spec_reaches(m, old.voices@[i])
            && spec_release_in_attack(channels, min_ticks, old.voices@[i]))
    &&& forall|j: int| 0 <= j < r.len() ==> (#[trigger] r[j]).0 < old.polyphony_limit
    &&& r.no_duplicates()
}

impl VoicePool {
    /// Releases the voices of channel `chan` that are on and play `key`.
    pub fn noteoff(&mut self, channels: &Vec<Channel>, min_note_length_ticks: u32, chan: u8, key: u8) -> (r: Vec<VoiceId>)
        requires
            old(self).wf(),
            old(self).channels_ok(channels@.len()),
        ensures
            final(self).wf(),
            final(self).channels_ok(channels@.len()),
            spec_release_done(*old(self), *final(self), channels@, min_note_length_ticks, Release::Key { chan, key }, r@),
    {
        self.release(channels, min_note_length_ticks, Release::Key { chan, key })
    }

    /// Releases the playing voices of channel `chan`.
    pub fn all_notes_off(&mut self, channels: &Vec<Channel>, min_note_length_ticks: u32, chan: u8) -> (r: Vec<VoiceId>)
        requires
            old(self).wf(),
            old(self).channels_ok(channels@.len()),
        ensures
            final(self).wf(),
            final(self).channels_ok(channels@.len()),
            spec_release_done(*old(self), *final(self), channels@, min_note_length_ticks, Release::Channel { chan }, r@),
    {
        self.release(channels, min_note_length_ticks, Release::Channel { chan })
    }

    /// Releases the sustained voices of channel `chan` (the pedal went up).
    pub fn damp_voices(&mut self, channels: &Vec<Channel>, chan: u8, min_note_length_ticks: u32) -> (r: Vec<VoiceId>)
        requires
            old(self).wf(),
            old(self).channels_ok(channels@.len()),
        ensures
            final(self).wf(),
            final(self).channels_ok(channels@.len()),
            spec_release_done(*old(self), *final(self), channels@, min_note_length_ticks, Release::Sustained { chan }, r@),
    {
        self.release(channels, min_note_length_ticks, Release::Sustained { chan })
    }

    /// Releases the playing voices of channel `chan` on `key` that belong to
    /// another note than `noteid`.
    pub fn release_voice_on_same_note(
        &mut self,
        channels: &Vec<Channel>,
        chan: u8,
        key: u8,
        noteid: usize,
        min_note_length_ticks: u32,
    ) -> (r: Vec<VoiceId>)
        requires
            old(self).wf(),
            old(self).channels_ok(channels@.len()),
        ensures
            final(self).wf(),
            final(self).channels_ok(channels@.len()),
            spec_release_done(
                *old(self),
                *final(self),
                channels@,
                min_note_length_ticks,
                Release::OtherNote { chan, key, noteid },
                r@,
            ),
    {
        self.release(channels, min_note_length_ticks, Release::OtherNote { chan, key, noteid })
    }
}

/// Whether starting voice `new` kills voice `v` for their exclusive class:
/// `new` has a class, and `v` plays on the same channel, has the same class
/// and belongs to another note.
pub open spec fn spec_excludes(new: VoiceState, v: VoiceState) -> bool {
    &&& new.exclusive_class != 0
    &&& v.spec_is_playing()
    &&& v.chan == new.chan
    &&& v.exclusive_class == new.exclusive_class
    &&& v.id != new.id
}

/// Pool `new` is pool `old` after the playing voices of channel `chan` below
/// the limit were turned off.
pub open spec fn spec_sounds_off(old: VoicePool, new: VoicePool, chan: u8) -> bool {
    &&& new.polyphony_limit == old.polyphony_limit
    &&& new.voices@.len() == old.voices@.len()
    &&& forall|i: int|
        0 <= i < old.voices@.len() ==> #[trigger] new.voices@[i] == if i < old.polyphony_limit
            && old.voices@[i].spec_is_playing() && old.voices@[i].chan == chan {
            old.voices@[i].spec_off()
        } else {
            old.voices@[i]
        }
}

impl VoicePool {
    /// Turns off the playing voices of channel `chan` at once.
    pub fn all_sounds_off(&mut self, chan: u8)
        requires
            old(self).wf(),
        ensures
            final(self).wf(),
            spec_sounds_off(*old(self), *final(self), chan),
            forall|i: int|
                0 <= i < old(self).polyphony_limit ==> !(#[trigger] final(self).voices@[i].spec_is_playing()
                    && final(self).voices@[i].chan == chan),
    {
        let limit = self.polyphony_limit;
        let mut i: usize = 0;
        while i < limit
            invariant
                i <= limit,
                limit == self.polyphony_limit,
                limit == old(self).polyphony_limit,
                old(self).wf(),
                self.voices@.len() == old(self).voices@.len(),
                forall|j: int|
                    0 <= j < self.voices@.len() ==> #[trigger] self.voices@[j] == if j < i
                        && old(self).voices@[j].spec_is_playing() && old(self).voices@[j].chan == chan {
                        old(self).voices@[j].spec_off()
                    } else {
                        old(self).voices@[j]
                    },
            decreases limit - i,
        {
            let mut v = self.voices[i];
            if v.is_playing() && v.chan == chan {
                v.off();
                self.voices.set(i, v);
            }
            i += 1;
        }
    }

    /// Turns every voice off.
    pub fn system_reset(&mut self)
        requires
            old(self).wf(),
        ensures
            final(self).wf(),
            final(self).polyphony_limit == old(self).polyphony_limit,
            final(self).voices@.len() == old(self).voices@.len(),
            forall|i: int| 0 <= i < old(self).voices@.len() ==> #[trigger] final(self).voices@[i] == old(self).voices@[i].spec_off(),
            forall|i: int| 0 <= i < old(self).voices@.len() ==> #[trigger] final(self).voices@[i].spec_is_available(),
    {
        let mut i: usize = 0;
        while i < self.voices.len()
            invariant
                i <= self.voices@.len(),
                self.polyphony_limit == old(self).polyphony_limit,
                old(self).wf(),
                self.voices@.len() == old(self).voices@.len(),
                forall|j: int|
                    0 <= j < self.voices@.len() ==> #[trigger] self.voices@[j] == if j < i {
                        old(self).voices@[j].spec_off()
                    } else {
                        old(self).voices@[j]
                    },
            decreases self.voices@.len() - i,
        {
            let mut v = self.voices[i];
            v.off();
            self.voices.set(i, v);
            i += 1;
        }
    }

    /// The first voice below the limit that can take a new note, if any.
    pub fn first_available(&self) -> (r: Option<VoiceId>)
        requires
            self.wf(),
        ensures
            match r {
                Some(id) => id.0 < self.polyphony_limit && self.voices@[id.0 as int].spec_is_available()
                    && forall|j: int| 0 <= j < id.0 ==> !(#[trigger] self.voices@[j]).spec_is_available(),
                None => forall|j: int| 0 <= j < self.polyphony_limit ==> !(#[trigger] self.voices@[j]).spec_is_available(),
            },
    {
        let mut i: usize = 0;
        while i < self.polyphony_limit
            invariant
                i <= self.polyphony_limit,
                self.wf(),
                forall|j: int| 0 <= j < i ==> !(#[trigger] self.voices@[j]).spec_is_available(),
            decreases self.polyphony_limit - i,
        {
            if self.voices[i].is_available() {
                return Some(VoiceId(i));
            }
            i += 1;
        }
        None
    }

    /// Turns voice `id` off (to free it for a new note).
    pub fn voice_off(&mut self, id: VoiceId)
        requires
            id.0 < old(self).voices@.len(),
        ensures
            final(self).polyphony_limit == old(self).polyphony_limit,
            final(self).voices@ == old(self).voices@.update(id.0 as int, old(self).voices@[id.0 as int].spec_off()),
    {
        let mut v = self.voices[id.0];
        v.off();
        self.voices.set(id.0, v);
    }

    /// Kills, for their exclusive class, the voices below the limit that
    /// starting voice `new_voice` excludes (see `spec_excludes`); the result
    /// names them, once each, in order. Afterwards no playing voice below the
    /// limit on the new voice's channel shares its class, but those of its
    /// own note.
    pub fn kill_by_exclusive_class(&mut self, new_voice: VoiceId) -> (r: Vec<VoiceId>)
        requires
            old(self).wf(),
            new_voice.0 < old(self).voices@.len(),
        ensures
            final(self).wf(),
            final(self).polyphony_limit == old(self).polyphony_limit,
            final(self).voices@.len() == old(self).voices@.len(),
            forall|i: int|
                0 <= i < old(self).voices@.len() ==> #[trigger] final(self).voices@[i] == if i < old(self).polyphony_limit
                    && spec_excludes(old(self).voices@[new_voice.0 as int], old(self).voices@[i]) {
                    old(self).voices@[i].spec_kill_excl()
                } else {
                    old(self).voices@[i]
                },
            forall|i: int|
                0 <= i < old(self).polyphony_limit ==> (r@.contains(VoiceId(i as usize)) <==> spec_excludes(
                    old(self).voices@[new_voice.0 as int],
                    old(self).voices@[i],
                )),
            forall|j: int, k: int| 0 <= j < k < r@.len() ==> (#[trigger] r@[j]).0 < (#[trigger] r@[k]).0,
            forall|j: int| 0 <= j < r@.len() ==> (#[trigger] r@[j]).0 < old(self).polyphony_limit,
            forall|i: int|
                0 <= i < old(self).polyphony_limit ==> !spec_excludes(
                    old(self).voices@[new_voice.0 as int],
                    #[trigger] final(self).voices@[i],
                ),
    {
        let mut r: Vec<VoiceId> = Vec::new();
        let new_v = self.voices[new_voice.0];
        if new_v.exclusive_class == 0 {
            return r;
        }
        let limit = self.polyphony_limit;
        let mut i: usize = 0;
        while i < limit
            invariant
                i <= limit,
                limit == self.polyphony_limit,
                limit == old(self).polyphony_limit,
                old(self).wf(),
                new_v == old(self).voices@[new_voice.0 as int],
                new_v.exclusive_class != 0,
                self.voices@.len() == old(self).voices@.len(),
                forall|j: int|
                    0 <= j < self.voices@.len() ==> #[trigger] self.voices@[j] == if j < i && spec_excludes(
                        new_v,
                        old(self).voices@[j],
                    ) {
                        old(self).voices@[j].spec_kill_excl()
                    } else {
                        old(self).voices@[j]
                    },
                forall|j: int| 0 <= j < i ==> (r@.contains(VoiceId(j as usize)) <==> spec_excludes(new_v, old(self).voices@[j])),
                forall|j: int, k: int| 0 <= j < k < r@.len() ==> (#[trigger] r@[j]).0 < (#[trigger] r@[k]).0,
                forall|j: int| 0 <= j < r@.len() ==> (#[trigger] r@[j]).0 < i,
            decreases limit - i,
        {
            let ghost r_old = r@;
            let mut v = self.voices[i];
            let mut pushed = false;
            if v.is_playing() && v.chan == new_v.chan && v.exclusive_class == new_v.exclusive_class && v.id != new_v.id {
                v.kill_excl();
                self.voices.set(i, v);
                r.push(VoiceId(i));
                pushed = true;
            }
            proof {
                if pushed {
                    assert(r@ == r_old.push(VoiceId(i)));
                    assert(r@[r_old.len() as int] == VoiceId(i));
                } else {
                    assert(r@ == r_old);
                }
                assert forall|j: int| 0 <= j < i + 1 implies (r@.contains(VoiceId(j as usize)) <==> spec_excludes(
                    new_v,
                    old(self).voices@[j],
                )) by {
                    if j < i {
                        if r@.contains(VoiceId(j as usize)) {
                            let k = choose|k: int| 0 <= k < r@.len() && r@[k] == VoiceId(j as usize);
                            if k < r_old.len() {
                                assert(r_old[k] == VoiceId(j as usize));
                                assert(r_old.contains(VoiceId(j as usize)));
                            }
                        }
                        if r_old.contains(VoiceId(j as usize)) {
                            let k = choose|k: int| 0 <= k < r_old.len() && r_old[k] == VoiceId(j as usize);
                            assert(r@[k] == VoiceId(j as usize));
                        }
                    } else {
                        if !pushed && r@.contains(VoiceId(j as usize)) {
                            let k = choose|k: int| 0 <= k < r@.len() && r@[k] == VoiceId(j as usize);
                            assert(r@[k].0 < i);
                        }
                    }
                }
            }
            i += 1;
        }
        r
    }

    /// Starts voice `id`: first the voices its exclusive class excludes are
    /// killed (the result names them, as `kill_by_exclusive_class` does),
    /// then the voice plays.
    pub fn start_voice(&mut self, id: VoiceId) -> (r: Vec<VoiceId>)
        requires
            old(self).wf(),
            id.0 < old(self).voices@.len(),
        ensures
            final(self).wf(),
            final(self).polyphony_limit == old(self).polyphony_limit,
            final(self).voices@.len() == old(self).voices@.len(),
            final(self).voices@[id.0 as int] == (VoiceState {
                status: VoiceStatus::On,
                sanity: SanityCheck::Startup,
                ..old(self).voices@[id.0 as int]
            }),
            forall|i: int|
                0 <= i < old(self).voices@.len() && i != id.0 ==> #[trigger] final(self).voices@[i] == if i
                    < old(self).polyphony_limit && spec_excludes(old(self).voices@[id.0 as int], old(self).voices@[i]) {
                    old(self).voices@[i].spec_kill_excl()
                } else {
                    old(self).voices@[i]
                },
            forall|i: int|
                0 <= i < old(self).polyphony_limit ==> (r@.contains(VoiceId(i as usize)) <==> spec_excludes(
                    old(self).voices@[id.0 as int],
                    old(self).voices@[i],
                )),
    {
        let r = self.kill_by_exclusive_class(id);
        let mut v = self.voices[id.0];
        v.start();
        self.voices.set(id.0, v);
        r
    }
}

} // verus!
