use vstd::prelude::*;

use crate::channel::{Channel, spec_after_init_ctrl, spec_cc_transition};
use crate::font_bank::{
    spec_font_pos_from, spec_search_from, BankOffset, FontBank, spec_bank_offset, spec_offsets_unique, spec_font_pos, spec_offset_pos, spec_offset_pos_from,
    lemma_font_pos_absent, lemma_font_pos_found, lemma_offset_pos_found,
};
use crate::noteon::spec_note_pairs;
use crate::soundfont::{PresetData, SoundFont, spec_first_preset};
use crate::synth::spec_program_choice;
use crate::synth::Synth;
use crate::voice::{VoiceEnvelope, VoiceId};
use crate::voice_pool::{
    Release, SampleBounds, SanityCheck, VoicePool, VoiceState, spec_clamp, spec_env_index, spec_loops,
    spec_next_section, spec_polyphony_set, spec_skip_sections,
    spec_excludes, spec_reaches, spec_release_done, spec_sanity, spec_sounds_off,
};

verus! {

/// Setting the bank offset of a font: the font then has that offset, and
/// every other font keeps its own.
pub proof fn lemma_set_offset(old: Seq<BankOffset>, new: Seq<BankOffset>, id: u32, offset: u32)
    requires
        match spec_offset_pos(old, id) {
            Some(k) => new == old.update(k, BankOffset { sfont_id: id, offset }),
            None => new == old.insert(0, BankOffset { sfont_id: id, offset }),
        },
    ensures
        spec_bank_offset(new, id) == Some(offset),
        forall|other: u32| other != id ==> spec_bank_offset(new, other) == spec_bank_offset(old, other),
{
    lemma_offset_pos_found(old, id, 0);
    match spec_offset_pos(old, id) {
        Some(k) => {
            lemma_offset_prefix(old, new, id, 0, k);
            assert forall|other: u32| other != id implies spec_bank_offset(new, other) == spec_bank_offset(old, other) by {
                lemma_offset_same_elsewhere(old, new, id, other, k, 0);
            }
        },
        None => {
            assert forall|other: u32| other != id implies spec_bank_offset(new, other) == spec_bank_offset(old, other) by {
                lemma_offset_shift(old, new, other, 0);
                lemma_offset_pos_found(old, other, 0);
                lemma_offset_pos_found(new, other, 1);
            }
        },
    }
}

/// Setting a bank offset replaces the font's entry rather than adding a
/// second one: when no font had two entries before, none has after.
pub proof fn lemma_set_offset_keeps_one_entry(old: Seq<BankOffset>, new: Seq<BankOffset>, id: u32, offset: u32)
    requires
        spec_offsets_unique(old),
        match spec_offset_pos(old, id) {
            Some(k) => new == old.update(k, BankOffset { sfont_id: id, offset }),
            None => new == old.insert(0, BankOffset { sfont_id: id, offset }),
        },
    ensures
        spec_offsets_unique(new),
{
    lemma_offset_pos_found(old, id, 0);
    match spec_offset_pos(old, id) {
        Some(k) => {
            assert forall|i: int, j: int| 0 <= i < j < new.len() implies #[trigger] new[i].sfont_id
                != #[trigger] new[j].sfont_id by {
                assert(old[i].sfont_id != old[j].sfont_id);
            }
        },
        None => {
            lemma_offset_absent(old, id, 0);
            assert forall|i: int, j: int| 0 <= i < j < new.len() implies #[trigger] new[i].sfont_id
                != #[trigger] new[j].sfont_id by {
                assert(new[j] == old[j - 1]);
                if i > 0 {
                    assert(new[i] == old[i - 1]);
                    assert(old[i - 1].sfont_id != old[j - 1].sfont_id);
                }
            }
        },
    }
}

proof fn lemma_offset_absent(offsets: Seq<BankOffset>, id: u32, i: int)
    requires
        0 <= i <= offsets.len(),
        spec_offset_pos_from(offsets, id, i) is None,
    ensures
        forall|j: int| i <= j < offsets.len() ==> (#[trigger] offsets[j]).sfont_id != id,
    decreases offsets.len() - i,
{
    if i < offsets.len() {
        lemma_offset_absent(offsets, id, i + 1);
    }
}

proof fn lemma_offset_prefix(old: Seq<BankOffset>, new: Seq<BankOffset>, id: u32, i: int, k: int)
    requires
        0 <= i <= k < old.len(),
        new.len() == old.len(),
        new[k].sfont_id == id,
        spec_offset_pos_from(old, id, i) == Some(k),
        forall|j: int| 0 <= j < old.len() && j != k ==> #[trigger] new[j] == old[j],
    ensures
        spec_offset_pos_from(new, id, i) == Some(k),
    decreases k - i,
{
    if i < k {
        lemma_offset_prefix(old, new, id, i + 1, k);
    }
}

proof fn lemma_offset_same_elsewhere(old: Seq<BankOffset>, new: Seq<BankOffset>, id: u32, other: u32, k: int, i: int)
    requires
        0 <= k < old.len(),
        0 <= i,
        new.len() == old.len(),
        new[k].sfont_id == id,
        old[k].sfont_id == id,
        id != other,
        forall|j: int| 0 <= j < old.len() && j != k ==> #[trigger] new[j] == old[j],
    ensures
        spec_offset_pos_from(new, other, i) == spec_offset_pos_from(old, other, i),
        spec_offset_pos_from(new, other, i) matches Some(q) ==> new[q] == old[q],
    decreases old.len() - i,
{
    if i < old.len() {
        lemma_offset_same_elsewhere(old, new, id, other, k, i + 1);
    }
}

proof fn lemma_offset_shift(old: Seq<BankOffset>, new: Seq<BankOffset>, other: u32, i: int)
    requires
        0 <= i <= old.len(),
        new.len() == old.len() + 1,
        new[0].sfont_id != other,
        forall|j: int| 0 <= j < old.len() ==> #[trigger] new[j + 1] == old[j],
    ensures
        spec_offset_pos_from(new, other, i + 1) == (match spec_offset_pos_from(old, other, i) {
            Some(q) => Some(q + 1),
            None => None,
        }),
        i == 0 ==> spec_offset_pos_from(new, other, 0) == spec_offset_pos_from(new, other, 1),
    decreases old.len() - i,
{
    if i < old.len() {
        lemma_offset_shift(old, new, other, i + 1);
    }
}

/// A control change stores its value, whatever else the message does (even
/// "all controllers off", and a bank select the drum channel ignores):
/// afterwards the controller reads back the value sent.
pub proof fn lemma_cc_stores_value(old: Channel, num: u16, value: u16, drums: bool, new: Channel)
    requires
        num < 128,
        value < 128,
        spec_cc_transition(old, num, value, drums, new),
    ensures
        new.cc@[num as int] == value,
{
}

/// A control change message stores its value on its channel: once
/// `Synth::cc` has taken it, `Synth::get_cc` reads back the value sent.
pub proof fn lemma_synth_cc_stores_value(old: Synth, new: Synth, chan: u8, num: u16, val: u16)
    requires
        old.has_channel(chan),
        num < 128,
        val < 128,
        new.channels@.len() == old.channels@.len(),
        spec_cc_transition(old.chan(chan), num, val, old.settings.drums_channel_active, new.chan(chan)),
    ensures
        new.has_channel(chan),
        new.chan(chan).cc@[num as int] == val,
{
    lemma_cc_stores_value(old.chan(chan), num, val, old.settings.drums_channel_active, new.chan(chan));
}

/// A font just added is found under the id it was given, and removing it
/// again gives back the fonts there were before.
pub proof fn lemma_add_then_remove_font(old: FontBank, font: SoundFont, id: u32, new: FontBank)
    requires
        old.wf(),
        id == old.sfont_id + 1,
        new.fonts@ == old.fonts@.insert(0, SoundFont { id, ..font }),
    ensures
        spec_font_pos(new.fonts@, id) == Some(0int),
        new.fonts@[0] == (SoundFont { id, ..font }),
        new.fonts@.remove(0) == old.fonts@,
{
    assert(new.fonts@[0].id == id);
    assert(new.fonts@.remove(0) =~= old.fonts@);
}

/// Once a font is removed, no font with its id is left.
pub proof fn lemma_removed_font_is_gone(old: FontBank, id: u32, new_fonts: Seq<SoundFont>)
    requires
        old.wf(),
        spec_font_pos(old.fonts@, id) matches Some(k) && new_fonts == old.fonts@.remove(k),
    ensures
        spec_font_pos(new_fonts, id) is None,
{
    let k = spec_font_pos(old.fonts@, id).unwrap();
    lemma_font_pos_found(old.fonts@, id, 0);
    assert forall|j: int| 0 <= j < new_fonts.len() implies #[trigger] new_fonts[j].id != id by {
        if j < k {
            assert(old.fonts@[j].id != old.fonts@[k].id);
        } else {
            assert(new_fonts[j] == old.fonts@[j + 1]);
            assert(old.fonts@[k].id != old.fonts@[j + 1].id);
        }
    }
    lemma_font_pos_absent(new_fonts, id, 0);
}

/// After a note-off, no voice below the limit that played the note is still
/// on, but those whose release waits for the shortest note length.
pub proof fn lemma_noteoff_silences_key(
    old: VoicePool,
    new: VoicePool,
    channels: Seq<Channel>,
    min_ticks: u32,
    chan: u8,
    key: u8,
    r: Seq<crate::voice::VoiceId>,
)
    requires
        spec_release_done(old, new, channels, min_ticks, Release::Key { chan, key }, r),
    ensures
        forall|i: int|
            0 <= i < old.polyphony_limit && i < old.voices@.len() && old.voices@[i].chan == chan
                && old.voices@[i].key == key && min_ticks <= old.voices@[i].ticks ==> !(#[trigger] new.voices@[i]).spec_is_on(),
{
}

/// After "all sound off" on a channel, no voice below the limit plays on it.
pub proof fn lemma_sounds_off_silences_channel(old: VoicePool, new: VoicePool, chan: u8)
    requires
        spec_sounds_off(old, new, chan),
    ensures
        forall|i: int|
            0 <= i < old.polyphony_limit && i < old.voices@.len() ==> !((#[trigger] new.voices@[i]).spec_is_playing()
                && new.voices@[i].chan == chan),
{
}

/// Once the polyphony limit is set, no voice at or above it plays.
pub proof fn lemma_limit_silences_voices_above(old: VoicePool, new: VoicePool, p: usize)
    requires
        1 <= p <= old.voices@.len(),
        spec_polyphony_set(old, new, p),
    ensures
        new.polyphony_limit == p,
        forall|i: int| p <= i < new.voices@.len() ==> !(#[trigger] new.voices@[i]).spec_is_playing(),
{
    assert forall|i: int| p <= i < new.voices@.len() implies !(#[trigger] new.voices@[i]).spec_is_playing() by {
        assert(i < old.voices@.len());
    }
}

/// Checking the sample positions puts them in order: a voice that still
/// plays afterwards reads from start to end within the sample, and when it
/// loops, its loop lies within the sample (its end at most one past it) and
/// spans two samples or more.
pub proof fn lemma_sanity_orders_positions(v: VoiceState, b: SampleBounds)
    requires
        0 <= b.start <= b.end < i32::MAX,
        v.sanity != SanityCheck::Done,
    ensures
        ({
            let w = spec_sanity(v, b).0;
            &&& w.sanity == SanityCheck::Done || w.status == crate::voice::VoiceStatus::Off
            &&& w.sanity == SanityCheck::Done ==> b.start <= w.start < w.end <= b.end
            &&& w.sanity == SanityCheck::Done && spec_loops(w.sample_mode) ==> b.start <= w.loopstart
                && w.loopstart + 2 <= w.loopend <= b.end + 1
        }),
{
}

/// Checking the sample positions twice changes nothing the second time.
pub proof fn lemma_sanity_idempotent(v: VoiceState, b: SampleBounds)
    requires
        0 <= b.start <= b.end < i32::MAX,
    ensures
        spec_sanity(spec_sanity(v, b).0, b) == (spec_sanity(v, b).0, false),
{
    let w = spec_sanity(v, b).0;
    if v.sanity != SanityCheck::Done && w.sanity != SanityCheck::Done {
        assert(w.start == w.end);
        assert(w.start == spec_clamp(w.start as int, b.start as int, b.end as int));
    }
}

/// The sustain pedal holds a released note: a voice that is on, released
/// while the pedal is down, keeps playing as a sustained voice (so the pedal
/// going up reaches it), and is released when the pedal goes up.
pub proof fn lemma_pedal_holds_note(v: VoiceState, min_ticks: u32)
    requires
        v.spec_is_on(),
        min_ticks <= v.ticks,
    ensures
        v.spec_noteoff(true, min_ticks).spec_is_playing(),
        !v.spec_noteoff(true, min_ticks).spec_is_on(),
        spec_reaches(Release::Sustained { chan: v.chan }, v.spec_noteoff(true, min_ticks)),
        v.spec_noteoff(true, min_ticks).spec_noteoff(false, min_ticks).volenv_section == VoiceEnvelope::Release,
        v.spec_noteoff(true, min_ticks).spec_noteoff(false, min_ticks).spec_is_playing(),
{
}

/// Exclusive classes only end other notes: a voice of the note that starts
/// is never killed for its class, whatever its state.
pub proof fn lemma_exclusive_spares_own_note(new: VoiceState, v: VoiceState)
    requires
        v.id == new.id,
    ensures
        !spec_excludes(new, v),
{
}

/// An envelope only moves forward: skipping sections never returns to an
/// earlier one, and it stops in a section whose length the count has not
/// reached, or in the finished section.
pub proof fn lemma_envelope_moves_forward(s: VoiceEnvelope, count: u32, lengths: Seq<u32>)
    requires
        lengths.len() == 7,
    ensures
        spec_env_index(spec_skip_sections(s, count, lengths).0) >= spec_env_index(s),
        spec_env_index(spec_skip_sections(s, count, lengths).0) == 6
            || spec_skip_sections(s, count, lengths).1 < lengths[spec_env_index(spec_skip_sections(s, count, lengths).0)],
    decreases 6 - spec_env_index(s),
{
    if spec_env_index(s) < 6 && count >= lengths[spec_env_index(s)] {
        lemma_envelope_moves_forward(spec_next_section(s), 0, lengths);
    }
}


/// A note plays exactly the zones whose ranges hold it: each voice of a note
/// comes from a preset zone and an instrument zone whose key ranges hold the
/// key and whose velocity ranges hold the velocity, the instrument zone having
/// a sample outside ROM; every such pair plays, once, in order of preset zone
/// and then instrument zone.
pub proof fn lemma_note_plays_zones_holding_it(p: PresetData, key: u8, vel: u8)
    ensures
        forall|t: int|
            0 <= t < spec_note_pairs(p, key, vel).len() ==> {
                let (j, m) = #[trigger] spec_note_pairs(p, key, vel)[t];
                let pz = p.zones@[j];
                let iz = pz.inst.unwrap().zones@[m];
                &&& 0 <= j < p.zones@.len()
                &&& 0 <= m < pz.inst.unwrap().zones@.len()
                &&& pz.keylo <= key <= pz.keyhi
                &&& pz.vello <= vel <= pz.velhi
                &&& iz.keylo <= key <= iz.keyhi
                &&& iz.vello <= vel <= iz.velhi
                &&& iz.sample matches Some(smp) && !smp.in_rom
            },
        forall|a: int, b: int|
            0 <= a < b < spec_note_pairs(p, key, vel).len() ==> {
                let (ja, ma) = #[trigger] spec_note_pairs(p, key, vel)[a];
                let (jb, mb) = #[trigger] spec_note_pairs(p, key, vel)[b];
                ja < jb || (ja == jb && ma < mb)
            },
        forall|j: int, m: int|
            0 <= j < p.zones@.len() && 0 <= m < p.zones@[j].inst.unwrap().zones@.len() && ({
                let pz = p.zones@[j];
                let iz = pz.inst.unwrap().zones@[m];
                &&& pz.keylo <= key <= pz.keyhi
                &&& pz.vello <= vel <= pz.velhi
                &&& iz.keylo <= key <= iz.keyhi
                &&& iz.vello <= vel <= iz.velhi
                &&& iz.sample matches Some(smp) && !smp.in_rom
            }) ==> spec_note_pairs(p, key, vel).contains((j, m)),
{
    lemma_pairs_hold_note(p, p.zones@.len() as int, key, vel);
}

proof fn lemma_inst_pairs_hold_note(p: PresetData, j: int, m: int, key: u8, vel: u8)
    requires
        0 <= m <= p.zones@[j].inst.unwrap().zones@.len(),
    ensures
        forall|t: int|
            0 <= t < crate::noteon::spec_inst_pairs(p, j, m, key, vel).len() ==> {
                let (j2, m2) = #[trigger] crate::noteon::spec_inst_pairs(p, j, m, key, vel)[t];
                let iz = p.zones@[j].inst.unwrap().zones@[m2];
                &&& j2 == j
                &&& 0 <= m2 < m
                &&& iz.keylo <= key <= iz.keyhi
                &&& iz.vello <= vel <= iz.velhi
                &&& iz.sample matches Some(smp) && !smp.in_rom
            },
        forall|a: int, b: int|
            0 <= a < b < crate::noteon::spec_inst_pairs(p, j, m, key, vel).len()
                ==> (#[trigger] crate::noteon::spec_inst_pairs(p, j, m, key, vel)[a]).1
                < (#[trigger] crate::noteon::spec_inst_pairs(p, j, m, key, vel)[b]).1,
        forall|m2: int|
            0 <= m2 < m && ({
                let iz = p.zones@[j].inst.unwrap().zones@[m2];
                &&& iz.keylo <= key <= iz.keyhi
                &&& iz.vello <= vel <= iz.velhi
                &&& iz.sample matches Some(smp) && !smp.in_rom
            }) ==> crate::noteon::spec_inst_pairs(p, j, m, key, vel).contains((j, m2)),
    decreases m,
{
    if m > 0 {
        lemma_inst_pairs_hold_note(p, j, m - 1, key, vel);
        let prev = crate::noteon::spec_inst_pairs(p, j, m - 1, key, vel);
        let cur = crate::noteon::spec_inst_pairs(p, j, m, key, vel);
        if crate::noteon::spec_inst_zone_plays(p.zones@[j].inst.unwrap().zones@[m - 1], key, vel) {
            assert(cur == prev.push((j, m - 1)));
        } else {
            assert(cur == prev);
        }
        assert forall|m2: int|
            0 <= m2 < m && ({
                let iz = p.zones@[j].inst.unwrap().zones@[m2];
                &&& iz.keylo <= key <= iz.keyhi
                &&& iz.vello <= vel <= iz.velhi
                &&& iz.sample matches Some(smp) && !smp.in_rom
            }) implies cur.contains((j, m2)) by {
            if m2 < m - 1 {
                assert(prev.contains((j, m2)));
                let t = choose|t: int| 0 <= t < prev.len() && prev[t] == (j, m2);
                assert(cur[t] == prev[t]);
            } else {
                assert(cur[prev.len() as int] == (j, m2));
            }
        }
    }
}

proof fn lemma_pairs_hold_note(p: PresetData, n: int, key: u8, vel: u8)
    requires
        0 <= n <= p.zones@.len(),
    ensures
        forall|t: int|
            0 <= t < crate::noteon::spec_pairs(p, n, key, vel).len() ==> {
                let (j, m) = #[trigger] crate::noteon::spec_pairs(p, n, key, vel)[t];
                let pz = p.zones@[j];
                let iz = pz.inst.unwrap().zones@[m];
                &&& 0 <= j < n
                &&& 0 <= m < pz.inst.unwrap().zones@.len()
                &&& pz.keylo <= key <= pz.keyhi
                &&& pz.vello <= vel <= pz.velhi
                &&& iz.keylo <= key <= iz.keyhi
                &&& iz.vello <= vel <= iz.velhi
                &&& iz.sample matches Some(smp) && !smp.in_rom
            },
        forall|a: int, b: int|
            0 <= a < b < crate::noteon::spec_pairs(p, n, key, vel).len() ==> {
                let (ja, ma) = #[trigger] crate::noteon::spec_pairs(p, n, key, vel)[a];
                let (jb, mb) = #[trigger] crate::noteon::spec_pairs(p, n, key, vel)[b];
                ja < jb || (ja == jb && ma < mb)
            },
        forall|j: int, m: int|
            0 <= j < n && 0 <= m < p.zones@[j].inst.unwrap().zones@.len() && ({
                let pz = p.zones@[j];
                let iz = pz.inst.unwrap().zones@[m];
                &&& pz.keylo <= key <= pz.keyhi
                &&& pz.vello <= vel <= pz.velhi
                &&& iz.keylo <= key <= iz.keyhi
                &&& iz.vello <= vel <= iz.velhi
                &&& iz.sample matches Some(smp) && !smp.in_rom
            }) ==> crate::noteon::spec_pairs(p, n, key, vel).contains((j, m)),
    decreases n,
{
    if n > 0 {
        lemma_pairs_hold_note(p, n - 1, key, vel);
        let prev = crate::noteon::spec_pairs(p, n - 1, key, vel);
        let cur = crate::noteon::spec_pairs(p, n, key, vel);
        let j = n - 1;
        let len = p.zones@[j].inst.unwrap().zones@.len() as int;
        lemma_inst_pairs_hold_note(p, j, len, key, vel);
        let ext = crate::noteon::spec_inst_pairs(p, j, len, key, vel);
        if crate::noteon::spec_preset_zone_inside(p.zones@[j], key, vel) {
            assert(cur == prev + ext);
            assert forall|t: int| 0 <= t < cur.len() implies {
                let (j1, m1) = #[trigger] cur[t];
                let pz = p.zones@[j1];
                let iz = pz.inst.unwrap().zones@[m1];
                &&& 0 <= j1 < n
                &&& 0 <= m1 < pz.inst.unwrap().zones@.len()
                &&& pz.keylo <= key <= pz.keyhi
                &&& pz.vello <= vel <= pz.velhi
                &&& iz.keylo <= key <= iz.keyhi
                &&& iz.vello <= vel <= iz.velhi
                &&& iz.sample matches Some(smp) && !smp.in_rom
            } by {
                if t < prev.len() {
                    assert(cur[t] == prev[t]);
                } else {
                    assert(cur[t] == ext[t - prev.len()]);
                }
            }
            assert forall|a: int, b: int| 0 <= a < b < cur.len() implies {
                let (ja, ma) = #[trigger] cur[a];
                let (jb, mb) = #[trigger] cur[b];
                ja < jb || (ja == jb && ma < mb)
            } by {
                if b < prev.len() {
                    assert(cur[a] == prev[a] && cur[b] == prev[b]);
                } else if a < prev.len() {
                    assert(cur[a] == prev[a] && cur[b] == ext[b - prev.len()]);
                } else {
                    assert(cur[a] == ext[a - prev.len()] && cur[b] == ext[b - prev.len()]);
                }
            }
            assert forall|j1: int, m1: int|
                0 <= j1 < n && 0 <= m1 < p.zones@[j1].inst.unwrap().zones@.len() && ({
                    let pz = p.zones@[j1];
                    let iz = pz.inst.unwrap().zones@[m1];
                    &&& pz.keylo <= key <= pz.keyhi
                    &&& pz.vello <= vel <= pz.velhi
                    &&& iz.keylo <= key <= iz.keyhi
                    &&& iz.vello <= vel <= iz.velhi
                    &&& iz.sample matches Some(smp) && !smp.in_rom
                }) implies cur.contains((j1, m1)) by {
                if j1 < j {
                    assert(prev.contains((j1, m1)));
                    let t = choose|t: int| 0 <= t < prev.len() && prev[t] == (j1, m1);
                    assert(cur[t] == prev[t]);
                } else {
                    assert(ext.contains((j1, m1)));
                    let t = choose|t: int| 0 <= t < ext.len() && ext[t] == (j1, m1);
                    assert(cur[prev.len() + t] == ext[t]);
                }
            }
        } else {
            assert(cur == prev);
        }
    }
}

/// Looking a preset up searches the font stack from the top: the preset
/// found belongs to the topmost font that has one of program `prognum` and of
/// bank `banknum` less that font's bank offset (wrapping around); no font
/// above it has one; when none is found, no font has one.
pub proof fn lemma_find_preset_top_down(fb: FontBank, banknum: u32, prognum: u8) -> (found: (int, int))
    ensures
        fb.spec_find_preset(banknum, prognum) matches Some(q) ==> {
            let (k, i) = found;
            let f = fb.fonts@[k];
            let off = match spec_bank_offset(fb.bank_offsets@, f.id) {
                Some(o) => o,
                None => 0u32,
            };
            &&& 0 <= k < fb.fonts@.len()
            &&& 0 <= i < f.presets@.len()
            &&& q.sfont_id == f.id
            &&& q.data == f.presets@[i]
            &&& q.data.bank == banknum.wrapping_sub(off)
            &&& q.data.num == prognum as u32
            &&& forall|k2: int, i2: int|
                0 <= k2 < k && 0 <= i2 < fb.fonts@[k2].presets@.len() ==> !(#[trigger] fb.fonts@[k2].presets@[i2].bank
                    == banknum.wrapping_sub(
                    match spec_bank_offset(fb.bank_offsets@, fb.fonts@[k2].id) {
                        Some(o) => o,
                        None => 0u32,
                    },
                ) && fb.fonts@[k2].presets@[i2].num == prognum as u32)
        },
        fb.spec_find_preset(banknum, prognum) is None ==> forall|k2: int, i2: int|
            0 <= k2 < fb.fonts@.len() && 0 <= i2 < fb.fonts@[k2].presets@.len() ==> !(
            #[trigger] fb.fonts@[k2].presets@[i2].bank == banknum.wrapping_sub(
                match spec_bank_offset(fb.bank_offsets@, fb.fonts@[k2].id) {
                    Some(o) => o,
                    None => 0u32,
                },
            ) && fb.fonts@[k2].presets@[i2].num == prognum as u32),
{
    lemma_search_top_down(fb.fonts@, fb.bank_offsets@, banknum, prognum, 0)
}

proof fn lemma_search_top_down(fonts: Seq<SoundFont>, offsets: Seq<BankOffset>, banknum: u32, prognum: u8, from: int) -> (found: (int, int))
    requires
        0 <= from,
    ensures
        spec_search_from(fonts, offsets, banknum, prognum, from) matches Some(q) ==> {
            let (k, i) = found;
            let f = fonts[k];
            let off = match spec_bank_offset(offsets, f.id) {
                Some(o) => o,
                None => 0u32,
            };
            &&& from <= k < fonts.len()
            &&& 0 <= i < f.presets@.len()
            &&& q.sfont_id == f.id
            &&& q.data == f.presets@[i]
            &&& q.data.bank == banknum.wrapping_sub(off)
            &&& q.data.num == prognum as u32
            &&& forall|k2: int, i2: int|
                from <= k2 < k && 0 <= i2 < fonts[k2].presets@.len() ==> !(#[trigger] fonts[k2].presets@[i2].bank
                    == banknum.wrapping_sub(
                    match spec_bank_offset(offsets, fonts[k2].id) {
                        Some(o) => o,
                        None => 0u32,
                    },
                ) && fonts[k2].presets@[i2].num == prognum as u32)
        },
        spec_search_from(fonts, offsets, banknum, prognum, from) is None ==> forall|k2: int, i2: int|
            from <= k2 < fonts.len() && 0 <= i2 < fonts[k2].presets@.len() ==> !(
            #[trigger] fonts[k2].presets@[i2].bank == banknum.wrapping_sub(
                match spec_bank_offset(offsets, fonts[k2].id) {
                    Some(o) => o,
                    None => 0u32,
                },
            ) && fonts[k2].presets@[i2].num == prognum as u32),
    decreases fonts.len() - from,
{
    if from >= fonts.len() {
        (0, 0)
    } else {
        let f = fonts[from];
        let off = match spec_bank_offset(offsets, f.id) {
            Some(o) => o,
            None => 0u32,
        };
        let i = lemma_first_preset_found(f.presets@, banknum.wrapping_sub(off), prognum as u32);
        let rest = lemma_search_top_down(fonts, offsets, banknum, prognum, from + 1);
        if spec_first_preset(f.presets@, banknum.wrapping_sub(off), prognum as u32) is Some {
            (from, i)
        } else {
            rest
        }
    }
}

proof fn lemma_first_preset_found(s: Seq<std::rc::Rc<PresetData>>, bank: u32, num: u32) -> (i: int)
    ensures
        spec_first_preset(s, bank, num) matches Some(d) ==> 0 <= i < s.len() && s[i] == d && d.bank == bank
            && d.num == num,
        spec_first_preset(s, bank, num) is None ==> forall|j: int|
            0 <= j < s.len() ==> !(#[trigger] s[j].bank == bank && s[j].num == num),
    decreases s.len(),
{
    if s.len() == 0 {
        0
    } else if s[0].bank == bank && s[0].num == num {
        0
    } else {
        let t = s.drop_first();
        let i = lemma_first_preset_found(t, bank, num);
        assert forall|j: int| 0 <= j < s.len() && spec_first_preset(s, bank, num) is None implies !(
        #[trigger] s[j].bank == bank && s[j].num == num) by {
            if j > 0 {
                assert(s[j] == t[j - 1]);
            }
        }
        i + 1
    }
}

/// A preset found down the font stack is the one its own font gives for the
/// same bank and program: looking a preset up and asking the font it came
/// from agree.
pub proof fn lemma_find_agrees_with_get(fb: FontBank, banknum: u32, prognum: u8)
    requires
        fb.wf(),
    ensures
        fb.spec_find_preset(banknum, prognum) matches Some(q) ==> fb.spec_get_preset(q.sfont_id, banknum, prognum)
            == Some(q),
{
    if fb.spec_find_preset(banknum, prognum) is Some {
        let (k, i) = lemma_find_preset_top_down(fb, banknum, prognum);
        assert forall|j: int| 0 <= j < k implies crate::font_bank::spec_offset_preset(
            fb.bank_offsets@,
            #[trigger] fb.fonts@[j],
            banknum,
            prognum,
        ) is None by {
            let f = fb.fonts@[j];
            let off = crate::font_bank::spec_offset_or_zero(fb.bank_offsets@, f.id);
            let i2 = lemma_first_preset_found(f.presets@, banknum.wrapping_sub(off), prognum as u32);
            if spec_first_preset(f.presets@, banknum.wrapping_sub(off), prognum as u32) is Some {
                assert(f.presets@[i2].bank == banknum.wrapping_sub(off));
            }
        }
        let f = fb.fonts@[k];
        let off = crate::font_bank::spec_offset_or_zero(fb.bank_offsets@, f.id);
        let i3 = lemma_first_preset_found(f.presets@, banknum.wrapping_sub(off), prognum as u32);
        assert(f.presets@[i].bank == banknum.wrapping_sub(off) && f.presets@[i].num == prognum as u32);
        lemma_search_at(fb.fonts@, fb.bank_offsets@, banknum, prognum, 0, k);
        let id = fb.fonts@[k].id;
        assert forall|j: int| 0 <= j < k implies #[trigger] fb.fonts@[j].id != id by {}
        lemma_font_pos_first(fb.fonts@, id, k, 0);
    }
}

proof fn lemma_search_at(fonts: Seq<SoundFont>, offsets: Seq<BankOffset>, banknum: u32, prognum: u8, from: int, k: int)
    requires
        0 <= from <= k < fonts.len(),
        spec_search_from(fonts, offsets, banknum, prognum, from) is Some,
        forall|j: int| from <= j < k ==> crate::font_bank::spec_offset_preset(offsets, #[trigger] fonts[j], banknum, prognum) is None,
        crate::font_bank::spec_offset_preset(offsets, fonts[k], banknum, prognum) is Some,
    ensures
        spec_search_from(fonts, offsets, banknum, prognum, from) == crate::font_bank::spec_offset_preset(offsets, fonts[k], banknum, prognum),
    decreases k - from,
{
    if from < k {
        lemma_search_at(fonts, offsets, banknum, prognum, from + 1, k);
    }
}

proof fn lemma_font_pos_first(fonts: Seq<SoundFont>, id: u32, k: int, i: int)
    requires
        0 <= i <= k < fonts.len(),
        fonts[k].id == id,
        forall|j: int| 0 <= j < k ==> #[trigger] fonts[j].id != id,
    ensures
        spec_font_pos_from(fonts, id, i) == Some(k),
    decreases k - i,
{
    if i < k {
        lemma_font_pos_first(fonts, id, k, i + 1);
    }
}

/// On the percussion bank a missing program is substituted only by a
/// percussion preset: after a program change on a channel whose bank is 128,
/// the preset the channel has, if any, is one of bank 128 (less its font's
/// offset) with the program asked for or program 0. On another bank, off the
/// active drum channel, it is one of the channel's bank or of bank 0.
pub proof fn lemma_program_change_keeps_bank_kind(old: Synth, new: Synth, chan: u8, prognum: u8)
    requires
        old.has_channel(chan),
        crate::synth::spec_program_applied(
            old.chan(chan),
            new.chan(chan),
            prognum,
            spec_program_choice(old.font_bank, old.chan(chan), prognum, old.settings.drums_channel_active),
        ),
    ensures
        new.chan(chan).preset matches Some(q) ==> {
            let off = match spec_bank_offset(old.font_bank.bank_offsets@, q.sfont_id) {
                Some(o) => o,
                None => 0u32,
            };
            &&& old.chan(chan).banknum == 128 ==> q.data.bank == 128u32.wrapping_sub(off) && (q.data.num
                == prognum as u32 || q.data.num == 0)
            &&& old.chan(chan).banknum != 128 && !(old.chan(chan).channum == 9 && old.settings.drums_channel_active)
                ==> (q.data.bank == old.chan(chan).banknum.wrapping_sub(off) && q.data.num == prognum as u32)
                || (q.data.bank == 0u32.wrapping_sub(off) && (q.data.num == prognum as u32 || q.data.num == 0))
        },
{
    let fb = old.font_bank;
    let ch = old.chan(chan);
    lemma_find_preset_top_down(fb, 128, prognum);
    lemma_find_preset_top_down(fb, 128, 0);
    lemma_find_preset_top_down(fb, ch.banknum, prognum);
    lemma_find_preset_top_down(fb, 0, prognum);
    lemma_find_preset_top_down(fb, 0, 0);
}

/// Resetting the controllers. "All controllers off" (`all_off`) clears the
/// controllers below 120 but keeps bank select, volume, pan, the sound
/// controllers and the effects depths, and the wheel sensitivity; a full
/// reset clears every controller but volume (100), pan and the sound
/// controllers (64), and sets the wheel sensitivity to 2. Either way
/// expression and the RPN/NRPN numbers go to 127, the pitch bend to its
/// centre and the pressures to 0.
pub proof fn lemma_controller_reset(old: Channel, old_cc: Seq<u8>, new: Channel, all_off: bool)
    requires
        old_cc.len() == 128,
        spec_after_init_ctrl(old, old_cc, new, all_off),
    ensures
        forall|i: int|
            0 <= i < 128 ==> #[trigger] new.cc@[i] == if i == 11 || i == 43 || 98 <= i <= 101 {
                127u8
            } else if all_off {
                if i == 0 || i == 32 || i == 7 || i == 39 || i == 10 || i == 42 || 70 <= i <= 79 || 91 <= i
                    <= 95 || i >= 120 {
                    old_cc[i]
                } else {
                    0u8
                }
            } else if i == 7 {
                100u8
            } else if i == 10 || 70 <= i <= 79 {
                64u8
            } else {
                0u8
            },
        new.pitch_wheel_sensitivity == if all_off { old.pitch_wheel_sensitivity } else { 2u8 },
        new.pitch_bend == 0x2000,
        new.channel_pressure == 0,
        forall|i: int| 0 <= i < 128 ==> #[trigger] new.key_pressure@[i] == 0,
        new.banknum == old.banknum,
        new.preset == old.preset,
{
}

/// "All controllers off" keeps the pan: after control change 121 the pan
/// controllers (10 and 42), like bank select and volume, hold what they held
/// before, and the message's own controller holds its value.
pub proof fn lemma_all_ctrl_off_keeps_pan(old: Channel, value: u16, drums: bool, new: Channel)
    requires
        value < 128,
        spec_cc_transition(old, 121, value, drums, new),
    ensures
        new.cc@[10] == old.cc@[10],
        new.cc@[42] == old.cc@[42],
        new.cc@[7] == old.cc@[7],
        new.cc@[39] == old.cc@[39],
        new.cc@[0] == old.cc@[0],
        new.cc@[32] == old.cc@[32],
        new.cc@[121] == value,
{
    lemma_controller_reset(old, old.cc@.update(121, value as u8), new, true);
}

/// Exclusive classes act within a channel only: starting a voice kills (for
/// its class) no voice of another channel, of another class, of the same
/// note, or that is not playing, and none when the voice has no class; such
/// voices are unchanged and not named among the killed ones.
pub proof fn lemma_exclusive_class_stays_on_channel(old: VoicePool, new: VoicePool, id: VoiceId, r: Seq<VoiceId>)
    requires
        old.wf(),
        id.0 < old.voices@.len(),
        new.voices@.len() == old.voices@.len(),
        forall|i: int|
            0 <= i < old.voices@.len() ==> #[trigger] new.voices@[i] == if i < old.polyphony_limit && spec_excludes(
                old.voices@[id.0 as int],
                old.voices@[i],
            ) {
                old.voices@[i].spec_kill_excl()
            } else {
                old.voices@[i]
            },
        forall|i: int|
            0 <= i < old.polyphony_limit ==> (r.contains(VoiceId(i as usize)) <==> spec_excludes(
                old.voices@[id.0 as int],
                old.voices@[i],
            )),
    ensures
        forall|i: int|
            0 <= i < old.voices@.len() && ({
                let n = old.voices@[id.0 as int];
                let v = old.voices@[i];
                ||| v.chan != n.chan
                ||| v.exclusive_class != n.exclusive_class
                ||| n.exclusive_class == 0
                ||| v.id == n.id
                ||| !v.spec_is_playing()
            }) ==> #[trigger] new.voices@[i] == old.voices@[i] && (i < old.polyphony_limit ==> !r.contains(VoiceId(i as usize))),
{
    assert forall|i: int|
        0 <= i < old.voices@.len() && ({
            let n = old.voices@[id.0 as int];
            let v = old.voices@[i];
            ||| v.chan != n.chan
            ||| v.exclusive_class != n.exclusive_class
            ||| n.exclusive_class == 0
            ||| v.id == n.id
            ||| !v.spec_is_playing()
        }) implies #[trigger] new.voices@[i] == old.voices@[i] && (i < old.polyphony_limit ==> !r.contains(
        VoiceId(i as usize))) by {
        assert(!spec_excludes(old.voices@[id.0 as int], old.voices@[i]));
    }
}

} // verus!
