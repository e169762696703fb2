use vstd::prelude::*;

use std::rc::Rc;

use crate::modulator::{Mod, ModSource, spec_dest_ok, spec_mod_from_fields};

verus! {

/// Generator number of the instrument link of a preset zone.
pub const GEN_INSTRUMENT: u16 = 41;

/// Generator number of the key range.
pub const GEN_KEY_RANGE: u16 = 43;

/// Generator number of the velocity range.
pub const GEN_VEL_RANGE: u16 = 44;

/// Generator number of the sample link of an instrument zone.
pub const GEN_SAMPLE_ID: u16 = 53;

/// The amount of a generator record of a SoundFont file.
#[derive(Debug, Clone, Copy, PartialEq, Eq, Structural)]
pub enum GenAmount {
    /// A signed word.
    Int(i16),
    /// An unsigned word (instrument and sample links).
    Word(u16),
    /// A low and a high byte (key and velocity ranges).
    Range(u8, u8),
}

/// A generator record of a SoundFont file: its number and its amount.
#[derive(Debug, Clone, Copy, PartialEq, Eq, Structural)]
pub struct SfGen {
    pub ty: u16,
    pub amount: GenAmount,
}

/// A modulator record of a SoundFont file, its source words taken apart.
#[derive(Debug, Clone, Copy, PartialEq, Eq, Structural)]
pub struct SfMod {
    pub src: ModSource,
    pub dest: u16,
    pub amount: i16,
    pub amt_src: ModSource,
    pub transform: u16,
}

/// A zone of a SoundFont file: its generator and modulator records.
#[derive(Debug, Clone, PartialEq, Eq)]
pub struct SfZone {
    pub gens: Vec<SfGen>,
    pub mods: Vec<SfMod>,
}

/// An instrument of a SoundFont file.
#[derive(Debug, Clone, PartialEq, Eq)]
pub struct SfInstrument {
    pub name: String,
    pub zones: Vec<SfZone>,
}

/// A preset of a SoundFont file.
#[derive(Debug, Clone, PartialEq, Eq)]
pub struct SfPreset {
    pub name: String,
    pub bank: u16,
    pub preset: u16,
    pub zones: Vec<SfZone>,
}

/// The parts of a SoundFont file that presets are built from.
#[derive(Debug, Clone, PartialEq, Eq)]
pub struct SfFont {
    pub presets: Vec<SfPreset>,
    pub instruments: Vec<SfInstrument>,
    /// Names of the sample headers, in file order.
    pub sample_names: Vec<String>,
}

/// A sample loaded from a font, as far as voices are chosen by it.
#[derive(Debug, Clone, PartialEq, Eq)]
pub struct SampleInfo {
    pub name: String,
    /// The sample lives in ROM (sample type bit 15), so it cannot be played.
    pub in_rom: bool,
}

/// Link from an instrument zone to a loaded sample.
#[derive(Debug, Clone, Copy, PartialEq, Eq, Structural)]
pub struct SampleRef {
    /// Position of the sample in the font's sample list.
    pub index: usize,
    pub in_rom: bool,
}

/// A zone of an instrument.
#[derive(Debug, Clone, PartialEq, Eq)]
pub struct InstrumentZone {
    pub sample: Option<SampleRef>,
    pub keylo: u8,
    pub keyhi: u8,
    pub vello: i32,
    pub velhi: i32,
    /// One entry per generator: the amount the zone sets, if it sets one.
    pub gen: Vec<Option<i16>>,
    pub mods: Vec<Mod>,
}

/// An instrument: an optional global zone and its zones.
#[derive(Debug, Clone, PartialEq, Eq)]
pub struct Instrument {
    pub name: String,
    pub global_zone: Option<InstrumentZone>,
    pub zones: Vec<InstrumentZone>,
}

/// A zone of a preset.
#[derive(Debug, Clone, PartialEq, Eq)]
pub struct PresetZone {
    pub inst: Option<Instrument>,
    pub keylo: u8,
    pub keyhi: u8,
    pub vello: i32,
    pub velhi: i32,
    /// One entry per generator: the amount the zone sets, if it sets one.
    pub gen: Vec<Option<i16>>,
    pub mods: Vec<Mod>,
}

/// A preset as loaded from a font.
#[derive(Debug, Clone, PartialEq, Eq)]
pub struct PresetData {
    pub name: String,
    pub bank: u32,
    pub num: u32,
    pub global_zone: Option<PresetZone>,
    pub zones: Vec<PresetZone>,
}

/// A preset of a loaded font, shared with the channels that use it.
#[derive(Debug)]
pub struct Preset {
    pub data: Rc<PresetData>,
    /// Id of the font the preset belongs to.
    pub sfont_id: u32,
}

/// Another handle on a shared value, made by `std::rc::Rc::clone`; the value
/// itself is not copied. Its contract claims only that the new handle is
/// equal to the one it was made from.
#[verifier::external_body]
pub(crate) fn rc_clone<T>(p: &Rc<T>) -> (r: Rc<T>)
    ensures
        r == *p,
{
    Rc::clone(p)
}

impl Preset {
    /// Another handle on the same preset.
    pub fn share(&self) -> (r: Preset)
        ensures
            r == *self,
    {
        Preset { data: rc_clone(&self.data), sfont_id: self.sfont_id }
    }

    /// The preset's name.
    pub fn get_name(&self) -> (r: &str)
        ensures
            r@ == self.data.name@,
    {
        self.data.name.as_str()
    }

    /// The preset's bank number.
    pub fn get_banknum(&self) -> (r: u32)
        ensures
            r == self.data.bank,
    {
        self.data.bank
    }

    /// The preset's program number.
    pub fn get_num(&self) -> (r: u32)
        ensures
            r == self.data.num,
    {
        self.data.num
    }
}

/// A loaded SoundFont: its id and its presets, sorted by bank and program.
#[derive(Debug)]
pub struct SoundFont {
    pub id: u32,
    pub name: String,
    pub presets: Vec<Rc<PresetData>>,
}

/// The first preset of `s` with bank `bank` and program `num`.
pub open spec fn spec_first_preset(s: Seq<Rc<PresetData>>, bank: u32, num: u32) -> Option<
    Rc<PresetData>,
>
    decreases s.len(),
{
    if s.len() == 0 {
        None
    } else if s[0].bank == bank && s[0].num == num {
        Some(s[0])
    } else {
        spec_first_preset(s.drop_first(), bank, num)
    }
}

/// What `SoundFont::get_preset` gives for a font.
pub open spec fn spec_font_preset(f: SoundFont, bank: u32, prenum: u8) -> Option<Preset> {
    match spec_first_preset(f.presets@, bank, prenum as u32) {
        Some(d) => Some(Preset { data: d, sfont_id: f.id }),
        None => None,
    }
}

/// Bank `bank` and program `num` come before bank `bank2` and program
/// `num2`: a lower bank, or the same bank and a lower program.
pub open spec fn spec_key_before(bank: u32, num: u32, bank2: u32, num2: u32) -> bool {
    bank < bank2 || (bank == bank2 && num < num2)
}

/// Where a preset of bank `bank` and program `num` goes in the list `s`:
/// before the first preset, from position `from` on, that it comes before;
/// at the end when there is none.
pub open spec fn spec_preset_slot(s: Seq<Rc<PresetData>>, bank: u32, num: u32, from: int) -> int
    decreases s.len() - from,
{
    if from >= s.len() {
        s.len() as int
    } else if spec_key_before(bank, num, s[from].bank, s[from].num) {
        from
    } else {
        spec_preset_slot(s, bank, num, from + 1)
    }
}

/// The presets are sorted by bank and program: none comes before one placed
/// ahead of it.
pub open spec fn spec_presets_sorted(s: Seq<Rc<PresetData>>) -> bool {
    forall|a: int, b: int|
        0 <= a < b < s.len() ==> !spec_key_before((#[trigger] s[b]).bank, s[b].num, (#[trigger] s[a]).bank, s[a].num)
}

/// Adding a preset puts it after every preset it does not come before and
/// right before the first one it comes before, so that it follows those of
/// the same bank and program; sorted presets stay sorted.
pub proof fn lemma_add_preset_keeps_order(s: Seq<Rc<PresetData>>, p: Rc<PresetData>)
    ensures
        0 <= spec_preset_slot(s, p.bank, p.num, 0) <= s.len(),
        forall|j: int| 0 <= j < spec_preset_slot(s, p.bank, p.num, 0) ==> !spec_key_before(p.bank, p.num, (#[trigger] s[j]).bank, s[j].num),
        spec_preset_slot(s, p.bank, p.num, 0) < s.len() ==> spec_key_before(p.bank, p.num, s[spec_preset_slot(s, p.bank, p.num, 0)].bank, s[spec_preset_slot(s, p.bank, p.num, 0)].num),
        spec_presets_sorted(s) ==> spec_presets_sorted(s.insert(spec_preset_slot(s, p.bank, p.num, 0), p)),
{
    lemma_preset_slot(s, p.bank, p.num, 0);
    let k = spec_preset_slot(s, p.bank, p.num, 0);
    let t = s.insert(k, p);
    if spec_presets_sorted(s) {
        assert forall|a: int, b: int| 0 <= a < b < t.len() implies !spec_key_before(
            (#[trigger] t[b]).bank,
            t[b].num,
            (#[trigger] t[a]).bank,
            t[a].num,
        ) by {
            if b < k {
                assert(t[a] == s[a] && t[b] == s[b]);
            } else if b == k {
                assert(t[a] == s[a]);
            } else if a < k {
                assert(t[a] == s[a] && t[b] == s[b - 1]);
            } else if a == k {
                assert(t[b] == s[b - 1]);
                if b - 1 > k {
                    assert(!spec_key_before(s[b - 1].bank, s[b - 1].num, s[k].bank, s[k].num));
                }
            } else {
                assert(t[a] == s[a - 1] && t[b] == s[b - 1]);
            }
        }
    }
}

proof fn lemma_preset_slot(s: Seq<Rc<PresetData>>, bank: u32, num: u32, from: int)
    requires
        0 <= from <= s.len(),
    ensures
        from <= spec_preset_slot(s, bank, num, from) <= s.len(),
        forall|j: int|
            from <= j < spec_preset_slot(s, bank, num, from) ==> !spec_key_before(bank, num, (#[trigger] s[j]).bank, s[j].num),
        spec_preset_slot(s, bank, num, from) < s.len() ==> spec_key_before(
            bank,
            num,
            s[spec_preset_slot(s, bank, num, from)].bank,
            s[spec_preset_slot(s, bank, num, from)].num,
        ),
    decreases s.len() - from,
{
    if from < s.len() && !spec_key_before(bank, num, s[from].bank, s[from].num) {
        lemma_preset_slot(s, bank, num, from + 1);
    }
}

impl SoundFont {
    /// Adds a preset to the font, right before the first preset with a
    /// greater bank and program (see `spec_preset_slot`), so that the
    /// presets stay sorted by bank and program and a preset follows those
    /// with the same bank and program.
    pub fn add_preset(&mut self, p: Rc<PresetData>)
        ensures
            final(self).id == old(self).id,
            final(self).name == old(self).name,
            final(self).presets@ == old(self).presets@.insert(spec_preset_slot(old(self).presets@, p.bank, p.num, 0), p),
    {
        let n = self.presets.len();
        let mut pos: usize = 0;
        while pos < n
            invariant
                n == self.presets@.len(),
                0 <= pos <= n,
                spec_preset_slot(self.presets@, p.bank, p.num, 0) == spec_preset_slot(self.presets@, p.bank, p.num, pos as int),
            ensures
                spec_preset_slot(self.presets@, p.bank, p.num, 0) == pos,
            decreases n - pos,
        {
            let q = &self.presets[pos];
            if p.bank < q.bank || (p.bank == q.bank && p.num < q.num) {
                break;
            }
            pos += 1;
        }
        self.presets.insert(pos, p);
    }
}

impl SoundFont {
    /// The font's id in the synthesizer.
    pub fn get_id(&self) -> (r: u32)
        ensures
            r == self.id,
    {
        self.id
    }

    /// The font's name.
    pub fn get_name(&self) -> (r: &str)
        ensures
            r@ == self.name@,
    {
        self.name.as_str()
    }

    /// The first preset with the given bank and program number.
    pub fn get_preset(&self, bank: u32, prenum: u8) -> (r: Option<Preset>)
        ensures
            r == spec_font_preset(*self, bank, prenum),
    {
        let n = self.presets.len();
        let mut i: usize = 0;
        assert(self.presets@.skip(0) =~= self.presets@);
        while i < n
            invariant
                n == self.presets@.len(),
                0 <= i <= n,
                spec_first_preset(self.presets@, bank, prenum as u32) == spec_first_preset(
                    self.presets@.skip(i as int),
                    bank,
                    prenum as u32,
                ),
            decreases n - i,
        {
            assert(self.presets@.skip(i as int).drop_first() =~= self.presets@.skip(i + 1));
            if self.presets[i].bank == bank && self.presets[i].num == prenum as u32 {
                return Some(Preset { data: rc_clone(&self.presets[i]), sfont_id: self.id });
            }
            i += 1;
        }
        None
    }
}

} // verus!
