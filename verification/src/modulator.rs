use vstd::prelude::*;

use crate::channel::Channel;
use crate::generator::GenParam;

verus! {

/// Flag bit: the source is a MIDI continuous controller.
pub const MOD_CC: u8 = 16;

/// Flag bit: the source runs from maximum to minimum.
pub const MOD_NEGATIVE: u8 = 1;

/// Flag bit: the source maps onto -1..1.
pub const MOD_BIPOLAR: u8 = 2;

/// Flag value of a concave source.
pub const MOD_CONCAVE: u8 = 4;

/// Flag value of a convex source.
pub const MOD_CONVEX: u8 = 8;

/// Flag value of a switch source.
pub const MOD_SWITCH: u8 = 12;

/// A modulator source enumerator of a SoundFont file, taken apart.
#[derive(Debug, Clone, Copy, PartialEq, Eq, Structural)]
pub struct ModSource {
    /// Index of the controller (seven bits).
    pub index: u8,
    /// Bit 7: the MIDI controller palette is used.
    pub is_cc: bool,
    /// Bit 8: the direction is negative.
    pub negative: bool,
    /// Bit 9: the polarity is bipolar.
    pub bipolar: bool,
    /// Bits 10..15: the source type (0 linear, 1 concave, 2 convex, 3 switch).
    pub ty: u8,
}

/// The flag value of a source type; an unknown type contributes nothing.
pub open spec fn spec_type_flag(ty: int) -> int {
    if ty == 1 {
        4
    } else if ty == 2 {
        8
    } else if ty == 3 {
        12
    } else {
        0
    }
}

impl ModSource {
    /// The flags byte the synthesizer keeps for this source.
    pub open spec fn spec_flags(self) -> int {
        (if self.is_cc { 16int } else { 0int }) + (if self.negative { 1int } else { 0int }) + (
        if self.bipolar {
            2int
        } else {
            0int
        }) + spec_type_flag(self.ty as int)
    }

    /// Whether the source type is one of the four the SoundFont format defines.
    pub open spec fn spec_known_type(self) -> bool {
        self.ty <= 3
    }

    /// Takes a source enumerator word apart, bit by bit.
    pub fn from_raw(word: u16) -> (r: ModSource)
        ensures
            r == spec_source_of(word),
    {
        ModSource {
            index: (word % 128) as u8,
            is_cc: (word / 128) % 2 == 1,
            negative: (word / 256) % 2 == 1,
            bipolar: (word / 512) % 2 == 1,
            ty: ((word / 1024) % 64) as u8,
        }
    }

    /// The flags byte for this source.
    pub fn flags(&self) -> (r: u8)
        ensures
            r == self.spec_flags(),
    {
        let cc: u8 = if self.is_cc { MOD_CC } else { 0 };
        let neg: u8 = if self.negative { MOD_NEGATIVE } else { 0 };
        let bip: u8 = if self.bipolar { MOD_BIPOLAR } else { 0 };
        let ty: u8 = if self.ty == 1 {
            MOD_CONCAVE
        } else if self.ty == 2 {
            MOD_CONVEX
        } else if self.ty == 3 {
            MOD_SWITCH
        } else {
            0
        };
        cc + neg + bip + ty
    }
}

/// A modulator as the synthesizer keeps it.
#[derive(Debug, Clone, Copy, PartialEq, Eq, Structural)]
pub struct Mod {
    /// The generator the modulator drives.
    pub dest: GenParam,
    /// How strongly it drives it; zero turns the modulator off.
    pub amount: i32,
    /// Index of the primary source.
    pub src1: u8,
    /// Flags of the primary source.
    pub flags1: u8,
    /// Index of the amount source.
    pub src2: u8,
    /// Flags of the amount source.
    pub flags2: u8,
}

/// Two modulators are identical when they differ at most in amount.
pub open spec fn spec_identical(a: Mod, b: Mod) -> bool {
    &&& a.dest == b.dest
    &&& a.src1 == b.src1
    &&& a.src2 == b.src2
    &&& a.flags1 == b.flags1
    &&& a.flags2 == b.flags2
}

/// The amount a modulator read from a file keeps: zero when either source
/// has an unknown type or the transform is not linear.
pub open spec fn spec_imported_amount(src: ModSource, amount: i16, amt_src: ModSource, transform: u16) -> int {
    if src.spec_known_type() && amt_src.spec_known_type() && transform == 0 {
        amount as int
    } else {
        0
    }
}

/// Whether a raw destination word names a generator, the way the
/// synthesizer reads it (its low byte).
pub open spec fn spec_dest_ok(dest: u16) -> bool {
    dest % 256 <= 60
}

/// The source enumerator a word encodes.
pub open spec fn spec_source_of(word: u16) -> ModSource {
    ModSource {
        index: (word % 128) as u8,
        is_cc: (word / 128) % 2 == 1,
        negative: (word / 256) % 2 == 1,
        bipolar: (word / 512) % 2 == 1,
        ty: ((word / 1024) % 64) as u8,
    }
}

/// The modulator a record with these fields yields.
pub open spec fn spec_mod_from_fields(src: ModSource, dest: u16, amount: i16, amt_src: ModSource, transform: u16) -> Mod {
    Mod {
        dest: GenParam::spec_from_index((dest % 256) as int).unwrap(),
        amount: spec_imported_amount(src, amount, amt_src, transform) as i32,
        src1: src.index,
        flags1: src.spec_flags() as u8,
        src2: amt_src.index,
        flags2: amt_src.spec_flags() as u8,
    }
}

impl Mod {
    /// Builds a modulator from the fields of a modulator record of a file.
    /// `transform` is the transform word: 0 is linear, anything else turns
    /// the modulator off.
    pub fn from_sources(src: ModSource, dest: u16, amount: i16, amt_src: ModSource, transform: u16) -> (r: Mod)
        requires
            spec_dest_ok(dest),
        ensures
            r == spec_mod_from_fields(src, dest, amount, amt_src, transform),
    {
        let mut amt: i32 = amount as i32;
        if src.ty > 3 {
            amt = 0;
        }
        if amt_src.ty > 3 {
            amt = 0;
        }
        if transform != 0 {
            amt = 0;
        }
        let d = GenParam::from_u8((dest % 256) as u8);
        proof {
            crate::generator::lemma_from_index_roundtrip((dest % 256) as int);
        }
        let dest_param = match d {
            Some(g) => g,
            None => GenParam::Last,
        };
        Mod {
            dest: dest_param,
            amount: amt,
            src1: src.index,
            flags1: src.flags(),
            src2: amt_src.index,
            flags2: amt_src.flags(),
        }
    }

    /// Builds a modulator from the five words of a modulator record.
    pub fn from_raw(src: u16, dest: u16, amount: i16, amt_src: u16, transform: u16) -> (r: Mod)
        requires
            spec_dest_ok(dest),
        ensures
            r == spec_mod_from_fields(spec_source_of(src), dest, amount, spec_source_of(amt_src), transform),
    {
        let s1 = ModSource::from_raw(src);
        let s2 = ModSource::from_raw(amt_src);
        Mod::from_sources(s1, dest, amount, s2, transform)
    }

    /// The generator the modulator drives.
    pub fn get_dest(&self) -> (r: GenParam)
        ensures
            r == self.dest,
    {
        self.dest
    }

    /// Whether two modulators are identical: equal but for the amount.
    pub fn test_identity(&self, other: &Mod) -> (r: bool)
        ensures
            r == spec_identical(*self, *other),
    {
        self.dest == other.dest && self.src1 == other.src1 && self.src2 == other.src2
            && self.flags1 == other.flags1 && self.flags2 == other.flags2
    }

    /// Whether the modulator reads controller `ctrl`, of the MIDI palette
    /// when `cc` holds and of the general palette otherwise.
    pub fn has_source(&self, cc: bool, ctrl: u8) -> (r: bool)
        ensures
            r == spec_has_source(*self, cc, ctrl),
    {
        let cc1 = self.flags1 % 32 >= 16;
        let cc2 = self.flags2 % 32 >= 16;
        (self.src1 == ctrl && cc1 == cc) || (self.src2 == ctrl && cc2 == cc)
    }
}

/// Whether a modulator reads controller `ctrl` of the palette `cc` selects.
pub open spec fn spec_has_source(m: Mod, cc: bool, ctrl: u8) -> bool {
    (m.src1 == ctrl && ((m.flags1 % 32 >= 16) == cc)) || (m.src2 == ctrl && ((m.flags2 % 32
        >= 16) == cc))
}

/// Identity of modulators is an equivalence: reflexive, symmetric and transitive.
pub proof fn lemma_identity_equivalence(a: Mod, b: Mod, c: Mod)
    ensures
        spec_identical(a, a),
        spec_identical(a, b) ==> spec_identical(b, a),
        spec_identical(a, b) && spec_identical(b, c) ==> spec_identical(a, c),
{
}

/// The default modulators of the SoundFont format, in the order a voice
/// receives them.
pub open spec fn spec_default_mods() -> Seq<Mod> {
    seq![
        Mod { dest: GenParam::Attenuation, amount: 960, src1: 2, flags1: 5, src2: 0, flags2: 0 },
        Mod { dest: GenParam::FilterFc, amount: -2400i32, src1: 2, flags1: 1, src2: 2, flags2: 12 },
        Mod { dest: GenParam::VibLfoToPitch, amount: 50, src1: 13, flags1: 0, src2: 0, flags2: 0 },
        Mod { dest: GenParam::VibLfoToPitch, amount: 50, src1: 1, flags1: 16, src2: 0, flags2: 0 },
        Mod { dest: GenParam::Attenuation, amount: 960, src1: 7, flags1: 21, src2: 0, flags2: 0 },
        Mod { dest: GenParam::Pan, amount: 500, src1: 10, flags1: 18, src2: 0, flags2: 0 },
        Mod { dest: GenParam::Attenuation, amount: 960, src1: 11, flags1: 21, src2: 0, flags2: 0 },
        Mod { dest: GenParam::ReverbSend, amount: 200, src1: 91, flags1: 16, src2: 0, flags2: 0 },
        Mod { dest: GenParam::ChorusSend, amount: 200, src1: 93, flags1: 16, src2: 0, flags2: 0 },
        Mod { dest: GenParam::Pitch, amount: 12700, src1: 14, flags1: 2, src2: 16, flags2: 0 },
    ]
}

/// The default modulators, in order.
pub fn default_mods() -> (r: Vec<Mod>)
    ensures
        r@ == spec_default_mods(),
{
    let mut v: Vec<Mod> = Vec::new();
    v.push(Mod { dest: GenParam::Attenuation, amount: 960, src1: 2, flags1: 5, src2: 0, flags2: 0 });
    v.push(Mod { dest: GenParam::FilterFc, amount: -2400, src1: 2, flags1: 1, src2: 2, flags2: 12 });
    v.push(Mod { dest: GenParam::VibLfoToPitch, amount: 50, src1: 13, flags1: 0, src2: 0, flags2: 0 });
    v.push(Mod { dest: GenParam::VibLfoToPitch, amount: 50, src1: 1, flags1: 16, src2: 0, flags2: 0 });
    v.push(Mod { dest: GenParam::Attenuation, amount: 960, src1: 7, flags1: 21, src2: 0, flags2: 0 });
    v.push(Mod { dest: GenParam::Pan, amount: 500, src1: 10, flags1: 18, src2: 0, flags2: 0 });
    v.push(Mod { dest: GenParam::Attenuation, amount: 960, src1: 11, flags1: 21, src2: 0, flags2: 0 });
    v.push(Mod { dest: GenParam::ReverbSend, amount: 200, src1: 91, flags1: 16, src2: 0, flags2: 0 });
    v.push(Mod { dest: GenParam::ChorusSend, amount: 200, src1: 93, flags1: 16, src2: 0, flags2: 0 });
    v.push(Mod { dest: GenParam::Pitch, amount: 12700, src1: 14, flags1: 2, src2: 16, flags2: 0 });
    assert(v@ =~= spec_default_mods());
    v
}

/// What a modulator reads from its channel and note, before its inputs are
/// shaped into factors.
#[derive(Debug, Clone, Copy, PartialEq, Eq, Structural)]
pub enum ModInput {
    /// The modulator contributes nothing: it has no primary source, its
    /// secondary source is a general controller the synthesizer does not
    /// know, or it is the velocity-to-filter default modulator, whose effect
    /// is built into the synthesizer.
    Silent,
    /// The raw value of the primary source and the range it is read over,
    /// and the raw value of the secondary source, if there is one (its range
    /// is 127).
    Active { v1: i32, range1: i32, v2: Option<i32> },
}

/// The raw value a source reads: a MIDI controller of the channel, or one
/// of the general controllers (none: the full range; velocity; key; the
/// key's pressure; channel pressure; pitch wheel; wheel sensitivity).
/// Unknown general controllers read nothing.
pub open spec fn spec_source_value(index: u8, flags: u8, ch: Channel, key: u8, vel: u8) -> Option<i32> {
    if flags % 32 >= 16 {
        Some(if index < 128 { ch.cc@[index as int] as i32 } else { 0i32 })
    } else if index == 0 {
        Some(127i32)
    } else if index == 2 {
        Some(vel as i32)
    } else if index == 3 {
        Some(key as i32)
    } else if index == 10 {
        Some(ch.key_pressure@[key as int] as i32)
    } else if index == 13 {
        Some(ch.channel_pressure as i32)
    } else if index == 14 {
        Some(ch.pitch_bend as i32)
    } else if index == 16 {
        Some(ch.pitch_wheel_sensitivity as i32)
    } else {
        None
    }
}

/// Whether a modulator is the velocity-to-filter default modulator.
pub open spec fn spec_is_vel2filter(m: Mod) -> bool {
    m.src1 == 2 && m.src2 == 2 && m.flags1 == 1 && m.flags2 == 12 && m.dest == GenParam::FilterFc
}

/// What modulator `m` reads for note `key`, `vel` on channel `ch`. The
/// primary source is read over 0x4000 for the pitch wheel (a general source
/// 14) and 127 otherwise; an unknown general primary source reads 0.
pub open spec fn spec_mod_input(m: Mod, ch: Channel, key: u8, vel: u8) -> ModInput {
    if spec_is_vel2filter(m) || m.src1 == 0 {
        ModInput::Silent
    } else if m.src2 > 0 && spec_source_value(m.src2, m.flags2, ch, key, vel) is None {
        ModInput::Silent
    } else {
        let v1 = match spec_source_value(m.src1, m.flags1, ch, key, vel) {
            Some(v) => v,
            None => 0i32,
        };
        let range1 = if m.flags1 % 32 < 16 && m.src1 == 14 { 0x4000i32 } else { 127i32 };
        let v2 = if m.src2 > 0 { spec_source_value(m.src2, m.flags2, ch, key, vel) } else { None };
        ModInput::Active { v1, range1, v2 }
    }
}

fn source_value(index: u8, flags: u8, ch: &Channel, key: u8, vel: u8) -> (r: Option<i32>)
    requires
        key < 128,
    ensures
        r == spec_source_value(index, flags, *ch, key, vel),
{
    if flags % 32 >= 16 {
        Some(ch.get_cc(index as i32))
    } else if index == 0 {
        Some(127)
    } else if index == 2 {
        Some(vel as i32)
    } else if index == 3 {
        Some(key as i32)
    } else if index == 10 {
        Some(ch.key_pressure[key as usize] as i32)
    } else if index == 13 {
        Some(ch.channel_pressure as i32)
    } else if index == 14 {
        Some(ch.pitch_bend as i32)
    } else if index == 16 {
        Some(ch.pitch_wheel_sensitivity as i32)
    } else {
        None
    }
}

impl Mod {
    /// What the modulator reads for note `key`, `vel` on channel `ch` (see
    /// `spec_mod_input`); the synthesizer shapes the result into the
    /// modulator's contribution.
    pub fn input(&self, ch: &Channel, key: u8, vel: u8) -> (r: ModInput)
        requires
            key < 128,
        ensures
            r == spec_mod_input(*self, *ch, key, vel),
    {
        if (self.src1 == 2 && self.src2 == 2 && self.flags1 == 1 && self.flags2 == 12 && self.dest == GenParam::FilterFc)
            || self.src1 == 0 {
            return ModInput::Silent;
        }
        let v2 = if self.src2 > 0 {
            match source_value(self.src2, self.flags2, ch, key, vel) {
                None => {
                    return ModInput::Silent;
                },
                Some(v) => Some(v),
            }
        } else {
            None
        };
        let v1 = match source_value(self.src1, self.flags1, ch, key, vel) {
            Some(v) => v,
            None => 0,
        };
        let range1: i32 = if self.flags1 % 32 < 16 && self.src1 == 14 { 0x4000 } else { 127 };
        ModInput::Active { v1, range1, v2 }
    }
}

} // verus!
