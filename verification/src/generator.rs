use vstd::prelude::*;

verus! {

/// Generator (effect) numbers of the SoundFont format. `Last` is one past
/// the last real one.
#[derive(Debug, Clone, Copy, PartialEq, Eq, Hash, Structural)]
pub enum GenParam {
    /// Sample start address offset (0-32767)
    StartAddrOfs,
    /// Sample end address offset (-32767-0)
    EndAddrOfs,
    /// Sample loop start address offset (-32767-32767)
    StartLoopAddrOfs,
    /// Sample loop end address offset (-32767-32767)
    EndLoopAddrOfs,
    /// Sample start address coarse offset (X 32768)
    StartAddrCoarseOfs,
    /// Modulation LFO to pitch
    ModLfoToPitch,
    /// Vibrato LFO to pitch
    VibLfoToPitch,
    /// Modulation envelope to pitch
    ModEnvToPitch,
    /// Filter cutoff
    FilterFc,
    /// Filter Q
    FilterQ,
    /// Modulation LFO to filter cutoff
    ModLfoToFilterFc,
    /// Modulation envelope to filter cutoff
    ModEnvToFilterFc,
    /// Sample end address coarse offset (X 32768)
    EndAddrCoarseOfs,
    /// Modulation LFO to volume
    ModLfoToVol,
    /// Unused
    Unused,
    /// Chorus send amount
    ChorusSend,
    /// Reverb send amount
    ReverbSend,
    /// Stereo panning
    Pan,
    /// Unused
    Unused2,
    /// Unused
    Unused3,
    /// Unused
    Unused4,
    /// Modulation LFO delay
    ModLfoDelay,
    /// Modulation LFO frequency
    ModLfoFreq,
    /// Vibrato LFO delay
    VibLfoDelay,
    /// Vibrato LFO frequency
    VibLfoFreq,
    /// Modulation envelope delay
    ModEnvDelay,
    /// Modulation envelope attack
    ModEnvAttack,
    /// Modulation envelope hold
    ModEnvHold,
    /// Modulation envelope decay
    ModEnvDecay,
    /// Modulation envelope sustain
    ModEnvSustain,
    /// Modulation envelope release
    ModEnvRelease,
    /// Key to modulation envelope hold
    KeyToModEnvHold,
    /// Key to modulation envelope decay
    KeyToModEnvDecay,
    /// Volume envelope delay
    VolEnvDelay,
    /// Volume envelope attack
    VolEnvAttack,
    /// Volume envelope hold
    VolEnvHold,
    /// Volume envelope decay
    VolEnvDecay,
    /// Volume envelope sustain
    VolEnvSustain,
    /// Volume envelope release
    VolEnvRelease,
    /// Key to volume envelope hold
    KeyToVolEnvHold,
    /// Key to volume envelope decay
    KeyToVolEnvDecay,
    /// Instrument ID (shouldn't be set by user)
    Instrument,
    /// Reserved
    Reserved1,
    /// MIDI note range
    KeyRange,
    /// MIDI velocity range
    VelRange,
    /// Sample start loop address coarse offset (X 32768)
    StartLoopAddrCoarseOfs,
    /// Fixed MIDI note number
    KeyNum,
    /// Fixed MIDI velocity value
    Velocity,
    /// Initial volume attenuation
    Attenuation,
    /// Reserved
    Reserved2,
    /// Sample end loop address coarse offset (X 32768)
    EndLoopAddrCoarseOfs,
    /// Coarse tuning
    CoarseTune,
    /// Fine tuning
    FineTune,
    /// Sample ID (shouldn't be set by user)
    SampleId,
    /// Sample mode flags
    SampleMode,
    /// Reserved
    Reserved3,
    /// Scale tuning
    ScaleTune,
    /// Exclusive class number
    ExclusiveClass,
    /// Sample root note override
    OverrideRootKey,
    /// Pitch (NOTE: Not a real SoundFont generator) The initial pitch is not a "standard" generator. It is not in the list of generators of the SoundFont format. It is used, however, as the destination for the default pitch wheel modulator.
    Pitch,
    Last,
}

/// Number of real generators (the index of `GenParam::Last`).
pub const GEN_LAST: usize = 60;

impl GenParam {
    /// The generator's number in the SoundFont format.
    pub open spec fn spec_index(self) -> nat {
        match self {
            GenParam::StartAddrOfs => 0,
            GenParam::EndAddrOfs => 1,
            GenParam::StartLoopAddrOfs => 2,
            GenParam::EndLoopAddrOfs => 3,
            GenParam::StartAddrCoarseOfs => 4,
            GenParam::ModLfoToPitch => 5,
            GenParam::VibLfoToPitch => 6,
            GenParam::ModEnvToPitch => 7,
            GenParam::FilterFc => 8,
            GenParam::FilterQ => 9,
            GenParam::ModLfoToFilterFc => 10,
            GenParam::ModEnvToFilterFc => 11,
            GenParam::EndAddrCoarseOfs => 12,
            GenParam::ModLfoToVol => 13,
            GenParam::Unused => 14,
            GenParam::ChorusSend => 15,
            GenParam::ReverbSend => 16,
            GenParam::Pan => 17,
            GenParam::Unused2 => 18,
            GenParam::Unused3 => 19,
            GenParam::Unused4 => 20,
            GenParam::ModLfoDelay => 21,
            GenParam::ModLfoFreq => 22,
            GenParam::VibLfoDelay => 23,
            GenParam::VibLfoFreq => 24,
            GenParam::ModEnvDelay => 25,
            GenParam::ModEnvAttack => 26,
            GenParam::ModEnvHold => 27,
            GenParam::ModEnvDecay => 28,
            GenParam::ModEnvSustain => 29,
            GenParam::ModEnvRelease => 30,
            GenParam::KeyToModEnvHold => 31,
            GenParam::KeyToModEnvDecay => 32,
            GenParam::VolEnvDelay => 33,
            GenParam::VolEnvAttack => 34,
            GenParam::VolEnvHold => 35,
            GenParam::VolEnvDecay => 36,
            GenParam::VolEnvSustain => 37,
            GenParam::VolEnvRelease => 38,
            GenParam::KeyToVolEnvHold => 39,
            GenParam::KeyToVolEnvDecay => 40,
            GenParam::Instrument => 41,
            GenParam::Reserved1 => 42,
            GenParam::KeyRange => 43,
            GenParam::VelRange => 44,
            GenParam::StartLoopAddrCoarseOfs => 45,
            GenParam::KeyNum => 46,
            GenParam::Velocity => 47,
            GenParam::Attenuation => 48,
            GenParam::Reserved2 => 49,
            GenParam::EndLoopAddrCoarseOfs => 50,
            GenParam::CoarseTune => 51,
            GenParam::FineTune => 52,
            GenParam::SampleId => 53,
            GenParam::SampleMode => 54,
            GenParam::Reserved3 => 55,
            GenParam::ScaleTune => 56,
            GenParam::ExclusiveClass => 57,
            GenParam::OverrideRootKey => 58,
            GenParam::Pitch => 59,
            GenParam::Last => 60,
        }
    }

    /// The generator with the given number, if there is one.
    pub open spec fn spec_from_index(i: int) -> Option<GenParam> {
        if i == 0 { Some(GenParam::StartAddrOfs) } else if i == 1 { Some(GenParam::EndAddrOfs) } else if i == 2 { Some(GenParam::StartLoopAddrOfs) } else if i == 3 { Some(GenParam::EndLoopAddrOfs) } else if i == 4 { Some(GenParam::StartAddrCoarseOfs) } else if i == 5 { Some(GenParam::ModLfoToPitch) } else if i == 6 { Some(GenParam::VibLfoToPitch) } else if i == 7 { Some(GenParam::ModEnvToPitch) } else if i == 8 { Some(GenParam::FilterFc) } else if i == 9 { Some(GenParam::FilterQ) } else if i == 10 { Some(GenParam::ModLfoToFilterFc) } else if i == 11 { Some(GenParam::ModEnvToFilterFc) } else if i == 12 { Some(GenParam::EndAddrCoarseOfs) } else if i == 13 { Some(GenParam::ModLfoToVol) } else if i == 14 { Some(GenParam::Unused) } else if i == 15 { Some(GenParam::ChorusSend) } else if i == 16 { Some(GenParam::ReverbSend) } else if i == 17 { Some(GenParam::Pan) } else if i == 18 { Some(GenParam::Unused2) } else if i == 19 { Some(GenParam::Unused3) } else if i == 20 { Some(GenParam::Unused4) } else if i == 21 { Some(GenParam::ModLfoDelay) } else if i == 22 { Some(GenParam::ModLfoFreq) } else if i == 23 { Some(GenParam::VibLfoDelay) } else if i == 24 { Some(GenParam::VibLfoFreq) } else if i == 25 { Some(GenParam::ModEnvDelay) } else if i == 26 { Some(GenParam::ModEnvAttack) } else if i == 27 { Some(GenParam::ModEnvHold) } else if i == 28 { Some(GenParam::ModEnvDecay) } else if i == 29 { Some(GenParam::ModEnvSustain) } else if i == 30 { Some(GenParam::ModEnvRelease) } else if i == 31 { Some(GenParam::KeyToModEnvHold) } else if i == 32 { Some(GenParam::KeyToModEnvDecay) } else if i == 33 { Some(GenParam::VolEnvDelay) } else if i == 34 { Some(GenParam::VolEnvAttack) } else if i == 35 { Some(GenParam::VolEnvHold) } else if i == 36 { Some(GenParam::VolEnvDecay) } else if i == 37 { Some(GenParam::VolEnvSustain) } else if i == 38 { Some(GenParam::VolEnvRelease) } else if i == 39 { Some(GenParam::KeyToVolEnvHold) } else if i == 40 { Some(GenParam::KeyToVolEnvDecay) } else if i == 41 { Some(GenParam::Instrument) } else if i == 42 { Some(GenParam::Reserved1) } else if i == 43 { Some(GenParam::KeyRange) } else if i == 44 { Some(GenParam::VelRange) } else if i == 45 { Some(GenParam::StartLoopAddrCoarseOfs) } else if i == 46 { Some(GenParam::KeyNum) } else if i == 47 { Some(GenParam::Velocity) } else if i == 48 { Some(GenParam::Attenuation) } else if i == 49 { Some(GenParam::Reserved2) } else if i == 50 { Some(GenParam::EndLoopAddrCoarseOfs) } else if i == 51 { Some(GenParam::CoarseTune) } else if i == 52 { Some(GenParam::FineTune) } else if i == 53 { Some(GenParam::SampleId) } else if i == 54 { Some(GenParam::SampleMode) } else if i == 55 { Some(GenParam::Reserved3) } else if i == 56 { Some(GenParam::ScaleTune) } else if i == 57 { Some(GenParam::ExclusiveClass) } else if i == 58 { Some(GenParam::OverrideRootKey) } else if i == 59 { Some(GenParam::Pitch) } else if i == 60 { Some(GenParam::Last) } else { None }
    }

    /// Returns the generator's number.
    pub fn index(&self) -> (r: usize)
        ensures
            r == self.spec_index(),
    {
        match self {
            GenParam::StartAddrOfs => 0,
            GenParam::EndAddrOfs => 1,
            GenParam::StartLoopAddrOfs => 2,
            GenParam::EndLoopAddrOfs => 3,
            GenParam::StartAddrCoarseOfs => 4,
            GenParam::ModLfoToPitch => 5,
            GenParam::VibLfoToPitch => 6,
            GenParam::ModEnvToPitch => 7,
            GenParam::FilterFc => 8,
            GenParam::FilterQ => 9,
            GenParam::ModLfoToFilterFc => 10,
            GenParam::ModEnvToFilterFc => 11,
            GenParam::EndAddrCoarseOfs => 12,
            GenParam::ModLfoToVol => 13,
            GenParam::Unused => 14,
            GenParam::ChorusSend => 15,
            GenParam::ReverbSend => 16,
            GenParam::Pan => 17,
            GenParam::Unused2 => 18,
            GenParam::Unused3 => 19,
            GenParam::Unused4 => 20,
            GenParam::ModLfoDelay => 21,
            GenParam::ModLfoFreq => 22,
            GenParam::VibLfoDelay => 23,
            GenParam::VibLfoFreq => 24,
            GenParam::ModEnvDelay => 25,
            GenParam::ModEnvAttack => 26,
            GenParam::ModEnvHold => 27,
            GenParam::ModEnvDecay => 28,
            GenParam::ModEnvSustain => 29,
            GenParam::ModEnvRelease => 30,
            GenParam::KeyToModEnvHold => 31,
            GenParam::KeyToModEnvDecay => 32,
            GenParam::VolEnvDelay => 33,
            GenParam::VolEnvAttack => 34,
            GenParam::VolEnvHold => 35,
            GenParam::VolEnvDecay => 36,
            GenParam::VolEnvSustain => 37,
            GenParam::VolEnvRelease => 38,
            GenParam::KeyToVolEnvHold => 39,
            GenParam::KeyToVolEnvDecay => 40,
            GenParam::Instrument => 41,
            GenParam::Reserved1 => 42,
            GenParam::KeyRange => 43,
            GenParam::VelRange => 44,
            GenParam::StartLoopAddrCoarseOfs => 45,
            GenParam::KeyNum => 46,
            GenParam::Velocity => 47,
            GenParam::Attenuation => 48,
            GenParam::Reserved2 => 49,
            GenParam::EndLoopAddrCoarseOfs => 50,
            GenParam::CoarseTune => 51,
            GenParam::FineTune => 52,
            GenParam::SampleId => 53,
            GenParam::SampleMode => 54,
            GenParam::Reserved3 => 55,
            GenParam::ScaleTune => 56,
            GenParam::ExclusiveClass => 57,
            GenParam::OverrideRootKey => 58,
            GenParam::Pitch => 59,
            GenParam::Last => 60,
        }
    }

    /// Converts a generator number into a generator; numbers above 60 have none.
    pub fn from_u8(n: u8) -> (r: Option<GenParam>)
        ensures
            r == GenParam::spec_from_index(n as int),
    {
        match n {
            0 => Some(GenParam::StartAddrOfs),
            1 => Some(GenParam::EndAddrOfs),
            2 => Some(GenParam::StartLoopAddrOfs),
            3 => Some(GenParam::EndLoopAddrOfs),
            4 => Some(GenParam::StartAddrCoarseOfs),
            5 => Some(GenParam::ModLfoToPitch),
            6 => Some(GenParam::VibLfoToPitch),
            7 => Some(GenParam::ModEnvToPitch),
            8 => Some(GenParam::FilterFc),
            9 => Some(GenParam::FilterQ),
            10 => Some(GenParam::ModLfoToFilterFc),
            11 => Some(GenParam::ModEnvToFilterFc),
            12 => Some(GenParam::EndAddrCoarseOfs),
            13 => Some(GenParam::ModLfoToVol),
            14 => Some(GenParam::Unused),
            15 => Some(GenParam::ChorusSend),
            16 => Some(GenParam::ReverbSend),
            17 => Some(GenParam::Pan),
            18 => Some(GenParam::Unused2),
            19 => Some(GenParam::Unused3),
            20 => Some(GenParam::Unused4),
            21 => Some(GenParam::ModLfoDelay),
            22 => Some(GenParam::ModLfoFreq),
            23 => Some(GenParam::VibLfoDelay),
            24 => Some(GenParam::VibLfoFreq),
            25 => Some(GenParam::ModEnvDelay),
            26 => Some(GenParam::ModEnvAttack),
            27 => Some(GenParam::ModEnvHold),
            28 => Some(GenParam::ModEnvDecay),
            29 => Some(GenParam::ModEnvSustain),
            30 => Some(GenParam::ModEnvRelease),
            31 => Some(GenParam::KeyToModEnvHold),
            32 => Some(GenParam::KeyToModEnvDecay),
            33 => Some(GenParam::VolEnvDelay),
            34 => Some(GenParam::VolEnvAttack),
            35 => Some(GenParam::VolEnvHold),
            36 => Some(GenParam::VolEnvDecay),
            37 => Some(GenParam::VolEnvSustain),
            38 => Some(GenParam::VolEnvRelease),
            39 => Some(GenParam::KeyToVolEnvHold),
            40 => Some(GenParam::KeyToVolEnvDecay),
            41 => Some(GenParam::Instrument),
            42 => Some(GenParam::Reserved1),
            43 => Some(GenParam::KeyRange),
            44 => Some(GenParam::VelRange),
            45 => Some(GenParam::StartLoopAddrCoarseOfs),
            46 => Some(GenParam::KeyNum),
            47 => Some(GenParam::Velocity),
            48 => Some(GenParam::Attenuation),
            49 => Some(GenParam::Reserved2),
            50 => Some(GenParam::EndLoopAddrCoarseOfs),
            51 => Some(GenParam::CoarseTune),
            52 => Some(GenParam::FineTune),
            53 => Some(GenParam::SampleId),
            54 => Some(GenParam::SampleMode),
            55 => Some(GenParam::Reserved3),
            56 => Some(GenParam::ScaleTune),
            57 => Some(GenParam::ExclusiveClass),
            58 => Some(GenParam::OverrideRootKey),
            59 => Some(GenParam::Pitch),
            60 => Some(GenParam::Last),
            _ => None,
        }
    }
}

/// Every number up to 60 names a generator whose number it is.
pub proof fn lemma_from_index_roundtrip(i: int)
    requires
        0 <= i <= 60,
    ensures
        GenParam::spec_from_index(i) is Some,
        GenParam::spec_from_index(i).unwrap().spec_index() == i,
{
}

/// Every generator is found again from its number.
pub proof fn lemma_index_roundtrip(g: GenParam)
    ensures
        g.spec_index() <= 60,
        GenParam::spec_from_index(g.spec_index() as int) == Some(g),
{
}

/// The scale applied to NRPN data for each generator.
pub open spec fn spec_nrpn_scale(i: int) -> int
    recommends
        0 <= i < 60,
{
    if i == 0 { 1 } else if i == 1 { 1 } else if i == 2 { 1 } else if i == 3 { 1 } else if i == 4 { 1 } else if i == 5 { 2 } else if i == 6 { 2 } else if i == 7 { 2 } else if i == 8 { 2 } else if i == 9 { 1 } else if i == 10 { 2 } else if i == 11 { 2 } else if i == 12 { 1 } else if i == 13 { 1 } else if i == 14 { 0 } else if i == 15 { 1 } else if i == 16 { 1 } else if i == 17 { 1 } else if i == 18 { 0 } else if i == 19 { 0 } else if i == 20 { 0 } else if i == 21 { 2 } else if i == 22 { 4 } else if i == 23 { 2 } else if i == 24 { 4 } else if i == 25 { 2 } else if i == 26 { 2 } else if i == 27 { 2 } else if i == 28 { 2 } else if i == 29 { 1 } else if i == 30 { 2 } else if i == 31 { 1 } else if i == 32 { 1 } else if i == 33 { 2 } else if i == 34 { 2 } else if i == 35 { 2 } else if i == 36 { 2 } else if i == 37 { 1 } else if i == 38 { 2 } else if i == 39 { 1 } else if i == 40 { 1 } else if i == 41 { 0 } else if i == 42 { 0 } else if i == 43 { 0 } else if i == 44 { 0 } else if i == 45 { 1 } else if i == 46 { 0 } else if i == 47 { 1 } else if i == 48 { 1 } else if i == 49 { 0 } else if i == 50 { 1 } else if i == 51 { 1 } else if i == 52 { 1 } else if i == 53 { 0 } else if i == 54 { 0 } else if i == 55 { 0 } else if i == 56 { 1 } else if i == 57 { 0 } else if i == 58 { 0 } else { 0 }
}

/// Whether a generator takes part in a voice's initial parameter calculation.
pub open spec fn spec_gen_init(i: int) -> int
    recommends
        0 <= i < 60,
{
    if i == 0 { 1 } else if i == 1 { 1 } else if i == 2 { 1 } else if i == 3 { 1 } else if i == 4 { 0 } else if i == 5 { 1 } else if i == 6 { 1 } else if i == 7 { 1 } else if i == 8 { 1 } else if i == 9 { 1 } else if i == 10 { 1 } else if i == 11 { 1 } else if i == 12 { 0 } else if i == 13 { 1 } else if i == 14 { 0 } else if i == 15 { 1 } else if i == 16 { 1 } else if i == 17 { 1 } else if i == 18 { 0 } else if i == 19 { 0 } else if i == 20 { 0 } else if i == 21 { 1 } else if i == 22 { 1 } else if i == 23 { 1 } else if i == 24 { 1 } else if i == 25 { 1 } else if i == 26 { 1 } else if i == 27 { 1 } else if i == 28 { 1 } else if i == 29 { 0 } else if i == 30 { 1 } else if i == 31 { 0 } else if i == 32 { 0 } else if i == 33 { 1 } else if i == 34 { 1 } else if i == 35 { 1 } else if i == 36 { 1 } else if i == 37 { 0 } else if i == 38 { 1 } else if i == 39 { 0 } else if i == 40 { 0 } else if i == 41 { 0 } else if i == 42 { 0 } else if i == 43 { 0 } else if i == 44 { 0 } else if i == 45 { 0 } else if i == 46 { 1 } else if i == 47 { 1 } else if i == 48 { 1 } else if i == 49 { 0 } else if i == 50 { 0 } else if i == 51 { 0 } else if i == 52 { 0 } else if i == 53 { 0 } else if i == 54 { 0 } else if i == 55 { 0 } else if i == 56 { 0 } else if i == 57 { 0 } else if i == 58 { 1 } else { 1 }
}

/// The default value of each generator.
pub open spec fn spec_gen_default(i: int) -> int
    recommends
        0 <= i < 60,
{
    if i == 0 { 0 } else if i == 1 { 0 } else if i == 2 { 0 } else if i == 3 { 0 } else if i == 4 { 0 } else if i == 5 { 0 } else if i == 6 { 0 } else if i == 7 { 0 } else if i == 8 { 13500 } else if i == 9 { 0 } else if i == 10 { 0 } else if i == 11 { 0 } else if i == 12 { 0 } else if i == 13 { 0 } else if i == 14 { 0 } else if i == 15 { 0 } else if i == 16 { 0 } else if i == 17 { 0 } else if i == 18 { 0 } else if i == 19 { 0 } else if i == 20 { 0 } else if i == 21 { -12000 } else if i == 22 { 0 } else if i == 23 { -12000 } else if i == 24 { 0 } else if i == 25 { -12000 } else if i == 26 { -12000 } else if i == 27 { -12000 } else if i == 28 { -12000 } else if i == 29 { 0 } else if i == 30 { -12000 } else if i == 31 { 0 } else if i == 32 { 0 } else if i == 33 { -12000 } else if i == 34 { -12000 } else if i == 35 { -12000 } else if i == 36 { -12000 } else if i == 37 { 0 } else if i == 38 { -12000 } else if i == 39 { 0 } else if i == 40 { 0 } else if i == 41 { 0 } else if i == 42 { 0 } else if i == 43 { 0 } else if i == 44 { 0 } else if i == 45 { 0 } else if i == 46 { -1 } else if i == 47 { -1 } else if i == 48 { 0 } else if i == 49 { 0 } else if i == 50 { 0 } else if i == 51 { 0 } else if i == 52 { 0 } else if i == 53 { 0 } else if i == 54 { 0 } else if i == 55 { 0 } else if i == 56 { 100 } else if i == 57 { 0 } else if i == 58 { -1 } else { 0 }
}

/// Integer properties of a generator: the ones the synthesizer consults.
#[derive(Debug, Clone, Copy, PartialEq, Eq)]
pub struct GenInfo {
    pub num: GenParam,
    pub init: i8,
    pub nrpn_scale: i8,
    pub def: i32,
}

/// The properties of generator number `i`.
pub fn gen_info(i: usize) -> (r: GenInfo)
    requires
        i < GEN_LAST,
    ensures
        r.num.spec_index() == i,
        r.init == spec_gen_init(i as int),
        r.nrpn_scale == spec_nrpn_scale(i as int),
        r.def == spec_gen_default(i as int),
{
    let num = match GenParam::from_u8(i as u8) {
        Some(g) => g,
        None => GenParam::Last,
    };
    proof {
        lemma_from_index_roundtrip(i as int);
    }
    let init: i8 = if i == 0 { 1 } else if i == 1 { 1 } else if i == 2 { 1 } else if i == 3 { 1 } else if i == 4 { 0 } else if i == 5 { 1 } else if i == 6 { 1 } else if i == 7 { 1 } else if i == 8 { 1 } else if i == 9 { 1 } else if i == 10 { 1 } else if i == 11 { 1 } else if i == 12 { 0 } else if i == 13 { 1 } else if i == 14 { 0 } else if i == 15 { 1 } else if i == 16 { 1 } else if i == 17 { 1 } else if i == 18 { 0 } else if i == 19 { 0 } else if i == 20 { 0 } else if i == 21 { 1 } else if i == 22 { 1 } else if i == 23 { 1 } else if i == 24 { 1 } else if i == 25 { 1 } else if i == 26 { 1 } else if i == 27 { 1 } else if i == 28 { 1 } else if i == 29 { 0 } else if i == 30 { 1 } else if i == 31 { 0 } else if i == 32 { 0 } else if i == 33 { 1 } else if i == 34 { 1 } else if i == 35 { 1 } else if i == 36 { 1 } else if i == 37 { 0 } else if i == 38 { 1 } else if i == 39 { 0 } else if i == 40 { 0 } else if i == 41 { 0 } else if i == 42 { 0 } else if i == 43 { 0 } else if i == 44 { 0 } else if i == 45 { 0 } else if i == 46 { 1 } else if i == 47 { 1 } else if i == 48 { 1 } else if i == 49 { 0 } else if i == 50 { 0 } else if i == 51 { 0 } else if i == 52 { 0 } else if i == 53 { 0 } else if i == 54 { 0 } else if i == 55 { 0 } else if i == 56 { 0 } else if i == 57 { 0 } else if i == 58 { 1 } else { 1 };
    let nrpn_scale: i8 = if i == 0 { 1 } else if i == 1 { 1 } else if i == 2 { 1 } else if i == 3 { 1 } else if i == 4 { 1 } else if i == 5 { 2 } else if i == 6 { 2 } else if i == 7 { 2 } else if i == 8 { 2 } else if i == 9 { 1 } else if i == 10 { 2 } else if i == 11 { 2 } else if i == 12 { 1 } else if i == 13 { 1 } else if i == 14 { 0 } else if i == 15 { 1 } else if i == 16 { 1 } else if i == 17 { 1 } else if i == 18 { 0 } else if i == 19 { 0 } else if i == 20 { 0 } else if i == 21 { 2 } else if i == 22 { 4 } else if i == 23 { 2 } else if i == 24 { 4 } else if i == 25 { 2 } else if i == 26 { 2 } else if i == 27 { 2 } else if i == 28 { 2 } else if i == 29 { 1 } else if i == 30 { 2 } else if i == 31 { 1 } else if i == 32 { 1 } else if i == 33 { 2 } else if i == 34 { 2 } else if i == 35 { 2 } else if i == 36 { 2 } else if i == 37 { 1 } else if i == 38 { 2 } else if i == 39 { 1 } else if i == 40 { 1 } else if i == 41 { 0 } else if i == 42 { 0 } else if i == 43 { 0 } else if i == 44 { 0 } else if i == 45 { 1 } else if i == 46 { 0 } else if i == 47 { 1 } else if i == 48 { 1 } else if i == 49 { 0 } else if i == 50 { 1 } else if i == 51 { 1 } else if i == 52 { 1 } else if i == 53 { 0 } else if i == 54 { 0 } else if i == 55 { 0 } else if i == 56 { 1 } else if i == 57 { 0 } else if i == 58 { 0 } else { 0 };
    let def: i32 = if i == 0 { 0 } else if i == 1 { 0 } else if i == 2 { 0 } else if i == 3 { 0 } else if i == 4 { 0 } else if i == 5 { 0 } else if i == 6 { 0 } else if i == 7 { 0 } else if i == 8 { 13500 } else if i == 9 { 0 } else if i == 10 { 0 } else if i == 11 { 0 } else if i == 12 { 0 } else if i == 13 { 0 } else if i == 14 { 0 } else if i == 15 { 0 } else if i == 16 { 0 } else if i == 17 { 0 } else if i == 18 { 0 } else if i == 19 { 0 } else if i == 20 { 0 } else if i == 21 { -12000 } else if i == 22 { 0 } else if i == 23 { -12000 } else if i == 24 { 0 } else if i == 25 { -12000 } else if i == 26 { -12000 } else if i == 27 { -12000 } else if i == 28 { -12000 } else if i == 29 { 0 } else if i == 30 { -12000 } else if i == 31 { 0 } else if i == 32 { 0 } else if i == 33 { -12000 } else if i == 34 { -12000 } else if i == 35 { -12000 } else if i == 36 { -12000 } else if i == 37 { 0 } else if i == 38 { -12000 } else if i == 39 { 0 } else if i == 40 { 0 } else if i == 41 { 0 } else if i == 42 { 0 } else if i == 43 { 0 } else if i == 44 { 0 } else if i == 45 { 0 } else if i == 46 { -1 } else if i == 47 { -1 } else if i == 48 { 0 } else if i == 49 { 0 } else if i == 50 { 0 } else if i == 51 { 0 } else if i == 52 { 0 } else if i == 53 { 0 } else if i == 54 { 0 } else if i == 55 { 0 } else if i == 56 { 100 } else if i == 57 { 0 } else if i == 58 { -1 } else { 0 };
    GenInfo { num, init, nrpn_scale, def }
}

/// NRPN data scaled for a generator: the data, centred on 8192 and limited
/// to -8192..=8192, times the generator's NRPN scale.
pub open spec fn spec_scale_nrpn(gen: int, data: int) -> int {
    let v = data - 8192;
    let c = if v < -8192 { -8192 } else if v > 8192 { 8192 } else { v };
    c * spec_nrpn_scale(gen)
}

/// Scales NRPN data for generator `gen`.
/// The result is a whole number of the generator's units.
pub fn gen_scale_nrpn(gen: i16, data: i32) -> (r: i32)
    requires
        0 <= gen < 60,
    ensures
        r == spec_scale_nrpn(gen as int, data as int),
        -32768 <= r <= 32768,
{
    let info = gen_info(gen as usize);
    let v: i64 = data as i64 - 8192;
    let c: i64 = if v < -8192 {
        -8192
    } else if v > 8192 {
        8192
    } else {
        v
    };
    let scale: i64 = info.nrpn_scale as i64;
    assert(0 <= scale <= 4);
    assert(-32768 <= c * scale <= 32768) by (nonlinear_arith)
        requires
            -8192 <= c <= 8192,
            0 <= scale <= 4,
    ;
    (c * scale) as i32
}

/// Every generator default lies within the range of a signed word.
pub proof fn lemma_gen_default_bound(i: int)
    requires
        0 <= i < 60,
    ensures
        -32768 <= spec_gen_default(i) <= 32767,
{
}

} // verus!
