use vstd::prelude::*;

use crate::generator::{GenParam, gen_scale_nrpn, spec_scale_nrpn};
use crate::soundfont::Preset;

verus! {

/// Interpolation method a channel's voices use.
#[derive(Debug, Clone, Copy, PartialEq, Eq, Hash, Structural)]
pub enum InterpolationMethod {
    /// No interpolation: fastest, but questionable audio quality.
    NoInterpolation,
    /// Straight-line interpolation: a bit slower, reasonable audio quality.
    Linear,
    /// Fourth-order interpolation, good quality (the default).
    FourthOrder,
    /// Seventh-order interpolation.
    SeventhOrder,
}

/// The name the interpolation methods have had.
pub type InterpMethod = InterpolationMethod;

impl InterpolationMethod {
    /// The order of the interpolation: 0, 1, 4 or 7.
    pub fn order(&self) -> (r: u32)
        ensures
            r == match *self {
                InterpolationMethod::NoInterpolation => 0u32,
                InterpolationMethod::Linear => 1u32,
                InterpolationMethod::FourthOrder => 4u32,
                InterpolationMethod::SeventhOrder => 7u32,
            },
    {
        match self {
            InterpolationMethod::NoInterpolation => 0,
            InterpolationMethod::Linear => 1,
            InterpolationMethod::FourthOrder => 4,
            InterpolationMethod::SeventhOrder => 7,
        }
    }
}

impl Default for InterpolationMethod {
    fn default() -> (r: Self)
        ensures
            r == InterpolationMethod::FourthOrder,
    {
        InterpolationMethod::FourthOrder
    }
}

/// Index of a MIDI channel.
#[derive(Debug, Clone, Copy, PartialEq, Eq, Structural)]
pub struct ChannelId(pub usize);

/// Controller numbers (MIDI 1.0) the channel treats specially.
pub const BANK_SELECT_MSB: u16 = 0;
pub const DATA_ENTRY_MSB: u16 = 6;
pub const VOLUME_MSB: u16 = 7;
pub const PAN_MSB: u16 = 10;
pub const EXPRESSION_MSB: u16 = 11;
pub const BANK_SELECT_LSB: u16 = 32;
pub const DATA_ENTRY_LSB: u16 = 38;
pub const VOLUME_LSB: u16 = 39;
pub const PAN_LSB: u16 = 42;
pub const EXPRESSION_LSB: u16 = 43;
pub const SUSTAIN_SWITCH: u16 = 64;
pub const SOUND_CTRL1: u16 = 70;
pub const SOUND_CTRL10: u16 = 79;
pub const EFFECTS_DEPTH1: u16 = 91;
pub const EFFECTS_DEPTH5: u16 = 95;
pub const NRPN_LSB: u16 = 98;
pub const NRPN_MSB: u16 = 99;
pub const RPN_LSB: u16 = 100;
pub const RPN_MSB: u16 = 101;
pub const ALL_SOUND_OFF: u16 = 120;
pub const ALL_CTRL_OFF: u16 = 121;
pub const ALL_NOTES_OFF: u16 = 123;

/// What the voices of a channel must do after a control change.
#[derive(Debug, Clone, Copy, PartialEq, Eq, Structural)]
pub enum CcAction {
    /// Nothing.
    Nothing,
    /// The sustain pedal was released: sustained voices are released.
    DampVoices,
    /// All notes of the channel are released.
    AllNotesOff,
    /// All voices of the channel stop at once.
    AllSoundsOff,
    /// The controllers were reset: the channel's generator offsets go back
    /// to zero and every modulator of its voices is recomputed.
    ResetControllers,
    /// An NRPN message sets the channel's offset of generator `param` to
    /// `value` (in the generator's units).
    SetGen { param: GenParam, value: i32 },
    /// RPN fine tune: the data word, centred on 8192.
    FineTune { data: i32 },
    /// RPN coarse tune: the data value, centred on 64.
    CoarseTune { value: u16 },
    /// The pitch wheel sensitivity changed: modulators reading it are
    /// recomputed.
    PitchWheelSens,
    /// Modulators reading MIDI controller `ctrl` are recomputed.
    Modulate { ctrl: u16 },
}

/// The state of a MIDI channel.
#[derive(Debug)]
pub struct Channel {
    pub channum: u8,
    /// Font the channel's preset comes from, if selected.
    pub sfontnum: Option<u32>,
    pub banknum: u32,
    pub prognum: u8,
    pub preset: Option<Preset>,
    pub key_pressure: [i8; 128],
    pub channel_pressure: i16,
    pub pitch_bend: u16,
    pub pitch_wheel_sensitivity: u8,
    pub cc: [u8; 128],
    pub bank_msb: u8,
    pub interp_method: InterpolationMethod,
    /// Bank and program of the tuning the channel uses, if any.
    pub tuning: Option<(u32, u32)>,
    pub nrpn_select: i16,
    pub nrpn_active: bool,
}

/// The value of controller `i` after the controllers are reset. A full
/// reset clears everything; "all controllers off" keeps bank select,
/// volume, pan, the effects depths, the sound controllers and the channel
/// mode messages. Both leave the (N)RPN numbers and expression at 127; a
/// full reset also sets the sound controllers and pan to 64 and volume to 100.
pub open spec fn spec_reset_cc(old_cc: Seq<u8>, all_ctrl_off: bool, i: int) -> u8 {
    if i == 98 || i == 99 || i == 100 || i == 101 || i == 11 || i == 43 {
        127
    } else if !all_ctrl_off {
        if 70 <= i <= 79 || i == 10 {
            64
        } else if i == 7 {
            100
        } else {
            0
        }
    } else if i < 120 && !(91 <= i <= 95) && !(70 <= i <= 79) && i != 0 && i != 32 && i != 7
        && i != 39 && i != 10 && i != 42 {
        0
    } else {
        old_cc[i]
    }
}

/// `r` is channel `num` as made with preset `preset`: no font selected, bank
/// and program 0, default interpolation, no tuning, no NRPN; no pressure,
/// the pitch bend centred, a wheel sensitivity of 2, and every controller at
/// its reset value (volume 100, pan and the sound controllers 64, expression
/// 127, ...).
pub open spec fn spec_is_new_channel(r: Channel, num: u8, preset: Option<Preset>) -> bool {
    &&& r.channum == num
    &&& r.sfontnum is None
    &&& r.banknum == 0
    &&& r.prognum == 0
    &&& r.preset == preset
    &&& r.interp_method == InterpolationMethod::FourthOrder
    &&& r.tuning is None
    &&& r.nrpn_select == 0
    &&& !r.nrpn_active
    &&& r.bank_msb == 0
    &&& r.channel_pressure == 0
    &&& r.pitch_bend == 0x2000
    &&& r.pitch_wheel_sensitivity == 2
    &&& forall|i: int| 0 <= i < 128 ==> #[trigger] r.key_pressure@[i] == 0
    &&& forall|i: int| 0 <= i < 128 ==> #[trigger] r.cc@[i] == spec_reset_cc(Seq::new(128, |j: int| 0u8), false, i)
}

/// The fields a control change or reset leaves alone.
pub open spec fn spec_same_identity(a: Channel, b: Channel) -> bool {
    &&& a.channum == b.channum
    &&& a.sfontnum == b.sfontnum
    &&& a.prognum == b.prognum
    &&& a.preset == b.preset
    &&& a.interp_method == b.interp_method
    &&& a.tuning == b.tuning
}

/// `new` is `old` after its controllers are reset.
pub open spec fn spec_after_init_ctrl(old: Channel, old_cc: Seq<u8>, new: Channel, all_ctrl_off: bool) -> bool {
    &&& spec_same_identity(old, new)
    &&& new.banknum == old.banknum
    &&& new.bank_msb == old.bank_msb
    &&& new.nrpn_select == old.nrpn_select
    &&& new.nrpn_active == old.nrpn_active
    &&& new.channel_pressure == 0
    &&& new.pitch_bend == 0x2000
    &&& forall|i: int| 0 <= i < 128 ==> #[trigger] new.key_pressure@[i] == 0
    &&& forall|i: int| 0 <= i < 128 ==> #[trigger] new.cc@[i] == spec_reset_cc(old_cc, all_ctrl_off, i)
    &&& new.pitch_wheel_sensitivity == (if all_ctrl_off { old.pitch_wheel_sensitivity } else { 2 })
}

/// The increment an NRPN LSB value adds to the selected NRPN number.
pub open spec fn spec_nrpn_increment(value: u16) -> int {
    if value == 100 {
        100
    } else if value == 101 {
        1000
    } else if value == 102 {
        10000
    } else if value < 100 {
        value as int
    } else {
        0
    }
}

/// A control change can be handled without overflow: an NRPN LSB message
/// keeps the selected NRPN number within 16 bits, and an NRPN data entry
/// selects a generator number that is not negative.
pub open spec fn spec_cc_defined(ch: Channel, num: u16, value: u16) -> bool {
    &&& (num == NRPN_LSB && ch.cc@[99] == 120 ==> ch.nrpn_select + spec_nrpn_increment(value) <= i16::MAX)
    &&& (num == DATA_ENTRY_MSB && ch.nrpn_active && ch.cc@[99] == 120 && ch.cc@[98] < 100 ==> ch.nrpn_select >= 0)
}

/// The data word of a data entry: the value as MSB, the current data entry
/// LSB as LSB.
pub open spec fn spec_data_word(cc: Seq<u8>, value: u16) -> int {
    value * 128 + cc[38]
}

/// What a data entry does on a channel whose controller `DATA_ENTRY_MSB`
/// was just set: an NRPN sets a generator offset, an RPN sets the pitch wheel sensitivity, fine or coarse tune.
pub open spec fn spec_data_entry_action(ch: Channel, cc: Seq<u8>, value: u16) -> CcAction {
    let data = spec_data_word(cc, value);
    if ch.nrpn_active {
        if cc[99] == 120 && cc[98] < 100 && ch.nrpn_select < 60 {
            CcAction::SetGen {
                param: GenParam::spec_from_index(ch.nrpn_select as int).unwrap(),
                value: spec_scale_nrpn(ch.nrpn_select as int, data) as i32,
            }
        } else {
            CcAction::Nothing
        }
    } else if cc[101] == 0 {
        if cc[100] == 0 {
            CcAction::PitchWheelSens
        } else if cc[100] == 1 {
            CcAction::FineTune { data: data as i32 }
        } else if cc[100] == 2 {
            CcAction::CoarseTune { value }
        } else {
            CcAction::Nothing
        }
    } else {
        CcAction::Nothing
    }
}

/// The action a control change asks of the voices of channel `ch`, whose
/// controllers read `cc` once the new value is stored.
pub open spec fn spec_cc_action(ch: Channel, cc: Seq<u8>, num: u16, value: u16) -> CcAction {
    if num == SUSTAIN_SWITCH {
        if value < 64 {
            CcAction::DampVoices
        } else {
            CcAction::Nothing
        }
    } else if num == BANK_SELECT_MSB || num == BANK_SELECT_LSB || num == NRPN_MSB || num == NRPN_LSB
        || num == RPN_MSB || num == RPN_LSB {
        CcAction::Nothing
    } else if num == ALL_NOTES_OFF {
        CcAction::AllNotesOff
    } else if num == ALL_SOUND_OFF {
        CcAction::AllSoundsOff
    } else if num == ALL_CTRL_OFF {
        CcAction::ResetControllers
    } else if num == DATA_ENTRY_MSB {
        spec_data_entry_action(ch, cc, value)
    } else {
        CcAction::Modulate { ctrl: num }
    }
}

impl Channel {
    /// Channel number `num` with the given preset, controllers fully reset.
    pub fn new(num: u8, preset: Option<Preset>) -> (r: Channel)
        ensures
            spec_is_new_channel(r, num, preset),
    {
        let mut chan = Channel {
            channum: num,
            sfontnum: None,
            banknum: 0,
            prognum: 0,
            preset: None,
            key_pressure: [0i8; 128],
            channel_pressure: 0,
            pitch_bend: 0,
            pitch_wheel_sensitivity: 0,
            cc: [0u8; 128],
            bank_msb: 0,
            interp_method: InterpolationMethod::FourthOrder,
            tuning: None,
            nrpn_select: 0,
            nrpn_active: false,
        };
        chan.init(preset);
        assert(chan.cc@ =~= Seq::new(128, |j: int| 0u8));
        chan.init_ctrl(false);
        chan
    }

    /// Resets the program selection: program, bank and font back to none,
    /// the given preset, default interpolation, no tuning, no NRPN.
    pub fn init(&mut self, preset: Option<Preset>)
        ensures
            final(self).channum == old(self).channum,
            final(self).sfontnum is None,
            final(self).banknum == 0,
            final(self).prognum == 0,
            final(self).preset == preset,
            final(self).interp_method == InterpolationMethod::FourthOrder,
            final(self).tuning is None,
            final(self).nrpn_select == 0,
            !final(self).nrpn_active,
            final(self).key_pressure == old(self).key_pressure,
            final(self).channel_pressure == old(self).channel_pressure,
            final(self).pitch_bend == old(self).pitch_bend,
            final(self).pitch_wheel_sensitivity == old(self).pitch_wheel_sensitivity,
            final(self).cc == old(self).cc,
            final(self).bank_msb == old(self).bank_msb,
    {
        self.prognum = 0;
        self.banknum = 0;
        self.sfontnum = None;
        self.preset = preset;
        self.interp_method = InterpolationMethod::FourthOrder;
        self.tuning = None;
        self.nrpn_select = 0;
        self.nrpn_active = false;
    }

    /// Resets the controllers: fully, or as the "all controllers off"
    /// message asks when `is_all_ctrl_off` holds.
    pub fn init_ctrl(&mut self, is_all_ctrl_off: bool)
        ensures
            spec_after_init_ctrl(*old(self), old(self).cc@, *final(self), is_all_ctrl_off),
    {
        let ghost old_cc = self.cc@;
        self.channel_pressure = 0;
        self.pitch_bend = 0x2000;
        let mut i: usize = 0;
        while i < 128
            invariant
                0 <= i <= 128,
                self.cc@ == old_cc,
                self.pitch_wheel_sensitivity == old(self).pitch_wheel_sensitivity,
                spec_same_identity(*old(self), *self),
                self.banknum == old(self).banknum,
                self.bank_msb == old(self).bank_msb,
                self.nrpn_select == old(self).nrpn_select,
                self.nrpn_active == old(self).nrpn_active,
                self.channel_pressure == 0,
                self.pitch_bend == 0x2000,
                old_cc == old(self).cc@,
                old_cc.len() == 128,

                forall|j: int| 0 <= j < i ==> #[trigger] self.key_pressure@[j] == 0,
            decreases 128 - i,
        {
            self.key_pressure[i] = 0;
            i += 1;
        }
        let mut c: usize = 0;
        while c < 128
            invariant
                0 <= c <= 128,
                self.pitch_wheel_sensitivity == old(self).pitch_wheel_sensitivity,
                spec_same_identity(*old(self), *self),
                self.banknum == old(self).banknum,
                self.bank_msb == old(self).bank_msb,
                self.nrpn_select == old(self).nrpn_select,
                self.nrpn_active == old(self).nrpn_active,
                self.channel_pressure == 0,
                self.pitch_bend == 0x2000,
                old_cc == old(self).cc@,
                old_cc.len() == 128,

                forall|j: int| 0 <= j < 128 ==> #[trigger] self.key_pressure@[j] == 0,
                forall|j: int|
                    0 <= j < c ==> #[trigger] self.cc@[j] == (if is_all_ctrl_off {
                        if j < 120 && !(91 <= j <= 95) && !(70 <= j <= 79) && j != 0 && j != 32 && j
                            != 7 && j != 39 && j != 10 && j != 42 {
                            0
                        } else {
                            old_cc[j]
                        }
                    } else {
                        0
                    }),
                forall|j: int| c <= j < 128 ==> #[trigger] self.cc@[j] == old_cc[j],
            decreases 128 - c,
        {
            if is_all_ctrl_off {
                if c < 120 && !(c >= 91 && c <= 95) && !(c >= 70 && c <= 79) && c != 0 && c != 32
                    && c != 7 && c != 39 && c != 10 && c != 42 {
                    self.cc[c] = 0;
                }
            } else {
                self.cc[c] = 0;
            }
            c += 1;
        }
        self.cc[RPN_LSB as usize] = 127;
        self.cc[RPN_MSB as usize] = 127;
        self.cc[NRPN_LSB as usize] = 127;
        self.cc[NRPN_MSB as usize] = 127;
        self.cc[EXPRESSION_MSB as usize] = 127;
        self.cc[EXPRESSION_LSB as usize] = 127;
        if !is_all_ctrl_off {
            self.pitch_wheel_sensitivity = 2;
            let mut s: usize = 70;
            while s <= 79
                invariant
                    70 <= s <= 80,
                    self.pitch_wheel_sensitivity == 2,
                    spec_same_identity(*old(self), *self),
                    self.banknum == old(self).banknum,
                    self.bank_msb == old(self).bank_msb,
                    self.nrpn_select == old(self).nrpn_select,
                    self.nrpn_active == old(self).nrpn_active,
                    self.channel_pressure == 0,
                    self.pitch_bend == 0x2000,
                    old_cc == old(self).cc@,
                    old_cc.len() == 128,

                    forall|j: int| 0 <= j < 128 ==> #[trigger] self.key_pressure@[j] == 0,
                    forall|j: int|
                        0 <= j < 128 && !(70 <= j < s) ==> #[trigger] self.cc@[j] == (if j == 98 || j == 99
                            || j == 100 || j == 101 || j == 11 || j == 43 {
                            127u8
                        } else {
                            0u8
                        }),
                    forall|j: int| 70 <= j < s ==> #[trigger] self.cc@[j] == 64,
                decreases 80 - s,
            {
                self.cc[s] = 64;
                s += 1;
            }
            self.cc[VOLUME_MSB as usize] = 100;
            self.cc[VOLUME_LSB as usize] = 0;
            self.cc[PAN_MSB as usize] = 64;
            self.cc[PAN_LSB as usize] = 0;
        }
        assert forall|j: int| 0 <= j < 128 implies #[trigger] self.cc@[j] == spec_reset_cc(
            old_cc,
            is_all_ctrl_off,
            j,
        ) by {}
    }

    /// Sets the channel's preset.
    pub fn set_preset(&mut self, preset: Option<Preset>)
        ensures
            final(self).preset == preset,
            spec_same_but_preset(*old(self), *final(self)),
    {
        self.preset = preset;
    }

    /// The channel's preset, if any.
    pub fn get_preset(&self) -> (r: Option<&Preset>)
        ensures
            r == match self.preset {
                Some(p) => Some(&p),
                None => None::<&Preset>,
            },
    {
        self.preset.as_ref()
    }

    /// The selected bank.
    pub fn get_banknum(&self) -> (r: u32)
        ensures
            r == self.banknum,
    {
        self.banknum
    }

    /// Selects a bank.
    pub fn set_banknum(&mut self, banknum: u32)
        ensures
            final(self).banknum == banknum,
            spec_same_but_bank(*old(self), *final(self)),
    {
        self.banknum = banknum;
    }

    /// The selected program.
    pub fn get_prognum(&self) -> (r: u8)
        ensures
            r == self.prognum,
    {
        self.prognum
    }

    /// Selects a program.
    pub fn set_prognum(&mut self, prognum: u8)
        ensures
            final(self).prognum == prognum,
            spec_same_but_prog(*old(self), *final(self)),
    {
        self.prognum = prognum;
    }

    /// The value of controller `num`; 0 for a number out of range.
    pub fn get_cc(&self, num: i32) -> (r: i32)
        ensures
            r == if 0 <= num < 128 { self.cc@[num as int] as i32 } else { 0 },
    {
        if num >= 0 && num < 128 {
            self.cc[num as usize] as i32
        } else {
            0
        }
    }

    /// The channel's number.
    pub fn get_num(&self) -> (r: u8)
        ensures
            r == self.channum,
    {
        self.channum
    }

    /// Sets the interpolation method of the channel's voices.
    pub fn set_interp_method(&mut self, new_method: InterpolationMethod)
        ensures
            final(self).interp_method == new_method,
            spec_same_but_interp(*old(self), *final(self)),
    {
        self.interp_method = new_method;
    }

    /// The interpolation method of the channel's voices.
    pub fn get_interp_method(&self) -> (r: InterpolationMethod)
        ensures
            r == self.interp_method,
    {
        self.interp_method
    }

    /// The font the channel's preset comes from, if selected.
    pub fn get_sfontnum(&self) -> (r: Option<u32>)
        ensures
            r == self.sfontnum,
    {
        self.sfontnum
    }

    /// Selects the font the channel's preset comes from.
    pub fn set_sfontnum(&mut self, sfontnum: Option<u32>)
        ensures
            final(self).sfontnum == sfontnum,
            spec_same_but_sfont(*old(self), *final(self)),
    {
        self.sfontnum = sfontnum;
    }

    /// Whether control change `num` with `value` can be handled without
    /// overflow (see `spec_cc_defined`).
    pub fn cc_defined(&self, num: u16, value: u16) -> (r: bool)
        ensures
            r == spec_cc_defined(*self, num, value),
    {
        if num == NRPN_LSB && self.cc[99] == 120 {
            let inc: i32 = if value == 100 {
                100
            } else if value == 101 {
                1000
            } else if value == 102 {
                10000
            } else if value < 100 {
                value as i32
            } else {
                0
            };
            if self.nrpn_select as i32 + inc > i16::MAX as i32 {
                return false;
            }
        }
        if num == DATA_ENTRY_MSB && self.nrpn_active && self.cc[99] == 120 && self.cc[98] < 100 {
            if self.nrpn_select < 0 {
                return false;
            }
        }
        true
    }

    /// Handles a control change message on this channel: stores the value,
    /// then bank select, (N)RPN and data entry, and the channel mode
    /// messages take effect. Bank select is ignored on the drum channel (9)
    /// while drums are active. The result says what the channel's voices
    /// must do.
    pub fn control_change(&mut self, num: u16, value: u16, drums_channel_active: bool) -> (r: CcAction)
        requires
            num < 128,
            value < 128,
            spec_cc_defined(*old(self), num, value),
        ensures
            spec_cc_transition(*old(self), num, value, drums_channel_active, *final(self)),
            r == spec_cc_action(*old(self), spec_stored(*old(self), num, value), num, value),
    {
        self.cc[num as usize] = value as u8;
        let ghost stored = *self;
        if num == SUSTAIN_SWITCH {
            if value < 64 {
                CcAction::DampVoices
            } else {
                CcAction::Nothing
            }
        } else if num == BANK_SELECT_MSB {
            if self.channum == 9 && drums_channel_active {
                return CcAction::Nothing;
            }
            self.bank_msb = (value % 128) as u8;
            self.banknum = (value % 128) as u32;
            CcAction::Nothing
        } else if num == BANK_SELECT_LSB {
            if self.channum == 9 && drums_channel_active {
                return CcAction::Nothing;
            }
            self.banknum = (value % 128) as u32 + (self.bank_msb as u32) * 128;
            CcAction::Nothing
        } else if num == ALL_NOTES_OFF {
            CcAction::AllNotesOff
        } else if num == ALL_SOUND_OFF {
            CcAction::AllSoundsOff
        } else if num == ALL_CTRL_OFF {
            self.init_ctrl(true);
            CcAction::ResetControllers
        } else if num == DATA_ENTRY_MSB {
            let data: i32 = (value as i32) * 128 + self.cc[DATA_ENTRY_LSB as usize] as i32;
            if self.nrpn_active {
                if self.cc[NRPN_MSB as usize] == 120 && self.cc[NRPN_LSB as usize] < 100 {
                    let mut action = CcAction::Nothing;
                    if self.nrpn_select < 60 {
                        let param = GenParam::from_u8(self.nrpn_select as u8);
                        proof {
                            crate::generator::lemma_from_index_roundtrip(self.nrpn_select as int);
                        }
                        let value = gen_scale_nrpn(self.nrpn_select, data);
                        action = match param {
                            Some(p) => CcAction::SetGen { param: p, value },
                            None => CcAction::Nothing,
                        };
                    }
                    self.nrpn_select = 0;
                    action
                } else {
                    CcAction::Nothing
                }
            } else if self.cc[RPN_MSB as usize] == 0 {
                let lsb = self.cc[RPN_LSB as usize];
                if lsb == 0 {
                    self.pitch_wheel_sensitivity = value as u8;
                    CcAction::PitchWheelSens
                } else if lsb == 1 {
                    CcAction::FineTune { data }
                } else if lsb == 2 {
                    CcAction::CoarseTune { value }
                } else {
                    CcAction::Nothing
                }
            } else {
                CcAction::Nothing
            }
        } else if num == NRPN_MSB {
            self.cc[NRPN_LSB as usize] = 0;
            self.nrpn_select = 0;
            self.nrpn_active = true;
            CcAction::Nothing
        } else if num == NRPN_LSB {
            if self.cc[NRPN_MSB as usize] == 120 {
                if value == 100 {
                    self.nrpn_select = self.nrpn_select + 100;
                } else if value == 101 {
                    self.nrpn_select = self.nrpn_select + 1000;
                } else if value == 102 {
                    self.nrpn_select = self.nrpn_select + 10000;
                } else if value < 100 {
                    self.nrpn_select = self.nrpn_select + value as i16;
                }
            }
            self.nrpn_active = true;
            CcAction::Nothing
        } else if num == RPN_MSB || num == RPN_LSB {
            self.nrpn_active = false;
            CcAction::Nothing
        } else {
            CcAction::Modulate { ctrl: num }
        }
    }
}

/// The controllers of a channel once a control change stores its value.
pub open spec fn spec_stored(ch: Channel, num: u16, value: u16) -> Seq<u8> {
    ch.cc@.update(num as int, value as u8)
}

/// Bank select takes effect: the message is a bank select and the channel
/// is not the drum channel while drums are active.
pub open spec fn spec_bank_select_applies(ch: Channel, num: u16, drums: bool) -> bool {
    (num == BANK_SELECT_MSB || num == BANK_SELECT_LSB) && !(ch.channum == 9 && drums)
}

/// `new` is `old` after control change `num` with `value`.
pub open spec fn spec_cc_transition(old: Channel, num: u16, value: u16, drums: bool, new: Channel) -> bool {
    let c1 = spec_stored(old, num, value);
    if num == ALL_CTRL_OFF {
        spec_after_init_ctrl(old, c1, new, true)
    } else {
        &&& spec_same_identity(old, new)
        &&& new.channel_pressure == old.channel_pressure
        &&& new.pitch_bend == old.pitch_bend
        &&& new.key_pressure == old.key_pressure
        &&& new.cc@ == (if num == NRPN_MSB { c1.update(98, 0) } else { c1 })
        &&& new.bank_msb == (if spec_bank_select_applies(old, num, drums) && num == BANK_SELECT_MSB {
            (value % 128) as u8
        } else {
            old.bank_msb
        })
        &&& new.banknum == (if spec_bank_select_applies(old, num, drums) {
            if num == BANK_SELECT_MSB {
                (value % 128) as u32
            } else {
                ((value % 128) + old.bank_msb * 128) as u32
            }
        } else {
            old.banknum
        })
        &&& new.nrpn_select == (if (num == DATA_ENTRY_MSB && old.nrpn_active && c1[99] == 120 && c1[98]
            < 100) || num == NRPN_MSB {
            0
        } else if num == NRPN_LSB && c1[99] == 120 {
            (old.nrpn_select + spec_nrpn_increment(value)) as i16
        } else {
            old.nrpn_select
        })
        &&& new.nrpn_active == (if num == NRPN_MSB || num == NRPN_LSB {
            true
        } else if num == RPN_MSB || num == RPN_LSB {
            false
        } else {
            old.nrpn_active
        })
        &&& new.pitch_wheel_sensitivity == (if num == DATA_ENTRY_MSB && !old.nrpn_active && c1[101] == 0
            && c1[100] == 0 {
            value as u8
        } else {
            old.pitch_wheel_sensitivity
        })
    }
}

/// All fields but the preset are equal.
pub open spec fn spec_same_but_preset(a: Channel, b: Channel) -> bool {
    Channel { preset: b.preset, ..a } == b
}

/// All fields but the bank are equal.
pub open spec fn spec_same_but_bank(a: Channel, b: Channel) -> bool {
    Channel { banknum: b.banknum, ..a } == b
}

/// All fields but the program are equal.
pub open spec fn spec_same_but_prog(a: Channel, b: Channel) -> bool {
    Channel { prognum: b.prognum, ..a } == b
}

/// All fields but the interpolation method are equal.
pub open spec fn spec_same_but_interp(a: Channel, b: Channel) -> bool {
    Channel { interp_method: b.interp_method, ..a } == b
}

/// All fields but the font selection are equal.
pub open spec fn spec_same_but_sfont(a: Channel, b: Channel) -> bool {
    Channel { sfontnum: b.sfontnum, ..a } == b
}

} // verus!
