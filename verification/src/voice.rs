use vstd::prelude::*;

use crate::modulator::{Mod, spec_identical};

verus! {

/// Sections of a voice's volume and modulation envelopes.
#[derive(Debug, Clone, Copy, PartialEq, Eq, Structural)]
pub enum VoiceEnvelope {
    Delay,
    Attack,
    Hold,
    Decay,
    Sustain,
    Release,
    Finished,
}

/// What to do when a voice receives a modulator identical to one it has.
#[derive(Debug, Clone, Copy, PartialEq, Eq, Structural)]
pub enum VoiceAddMode {
    /// Instrument level: the new amount replaces the old one.
    Overwrite,
    /// Preset level: the amounts add up.
    Add,
    /// Default modulators: added without looking for an identical one.
    Default,
}

/// Life cycle of a voice.
#[derive(Debug, Clone, Copy, PartialEq, Eq, Structural)]
pub enum VoiceStatus {
    Clean,
    On,
    Sustained,
    Off,
}

/// How a sample loops.
#[derive(Debug, Clone, Copy, PartialEq, Eq, Structural)]
pub enum LoopMode {
    UnLooped,
    DuringRelease,
    UntilRelease,
}

/// Index of a voice in the voice pool.
#[derive(Debug, Clone, Copy, PartialEq, Eq, Structural)]
pub struct VoiceId(pub usize);

/// Most modulators a voice holds.
pub const MAX_VOICE_MODS: usize = 64;

/// Whether a modulator has a usable primary source: a MIDI controller, or
/// one of the general controllers the synthesizer knows (none, velocity,
/// key, key pressure, channel pressure, pitch wheel, wheel sensitivity).
pub open spec fn spec_valid_source(m: Mod) -> bool {
    ||| (m.flags1 / 16) % 2 == 1
    ||| m.src1 == 0
    ||| m.src1 == 2
    ||| m.src1 == 3
    ||| m.src1 == 10
    ||| m.src1 == 13
    ||| m.src1 == 14
    ||| m.src1 == 16
}

/// The first position at or after `i` of a modulator identical to `m`, or -1.
pub open spec fn spec_find_identical_from(s: Seq<Mod>, m: Mod, i: int) -> int
    decreases s.len() - i,
{
    if i < 0 || i >= s.len() {
        -1
    } else if spec_identical(s[i], m) {
        i
    } else {
        spec_find_identical_from(s, m, i + 1)
    }
}

/// The first position of a modulator identical to `m`, or -1.
pub open spec fn spec_find_identical(s: Seq<Mod>, m: Mod) -> int {
    spec_find_identical_from(s, m, 0)
}

/// The modulator list after a voice receives `m` in mode `mode`.
pub open spec fn spec_add_mod(s: Seq<Mod>, m: Mod, mode: VoiceAddMode) -> Seq<Mod> {
    let k = spec_find_identical(s, m);
    if !spec_valid_source(m) {
        s
    } else if mode != VoiceAddMode::Default && k >= 0 {
        let old_m = s[k];
        let amount = if mode == VoiceAddMode::Add {
            (old_m.amount + m.amount) as i32
        } else {
            m.amount
        };
        s.update(k, Mod { amount, ..old_m })
    } else if s.len() < 64 {
        s.push(m)
    } else {
        s
    }
}

/// The modulator list after a voice receives each of `ms`, in order.
pub open spec fn spec_add_mods(s: Seq<Mod>, ms: Seq<Mod>, mode: VoiceAddMode) -> Seq<Mod>
    decreases ms.len(),
{
    if ms.len() == 0 {
        s
    } else {
        spec_add_mod(spec_add_mods(s, ms.drop_last(), mode), ms.last(), mode)
    }
}

/// Every amount of the list lies within `-bound..=bound`.
pub open spec fn spec_amounts_within(s: Seq<Mod>, bound: int) -> bool {
    forall|i: int| 0 <= i < s.len() ==> -bound <= #[trigger] s[i].amount <= bound
}

proof fn lemma_find_step(s: Seq<Mod>, m: Mod, i: int)
    requires
        0 <= i < s.len(),
        !spec_identical(s[i], m),
    ensures
        spec_find_identical_from(s, m, i) == spec_find_identical_from(s, m, i + 1),
{
}

/// The position found holds an identical modulator, and no earlier one is.
pub proof fn lemma_find_identical(s: Seq<Mod>, m: Mod, i: int)
    requires
        0 <= i <= s.len(),
        forall|j: int| 0 <= j < i ==> !spec_identical(#[trigger] s[j], m),
    ensures
        spec_find_identical(s, m) == spec_find_identical_from(s, m, i),
    decreases i,
{
    if i > 0 {
        lemma_find_identical(s, m, i - 1);
        lemma_find_step(s, m, i - 1);
    }
}

/// The result of the search is -1 or a position of an identical modulator.
pub proof fn lemma_find_identical_range(s: Seq<Mod>, m: Mod, i: int)
    requires
        0 <= i,
    ensures
        spec_find_identical_from(s, m, i) == -1 || (i <= spec_find_identical_from(s, m, i) < s.len()
            && spec_identical(s[spec_find_identical_from(s, m, i)], m)),
    decreases s.len() - i,
{
    if i < s.len() && !spec_identical(s[i], m) {
        lemma_find_identical_range(s, m, i + 1);
    }
}

/// Receiving a modulator whose amount lies within `step` raises the bound on
/// the list's amounts by at most `step`.
pub proof fn lemma_add_mod_bound(s: Seq<Mod>, m: Mod, mode: VoiceAddMode, bound: int, step: int)
    requires
        spec_amounts_within(s, bound),
        -step <= m.amount <= step,
        0 <= step <= bound,
        bound + step <= i32::MAX,
    ensures
        spec_amounts_within(spec_add_mod(s, m, mode), bound + step),
{
    lemma_find_identical_range(s, m, 0);
    let r = spec_add_mod(s, m, mode);
    assert forall|i: int| 0 <= i < r.len() implies -(bound + step) <= #[trigger] r[i].amount <= bound
        + step by {
        if i < s.len() {
            assert(-bound <= s[i].amount <= bound);
        }
    }
}

/// The modulators of a voice, in the order they were received.
#[derive(Debug, Clone, PartialEq, Eq)]
pub struct VoiceMods {
    pub mods: Vec<Mod>,
}

impl VoiceMods {
    /// An empty list.
    pub fn new() -> (r: VoiceMods)
        ensures
            r.mods@ == Seq::<Mod>::empty(),
    {
        VoiceMods { mods: Vec::new() }
    }

    /// Adds a modulator to the voice. A modulator with an unusable general
    /// source is ignored. In `Add` mode an identical modulator has the new
    /// amount added to it, in `Overwrite` mode it takes the new amount; when
    /// there is none, or in `Default` mode, the modulator is appended while
    /// the voice holds fewer than 64.
    pub fn add_mod(&mut self, m: &Mod, mode: VoiceAddMode)
        requires
            mode == VoiceAddMode::Add && spec_find_identical(old(self).mods@, *m) >= 0 ==> i32::MIN
                <= old(self).mods@[spec_find_identical(old(self).mods@, *m)].amount + m.amount
                <= i32::MAX,
        ensures
            final(self).mods@ == spec_add_mod(old(self).mods@, *m, mode),
    {
        let valid = (m.flags1 / 16) % 2 == 1 || m.src1 == 0 || m.src1 == 2 || m.src1 == 3
            || m.src1 == 10 || m.src1 == 13 || m.src1 == 14 || m.src1 == 16;
        if !valid {
            return ;
        }
        if mode != VoiceAddMode::Default {
            let n = self.mods.len();
            let mut i: usize = 0;
            while i < n
                invariant
                    n == self.mods@.len(),
                    self.mods@ == old(self).mods@,
                    0 <= i <= n,
                    forall|j: int| 0 <= j < i ==> !spec_identical(#[trigger] self.mods@[j], *m),
                    mode != VoiceAddMode::Default,
                    valid == spec_valid_source(*m),
                    valid,
                    mode == VoiceAddMode::Add && spec_find_identical(old(self).mods@, *m) >= 0 ==> i32::MIN
                        <= old(self).mods@[spec_find_identical(old(self).mods@, *m)].amount + m.amount
                        <= i32::MAX,
                decreases n - i,
            {
                if self.mods[i].test_identity(m) {
                    proof {
                        lemma_find_identical(self.mods@, *m, i as int);
                        assert(spec_find_identical(self.mods@, *m) == i);
                    }
                    let old_m = self.mods[i];
                    let amount: i32 = if mode == VoiceAddMode::Add {
                        old_m.amount + m.amount
                    } else {
                        m.amount
                    };
                    self.mods.set(i, Mod { amount, ..old_m });
                    return ;
                }
                i += 1;
            }
            proof {
                lemma_find_identical(self.mods@, *m, n as int);
            }
        }
        if self.mods.len() < MAX_VOICE_MODS {
            self.mods.push(*m);
        }
    }

    /// Adds the default modulators of the SoundFont format.
    pub fn add_default_mods(&mut self)
        ensures
            final(self).mods@ == spec_add_mods(
                old(self).mods@,
                crate::modulator::spec_default_mods(),
                VoiceAddMode::Default,
            ),
    {
        let defaults = crate::modulator::default_mods();
        let n = defaults.len();
        let mut i: usize = 0;
        while i < n
            invariant
                n == defaults@.len(),
                defaults@ == crate::modulator::spec_default_mods(),
                0 <= i <= n,
                self.mods@ == spec_add_mods(old(self).mods@, defaults@.take(i as int), VoiceAddMode::Default),
            decreases n - i,
        {
            assert(defaults@.take(i + 1).drop_last() =~= defaults@.take(i as int));
            self.add_mod(&defaults[i], VoiceAddMode::Default);
            i += 1;
        }
        assert(defaults@.take(n as int) =~= defaults@);
    }
}

} // verus!
