use vstd::prelude::*;

use crate::modulator::{Mod, spec_identical, spec_default_mods};
use crate::soundfont::{InstrumentZone, PresetZone, PresetData};
use crate::voice::{
    VoiceAddMode, VoiceMods, spec_add_mod, spec_add_mods, spec_amounts_within, spec_find_identical,
    lemma_find_identical_range,
};

verus! {

/// Largest amount a modulator read from a file has.
pub const MAX_MOD_AMOUNT: i32 = 32768;

/// What a voice started by a note is made of: the sample it plays, the
/// generators the instrument sets, the amounts the preset adds to
/// generators, and its modulators.
#[derive(Debug, Clone, PartialEq, Eq)]
pub struct VoicePlan {
    /// Position of the sample in the font's sample list.
    pub sample: usize,
    /// For each generator, the value the instrument level sets, if any.
    pub inst_gens: Vec<Option<i16>>,
    /// For each generator, the amount the preset level adds, if any.
    pub preset_gens: Vec<Option<i16>>,
    /// The voice's modulators, in order.
    pub mods: Vec<Mod>,
}

/// The note falls into the key and velocity range of a preset zone.
pub open spec fn spec_preset_zone_inside(z: PresetZone, key: u8, vel: u8) -> bool {
    z.keylo <= key && z.keyhi >= key && z.vello <= vel && z.velhi >= vel
}

/// The note falls into the key and velocity range of an instrument zone.
pub open spec fn spec_inst_zone_inside(z: InstrumentZone, key: u8, vel: u8) -> bool {
    z.keylo <= key && z.keyhi >= key && z.vello <= vel && z.velhi >= vel
}

/// An instrument zone plays the note: it has a sample, not in ROM, and the
/// note falls into its ranges.
pub open spec fn spec_inst_zone_plays(z: InstrumentZone, key: u8, vel: u8) -> bool {
    &&& z.sample matches Some(s)
    &&& !s.in_rom
    &&& spec_inst_zone_inside(z, key, vel)
}

/// Generators a preset level may not set:
/// sample offsets, key and velocity overrides, sample mode, exclusive class
/// and root key.
pub open spec fn spec_preset_level_gen(i: int) -> bool {
    i != 0 && i != 1 && i != 2 && i != 3 && i != 4 && i != 12 && i != 45 && i != 46 && i != 47 && i
        != 50 && i != 54 && i != 57 && i != 58
}

/// The value the instrument level sets for generator `i`: the local zone's,
/// else the global zone's.
pub open spec fn spec_inst_gen(giz: Option<InstrumentZone>, iz: InstrumentZone, i: int) -> Option<i16> {
    if iz.gen@[i] is Some {
        iz.gen@[i]
    } else {
        match giz {
            Some(g) => g.gen@[i],
            None => None,
        }
    }
}

/// The amount the preset level adds to generator `i`: the local zone's,
/// else the global zone's, and nothing for generators a preset may not set.
pub open spec fn spec_preset_gen(gpz: Option<PresetZone>, pz: PresetZone, i: int) -> Option<i16> {
    if !spec_preset_level_gen(i) {
        None
    } else if pz.gen@[i] is Some {
        pz.gen@[i]
    } else {
        match gpz {
            Some(g) => g.gen@[i],
            None => None,
        }
    }
}

/// Marks as removed every entry identical to `m`.
pub open spec fn spec_clear_identical(s: Seq<Option<Mod>>, m: Mod) -> Seq<Option<Mod>> {
    s.map_values(
        |e: Option<Mod>|
            if e matches Some(x) && spec_identical(m, x) {
                None
            } else {
                e
            },
    )
}

/// The global modulators followed by the local ones, where each local
/// modulator removes the identical ones before it.
pub open spec fn spec_merged(global: Seq<Mod>, local: Seq<Mod>) -> Seq<Option<Mod>>
    decreases local.len(),
{
    if local.len() == 0 {
        global.map_values(|m: Mod| Some(m))
    } else {
        spec_clear_identical(spec_merged(global, local.drop_last()), local.last()).push(
            Some(local.last()),
        )
    }
}

/// The entries that were not removed, in order.
pub open spec fn spec_somes(s: Seq<Option<Mod>>) -> Seq<Mod>
    decreases s.len(),
{
    if s.len() == 0 {
        Seq::empty()
    } else {
        match s.last() {
            Some(m) => spec_somes(s.drop_last()).push(m),
            None => spec_somes(s.drop_last()),
        }
    }
}

/// The entries that were not removed and whose amount is not zero, in order.
pub open spec fn spec_active_somes(s: Seq<Option<Mod>>) -> Seq<Mod>
    decreases s.len(),
{
    if s.len() == 0 {
        Seq::empty()
    } else {
        match s.last() {
            Some(m) => if m.amount != 0 {
                spec_active_somes(s.drop_last()).push(m)
            } else {
                spec_active_somes(s.drop_last())
            },
            None => spec_active_somes(s.drop_last()),
        }
    }
}

/// The modulators of a zone that may be missing.
pub open spec fn spec_opt_mods_p(z: Option<PresetZone>) -> Seq<Mod> {
    match z {
        Some(g) => g.mods@,
        None => Seq::empty(),
    }
}

/// The modulators of an instrument zone that may be missing.
pub open spec fn spec_opt_mods_i(z: Option<InstrumentZone>) -> Seq<Mod> {
    match z {
        Some(g) => g.mods@,
        None => Seq::empty(),
    }
}

/// The modulators of a voice: the defaults, then the instrument level's
/// (overwriting identical ones, disabled ones included), then the preset
/// level's that are not disabled (adding to identical ones).
pub open spec fn spec_voice_mods(gpz: Option<PresetZone>, pz: PresetZone, giz: Option<InstrumentZone>, iz: InstrumentZone) -> Seq<Mod> {
    let defaults = spec_add_mods(Seq::empty(), spec_default_mods(), VoiceAddMode::Default);
    let inst = spec_add_mods(
        defaults,
        spec_somes(spec_merged(spec_opt_mods_i(giz), iz.mods@)),
        VoiceAddMode::Overwrite,
    );
    spec_add_mods(
        inst,
        spec_active_somes(spec_merged(spec_opt_mods_p(gpz), pz.mods@)),
        VoiceAddMode::Add,
    )
}

/// `plan` is the voice made of instrument zone `iz` reached through preset
/// zone `pz`.
pub open spec fn spec_is_plan(plan: VoicePlan, gpz: Option<PresetZone>, pz: PresetZone, giz: Option<InstrumentZone>, iz: InstrumentZone) -> bool {
    &&& iz.sample matches Some(s) && plan.sample == s.index
    &&& plan.inst_gens@.len() == 60
    &&& plan.preset_gens@.len() == 60
    &&& forall|i: int| 0 <= i < 60 ==> #[trigger] plan.inst_gens@[i] == spec_inst_gen(giz, iz, i)
    &&& forall|i: int| 0 <= i < 60 ==> #[trigger] plan.preset_gens@[i] == spec_preset_gen(gpz, pz, i)
    &&& plan.mods@ == spec_voice_mods(gpz, pz, giz, iz)
}

/// The instrument of preset zone `j`.
pub open spec fn spec_zone_inst(p: PresetData, j: int) -> crate::soundfont::Instrument {
    p.zones@[j].inst.unwrap()
}

/// The pairs (preset zone, instrument zone among the first `m`) that play
/// the note through preset zone `j`.
pub open spec fn spec_inst_pairs(p: PresetData, j: int, m: int, key: u8, vel: u8) -> Seq<(int, int)>
    decreases m,
{
    if m <= 0 {
        Seq::empty()
    } else {
        let prev = spec_inst_pairs(p, j, m - 1, key, vel);
        if spec_inst_zone_plays(spec_zone_inst(p, j).zones@[m - 1], key, vel) {
            prev.push((j, m - 1))
        } else {
            prev
        }
    }
}

/// The pairs (preset zone among the first `n`, instrument zone) that play
/// the note, in order.
pub open spec fn spec_pairs(p: PresetData, n: int, key: u8, vel: u8) -> Seq<(int, int)>
    decreases n,
{
    if n <= 0 {
        Seq::empty()
    } else {
        let prev = spec_pairs(p, n - 1, key, vel);
        if spec_preset_zone_inside(p.zones@[n - 1], key, vel) {
            prev + spec_inst_pairs(p, n - 1, spec_zone_inst(p, n - 1).zones@.len() as int, key, vel)
        } else {
            prev
        }
    }
}

/// The voices a note starts with preset `p`, in order of preset zone and
/// instrument zone.
pub open spec fn spec_note_pairs(p: PresetData, key: u8, vel: u8) -> Seq<(int, int)> {
    spec_pairs(p, p.zones@.len() as int, key, vel)
}

/// Every amount of a zone's modulators is one a file can hold.
pub open spec fn spec_mods_small(s: Seq<Mod>) -> bool {
    spec_amounts_within(s, MAX_MOD_AMOUNT as int)
}

/// An instrument zone that plays the note can be turned into a voice.
pub open spec fn spec_inst_zone_ready(giz: Option<InstrumentZone>, iz: InstrumentZone, gpz: Option<PresetZone>, pz: PresetZone) -> bool {
    &&& iz.gen@.len() == 60
    &&& spec_mods_small(iz.mods@)
    &&& spec_opt_mods_i(giz).len() + iz.mods@.len() <= 64
    &&& spec_opt_mods_p(gpz).len() + pz.mods@.len() <= 64
}

/// A preset zone the note falls into can be played: it links to an
/// instrument whose zones that play the note can be turned into voices.
pub open spec fn spec_preset_zone_ready(gpz: Option<PresetZone>, pz: PresetZone, key: u8, vel: u8) -> bool {
    &&& pz.gen@.len() == 60
    &&& spec_mods_small(pz.mods@)
    &&& pz.inst matches Some(inst) && {
        &&& (inst.global_zone matches Some(g) ==> g.gen@.len() == 60 && spec_mods_small(g.mods@))
        &&& forall|m: int|
            0 <= m < inst.zones@.len() && spec_inst_zone_plays(#[trigger] inst.zones@[m], key, vel)
                ==> spec_inst_zone_ready(inst.global_zone, inst.zones@[m], gpz, pz)
    }
}

/// Preset `p` can play the note: its global zone is well formed and every
/// zone the note falls into can be played.
pub open spec fn spec_noteon_ok(p: PresetData, key: u8, vel: u8) -> bool {
    &&& (p.global_zone matches Some(g) ==> g.gen@.len() == 60 && spec_mods_small(g.mods@))
    &&& forall|j: int|
        0 <= j < p.zones@.len() && spec_preset_zone_inside(#[trigger] p.zones@[j], key, vel)
            ==> spec_preset_zone_ready(p.global_zone, p.zones@[j], key, vel)
}

/// The merged list holds one entry per global and per local modulator.
pub proof fn lemma_merged_len(global: Seq<Mod>, local: Seq<Mod>)
    ensures
        spec_merged(global, local).len() == global.len() + local.len(),
    decreases local.len(),
{
    if local.len() > 0 {
        lemma_merged_len(global, local.drop_last());
    }
}

/// After merging, a modulator that came from the local list is identical to
/// no other entry that was kept: local modulators supersede identical global
/// ones, and a later local modulator supersedes an earlier identical one.
pub proof fn lemma_merged_local_unique(global: Seq<Mod>, local: Seq<Mod>, i: int, j: int)
    requires
        0 <= i < j < spec_merged(global, local).len(),
        j >= global.len(),
        spec_merged(global, local)[i] is Some,
        spec_merged(global, local)[j] is Some,
    ensures
        !spec_identical(spec_merged(global, local)[i]->0, spec_merged(global, local)[j]->0),
    decreases local.len(),
{
    lemma_merged_len(global, local);
    if local.len() > 0 {
        let prev = spec_merged(global, local.drop_last());
        let m = local.last();
        lemma_merged_len(global, local.drop_last());
        let cur = spec_merged(global, local);
        if j == cur.len() - 1 {
            assert(cur[j] == Some(m));
            assert(cur[i] == spec_clear_identical(prev, m)[i]);
        } else {
            assert(cur[i] == spec_clear_identical(prev, m)[i]);
            assert(cur[j] == spec_clear_identical(prev, m)[j]);
            lemma_merged_local_unique(global, local.drop_last(), i, j);
        }
    }
}

/// Merges the global and the local modulators of a zone.
fn merge_mods(global: &Vec<Mod>, local: &Vec<Mod>) -> (r: Vec<Option<Mod>>)
    requires
        global@.len() + local@.len() <= 64,
    ensures
        r@ == spec_merged(global@, local@),
        r@.len() <= 64,
{
    let mut list: Vec<Option<Mod>> = Vec::new();
    let ng = global.len();
    let mut g: usize = 0;
    while g < ng
        invariant
            ng == global@.len(),
            0 <= g <= ng,
            list@ =~= global@.take(g as int).map_values(|m: Mod| Some(m)),
        decreases ng - g,
    {
        list.push(Some(global[g]));
        g += 1;
    }
    assert(global@.take(ng as int) =~= global@);
    assert(local@.take(0) =~= Seq::<Mod>::empty());
    let nl = local.len();
    let mut k: usize = 0;
    while k < nl
        invariant
            nl == local@.len(),
            0 <= k <= nl,
            global@.len() + nl <= 64,
            list@ == spec_merged(global@, local@.take(k as int)),
            list@.len() == global@.len() + k,
        decreases nl - k,
    {
        let m = local[k];
        let ghost prev = list@;
        let n = list.len();
        let mut i: usize = 0;
        while i < n
            invariant
                n == list@.len(),
                n == prev.len(),
                0 <= i <= n,
                forall|q: int| 0 <= q < i ==> list@[q] == #[trigger] spec_clear_identical(prev, m)[q],
                forall|q: int| i <= q < n ==> list@[q] == #[trigger] prev[q],
            decreases n - i,
        {
            let clear = match &list[i] {
                Some(x) => m.test_identity(x),
                None => false,
            };
            if clear {
                list.set(i, None);
            }
            i += 1;
        }
        assert(list@ =~= spec_clear_identical(prev, m));
        list.push(Some(m));
        assert(local@.take(k + 1).drop_last() =~= local@.take(k as int));
        k += 1;
    }
    assert(local@.take(nl as int) =~= local@);
    list
}

/// A list whose amounts lie within `b` stays so after receiving a modulator
/// within `b` in a mode other than adding.
proof fn lemma_add_mod_keeps_bound(s: Seq<Mod>, m: Mod, mode: VoiceAddMode, b: int)
    requires
        spec_amounts_within(s, b),
        -b <= m.amount <= b,
        mode != VoiceAddMode::Add,
    ensures
        spec_amounts_within(spec_add_mod(s, m, mode), b),
{
    lemma_find_identical_range(s, m, 0);
    let r = spec_add_mod(s, m, mode);
    assert forall|i: int| 0 <= i < r.len() implies -b <= #[trigger] r[i].amount <= b by {
        if i < s.len() {
            assert(-b <= s[i].amount <= b);
        }
    }
}

/// Adds to a voice's modulators the entries of a merged list that were
/// kept: all of them when overwriting, those with a non-zero amount when
/// adding.
fn add_merged(mods: &mut VoiceMods, list: &Vec<Option<Mod>>, mode: VoiceAddMode)
    requires
        mode != VoiceAddMode::Default,
        list@.len() <= 64,
        forall|q: int| 0 <= q < list@.len() ==> (#[trigger] list@[q] matches Some(x) ==> -32768 <= x.amount <= 32768),
        spec_amounts_within(old(mods).mods@, 32768),
    ensures
        mode == VoiceAddMode::Overwrite ==> final(mods).mods@ == spec_add_mods(old(mods).mods@, spec_somes(list@), mode),
        mode == VoiceAddMode::Add ==> final(mods).mods@ == spec_add_mods(old(mods).mods@, spec_active_somes(list@), mode),
        mode == VoiceAddMode::Overwrite ==> spec_amounts_within(final(mods).mods@, 32768),
{
    let n = list.len();
    let mut i: usize = 0;
    assert(list@.take(0) =~= Seq::<Option<Mod>>::empty());
    while i < n
        invariant
            n == list@.len(),
            n <= 64,
            0 <= i <= n,
            mode != VoiceAddMode::Default,
            forall|q: int| 0 <= q < list@.len() ==> (#[trigger] list@[q] matches Some(x) ==> -32768 <= x.amount <= 32768),
            mode == VoiceAddMode::Overwrite ==> mods.mods@ == spec_add_mods(old(mods).mods@, spec_somes(list@.take(i as int)), mode),
            mode == VoiceAddMode::Add ==> mods.mods@ == spec_add_mods(old(mods).mods@, spec_active_somes(list@.take(i as int)), mode),
            mode == VoiceAddMode::Overwrite ==> spec_amounts_within(mods.mods@, 32768),
            mode == VoiceAddMode::Add ==> spec_amounts_within(mods.mods@, 32768 * (1 + i)),
        decreases n - i,
    {
        let ghost before = mods.mods@;
        let ghost t = list@.take(i as int);
        let ghost t1 = list@.take(i + 1);
        assert(t1.drop_last() =~= t);
        assert(t1.last() == list@[i as int]);
        match &list[i] {
            Some(m) => {
                if mode == VoiceAddMode::Overwrite {
                    proof {
                        lemma_add_mod_keeps_bound(before, *m, mode, 32768);
                        assert(spec_somes(t1) == spec_somes(t).push(*m));
                        assert(spec_somes(t).push(*m).drop_last() =~= spec_somes(t));
                    }
                    mods.add_mod(m, mode);
                } else if m.amount != 0 {
                    proof {
                        lemma_find_identical_range(before, *m, 0);
                        let k = spec_find_identical(before, *m);
                        if k >= 0 {
                            assert(-32768 * (1 + i) <= before[k].amount <= 32768 * (1 + i));
                        }
                        crate::voice::lemma_add_mod_bound(before, *m, mode, 32768 * (1 + i), 32768);
                        assert(32768 * (1 + i) + 32768 == 32768 * (1 + (i + 1)));
                        assert(spec_active_somes(t1) == spec_active_somes(t).push(*m));
                        assert(spec_active_somes(t).push(*m).drop_last() =~= spec_active_somes(t));
                    }
                    mods.add_mod(m, mode);
                } else {
                    proof {
                        assert(32768 * (1 + i) <= 32768 * (1 + (i + 1)));
                        assert(forall|q: int| 0 <= q < before.len() ==> -32768 * (1 + (i + 1)) <= #[trigger] before[q].amount <= 32768 * (1 + (i + 1)));
                    }
                }
            },
            None => {
                proof {
                    assert(32768 * (1 + i) <= 32768 * (1 + (i + 1)));
                    assert(forall|q: int| 0 <= q < before.len() ==> -32768 * (1 + (i + 1)) <= #[trigger] before[q].amount <= 32768 * (1 + (i + 1)));
                }
            },
        }
        i += 1;
    }
    assert(list@.take(n as int) =~= list@);
}

/// Modulators that all have a usable source and fit in the voice are
/// appended, in order, when added as defaults.
proof fn lemma_add_defaults(s: Seq<Mod>, ms: Seq<Mod>)
    requires
        forall|k: int| 0 <= k < ms.len() ==> crate::voice::spec_valid_source(#[trigger] ms[k]),
        s.len() + ms.len() <= 64,
    ensures
        spec_add_mods(s, ms, VoiceAddMode::Default) == s + ms,
    decreases ms.len(),
{
    if ms.len() > 0 {
        lemma_add_defaults(s, ms.drop_last());
        assert(s + ms =~= (s + ms.drop_last()).push(ms.last()));
    }
}

/// The entries kept by a merge are global or local modulators, so their
/// amounts lie within any bound both lists respect.
proof fn lemma_merged_bound(global: Seq<Mod>, local: Seq<Mod>, b: int)
    requires
        spec_amounts_within(global, b),
        spec_amounts_within(local, b),
    ensures
        forall|q: int|
            0 <= q < spec_merged(global, local).len() ==> (#[trigger] spec_merged(global, local)[q] matches Some(x)
                ==> -b <= x.amount <= b),
    decreases local.len(),
{
    if local.len() > 0 {
        let l = local.drop_last();
        assert forall|q: int| 0 <= q < l.len() implies -b <= #[trigger] l[q].amount <= b by {
            assert(l[q] == local[q]);
        }
        lemma_merged_bound(global, l, b);
        let prev = spec_merged(global, l);
        let cur = spec_merged(global, local);
        assert forall|q: int| 0 <= q < cur.len() implies (#[trigger] cur[q] matches Some(x) ==> -b <= x.amount <= b) by {
            if q < prev.len() {
                assert(cur[q] == spec_clear_identical(prev, local.last())[q]);
            } else {
                assert(-b <= local[local.len() - 1].amount <= b);
            }
        }
    }
}

/// Whether a preset level may set generator `i`.
fn preset_level_gen(i: usize) -> (r: bool)
    ensures
        r == spec_preset_level_gen(i as int),
{
    i != 0 && i != 1 && i != 2 && i != 3 && i != 4 && i != 12 && i != 45 && i != 46 && i != 47
        && i != 50 && i != 54 && i != 57 && i != 58
}

/// Builds the voice for instrument zone `iz` reached through preset zone `pz`.
fn make_plan(gpz: &Option<PresetZone>, pz: &PresetZone, giz: &Option<InstrumentZone>, iz: &InstrumentZone) -> (r: VoicePlan)
    requires
        iz.sample is Some,
        pz.gen@.len() == 60,
        spec_mods_small(pz.mods@),
        gpz matches Some(g) ==> g.gen@.len() == 60 && spec_mods_small(g.mods@),
        giz matches Some(g) ==> g.gen@.len() == 60 && spec_mods_small(g.mods@),
        spec_inst_zone_ready(*giz, *iz, *gpz, *pz),
    ensures
        spec_is_plan(r, *gpz, *pz, *giz, *iz),
{
    let sample = match iz.sample {
        Some(s) => s.index,
        None => 0,
    };
    let mut inst_gens: Vec<Option<i16>> = Vec::new();
    let mut preset_gens: Vec<Option<i16>> = Vec::new();
    let mut i: usize = 0;
    while i < 60
        invariant
            0 <= i <= 60,
            iz.gen@.len() == 60,
            pz.gen@.len() == 60,
            gpz matches Some(g) ==> g.gen@.len() == 60,
            giz matches Some(g) ==> g.gen@.len() == 60,
            inst_gens@.len() == i,
            preset_gens@.len() == i,
            forall|q: int| 0 <= q < i ==> #[trigger] inst_gens@[q] == spec_inst_gen(*giz, *iz, q),
            forall|q: int| 0 <= q < i ==> #[trigger] preset_gens@[q] == spec_preset_gen(*gpz, *pz, q),
        decreases 60 - i,
    {
        let ig = if iz.gen[i].is_some() {
            iz.gen[i]
        } else {
            match giz {
                Some(g) => g.gen[i],
                None => None,
            }
        };
        inst_gens.push(ig);
        let pg = if !preset_level_gen(i) {
            None
        } else if pz.gen[i].is_some() {
            pz.gen[i]
        } else {
            match gpz {
                Some(g) => g.gen[i],
                None => None,
            }
        };
        preset_gens.push(pg);
        i += 1;
    }
    let mut mods = VoiceMods::new();
    mods.add_default_mods();
    proof {
        let d = spec_default_mods();
        assert forall|k: int| 0 <= k < d.len() implies crate::voice::spec_valid_source(#[trigger] d[k]) by {
        }
        lemma_add_defaults(Seq::empty(), d);
        assert(Seq::<Mod>::empty() + d =~= d);
        assert(spec_amounts_within(mods.mods@, 32768));
    }
    let empty_i: Vec<Mod> = Vec::new();
    let inst_list = match giz {
        Some(g) => merge_mods(&g.mods, &iz.mods),
        None => merge_mods(&empty_i, &iz.mods),
    };
    proof {
        assert(empty_i@ =~= spec_opt_mods_i(*giz) || giz is Some);
        lemma_merged_bound(spec_opt_mods_i(*giz), iz.mods@, 32768);
    }
    add_merged(&mut mods, &inst_list, VoiceAddMode::Overwrite);
    let empty_p: Vec<Mod> = Vec::new();
    let preset_list = match gpz {
        Some(g) => merge_mods(&g.mods, &pz.mods),
        None => merge_mods(&empty_p, &pz.mods),
    };
    proof {
        assert(empty_p@ =~= spec_opt_mods_p(*gpz) || gpz is Some);
        lemma_merged_bound(spec_opt_mods_p(*gpz), pz.mods@, 32768);
    }
    add_merged(&mut mods, &preset_list, VoiceAddMode::Add);
    VoicePlan { sample, inst_gens, preset_gens, mods: mods.mods }
}

/// Whether the note falls into the ranges of a preset zone.
fn preset_zone_inside(z: &PresetZone, key: u8, vel: u8) -> (r: bool)
    ensures
        r == spec_preset_zone_inside(*z, key, vel),
{
    z.keylo <= key && z.keyhi >= key && z.vello <= vel as i32 && z.velhi >= vel as i32
}

/// Whether an instrument zone plays the note.
fn inst_zone_plays(z: &InstrumentZone, key: u8, vel: u8) -> (r: bool)
    ensures
        r == spec_inst_zone_plays(*z, key, vel),
{
    match z.sample {
        None => false,
        Some(s) => !s.in_rom && z.keylo <= key && z.keyhi >= key && z.vello <= vel as i32 && z.velhi
            >= vel as i32,
    }
}

impl PresetData {
    /// The voices a note starts with this preset: for each zone the note
    /// falls into, in order, one voice for each zone of its instrument that
    /// plays the note.
    pub fn noteon_plan(&self, key: u8, vel: u8) -> (r: Vec<VoicePlan>)
        requires
            spec_noteon_ok(*self, key, vel),
        ensures
            r@.len() == spec_note_pairs(*self, key, vel).len(),
            forall|k: int|
                0 <= k < r@.len() ==> {
                    let (j, m) = spec_note_pairs(*self, key, vel)[k];
                    spec_is_plan(
                        #[trigger] r@[k],
                        self.global_zone,
                        self.zones@[j],
                        spec_zone_inst(*self, j).global_zone,
                        spec_zone_inst(*self, j).zones@[m],
                    )
                },
    {
        let mut plans: Vec<VoicePlan> = Vec::new();
        let n = self.zones.len();
        let mut j: usize = 0;
        while j < n
            invariant
                n == self.zones@.len(),
                0 <= j <= n,
                spec_noteon_ok(*self, key, vel),
                plans@.len() == spec_pairs(*self, j as int, key, vel).len(),
                forall|k: int|
                    0 <= k < plans@.len() ==> {
                        let (jj, m) = spec_pairs(*self, j as int, key, vel)[k];
                        spec_is_plan(
                            #[trigger] plans@[k],
                            self.global_zone,
                            self.zones@[jj],
                            spec_zone_inst(*self, jj).global_zone,
                            spec_zone_inst(*self, jj).zones@[m],
                        )
                    },
            decreases n - j,
        {
            let pz = &self.zones[j];
            if preset_zone_inside(pz, key, vel) {
                assert(spec_preset_zone_ready(self.global_zone, self.zones@[j as int], key, vel));
                let inst = match &pz.inst {
                    Some(i) => i,
                    None => {
                        return plans;
                    },
                };
                let ghost before = spec_pairs(*self, j as int, key, vel);
                let nz = inst.zones.len();
                let mut m: usize = 0;
                while m < nz
                    invariant
                        nz == inst.zones@.len(),
                        0 <= m <= nz,
                        j < n,
                        n == self.zones@.len(),
                        *pz == self.zones@[j as int],
                        pz.inst == Some(*inst),
                        spec_preset_zone_inside(*pz, key, vel),
                        spec_preset_zone_ready(self.global_zone, *pz, key, vel),
                        spec_noteon_ok(*self, key, vel),
                        before == spec_pairs(*self, j as int, key, vel),
                        plans@.len() == before.len() + spec_inst_pairs(*self, j as int, m as int, key, vel).len(),
                        forall|k: int|
                            0 <= k < plans@.len() ==> {
                                let (jj, mm) = (before + spec_inst_pairs(*self, j as int, m as int, key, vel))[k];
                                spec_is_plan(
                                    #[trigger] plans@[k],
                                    self.global_zone,
                                    self.zones@[jj],
                                    spec_zone_inst(*self, jj).global_zone,
                                    spec_zone_inst(*self, jj).zones@[mm],
                                )
                            },
                    decreases nz - m,
                {
                    let iz = &inst.zones[m];
                    let ghost old_pairs = before + spec_inst_pairs(*self, j as int, m as int, key, vel);
                    if inst_zone_plays(iz, key, vel) {
                        let plan = make_plan(&self.global_zone, pz, &inst.global_zone, iz);
                        plans.push(plan);
                        proof {
                            let new_pairs = before + spec_inst_pairs(*self, j as int, m + 1, key, vel);
                            assert(new_pairs =~= old_pairs.push((j as int, m as int)));
                        }
                    } else {
                        proof {
                            let new_pairs = before + spec_inst_pairs(*self, j as int, m + 1, key, vel);
                            assert(new_pairs =~= old_pairs);
                        }
                    }
                    m += 1;
                }
            }
            j += 1;
        }
        plans
    }
}

/// Whether every modulator amount is one a file can hold.
fn mods_small(s: &Vec<Mod>) -> (r: bool)
    ensures
        r == spec_mods_small(s@),
{
    let mut i: usize = 0;
    while i < s.len()
        invariant
            i <= s@.len(),
            forall|j: int| 0 <= j < i ==> -MAX_MOD_AMOUNT <= #[trigger] s@[j].amount <= MAX_MOD_AMOUNT,
        decreases s@.len() - i,
    {
        if s[i].amount < -MAX_MOD_AMOUNT || s[i].amount > MAX_MOD_AMOUNT {
            return false;
        }
        i += 1;
    }
    true
}

/// Whether an optional zone's generator table is complete and its
/// modulator amounts small.
fn opt_preset_zone_ok(z: &Option<PresetZone>) -> (r: bool)
    ensures
        r == (z matches Some(g) ==> g.gen@.len() == 60 && spec_mods_small(g.mods@)),
{
    match z {
        Some(g) => g.gen.len() == 60 && mods_small(&g.mods),
        None => true,
    }
}

fn opt_inst_zone_ok(z: &Option<InstrumentZone>) -> (r: bool)
    ensures
        r == (z matches Some(g) ==> g.gen@.len() == 60 && spec_mods_small(g.mods@)),
{
    match z {
        Some(g) => g.gen.len() == 60 && mods_small(&g.mods),
        None => true,
    }
}

fn opt_mods_len_p(z: &Option<PresetZone>) -> (r: usize)
    ensures
        r == spec_opt_mods_p(*z).len(),
{
    match z {
        Some(g) => g.mods.len(),
        None => 0,
    }
}

fn opt_mods_len_i(z: &Option<InstrumentZone>) -> (r: usize)
    ensures
        r == spec_opt_mods_i(*z).len(),
{
    match z {
        Some(g) => g.mods.len(),
        None => 0,
    }
}

/// Whether a preset zone the note falls into can be played.
fn preset_zone_ready(gpz: &Option<PresetZone>, pz: &PresetZone, key: u8, vel: u8) -> (r: bool)
    ensures
        r == spec_preset_zone_ready(*gpz, *pz, key, vel),
{
    if pz.gen.len() != 60 || !mods_small(&pz.mods) {
        return false;
    }
    let inst = match &pz.inst {
        None => {
            return false;
        },
        Some(i) => i,
    };
    if !opt_inst_zone_ok(&inst.global_zone) {
        return false;
    }
    assert(pz.inst == Some(*inst));
    let gi_len = opt_mods_len_i(&inst.global_zone);
    let gp_len = opt_mods_len_p(gpz);
    if gp_len > 64 || pz.mods.len() > 64 - gp_len {
        // the preset level's lists are too long for any voice it starts
        let mut m: usize = 0;
        while m < inst.zones.len()
            invariant
                m <= inst.zones@.len(),
                gp_len + pz.mods@.len() > 64,
                gp_len == spec_opt_mods_p(*gpz).len(),
                pz.inst == Some(*inst),
                forall|k: int| 0 <= k < m ==> !spec_inst_zone_plays(#[trigger] inst.zones@[k], key, vel),
            decreases inst.zones@.len() - m,
        {
            if inst_zone_plays(&inst.zones[m], key, vel) {
                assert(!spec_inst_zone_ready(inst.global_zone, inst.zones@[m as int], *gpz, *pz));
                return false;
            }
            m += 1;
        }
        return true;
    }
    let mut m: usize = 0;
    while m < inst.zones.len()
        invariant
            m <= inst.zones@.len(),
            gi_len == spec_opt_mods_i(inst.global_zone).len(),
            gp_len + pz.mods@.len() <= 64,
            pz.inst == Some(*inst),
            gp_len == spec_opt_mods_p(*gpz).len(),
            forall|k: int|
                0 <= k < m && spec_inst_zone_plays(#[trigger] inst.zones@[k], key, vel) ==> spec_inst_zone_ready(
                    inst.global_zone,
                    inst.zones@[k],
                    *gpz,
                    *pz,
                ),
        decreases inst.zones@.len() - m,
    {
        let iz = &inst.zones[m];
        if inst_zone_plays(iz, key, vel) {
            if iz.gen.len() != 60 || !mods_small(&iz.mods) || gi_len > 64 || iz.mods.len() > 64 - gi_len {
                assert(!spec_inst_zone_ready(inst.global_zone, inst.zones@[m as int], *gpz, *pz));
                return false;
            }
        }
        m += 1;
    }
    true
}

impl PresetData {
    /// Whether the preset can play the note (see `spec_noteon_ok`): its
    /// global zone is well formed, and every zone the note falls into links
    /// to an instrument whose zones that play the note can be turned into
    /// voices.
    pub fn can_play(&self, key: u8, vel: u8) -> (r: bool)
        ensures
            r == spec_noteon_ok(*self, key, vel),
    {
        if !opt_preset_zone_ok(&self.global_zone) {
            return false;
        }
        let mut j: usize = 0;
        while j < self.zones.len()
            invariant
                j <= self.zones@.len(),
                forall|k: int|
                    0 <= k < j && spec_preset_zone_inside(#[trigger] self.zones@[k], key, vel) ==> spec_preset_zone_ready(
                        self.global_zone,
                        self.zones@[k],
                        key,
                        vel,
                    ),
            decreases self.zones@.len() - j,
        {
            if preset_zone_inside(&self.zones[j], key, vel) && !preset_zone_ready(&self.global_zone, &self.zones[j], key, vel) {
                return false;
            }
            j += 1;
        }
        true
    }
}

/// The base value of generator `i` of a voice started by `plan`: the value
/// the instrument level sets, else the generator's default, plus the amount
/// the preset level adds. (Modulators and NRPN offsets come on top.)
pub open spec fn spec_plan_gen(plan: VoicePlan, i: int) -> int {
    let base = match plan.inst_gens@[i] {
        Some(v) => v as int,
        None => crate::generator::spec_gen_default(i),
    };
    base + match plan.preset_gens@[i] {
        Some(v) => v as int,
        None => 0,
    }
}

impl VoicePlan {
    /// The base values of the 60 generators of the voice (see
    /// `spec_plan_gen`), and whether each was set by the instrument or the
    /// preset level.
    pub fn gen_values(&self) -> (r: (Vec<i32>, Vec<bool>))
        requires
            self.inst_gens@.len() == 60,
            self.preset_gens@.len() == 60,
        ensures
            r.0@.len() == 60,
            r.1@.len() == 60,
            forall|i: int| 0 <= i < 60 ==> #[trigger] r.0@[i] == spec_plan_gen(*self, i),
            forall|i: int| 0 <= i < 60 ==> #[trigger] r.1@[i] == (self.inst_gens@[i] is Some || self.preset_gens@[i] is Some),
    {
        let mut vals: Vec<i32> = Vec::new();
        let mut set: Vec<bool> = Vec::new();
        let mut i: usize = 0;
        while i < 60
            invariant
                i <= 60,
                self.inst_gens@.len() == 60,
                self.preset_gens@.len() == 60,
                vals@.len() == i,
                set@.len() == i,
                forall|j: int| 0 <= j < i ==> #[trigger] vals@[j] == spec_plan_gen(*self, j),
                forall|j: int| 0 <= j < i ==> #[trigger] set@[j] == (self.inst_gens@[j] is Some || self.preset_gens@[j] is Some),
            decreases 60 - i,
        {
            let info = crate::generator::gen_info(i);
            let base: i32 = match self.inst_gens[i] {
                Some(v) => v as i32,
                None => info.def,
            };
            proof {
                crate::generator::lemma_gen_default_bound(i as int);
            }
            let add: i32 = match self.preset_gens[i] {
                Some(v) => v as i32,
                None => 0,
            };
            vals.push(base + add);
            set.push(self.inst_gens[i].is_some() || self.preset_gens[i].is_some());
            i += 1;
        }
        (vals, set)
    }
}

} // verus!
