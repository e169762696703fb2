use vstd::prelude::*;

use std::rc::Rc;

use vstd::string::StringExecFns;

use crate::modulator::{Mod, spec_dest_ok, spec_mod_from_fields};
use crate::soundfont::{
    GenAmount, SfGen, SfMod, SfZone, SfInstrument, SfPreset, SfFont, SampleInfo, SampleRef,
    InstrumentZone, Instrument, PresetZone, PresetData, SoundFont, GEN_INSTRUMENT, GEN_KEY_RANGE,
    GEN_VEL_RANGE, GEN_SAMPLE_ID, spec_preset_slot,
};

verus! {

/// Whether a generator number is a key or velocity range.
pub open spec fn spec_is_range(ty: u16) -> bool {
    ty == GEN_KEY_RANGE || ty == GEN_VEL_RANGE
}

/// The amount the last plain generator record for generator `i` sets,
/// records of number `skip` aside.
pub open spec fn spec_gen_amount_at(gens: Seq<SfGen>, skip: u16, i: int) -> Option<i16>
    decreases gens.len(),
{
    if gens.len() == 0 {
        None
    } else {
        let g = gens.last();
        if g.ty != skip && !spec_is_range(g.ty) && g.ty == i {
            match g.amount {
                GenAmount::Int(v) => Some(v),
                _ => None,
            }
        } else {
            spec_gen_amount_at(gens.drop_last(), skip, i)
        }
    }
}

/// The generator table of a zone: for each of the 60 generators, the amount
/// the zone's records set, if they set one.
pub open spec fn spec_gen_table(gens: Seq<SfGen>, skip: u16) -> Seq<Option<i16>> {
    Seq::new(60, |i: int| spec_gen_amount_at(gens, skip, i))
}

/// A range of a zone: the bytes of its last range record of number `ty`
/// (the key range for `GEN_KEY_RANGE`, the velocity range for
/// `GEN_VEL_RANGE`), 0..=128 when it has none.
pub open spec fn spec_range(gens: Seq<SfGen>, ty: u16) -> (u8, u8)
    decreases gens.len(),
{
    if gens.len() == 0 {
        (0, 128)
    } else {
        let g = gens.last();
        if g.ty == ty {
            match g.amount {
                GenAmount::Range(lo, hi) => (lo, hi),
                _ => (0, 128),
            }
        } else {
            spec_range(gens.drop_last(), ty)
        }
    }
}

/// The records of a zone can be read: ranges hold two bytes, the others a
/// signed word for one of the 60 generators.
pub open spec fn spec_gens_ok(gens: Seq<SfGen>, skip: u16) -> bool {
    forall|k: int|
        0 <= k < gens.len() && #[trigger] gens[k].ty != skip ==> if spec_is_range(gens[k].ty) {
            gens[k].amount is Range
        } else {
            gens[k].amount is Int && gens[k].ty < 60
        }
}

/// The first record of number `ty`.
pub open spec fn spec_first_gen(gens: Seq<SfGen>, ty: u16) -> Option<SfGen>
    decreases gens.len(),
{
    if gens.len() == 0 {
        None
    } else if gens[0].ty == ty {
        Some(gens[0])
    } else {
        spec_first_gen(gens.drop_first(), ty)
    }
}

/// The first record of number `ty`, if any, holds an unsigned word.
pub open spec fn spec_link_ok(gens: Seq<SfGen>, ty: u16) -> bool {
    match spec_first_gen(gens, ty) {
        Some(g) => g.amount is Word,
        None => true,
    }
}

/// The word of the first record of number `ty` (an instrument or sample link).
pub open spec fn spec_link(gens: Seq<SfGen>, ty: u16) -> Option<u16> {
    match spec_first_gen(gens, ty) {
        Some(g) => match g.amount {
            GenAmount::Word(w) => Some(w),
            _ => None,
        },
        None => None,
    }
}

/// Every modulator record names a generator.
pub open spec fn spec_mods_ok(mods: Seq<SfMod>) -> bool {
    forall|k: int| 0 <= k < mods.len() ==> spec_dest_ok(#[trigger] mods[k].dest)
}

/// The modulators the records of a zone yield.
pub open spec fn spec_import_mods(mods: Seq<SfMod>) -> Seq<Mod> {
    mods.map_values(|m: SfMod| spec_mod_from_fields(m.src, m.dest, m.amount, m.amt_src, m.transform))
}

/// The first loaded sample named `name`.
pub open spec fn spec_find_sample(samples: Seq<SampleInfo>, name: Seq<char>) -> Option<int>
    decreases samples.len(),
{
    if samples.len() == 0 {
        None
    } else if samples[0].name@ == name {
        Some(0)
    } else {
        match spec_find_sample(samples.drop_first(), name) {
            Some(k) => Some(k + 1),
            None => None,
        }
    }
}

/// A zone of an instrument can be read from `font`.
pub open spec fn spec_inst_zone_ok(font: SfFont, z: SfZone) -> bool {
    &&& spec_gens_ok(z.gens@, GEN_SAMPLE_ID)
    &&& spec_mods_ok(z.mods@)
    &&& spec_link_ok(z.gens@, GEN_SAMPLE_ID)
    &&& (spec_link(z.gens@, GEN_SAMPLE_ID) matches Some(id) ==> id < font.sample_names@.len())
}

/// The sample a zone record links to: none, a loaded sample found by the
/// name of the linked header, or an error when no loaded sample has it.
pub open spec fn spec_zone_sample(font: SfFont, z: SfZone, samples: Seq<SampleInfo>) -> Result<
    Option<SampleRef>,
    (),
> {
    match spec_link(z.gens@, GEN_SAMPLE_ID) {
        None => Ok(None),
        Some(id) => match spec_find_sample(samples, font.sample_names@[id as int]@) {
            None => Err(()),
            Some(k) => Ok(Some(SampleRef { index: k as usize, in_rom: samples[k].in_rom })),
        },
    }
}

/// `iz` is the instrument zone the zone record `z` yields.
pub open spec fn spec_is_inst_zone_of(font: SfFont, z: SfZone, samples: Seq<SampleInfo>, iz: InstrumentZone) -> bool {
    &&& spec_zone_sample(font, z, samples) == Ok::<Option<SampleRef>, ()>(iz.sample)
    &&& (iz.keylo, iz.keyhi) == spec_range(z.gens@, GEN_KEY_RANGE)
    &&& iz.vello == spec_range(z.gens@, GEN_VEL_RANGE).0 as i32
    &&& iz.velhi == spec_range(z.gens@, GEN_VEL_RANGE).1 as i32
    &&& iz.gen@ == spec_gen_table(z.gens@, GEN_SAMPLE_ID)
    &&& iz.mods@ == spec_import_mods(z.mods@)
}

/// Reads the generator records of a zone into a generator table, a key
/// range and a velocity range, leaving aside records of number `skip`.
fn import_gens(gens: &Vec<SfGen>, skip: u16) -> (r: (Vec<Option<i16>>, (u8, u8), (u8, u8)))
    requires
        spec_gens_ok(gens@, skip),
        !spec_is_range(skip),
    ensures
        r.0@ == spec_gen_table(gens@, skip),
        r.1 == spec_range(gens@, GEN_KEY_RANGE),
        r.2 == spec_range(gens@, GEN_VEL_RANGE),
{
    let mut table: Vec<Option<i16>> = Vec::new();
    let mut j: usize = 0;
    while j < 60
        invariant
            0 <= j <= 60,
            table@.len() == j,
            forall|i: int| 0 <= i < j ==> #[trigger] table@[i] == None::<i16>,
        decreases 60 - j,
    {
        table.push(None);
        j += 1;
    }
    let mut key: (u8, u8) = (0, 128);
    let mut vel: (u8, u8) = (0, 128);
    let n = gens.len();
    let mut k: usize = 0;
    assert(gens@.take(0) =~= Seq::<SfGen>::empty());
    assert(table@ =~= spec_gen_table(gens@.take(0), skip));
    while k < n
        invariant
            n == gens@.len(),
            0 <= k <= n,
            spec_gens_ok(gens@, skip),
            table@ == spec_gen_table(gens@.take(k as int), skip),
            !spec_is_range(skip),
            key == spec_range(gens@.take(k as int), GEN_KEY_RANGE),
            vel == spec_range(gens@.take(k as int), GEN_VEL_RANGE),
        decreases n - k,
    {
        let g = gens[k];
        let ghost prev = gens@.take(k as int);
        let ghost next = gens@.take(k + 1);
        assert(next.drop_last() =~= prev);
        assert(next.last() == g);
        if g.ty == GEN_KEY_RANGE || g.ty == GEN_VEL_RANGE {
            let range = match g.amount {
                GenAmount::Range(l, h) => (l, h),
                _ => (0, 128),
            };
            if g.ty == GEN_KEY_RANGE {
                key = range;
            } else {
                vel = range;
            }
            assert(table@ =~= spec_gen_table(next, skip));
        } else if g.ty != skip {
            match g.amount {
                GenAmount::Int(v) => {
                    table.set(g.ty as usize, Some(v));
                },
                _ => {},
            }
            assert(table@ =~= spec_gen_table(next, skip));
        } else {
            assert(table@ =~= spec_gen_table(next, skip));
        }
        k += 1;
    }
    assert(gens@.take(n as int) =~= gens@);
    (table, key, vel)
}

/// The word of the first record of number `ty`.
fn find_link(gens: &Vec<SfGen>, ty: u16) -> (r: Option<u16>)
    requires
        spec_link_ok(gens@, ty),
    ensures
        r == spec_link(gens@, ty),
{
    let n = gens.len();
    let mut k: usize = 0;
    assert(gens@.skip(0) =~= gens@);
    while k < n
        invariant
            n == gens@.len(),
            0 <= k <= n,
            spec_first_gen(gens@, ty) == spec_first_gen(gens@.skip(k as int), ty),
        decreases n - k,
    {
        assert(gens@.skip(k as int).drop_first() =~= gens@.skip(k + 1));
        if gens[k].ty == ty {
            return match gens[k].amount {
                GenAmount::Word(w) => Some(w),
                _ => None,
            };
        }
        k += 1;
    }
    None
}

/// Builds the modulators of a zone from its records.
fn import_mods(mods: &Vec<SfMod>) -> (r: Vec<Mod>)
    requires
        spec_mods_ok(mods@),
    ensures
        r@ == spec_import_mods(mods@),
{
    let mut out: Vec<Mod> = Vec::new();
    let n = mods.len();
    let mut k: usize = 0;
    while k < n
        invariant
            n == mods@.len(),
            0 <= k <= n,
            spec_mods_ok(mods@),
            out@ =~= spec_import_mods(mods@.take(k as int)),
        decreases n - k,
    {
        let m = mods[k];
        assert(spec_dest_ok(mods@[k as int].dest));
        out.push(Mod::from_sources(m.src, m.dest, m.amount, m.amt_src, m.transform));
        assert(mods@.take(k + 1) =~= mods@.take(k as int).push(m));
        k += 1;
    }
    assert(mods@.take(n as int) =~= mods@);
    out
}

/// The position of the first loaded sample with the given name.
fn find_sample(samples: &Vec<SampleInfo>, name: &String) -> (r: Option<usize>)
    ensures
        r matches Some(k) ==> k < samples@.len() && spec_find_sample(samples@, name@) == Some(k as int),
        r is None ==> spec_find_sample(samples@, name@) is None,
{
    let n = samples.len();
    let mut k: usize = 0;
    assert(samples@.skip(0) =~= samples@);
    while k < n
        invariant
            n == samples@.len(),
            0 <= k <= n,
            forall|j: int| 0 <= j < k ==> (#[trigger] samples@[j]).name@ != name@,
        decreases n - k,
    {
        if samples[k].name == *name {
            proof {
                lemma_find_sample_at(samples@, name@, k as int);
            }
            return Some(k);
        }
        k += 1;
    }
    proof {
        lemma_find_sample_none(samples@, name@);
    }
    None
}

proof fn lemma_find_sample_at(s: Seq<SampleInfo>, name: Seq<char>, k: int)
    requires
        0 <= k < s.len(),
        s[k].name@ == name,
        forall|j: int| 0 <= j < k ==> (#[trigger] s[j]).name@ != name,
    ensures
        spec_find_sample(s, name) == Some(k),
    decreases k,
{
    if k > 0 {
        let t = s.drop_first();
        assert forall|j: int| 0 <= j < k - 1 implies (#[trigger] t[j]).name@ != name by {
            assert(t[j] == s[j + 1]);
        }
        lemma_find_sample_at(t, name, k - 1);
    }
}

proof fn lemma_find_sample_none(s: Seq<SampleInfo>, name: Seq<char>)
    requires
        forall|j: int| 0 <= j < s.len() ==> (#[trigger] s[j]).name@ != name,
    ensures
        spec_find_sample(s, name) is None,
    decreases s.len(),
{
    if s.len() > 0 {
        let t = s.drop_first();
        assert forall|j: int| 0 <= j < t.len() implies (#[trigger] t[j]).name@ != name by {
            assert(t[j] == s[j + 1]);
        }
        lemma_find_sample_none(t, name);
    }
}

/// Reads a zone of an instrument; fails when it links to a sample that was
/// not loaded.
pub fn import_inst_zone(font: &SfFont, z: &SfZone, samples: &Vec<SampleInfo>) -> (r: Result<
    InstrumentZone,
    (),
>)
    requires
        spec_inst_zone_ok(*font, *z),
    ensures
        r is Err <==> spec_zone_sample(*font, *z, samples@) is Err,
        r matches Ok(iz) ==> spec_is_inst_zone_of(*font, *z, samples@, iz),
{
    let (gen, (keylo, keyhi), (vlo, vhi)) = import_gens(&z.gens, GEN_SAMPLE_ID);
    let sample = match find_link(&z.gens, GEN_SAMPLE_ID) {
        None => None,
        Some(id) => {
            let name = &font.sample_names[id as usize];
            match find_sample(samples, name) {
                None => {
                    return Err(());
                },
                Some(k) => Some(SampleRef { index: k, in_rom: samples[k].in_rom }),
            }
        },
    };
    let mods = import_mods(&z.mods);
    let zone = InstrumentZone { sample, keylo, keyhi, vello: vlo as i32, velhi: vhi as i32, gen, mods };
    assert(zone.gen@ == spec_gen_table(z.gens@, GEN_SAMPLE_ID));
    Ok(zone)
}

/// Every zone of an instrument can be read from `font`.
pub open spec fn spec_instrument_ok(font: SfFont, inst: SfInstrument) -> bool {
    forall|k: int| 0 <= k < inst.zones@.len() ==> spec_inst_zone_ok(font, #[trigger] inst.zones@[k])
}

/// Reading an instrument fails: one of its zones links to a sample that
/// was not loaded.
pub open spec fn spec_instrument_fails(font: SfFont, inst: SfInstrument, samples: Seq<SampleInfo>) -> bool {
    exists|k: int| 0 <= k < inst.zones@.len() && (#[trigger] spec_zone_sample(font, inst.zones@[k], samples)) is Err
}

/// The first zone of a list is a global one: it links to no sample.
pub open spec fn spec_first_inst_zone_global(font: SfFont, zones: Seq<SfZone>, samples: Seq<SampleInfo>) -> bool {
    zones.len() > 0 && spec_zone_sample(font, zones[0], samples) == Ok::<Option<SampleRef>, ()>(None)
}

/// `i` is the instrument the record `inst` yields: named `<untitled>` when
/// the record has no name, its first zone global when that zone links to
/// no sample, the other zones in order.
pub open spec fn spec_is_instrument_of(font: SfFont, inst: SfInstrument, samples: Seq<SampleInfo>, i: Instrument) -> bool {
    let zones = inst.zones@;
    let global = spec_first_inst_zone_global(font, zones, samples);
    let off: int = if global { 1 } else { 0 };
    &&& i.name@ == (if inst.name@.len() == 0 { untitled_name() } else { inst.name@ })
    &&& (match i.global_zone {
        Some(g) => global && spec_is_inst_zone_of(font, zones[0], samples, g),
        None => !global,
    })
    &&& i.zones@.len() == zones.len() - off
    &&& forall|j: int|
        0 <= j < i.zones@.len() ==> spec_is_inst_zone_of(font, zones[j + off], samples, #[trigger] i.zones@[j])
}

/// The name an instrument without a name gets.
pub open spec fn untitled_name() -> Seq<char> {
    seq!['<', 'u', 'n', 't', 'i', 't', 'l', 'e', 'd', '>']
}

/// Reads an instrument; fails when one of its zones links to a sample that
/// was not loaded.
pub fn import_instrument(font: &SfFont, inst: &SfInstrument, samples: &Vec<SampleInfo>) -> (r: Result<
    Instrument,
    (),
>)
    requires
        spec_instrument_ok(*font, *inst),
    ensures
        r is Err <==> spec_instrument_fails(*font, *inst, samples@),
        r matches Ok(i) ==> spec_is_instrument_of(*font, *inst, samples@, i),
{
    let name = if inst.name.as_str().is_empty() {
        let mut n = String::new();
        n.append("<");
        n.append("untitled>");
        proof {
            reveal_strlit("<");
            reveal_strlit("untitled>");
            assert(n@ =~= untitled_name());
        }
        n
    } else {
        inst.name.clone()
    };
    let mut global_zone: Option<InstrumentZone> = None;
    let mut zones: Vec<InstrumentZone> = Vec::new();
    let n = inst.zones.len();
    let ghost all = inst.zones@;
    let ghost global = spec_first_inst_zone_global(*font, all, samples@);
    let ghost off: int = if global { 1 } else { 0 };
    let mut k: usize = 0;
    while k < n
        invariant
            n == all.len(),
            all == inst.zones@,
            0 <= k <= n,
            spec_instrument_ok(*font, *inst),
            global == spec_first_inst_zone_global(*font, all, samples@),
            off == (if global { 1int } else { 0int }),
            forall|j: int| 0 <= j < k ==> (#[trigger] spec_zone_sample(*font, all[j], samples@)) is Ok,
            k > 0 ==> (match global_zone {
                Some(g) => global && spec_is_inst_zone_of(*font, all[0], samples@, g),
                None => !global,
            }),
            k == 0 ==> global_zone is None,
            k > 0 ==> zones@.len() == k - off,
            k == 0 ==> zones@.len() == 0,
            forall|j: int|
                0 <= j < zones@.len() ==> spec_is_inst_zone_of(*font, all[j + off], samples@, #[trigger] zones@[j]),
        decreases n - k,
    {
        let z = import_inst_zone(font, &inst.zones[k], samples);
        match z {
            Err(e) => {
                assert(spec_zone_sample(*font, all[k as int], samples@) is Err);
                return Err(e);
            },
            Ok(iz) => {
                if k == 0 && iz.sample.is_none() {
                    global_zone = Some(iz);
                } else {
                    zones.push(iz);
                }
            },
        }
        k += 1;
    }
    assert(!spec_instrument_fails(*font, *inst, samples@));
    Ok(Instrument { name, global_zone, zones })
}

/// A zone of a preset can be read from `font`, with the instrument it links to.
pub open spec fn spec_preset_zone_ok(font: SfFont, z: SfZone) -> bool {
    &&& spec_gens_ok(z.gens@, GEN_INSTRUMENT)
    &&& spec_mods_ok(z.mods@)
    &&& spec_link_ok(z.gens@, GEN_INSTRUMENT)
    &&& (spec_link(z.gens@, GEN_INSTRUMENT) matches Some(id) ==> id < font.instruments@.len()
        && spec_instrument_ok(font, font.instruments@[id as int]))
}

/// Reading a preset zone fails: the instrument it links to fails.
pub open spec fn spec_preset_zone_fails(font: SfFont, z: SfZone, samples: Seq<SampleInfo>) -> bool {
    spec_link(z.gens@, GEN_INSTRUMENT) matches Some(id) && spec_instrument_fails(
        font,
        font.instruments@[id as int],
        samples,
    )
}

/// `pz` is the preset zone the zone record `z` yields.
pub open spec fn spec_is_preset_zone_of(font: SfFont, z: SfZone, samples: Seq<SampleInfo>, pz: PresetZone) -> bool {
    &&& (pz.keylo, pz.keyhi) == spec_range(z.gens@, GEN_KEY_RANGE)
    &&& pz.vello == spec_range(z.gens@, GEN_VEL_RANGE).0 as i32
    &&& pz.velhi == spec_range(z.gens@, GEN_VEL_RANGE).1 as i32
    &&& pz.gen@ == spec_gen_table(z.gens@, GEN_INSTRUMENT)
    &&& pz.mods@ == spec_import_mods(z.mods@)
    &&& match spec_link(z.gens@, GEN_INSTRUMENT) {
        None => pz.inst is None,
        Some(id) => pz.inst matches Some(i) && spec_is_instrument_of(
            font,
            font.instruments@[id as int],
            samples,
            i,
        ),
    }
}

/// Reads a zone of a preset and the instrument it links to.
pub fn import_preset_zone(font: &SfFont, z: &SfZone, samples: &Vec<SampleInfo>) -> (r: Result<
    PresetZone,
    (),
>)
    requires
        spec_preset_zone_ok(*font, *z),
    ensures
        r is Err <==> spec_preset_zone_fails(*font, *z, samples@),
        r matches Ok(pz) ==> spec_is_preset_zone_of(*font, *z, samples@, pz),
{
    let (gen, (keylo, keyhi), (vlo, vhi)) = import_gens(&z.gens, GEN_INSTRUMENT);
    let inst = match find_link(&z.gens, GEN_INSTRUMENT) {
        None => None,
        Some(id) => {
            match import_instrument(font, &font.instruments[id as usize], samples) {
                Err(e) => {
                    return Err(e);
                },
                Ok(i) => Some(i),
            }
        },
    };
    let mods = import_mods(&z.mods);
    Ok(PresetZone { inst, keylo, keyhi, vello: vlo as i32, velhi: vhi as i32, gen, mods })
}

/// A decimal digit.
pub open spec fn spec_digit(d: nat) -> char {
    seq!['0', '1', '2', '3', '4', '5', '6', '7', '8', '9'][d as int]
}

/// A number written in decimal, without leading zeros.
pub open spec fn spec_decimal(n: nat) -> Seq<char>
    decreases n,
{
    if n < 10 {
        seq![spec_digit(n)]
    } else {
        spec_decimal(n / 10).push(spec_digit(n % 10))
    }
}

/// The name of a preset that has none, made of its bank and program
/// numbers: `Bank:<bank>,Preset<preset>`.
pub open spec fn preset_default_name(bank: u16, preset: u16) -> Seq<char> {
    seq!['B', 'a', 'n', 'k', ':'] + spec_decimal(bank as nat) + seq![',', 'P', 'r', 'e', 's', 'e', 't']
        + spec_decimal(preset as nat)
}

/// The decimal digit `d` as a string.
fn digit_str(d: u16) -> (r: &'static str)
    requires
        d < 10,
    ensures
        r@ == seq![spec_digit(d as nat)],
{
    proof {
        reveal_strlit("0");
        reveal_strlit("1");
        reveal_strlit("2");
        reveal_strlit("3");
        reveal_strlit("4");
        reveal_strlit("5");
        reveal_strlit("6");
        reveal_strlit("7");
        reveal_strlit("8");
        reveal_strlit("9");
    }
    match d {
        0 => "0",
        1 => "1",
        2 => "2",
        3 => "3",
        4 => "4",
        5 => "5",
        6 => "6",
        7 => "7",
        8 => "8",
        _ => "9",
    }
}

/// Writes `n` in decimal, without leading zeros, at the end of `s`.
fn append_decimal(s: &mut String, n: u16)
    ensures
        final(s)@ == old(s)@ + spec_decimal(n as nat),
    decreases n,
{
    if n >= 10 {
        append_decimal(s, n / 10);
    }
    s.append(digit_str(n % 10));
    proof {
        assert(old(s)@ + spec_decimal(n as nat) =~= if n >= 10 {
            old(s)@ + spec_decimal((n / 10) as nat) + seq![spec_digit((n % 10) as nat)]
        } else {
            old(s)@ + seq![spec_digit((n % 10) as nat)]
        });
    }
}

/// The name `Bank:<bank>,Preset<preset>`, the numbers in decimal.
fn default_preset_name(bank: u16, preset: u16) -> (r: String)
    ensures
        r@ == preset_default_name(bank, preset),
{
    proof {
        reveal_strlit("Bank:");
        reveal_strlit(",Preset");
    }
    let mut s = String::from_str("Bank:");
    append_decimal(&mut s, bank);
    s.append(",Preset");
    append_decimal(&mut s, preset);
    assert(s@ =~= preset_default_name(bank, preset));
    s
}

/// Every zone of a preset can be read from `font`.
pub open spec fn spec_preset_ok(font: SfFont, p: SfPreset) -> bool {
    forall|k: int| 0 <= k < p.zones@.len() ==> spec_preset_zone_ok(font, #[trigger] p.zones@[k])
}

/// Reading a preset fails: one of its zones fails.
pub open spec fn spec_preset_fails(font: SfFont, p: SfPreset, samples: Seq<SampleInfo>) -> bool {
    exists|k: int| 0 <= k < p.zones@.len() && #[trigger] spec_preset_zone_fails(font, p.zones@[k], samples)
}

/// The first zone of a preset is a global one: it links to no instrument.
pub open spec fn spec_first_preset_zone_global(zones: Seq<SfZone>) -> bool {
    zones.len() > 0 && spec_link(zones[0].gens@, GEN_INSTRUMENT) is None
}

/// `d` is the preset the record `p` yields.
pub open spec fn spec_is_preset_of(font: SfFont, p: SfPreset, samples: Seq<SampleInfo>, d: PresetData) -> bool {
    spec_is_preset_named(
        font,
        p,
        samples,
        if p.name@.len() == 0 { preset_default_name(p.bank, p.preset) } else { p.name@ },
        d,
    )
}

/// `d` is the preset the record `p` yields when it is called `name`.
pub open spec fn spec_is_preset_named(font: SfFont, p: SfPreset, samples: Seq<SampleInfo>, name: Seq<char>, d: PresetData) -> bool {
    let zones = p.zones@;
    let global = spec_first_preset_zone_global(zones);
    let off: int = if global { 1 } else { 0 };
    &&& d.name@ == name
    &&& d.bank == p.bank as u32
    &&& d.num == p.preset as u32
    &&& (match d.global_zone {
        Some(g) => global && spec_is_preset_zone_of(font, zones[0], samples, g),
        None => !global,
    })
    &&& d.zones@.len() == zones.len() - off
    &&& forall|j: int|
        0 <= j < d.zones@.len() ==> spec_is_preset_zone_of(font, zones[j + off], samples, #[trigger] d.zones@[j])
}

/// Reads a preset: its name (made of bank and program when it has none),
/// bank, program number and zones, the first one global when it links to
/// no instrument.
pub fn import_preset(font: &SfFont, p: &SfPreset, samples: &Vec<SampleInfo>) -> (r: Result<PresetData, ()>)
    requires
        spec_preset_ok(*font, *p),
    ensures
        r is Err <==> spec_preset_fails(*font, *p, samples@),
        r matches Ok(d) ==> spec_is_preset_of(*font, *p, samples@, d),
{
    let name = if p.name.as_str().is_empty() {
        default_preset_name(p.bank, p.preset)
    } else {
        p.name.clone()
    };
    import_preset_named(font, p, samples, name)
}

/// Reads a preset under the name `name`: its bank, program number and
/// zones, the first one global when it links to no instrument.
pub fn import_preset_named(font: &SfFont, p: &SfPreset, samples: &Vec<SampleInfo>, name: String) -> (r: Result<PresetData, ()>)
    requires
        spec_preset_ok(*font, *p),
    ensures
        r is Err <==> spec_preset_fails(*font, *p, samples@),
        r matches Ok(d) ==> spec_is_preset_named(*font, *p, samples@, name@, d),
{
    let mut global_zone: Option<PresetZone> = None;
    let mut zones: Vec<PresetZone> = Vec::new();
    let n = p.zones.len();
    let ghost all = p.zones@;
    let ghost global = spec_first_preset_zone_global(all);
    let ghost off: int = if global { 1 } else { 0 };
    let mut k: usize = 0;
    while k < n
        invariant
            n == all.len(),
            all == p.zones@,
            0 <= k <= n,
            spec_preset_ok(*font, *p),
            global == spec_first_preset_zone_global(all),
            off == (if global { 1int } else { 0int }),
            forall|j: int| 0 <= j < k ==> !(#[trigger] spec_preset_zone_fails(*font, all[j], samples@)),
            k > 0 ==> (match global_zone {
                Some(g) => global && spec_is_preset_zone_of(*font, all[0], samples@, g),
                None => !global,
            }),
            k == 0 ==> global_zone is None,
            k > 0 ==> zones@.len() == k - off,
            k == 0 ==> zones@.len() == 0,
            forall|j: int|
                0 <= j < zones@.len() ==> spec_is_preset_zone_of(*font, all[j + off], samples@, #[trigger] zones@[j]),
        decreases n - k,
    {
        let z = import_preset_zone(font, &p.zones[k], samples);
        match z {
            Err(e) => {
                assert(spec_preset_zone_fails(*font, all[k as int], samples@));
                return Err(e);
            },
            Ok(pz) => {
                if k == 0 && pz.inst.is_none() {
                    global_zone = Some(pz);
                } else {
                    zones.push(pz);
                }
            },
        }
        k += 1;
    }
    assert(!spec_preset_fails(*font, *p, samples@));
    Ok(PresetData { name, bank: p.bank as u32, num: p.preset as u32, global_zone, zones })
}

/// Every preset of a font can be read.
pub open spec fn spec_font_ok(font: SfFont) -> bool {
    forall|k: int| 0 <= k < font.presets@.len() ==> spec_preset_ok(font, #[trigger] font.presets@[k])
}

/// Reading a font fails: one of its presets fails.
pub open spec fn spec_font_fails(font: SfFont, samples: Seq<SampleInfo>) -> bool {
    exists|k: int| 0 <= k < font.presets@.len() && #[trigger] spec_preset_fails(font, font.presets@[k], samples)
}

/// Record `a` comes before record `b`: a lower bank, or the same bank and a
/// lower program.
pub open spec fn spec_preset_before(a: SfPreset, b: SfPreset) -> bool {
    a.bank < b.bank || (a.bank == b.bank && a.preset < b.preset)
}

/// Where record `i` goes when inserted into the records `order` (indices
/// into `recs`): before the first one, from position `from` on, that it comes
/// before; at the end when there is none.
pub open spec fn spec_insert_pos(order: Seq<int>, recs: Seq<SfPreset>, i: int, from: int) -> int
    decreases order.len() - from,
{
    if from >= order.len() {
        order.len() as int
    } else if spec_preset_before(recs[i], recs[order[from]]) {
        from
    } else {
        spec_insert_pos(order, recs, i, from + 1)
    }
}

/// The order in which a font keeps the first `n` of its preset records
/// `recs`, as indices into `recs`: each record in turn is inserted before the
/// first one it comes before, so that they end sorted by bank and program,
/// and records of the same bank and program keep their order in the file.
pub open spec fn spec_preset_order(recs: Seq<SfPreset>, n: nat) -> Seq<int>
    decreases n,
{
    if n == 0 {
        Seq::empty()
    } else {
        let o = spec_preset_order(recs, (n - 1) as nat);
        o.insert(spec_insert_pos(o, recs, n - 1, 0), n - 1)
    }
}

/// The records `order` indexes into `recs` are sorted: none comes before
/// one placed ahead of it.
pub open spec fn spec_order_sorted(order: Seq<int>, recs: Seq<SfPreset>) -> bool {
    forall|a: int, b: int|
        0 <= a < b < order.len() ==> !spec_preset_before(recs[#[trigger] order[b]], recs[#[trigger] order[a]])
}

proof fn lemma_insert_pos(order: Seq<int>, recs: Seq<SfPreset>, i: int, from: int)
    requires
        0 <= from <= order.len(),
    ensures
        from <= spec_insert_pos(order, recs, i, from) <= order.len(),
        forall|j: int|
            from <= j < spec_insert_pos(order, recs, i, from) ==> !spec_preset_before(recs[i], recs[#[trigger] order[j]]),
        spec_insert_pos(order, recs, i, from) < order.len() ==> spec_preset_before(
            recs[i],
            recs[order[spec_insert_pos(order, recs, i, from)]],
        ),
    decreases order.len() - from,
{
    if from < order.len() && !spec_preset_before(recs[i], recs[order[from]]) {
        lemma_insert_pos(order, recs, i, from + 1);
    }
}

/// The order a font keeps its presets in holds each of the first `n` records
/// once, sorted by bank and program; records of the same bank and program
/// keep their order in the file.
pub proof fn lemma_preset_order(recs: Seq<SfPreset>, n: nat)
    requires
        n <= recs.len(),
    ensures
        spec_preset_order(recs, n).len() == n,
        forall|k: int| 0 <= k < n ==> 0 <= #[trigger] spec_preset_order(recs, n)[k] < n,
        forall|a: int, b: int|
            0 <= a < b < n ==> #[trigger] spec_preset_order(recs, n)[a] != #[trigger] spec_preset_order(recs, n)[b],
        spec_order_sorted(spec_preset_order(recs, n), recs),
        forall|a: int, b: int|
            0 <= a < b < n && recs[#[trigger] spec_preset_order(recs, n)[a]].bank == recs[#[trigger] spec_preset_order(
                recs,
                n,
            )[b]].bank && recs[spec_preset_order(recs, n)[a]].preset == recs[spec_preset_order(recs, n)[b]].preset
                ==> spec_preset_order(recs, n)[a] < spec_preset_order(recs, n)[b],
    decreases n,
{
    if n > 0 {
        let m = (n - 1) as nat;
        lemma_preset_order(recs, m);
        let o = spec_preset_order(recs, m);
        let p = spec_insert_pos(o, recs, m as int, 0);
        lemma_insert_pos(o, recs, m as int, 0);
        let o2 = spec_preset_order(recs, n);
        assert(o2 == o.insert(p, m as int));
        assert forall|k: int| 0 <= k < n implies 0 <= #[trigger] o2[k] < n by {
            if k > p {
                assert(o2[k] == o[k - 1]);
            } else if k < p {
                assert(o2[k] == o[k]);
            }
        }
        assert forall|a: int, b: int| 0 <= a < b < n implies #[trigger] o2[a] != #[trigger] o2[b] by {
            if b < p {
            } else if b == p {
                assert(o2[a] == o[a]);
            } else if a < p {
                assert(o2[b] == o[b - 1]);
                assert(o2[a] == o[a]);
            } else if a == p {
                assert(o2[b] == o[b - 1]);
            } else {
                assert(o2[a] == o[a - 1]);
                assert(o2[b] == o[b - 1]);
            }
        }
        assert forall|a: int, b: int| 0 <= a < b < o2.len() implies !spec_preset_before(
            recs[#[trigger] o2[b]],
            recs[#[trigger] o2[a]],
        ) by {
            if b < p {
                assert(o2[a] == o[a] && o2[b] == o[b]);
            } else if b == p {
                assert(o2[a] == o[a]);
                assert(!spec_preset_before(recs[m as int], recs[o[a]]));
            } else if a < p {
                assert(o2[a] == o[a] && o2[b] == o[b - 1]);
            } else if a == p {
                assert(o2[b] == o[b - 1]);
                assert(spec_preset_before(recs[m as int], recs[o[p]]));
                if b - 1 > p {
                    assert(!spec_preset_before(recs[o[b - 1]], recs[o[p]]));
                }
            } else {
                assert(o2[a] == o[a - 1] && o2[b] == o[b - 1]);
            }
        }
        assert forall|a: int, b: int|
            0 <= a < b < n && recs[#[trigger] o2[a]].bank == recs[#[trigger] o2[b]].bank && recs[o2[a]].preset
                == recs[o2[b]].preset implies o2[a] < o2[b] by {
            if b < p {
                assert(o2[a] == o[a] && o2[b] == o[b]);
            } else if b == p {
                assert(o2[a] == o[a]);
            } else if a < p {
                assert(o2[a] == o[a] && o2[b] == o[b - 1]);
            } else if a == p {
                assert(o2[b] == o[b - 1]);
                assert(spec_preset_before(recs[m as int], recs[o[p]]));
                if b - 1 > p {
                    assert(!spec_preset_before(recs[o[b - 1]], recs[o[p]]));
                }
            } else {
                assert(o2[a] == o[a - 1] && o2[b] == o[b - 1]);
            }
        }
    }
}

impl SoundFont {
    /// Builds a font from the parts of a SoundFont file and the samples
    /// loaded from it: one preset for each preset record, kept sorted by bank
    /// and program (see `spec_preset_order`; presets of the same bank and
    /// program keep their order in the file). The font gets its id when it
    /// is added to a synthesizer.
    pub fn import(font: &SfFont, samples: &Vec<SampleInfo>) -> (r: Result<SoundFont, ()>)
        requires
            spec_font_ok(*font),
        ensures
            r is Err <==> spec_font_fails(*font, samples@),
            r matches Ok(f) ==> f.id == 0 && f.name@.len() == 0 && f.presets@.len() == font.presets@.len()
                && (forall|k: int|
                0 <= k < f.presets@.len() ==> spec_is_preset_of(
                    *font,
                    font.presets@[spec_preset_order(font.presets@, font.presets@.len())[k]],
                    samples@,
                    *#[trigger] f.presets@[k],
                )) && (forall|a: int, b: int|
                0 <= a < b < f.presets@.len() ==> (#[trigger] f.presets@[a]).bank < (#[trigger] f.presets@[b]).bank || (
                f.presets@[a].bank == f.presets@[b].bank && f.presets@[a].num <= f.presets@[b].num)),
    {
        let mut f = SoundFont { id: 0, name: String::new(), presets: Vec::new() };
        let n = font.presets.len();
        let ghost recs = font.presets@;
        let mut k: usize = 0;
        while k < n
            invariant
                n == font.presets@.len(),
                recs == font.presets@,
                0 <= k <= n,
                spec_font_ok(*font),
                f.id == 0,
                f.name@.len() == 0,
                f.presets@.len() == k,
                forall|j: int| 0 <= j < k ==> !(#[trigger] spec_preset_fails(*font, recs[j], samples@)),
                forall|j: int|
                    0 <= j < k ==> spec_is_preset_of(
                        *font,
                        recs[spec_preset_order(recs, k as nat)[j]],
                        samples@,
                        *#[trigger] f.presets@[j],
                    ),
            decreases n - k,
        {
            proof {
                lemma_preset_order(recs, k as nat);
            }
            let ghost o = spec_preset_order(recs, k as nat);
            match import_preset(font, &font.presets[k], samples) {
                Err(e) => {
                    return Err(e);
                },
                Ok(d) => {
                    let p = Rc::new(d);
                    let ghost old_presets = f.presets@;
                    proof {
                        assert forall|j: int| 0 <= j < old_presets.len() implies 0 <= #[trigger] o[j] < recs.len()
                            && old_presets[j].bank == recs[o[j]].bank as u32 && old_presets[j].num
                            == recs[o[j]].preset as u32 by {
                            assert(spec_is_preset_of(*font, recs[o[j]], samples@, *old_presets[j]));
                        }
                        lemma_slot_is_insert_pos(old_presets, o, recs, k as int, p.bank, p.num, 0);
                    }
                    f.add_preset(p);
                    proof {
                        let pos = spec_insert_pos(o, recs, k as int, 0);
                        lemma_insert_pos(o, recs, k as int, 0);
                        let o2 = spec_preset_order(recs, (k + 1) as nat);
                        assert(o2 == o.insert(pos, k as int));
                        assert forall|j: int| 0 <= j < k + 1 implies spec_is_preset_of(
                            *font,
                            recs[o2[j]],
                            samples@,
                            *#[trigger] f.presets@[j],
                        ) by {
                            if j > pos {
                                assert(o2[j] == o[j - 1]);
                                assert(f.presets@[j] == old_presets[j - 1]);
                            } else if j < pos {
                                assert(o2[j] == o[j]);
                                assert(f.presets@[j] == old_presets[j]);
                            }
                        }
                    }
                },
            }
            k += 1;
        }
        proof {
            lemma_preset_order(recs, n as nat);
            let o = spec_preset_order(recs, n as nat);
            let presets = f.presets@;
            assert forall|a: int, b: int| 0 <= a < b < presets.len() implies (#[trigger] presets[a]).bank < (
            #[trigger] presets[b]).bank || (presets[a].bank == presets[b].bank && presets[a].num
                <= presets[b].num) by {
                assert(spec_is_preset_of(*font, recs[o[a]], samples@, *presets[a]));
                assert(spec_is_preset_of(*font, recs[o[b]], samples@, *presets[b]));
                assert(!spec_preset_before(recs[o[b]], recs[o[a]]));
            }
        }
        Ok(f)
    }
}

proof fn lemma_slot_is_insert_pos(
    s: Seq<Rc<PresetData>>,
    o: Seq<int>,
    recs: Seq<SfPreset>,
    k: int,
    bank: u32,
    num: u32,
    i: int,
)
    requires
        0 <= i <= s.len(),
        s.len() == o.len(),
        0 <= k < recs.len(),
        bank == recs[k].bank as u32,
        num == recs[k].preset as u32,
        forall|j: int|
            0 <= j < s.len() ==> 0 <= #[trigger] o[j] < recs.len() && s[j].bank == recs[o[j]].bank as u32 && s[j].num
                == recs[o[j]].preset as u32,
    ensures
        spec_preset_slot(s, bank, num, i) == spec_insert_pos(o, recs, k, i),
    decreases s.len() - i,
{
    if i < s.len() {
        assert(0 <= o[i] < recs.len());
        lemma_slot_is_insert_pos(s, o, recs, k, bank, num, i + 1);
    }
}

/// Builds fonts from the parts of SoundFont files.
#[derive(Debug, Clone, Copy, PartialEq, Eq)]
pub struct SoundFontLoader;

impl SoundFontLoader {
    /// A loader.
    pub fn new() -> (r: Self)
        ensures
            r == SoundFontLoader,
    {
        SoundFontLoader
    }

    /// Builds a font from the parts of a SoundFont file and the samples
    /// loaded from it, its presets sorted as `SoundFont::import` sorts them;
    /// none when a zone links to a sample that was not loaded.
    pub fn load(&mut self, font: &SfFont, samples: &Vec<SampleInfo>) -> (r: Option<SoundFont>)
        requires
            spec_font_ok(*font),
        ensures
            r is None <==> spec_font_fails(*font, samples@),
            r matches Some(f) ==> f.id == 0 && f.presets@.len() == font.presets@.len()
                && forall|k: int|
                0 <= k < f.presets@.len() ==> spec_is_preset_of(
                    *font,
                    font.presets@[spec_preset_order(font.presets@, font.presets@.len())[k]],
                    samples@,
                    *#[trigger] f.presets@[k],
                ),
    {
        match SoundFont::import(font, samples) {
            Ok(f) => Some(f),
            Err(_) => None,
        }
    }
}

/// Whether the records of a zone can be read (see `spec_gens_ok`).
fn gens_ok(gens: &Vec<SfGen>, skip: u16) -> (r: bool)
    ensures
        r == spec_gens_ok(gens@, skip),
{
    let mut k: usize = 0;
    while k < gens.len()
        invariant
            k <= gens@.len(),
            forall|j: int|
                0 <= j < k && #[trigger] gens@[j].ty != skip ==> if spec_is_range(gens@[j].ty) {
                    gens@[j].amount is Range
                } else {
                    gens@[j].amount is Int && gens@[j].ty < 60
                },
        decreases gens@.len() - k,
    {
        let g = gens[k];
        if g.ty != skip {
            let ok = if g.ty == GEN_KEY_RANGE || g.ty == GEN_VEL_RANGE {
                match g.amount {
                    GenAmount::Range(_, _) => true,
                    _ => false,
                }
            } else {
                match g.amount {
                    GenAmount::Int(_) => g.ty < 60,
                    _ => false,
                }
            };
            if !ok {
                return false;
            }
        }
        k += 1;
    }
    true
}

/// Whether the first record of number `ty`, if any, holds an unsigned word.
fn link_ok(gens: &Vec<SfGen>, ty: u16) -> (r: bool)
    ensures
        r == spec_link_ok(gens@, ty),
{
    let n = gens.len();
    let mut k: usize = 0;
    assert(gens@.skip(0) =~= gens@);
    while k < n
        invariant
            n == gens@.len(),
            0 <= k <= n,
            spec_first_gen(gens@, ty) == spec_first_gen(gens@.skip(k as int), ty),
        decreases n - k,
    {
        assert(gens@.skip(k as int).drop_first() =~= gens@.skip(k + 1));
        if gens[k].ty == ty {
            return match gens[k].amount {
                GenAmount::Word(_) => true,
                _ => false,
            };
        }
        k += 1;
    }
    true
}

/// Whether every modulator record names a generator.
fn mods_ok(mods: &Vec<SfMod>) -> (r: bool)
    ensures
        r == spec_mods_ok(mods@),
{
    let mut k: usize = 0;
    while k < mods.len()
        invariant
            k <= mods@.len(),
            forall|j: int| 0 <= j < k ==> spec_dest_ok(#[trigger] mods@[j].dest),
        decreases mods@.len() - k,
    {
        if mods[k].dest % 256 > 60 {
            return false;
        }
        k += 1;
    }
    true
}

/// Whether a zone of an instrument can be read from `font`.
fn inst_zone_ok(font: &SfFont, z: &SfZone) -> (r: bool)
    ensures
        r == spec_inst_zone_ok(*font, *z),
{
    if !gens_ok(&z.gens, GEN_SAMPLE_ID) || !mods_ok(&z.mods) || !link_ok(&z.gens, GEN_SAMPLE_ID) {
        return false;
    }
    match find_link(&z.gens, GEN_SAMPLE_ID) {
        Some(id) => (id as usize) < font.sample_names.len(),
        None => true,
    }
}

/// Whether every zone of an instrument can be read from `font`.
fn instrument_ok(font: &SfFont, inst: &SfInstrument) -> (r: bool)
    ensures
        r == spec_instrument_ok(*font, *inst),
{
    let mut k: usize = 0;
    while k < inst.zones.len()
        invariant
            k <= inst.zones@.len(),
            forall|j: int| 0 <= j < k ==> spec_inst_zone_ok(*font, #[trigger] inst.zones@[j]),
        decreases inst.zones@.len() - k,
    {
        if !inst_zone_ok(font, &inst.zones[k]) {
            return false;
        }
        k += 1;
    }
    true
}

/// Whether a zone of a preset can be read from `font`.
fn preset_zone_ok(font: &SfFont, z: &SfZone) -> (r: bool)
    ensures
        r == spec_preset_zone_ok(*font, *z),
{
    if !gens_ok(&z.gens, GEN_INSTRUMENT) || !mods_ok(&z.mods) || !link_ok(&z.gens, GEN_INSTRUMENT) {
        return false;
    }
    match find_link(&z.gens, GEN_INSTRUMENT) {
        Some(id) => (id as usize) < font.instruments.len() && instrument_ok(font, &font.instruments[id as usize]),
        None => true,
    }
}

/// Whether every zone of a preset can be read from `font`.
fn preset_ok(font: &SfFont, p: &SfPreset) -> (r: bool)
    ensures
        r == spec_preset_ok(*font, *p),
{
    let mut k: usize = 0;
    while k < p.zones.len()
        invariant
            k <= p.zones@.len(),
            forall|j: int| 0 <= j < k ==> spec_preset_zone_ok(*font, #[trigger] p.zones@[j]),
        decreases p.zones@.len() - k,
    {
        if !preset_zone_ok(font, &p.zones[k]) {
            return false;
        }
        k += 1;
    }
    true
}

impl SfFont {
    /// Whether every preset can be read (see `spec_font_ok`): generator
    /// records hold amounts of the kind their number calls for, links point
    /// to existing instruments and sample headers, and modulators name
    /// generators.
    pub fn is_readable(&self) -> (r: bool)
        ensures
            r == spec_font_ok(*self),
    {
        let mut k: usize = 0;
        while k < self.presets.len()
            invariant
                k <= self.presets@.len(),
                forall|j: int| 0 <= j < k ==> spec_preset_ok(*self, #[trigger] self.presets@[j]),
            decreases self.presets@.len() - k,
        {
            if !preset_ok(self, &self.presets[k]) {
                return false;
            }
            k += 1;
        }
        true
    }
}

} // verus!
