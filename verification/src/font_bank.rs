use vstd::prelude::*;

use crate::soundfont::{Preset, SoundFont, spec_font_preset};

verus! {

/// An offset added to the bank numbers of a font.
#[derive(Debug, Clone, Copy, PartialEq, Eq, Structural)]
pub struct BankOffset {
    pub sfont_id: u32,
    pub offset: u32,
}

/// The loaded fonts, as a stack whose top is position 0, with the bank
/// offsets of the fonts.
#[derive(Debug)]
pub struct FontBank {
    pub fonts: Vec<SoundFont>,
    /// The id given to the font loaded last; ids start at 1.
    pub sfont_id: u32,
    pub bank_offsets: Vec<BankOffset>,
}

/// Position of the first font with id `id` at or after position `i`.
pub open spec fn spec_font_pos_from(fonts: Seq<SoundFont>, id: u32, i: int) -> Option<int>
    decreases fonts.len() - i,
{
    if i < 0 || i >= fonts.len() {
        None
    } else if fonts[i].id == id {
        Some(i)
    } else {
        spec_font_pos_from(fonts, id, i + 1)
    }
}

/// Position of the font with id `id`.
pub open spec fn spec_font_pos(fonts: Seq<SoundFont>, id: u32) -> Option<int> {
    spec_font_pos_from(fonts, id, 0)
}

/// Position of the first offset entry of font `id` at or after position `i`.
pub open spec fn spec_offset_pos_from(offsets: Seq<BankOffset>, id: u32, i: int) -> Option<int>
    decreases offsets.len() - i,
{
    if i < 0 || i >= offsets.len() {
        None
    } else if offsets[i].sfont_id == id {
        Some(i)
    } else {
        spec_offset_pos_from(offsets, id, i + 1)
    }
}

/// Position of the offset entry of font `id`.
pub open spec fn spec_offset_pos(offsets: Seq<BankOffset>, id: u32) -> Option<int> {
    spec_offset_pos_from(offsets, id, 0)
}

/// The bank offset of font `id`, if one was set.
pub open spec fn spec_bank_offset(offsets: Seq<BankOffset>, id: u32) -> Option<u32> {
    match spec_offset_pos(offsets, id) {
        Some(k) => Some(offsets[k].offset),
        None => None,
    }
}

/// The bank offset of font `id`, zero when none was set.
pub open spec fn spec_offset_or_zero(offsets: Seq<BankOffset>, id: u32) -> u32 {
    match spec_bank_offset(offsets, id) {
        Some(o) => o,
        None => 0,
    }
}

/// The preset of font `f` for bank `banknum` (before the font's offset is
/// taken off, wrapping around) and program `prognum`.
pub open spec fn spec_offset_preset(offsets: Seq<BankOffset>, f: SoundFont, banknum: u32, prognum: u8) -> Option<Preset> {
    spec_font_preset(f, banknum.wrapping_sub(spec_offset_or_zero(offsets, f.id)), prognum)
}

/// The preset found by searching the fonts from position `i` down the stack.
pub open spec fn spec_search_from(fonts: Seq<SoundFont>, offsets: Seq<BankOffset>, banknum: u32, prognum: u8, i: int) -> Option<Preset>
    decreases fonts.len() - i,
{
    if i < 0 || i >= fonts.len() {
        None
    } else {
        match spec_offset_preset(offsets, fonts[i], banknum, prognum) {
            Some(p) => Some(p),
            None => spec_search_from(fonts, offsets, banknum, prognum, i + 1),
        }
    }
}

/// No two offset entries belong to the same font.
pub open spec fn spec_offsets_unique(offsets: Seq<BankOffset>) -> bool {
    forall|i: int, j: int|
        0 <= i < j < offsets.len() ==> #[trigger] offsets[i].sfont_id != #[trigger] offsets[j].sfont_id
}

/// Entries of a list kept in order: those of fonts other than `id`.
pub open spec fn spec_without_offset(offsets: Seq<BankOffset>, id: u32) -> Seq<BankOffset> {
    offsets.filter(|o: BankOffset| o.sfont_id != id)
}

impl FontBank {
    /// The bank's invariant: ids are between 1 and the last id given, no
    /// two fonts share one, and no font has two bank offsets.
    pub open spec fn wf(&self) -> bool {
        &&& spec_offsets_unique(self.bank_offsets@)
        &&& forall|i: int| 0 <= i < self.fonts@.len() ==> 1 <= #[trigger] self.fonts@[i].id <= self.sfont_id
        &&& forall|i: int, j: int|
            0 <= i < j < self.fonts@.len() ==> #[trigger] self.fonts@[i].id != #[trigger] self.fonts@[j].id
    }

    /// Another font can be given an id.
    pub open spec fn can_add(&self) -> bool {
        self.sfont_id < u32::MAX
    }

    /// What `get_preset` gives.
    pub open spec fn spec_get_preset(&self, sfontnum: u32, banknum: u32, prognum: u8) -> Option<Preset> {
        match spec_font_pos(self.fonts@, sfontnum) {
            Some(k) => spec_offset_preset(self.bank_offsets@, self.fonts@[k], banknum, prognum),
            None => None,
        }
    }

    /// What `find_preset` gives.
    pub open spec fn spec_find_preset(&self, banknum: u32, prognum: u8) -> Option<Preset> {
        spec_search_from(self.fonts@, self.bank_offsets@, banknum, prognum, 0)
    }

    /// An empty bank.
    pub fn new() -> (r: FontBank)
        ensures
            r.wf(),
            r.fonts@.len() == 0,
            r.bank_offsets@.len() == 0,
            r.sfont_id == 0,
    {
        FontBank { fonts: Vec::new(), sfont_id: 0, bank_offsets: Vec::new() }
    }

    /// Puts a font on top of the stack under a new id, and returns the id.
    pub fn add_font(&mut self, font: SoundFont) -> (id: u32)
        requires
            old(self).wf(),
            old(self).can_add(),
        ensures
            final(self).wf(),
            id == old(self).sfont_id + 1,
            final(self).sfont_id == id,
            final(self).fonts@ == old(self).fonts@.insert(0, SoundFont { id, ..font }),
            final(self).bank_offsets == old(self).bank_offsets,
            spec_font_pos(old(self).fonts@, id) is None,
    {
        let id = self.sfont_id + 1;
        proof {
            lemma_font_pos_absent(self.fonts@, id, 0);
        }
        let mut font = font;
        font.id = id;
        self.fonts.insert(0, font);
        self.sfont_id = id;
        id
    }

    /// Takes the font with id `id` off the stack and returns it.
    pub fn remove_font(&mut self, id: u32) -> (r: Option<SoundFont>)
        requires
            old(self).wf(),
        ensures
            final(self).wf(),
            final(self).sfont_id == old(self).sfont_id,
            final(self).bank_offsets == old(self).bank_offsets,
            match spec_font_pos(old(self).fonts@, id) {
                Some(k) => r == Some(old(self).fonts@[k]) && final(self).fonts@ == old(self).fonts@.remove(k),
                None => r is None && *final(self) == *old(self),
            },
    {
        match self.position(id) {
            Some(k) => {
                let f = self.fonts.remove(k);
                assert forall|i: int, j: int|
                    0 <= i < j < self.fonts@.len() implies #[trigger] self.fonts@[i].id != #[trigger] self.fonts@[j].id by {
                    let oi = if i < k { i } else { i + 1 };
                    let oj = if j < k { j } else { j + 1 };
                    assert(self.fonts@[i] == old(self).fonts@[oi]);
                    assert(self.fonts@[j] == old(self).fonts@[oj]);
                }
                assert forall|i: int| 0 <= i < self.fonts@.len() implies 1 <= #[trigger] self.fonts@[i].id <= self.sfont_id by {
                    let oi = if i < k { i } else { i + 1 };
                    assert(self.fonts@[i] == old(self).fonts@[oi]);
                }
                Some(f)
            },
            None => None,
        }
    }

    /// Position of the font with id `id` on the stack.
    pub fn position(&self, id: u32) -> (r: Option<usize>)
        ensures
            r matches Some(k) ==> spec_font_pos(self.fonts@, id) == Some(k as int) && k < self.fonts@.len(),
            r is None ==> spec_font_pos(self.fonts@, id) is None,
    {
        let n = self.fonts.len();
        let mut i: usize = 0;
        while i < n
            invariant
                n == self.fonts@.len(),
                0 <= i <= n,
                spec_font_pos(self.fonts@, id) == spec_font_pos_from(self.fonts@, id, i as int),
            decreases n - i,
        {
            if self.fonts[i].id == id {
                return Some(i);
            }
            i += 1;
        }
        None
    }

    /// Number of loaded fonts.
    pub fn count(&self) -> (r: usize)
        ensures
            r == self.fonts@.len(),
    {
        self.fonts.len()
    }

    /// The font at position `num` of the stack (0 is the top).
    pub fn get_nth_font(&self, num: usize) -> (r: Option<&SoundFont>)
        ensures
            r == if num < self.fonts@.len() { Some(&self.fonts@[num as int]) } else { None::<&SoundFont> },
    {
        if num < self.fonts.len() {
            Some(&self.fonts[num])
        } else {
            None
        }
    }

    /// The font with id `id`.
    pub fn get_font(&self, id: u32) -> (r: Option<&SoundFont>)
        ensures
            r == match spec_font_pos(self.fonts@, id) {
                Some(k) => Some(&self.fonts@[k]),
                None => None::<&SoundFont>,
            },
    {
        let pos = self.position(id);
        match pos {
            Some(k) => {
                assert(spec_font_pos(self.fonts@, id) == Some(k as int));
                Some(&self.fonts[k])
            },
            None => {
                assert(spec_font_pos(self.fonts@, id) is None);
                None
            },
        }
    }

    /// Position of the offset entry of font `id`.
    fn offset_position(&self, id: u32) -> (r: Option<usize>)
        ensures
            r matches Some(k) ==> spec_offset_pos(self.bank_offsets@, id) == Some(k as int) && k < self.bank_offsets@.len(),
            r is None ==> spec_offset_pos(self.bank_offsets@, id) is None,
    {
        let n = self.bank_offsets.len();
        let mut i: usize = 0;
        while i < n
            invariant
                n == self.bank_offsets@.len(),
                0 <= i <= n,
                spec_offset_pos(self.bank_offsets@, id) == spec_offset_pos_from(self.bank_offsets@, id, i as int),
            decreases n - i,
        {
            if self.bank_offsets[i].sfont_id == id {
                return Some(i);
            }
            i += 1;
        }
        None
    }

    /// The bank offset of font `id`, if one was set.
    pub fn get_bank_offset(&self, sfont_id: u32) -> (r: Option<&BankOffset>)
        ensures
            match spec_offset_pos(self.bank_offsets@, sfont_id) {
                Some(k) => r == Some(&self.bank_offsets@[k]),
                None => r is None,
            },
            r matches Some(o) ==> o.sfont_id == sfont_id,
    {
        match self.offset_position(sfont_id) {
            Some(k) => {
                proof {
                    lemma_offset_pos_found(self.bank_offsets@, sfont_id, 0);
                }
                Some(&self.bank_offsets[k])
            },
            None => None,
        }
    }

    /// Sets the bank offset of font `sfont_id`: the entry already there is
    /// updated, else a new entry goes first.
    pub fn set_bank_offset(&mut self, sfont_id: u32, offset: u32)
        ensures
            old(self).wf() ==> final(self).wf(),
            final(self).fonts == old(self).fonts,
            final(self).sfont_id == old(self).sfont_id,
            match spec_offset_pos(old(self).bank_offsets@, sfont_id) {
                Some(k) => final(self).bank_offsets@ == old(self).bank_offsets@.update(
                    k,
                    BankOffset { sfont_id, offset },
                ),
                None => final(self).bank_offsets@ == old(self).bank_offsets@.insert(
                    0,
                    BankOffset { sfont_id, offset },
                ),
            },
    {
        match self.offset_position(sfont_id) {
            Some(k) => {
                proof {
                    lemma_offset_pos_found(self.bank_offsets@, sfont_id, 0);
                }
                self.bank_offsets.set(k, BankOffset { sfont_id, offset });
            },
            None => {
                self.bank_offsets.insert(0, BankOffset { sfont_id, offset });
            },
        }
        proof {
            if old(self).wf() {
                crate::laws::lemma_set_offset_keeps_one_entry(
                    old(self).bank_offsets@,
                    self.bank_offsets@,
                    sfont_id,
                    offset,
                );
            }
        }
    }

    /// Removes every offset entry of font `sfont_id`.
    pub fn remove_bank_offset(&mut self, sfont_id: u32)
        ensures
            old(self).wf() ==> final(self).wf(),
            final(self).fonts == old(self).fonts,
            final(self).sfont_id == old(self).sfont_id,
            final(self).bank_offsets@ == spec_without_offset(old(self).bank_offsets@, sfont_id),
    {
        let mut kept: Vec<BankOffset> = Vec::new();
        let n = self.bank_offsets.len();
        let mut i: usize = 0;
        let ghost mut from: Seq<int> = Seq::empty();
        while i < n
            invariant
                n == self.bank_offsets@.len(),
                0 <= i <= n,
                kept@ == spec_without_offset(self.bank_offsets@.take(i as int), sfont_id),
                from.len() == kept@.len(),
                forall|a: int| 0 <= a < kept@.len() ==> 0 <= #[trigger] from[a] < i && kept@[a] == self.bank_offsets@[from[a]],
                forall|a: int, b: int| 0 <= a < b < kept@.len() ==> #[trigger] from[a] < #[trigger] from[b],
            decreases n - i,
        {
            let o = self.bank_offsets[i];
            proof {
                let t = self.bank_offsets@.take(i + 1);
                assert(t.drop_last() =~= self.bank_offsets@.take(i as int));
                reveal_with_fuel(Seq::filter, 1);
            }
            if o.sfont_id != sfont_id {
                kept.push(o);
                proof {
                    from = from.push(i as int);
                }
            }
            i += 1;
        }
        proof {
            if old(self).wf() {
                assert forall|a: int, b: int| 0 <= a < b < kept@.len() implies #[trigger] kept@[a].sfont_id
                    != #[trigger] kept@[b].sfont_id by {
                    assert(from[a] < from[b]);
                }
            }
        }
        assert(self.bank_offsets@.take(n as int) =~= self.bank_offsets@);
        self.bank_offsets = kept;
    }

    /// The bank offset of font `id`, zero when none was set.
    fn offset_or_zero(&self, id: u32) -> (r: u32)
        ensures
            r == spec_offset_or_zero(self.bank_offsets@, id),
    {
        match self.get_bank_offset(id) {
            Some(o) => o.offset,
            None => 0,
        }
    }

    /// The preset with bank `banknum` (less the font's offset) and program
    /// `prognum` in the font with id `sfontnum`.
    pub fn get_preset(&self, sfontnum: u32, banknum: u32, prognum: u8) -> (r: Option<Preset>)
        ensures
            r == self.spec_get_preset(sfontnum, banknum, prognum),
    {
        match self.position(sfontnum) {
            Some(k) => {
                let offset = self.offset_or_zero(self.fonts[k].id);
                self.fonts[k].get_preset(banknum.wrapping_sub(offset), prognum)
            },
            None => None,
        }
    }

    /// The preset with bank `banknum` and program `prognum` in the topmost
    /// font that has one, each font's bank offset taken off first.
    pub fn find_preset(&self, banknum: u32, prognum: u8) -> (r: Option<Preset>)
        ensures
            r == self.spec_find_preset(banknum, prognum),
    {
        let n = self.fonts.len();
        let mut i: usize = 0;
        while i < n
            invariant
                n == self.fonts@.len(),
                0 <= i <= n,
                self.spec_find_preset(banknum, prognum) == spec_search_from(
                    self.fonts@,
                    self.bank_offsets@,
                    banknum,
                    prognum,
                    i as int,
                ),
            decreases n - i,
        {
            let offset = self.offset_or_zero(self.fonts[i].id);
            let p = self.fonts[i].get_preset(banknum.wrapping_sub(offset), prognum);
            if p.is_some() {
                return p;
            }
            i += 1;
        }
        None
    }
}

/// A search that finds a font finds one with that id, at or after where it
/// started.
pub proof fn lemma_font_pos_found(fonts: Seq<SoundFont>, id: u32, i: int)
    ensures
        spec_font_pos_from(fonts, id, i) matches Some(k) ==> i <= k < fonts.len() && fonts[k].id == id,
    decreases fonts.len() - i,
{
    if 0 <= i < fonts.len() && fonts[i].id != id {
        lemma_font_pos_found(fonts, id, i + 1);
    }
}

/// A search for an id no font has finds nothing.
pub proof fn lemma_font_pos_absent(fonts: Seq<SoundFont>, id: u32, i: int)
    requires
        forall|j: int| 0 <= j < fonts.len() ==> #[trigger] fonts[j].id != id,
    ensures
        spec_font_pos_from(fonts, id, i) is None,
    decreases fonts.len() - i,
{
    if 0 <= i < fonts.len() {
        lemma_font_pos_absent(fonts, id, i + 1);
    }
}

/// A search that finds an offset entry finds one of that font.
pub proof fn lemma_offset_pos_found(offsets: Seq<BankOffset>, id: u32, i: int)
    ensures
        spec_offset_pos_from(offsets, id, i) matches Some(k) ==> i <= k < offsets.len()
            && offsets[k].sfont_id == id,
    decreases offsets.len() - i,
{
    if 0 <= i < offsets.len() && offsets[i].sfont_id != id {
        lemma_offset_pos_found(offsets, id, i + 1);
    }
}

} // verus!
