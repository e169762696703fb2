use vstd::prelude::*;

verus! {

/// A tuning registered under a bank and a program number.
#[derive(Debug)]
pub struct TuningEntry<T> {
    pub bank: u32,
    pub prog: u32,
    pub tuning: T,
}

/// The tunings of a synthesizer, one per bank and program.
#[derive(Debug)]
pub struct TuningBank<T> {
    pub entries: Vec<TuningEntry<T>>,
}

/// Position of the entry for `bank` and `prog` at or after position `i`.
pub open spec fn spec_tuning_pos_from<T>(s: Seq<TuningEntry<T>>, bank: u32, prog: u32, i: int) -> Option<int>
    decreases s.len() - i,
{
    if i < 0 || i >= s.len() {
        None
    } else if s[i].bank == bank && s[i].prog == prog {
        Some(i)
    } else {
        spec_tuning_pos_from(s, bank, prog, i + 1)
    }
}

/// Position of the entry for `bank` and `prog`.
pub open spec fn spec_tuning_pos<T>(s: Seq<TuningEntry<T>>, bank: u32, prog: u32) -> Option<int> {
    spec_tuning_pos_from(s, bank, prog, 0)
}

/// The position found holds an entry for that bank and program.
pub proof fn lemma_tuning_pos_found<T>(s: Seq<TuningEntry<T>>, bank: u32, prog: u32, i: int)
    ensures
        spec_tuning_pos_from(s, bank, prog, i) matches Some(k) ==> i <= k < s.len() && s[k].bank == bank
            && s[k].prog == prog,
    decreases s.len() - i,
{
    if 0 <= i < s.len() && !(s[i].bank == bank && s[i].prog == prog) {
        lemma_tuning_pos_found(s, bank, prog, i + 1);
    }
}

/// The search finds the first entry for that bank and program.
pub proof fn lemma_tuning_pos_first<T>(s: Seq<TuningEntry<T>>, bank: u32, prog: u32, k: int, i: int)
    requires
        0 <= i <= k < s.len(),
        s[k].bank == bank && s[k].prog == prog,
        forall|j: int| 0 <= j < k ==> !(#[trigger] s[j].bank == bank && s[j].prog == prog),
    ensures
        spec_tuning_pos_from(s, bank, prog, i) == Some(k),
    decreases k - i,
{
    if i < k {
        lemma_tuning_pos_first(s, bank, prog, k, i + 1);
    }
}

/// A search for a key no entry has finds nothing.
pub proof fn lemma_tuning_pos_absent<T>(s: Seq<TuningEntry<T>>, bank: u32, prog: u32, i: int)
    requires
        forall|j: int| 0 <= j < s.len() ==> !(#[trigger] s[j].bank == bank && s[j].prog == prog),
    ensures
        spec_tuning_pos_from(s, bank, prog, i) is None,
    decreases s.len() - i,
{
    if 0 <= i < s.len() {
        lemma_tuning_pos_absent(s, bank, prog, i + 1);
    }
}

impl<T> TuningBank<T> {
    /// No two entries share a bank and a program.
    pub open spec fn wf(&self) -> bool {
        forall|i: int, j: int|
            0 <= i < j < self.entries@.len() ==> !(#[trigger] self.entries@[i].bank == #[trigger] self.entries@[j].bank
                && self.entries@[i].prog == self.entries@[j].prog)
    }

    /// The tuning registered for `bank` and `prog`, if any.
    pub open spec fn spec_get(&self, bank: u32, prog: u32) -> Option<T> {
        match spec_tuning_pos(self.entries@, bank, prog) {
            Some(k) => Some(self.entries@[k].tuning),
            None => None,
        }
    }

    /// No tunings.
    pub fn new() -> (r: Self)
        ensures
            r.wf(),
            r.entries@.len() == 0,
    {
        TuningBank { entries: Vec::new() }
    }

    /// Position of the entry for `bank` and `prog`.
    pub fn position(&self, bank: u32, prog: u32) -> (r: Option<usize>)
        ensures
            r matches Some(k) ==> spec_tuning_pos(self.entries@, bank, prog) == Some(k as int) && k
                < self.entries@.len(),
            r is None ==> spec_tuning_pos(self.entries@, bank, prog) is None,
    {
        let n = self.entries.len();
        let mut i: usize = 0;
        while i < n
            invariant
                n == self.entries@.len(),
                0 <= i <= n,
                spec_tuning_pos(self.entries@, bank, prog) == spec_tuning_pos_from(self.entries@, bank, prog, i as int),
            decreases n - i,
        {
            if self.entries[i].bank == bank && self.entries[i].prog == prog {
                return Some(i);
            }
            i += 1;
        }
        None
    }

    /// Registers a tuning under `bank` and `prog`, replacing the one there.
    pub fn add_tuning(&mut self, bank: u32, prog: u32, tuning: T)
        requires
            old(self).wf(),
        ensures
            final(self).wf(),
            match spec_tuning_pos(old(self).entries@, bank, prog) {
                Some(k) => final(self).entries@ == old(self).entries@.update(k, TuningEntry { bank, prog, tuning }),
                None => final(self).entries@ == old(self).entries@.push(TuningEntry { bank, prog, tuning }),
            },
    {
        match self.position(bank, prog) {
            Some(k) => {
                proof {
                    lemma_tuning_pos_found(self.entries@, bank, prog, 0);
                }
                self.entries.set(k, TuningEntry { bank, prog, tuning });
            },
            None => {
                proof {
                    lemma_tuning_pos_found(self.entries@, bank, prog, 0);
                    assert forall|j: int| 0 <= j < self.entries@.len() implies !(#[trigger] self.entries@[j].bank == bank
                        && self.entries@[j].prog == prog) by {
                        if self.entries@[j].bank == bank && self.entries@[j].prog == prog {
                            lemma_first_exists(self.entries@, bank, prog, j);
                        }
                    }
                }
                self.entries.push(TuningEntry { bank, prog, tuning });
            },
        }
    }

    /// Removes the tuning registered under `bank` and `prog` and returns it;
    /// fails when there is none.
    pub fn remove_tuning(&mut self, bank: u32, prog: u32) -> (r: Result<T, ()>)
        requires
            old(self).wf(),
        ensures
            final(self).wf(),
            match spec_tuning_pos(old(self).entries@, bank, prog) {
                Some(k) => r == Ok::<T, ()>(old(self).entries@[k].tuning) && final(self).entries@ == old(self).entries@.remove(k),
                None => r == Err::<T, ()>(()) && final(self).entries@ == old(self).entries@,
            },
    {
        match self.position(bank, prog) {
            Some(k) => {
                let e = self.entries.remove(k);
                assert forall|i: int, j: int|
                    0 <= i < j < self.entries@.len() implies !(#[trigger] self.entries@[i].bank == #[trigger] self.entries@[j].bank
                    && self.entries@[i].prog == self.entries@[j].prog) by {
                    let oi = if i < k { i } else { i + 1 };
                    let oj = if j < k { j } else { j + 1 };
                    assert(self.entries@[i] == old(self).entries@[oi]);
                    assert(self.entries@[j] == old(self).entries@[oj]);
                }
                Ok(e.tuning)
            },
            None => Err(()),
        }
    }

    /// The tuning registered under `bank` and `prog`.
    pub fn get_tuning(&self, bank: u32, prog: u32) -> (r: Option<&T>)
        ensures
            r matches Some(t) ==> self.spec_get(bank, prog) == Some(*t),
            r is None ==> self.spec_get(bank, prog) is None,
    {
        match self.position(bank, prog) {
            Some(k) => Some(&self.entries[k].tuning),
            None => None,
        }
    }

    /// Whether a tuning is registered under `bank` and `prog`.
    pub fn contains(&self, bank: u32, prog: u32) -> (r: bool)
        ensures
            r == self.spec_get(bank, prog) is Some,
    {
        self.position(bank, prog).is_some()
    }

    /// Number of registered tunings.
    pub fn len(&self) -> (r: usize)
        ensures
            r == self.entries@.len(),
    {
        self.entries.len()
    }
}

/// When some entry has the key, the search finds one.
proof fn lemma_first_exists<T>(s: Seq<TuningEntry<T>>, bank: u32, prog: u32, j: int)
    requires
        0 <= j < s.len(),
        s[j].bank == bank && s[j].prog == prog,
    ensures
        spec_tuning_pos(s, bank, prog) is Some,
    decreases j,
{
    lemma_first_exists_from(s, bank, prog, j, 0);
}

proof fn lemma_first_exists_from<T>(s: Seq<TuningEntry<T>>, bank: u32, prog: u32, j: int, i: int)
    requires
        0 <= i <= j < s.len(),
        s[j].bank == bank && s[j].prog == prog,
    ensures
        spec_tuning_pos_from(s, bank, prog, i) is Some,
    decreases j - i,
{
    if i < j && !(s[i].bank == bank && s[i].prog == prog) {
        lemma_first_exists_from(s, bank, prog, j, i + 1);
    }
}

/// Registering a tuning and then looking it up gives it back.
pub proof fn lemma_add_then_get<T>(b: TuningBank<T>, b2: TuningBank<T>, bank: u32, prog: u32, t: T)
    requires
        b.wf(),
        match spec_tuning_pos(b.entries@, bank, prog) {
            Some(k) => b2.entries@ == b.entries@.update(k, TuningEntry { bank, prog, tuning: t }),
            None => b2.entries@ == b.entries@.push(TuningEntry { bank, prog, tuning: t }),
        },
    ensures
        b2.spec_get(bank, prog) == Some(t),
{
    lemma_tuning_pos_found(b.entries@, bank, prog, 0);
    match spec_tuning_pos(b.entries@, bank, prog) {
        Some(k) => {
            assert forall|j: int| 0 <= j < k implies !(#[trigger] b2.entries@[j].bank == bank && b2.entries@[j].prog
                == prog) by {
                assert(b2.entries@[j] == b.entries@[j]);
            }
            lemma_tuning_pos_first(b2.entries@, bank, prog, k, 0);
        },
        None => {
            let n = b.entries@.len() as int;
            assert forall|j: int| 0 <= j < n implies !(#[trigger] b2.entries@[j].bank == bank && b2.entries@[j].prog
                == prog) by {
                assert(b2.entries@[j] == b.entries@[j]);
                if b.entries@[j].bank == bank && b.entries@[j].prog == prog {
                    lemma_first_exists(b.entries@, bank, prog, j);
                }
            }
            lemma_tuning_pos_first(b2.entries@, bank, prog, n, 0);
        },
    }
}

/// Registering a tuning leaves the tunings of every other bank and program
/// as they were.
pub proof fn lemma_add_keeps_others<T>(
    b: TuningBank<T>,
    b2: TuningBank<T>,
    bank: u32,
    prog: u32,
    t: T,
    other_bank: u32,
    other_prog: u32,
)
    requires
        b.wf(),
        match spec_tuning_pos(b.entries@, bank, prog) {
            Some(k) => b2.entries@ == b.entries@.update(k, TuningEntry { bank, prog, tuning: t }),
            None => b2.entries@ == b.entries@.push(TuningEntry { bank, prog, tuning: t }),
        },
        other_bank != bank || other_prog != prog,
    ensures
        b2.spec_get(other_bank, other_prog) == b.spec_get(other_bank, other_prog),
{
    lemma_tuning_pos_found(b.entries@, bank, prog, 0);
    lemma_tuning_pos_agree(b.entries@, b2.entries@, other_bank, other_prog, 0);
    lemma_tuning_pos_found(b.entries@, other_bank, other_prog, 0);
}

proof fn lemma_tuning_pos_agree<T>(old: Seq<TuningEntry<T>>, new: Seq<TuningEntry<T>>, bank: u32, prog: u32, i: int)
    requires
        0 <= i,
        old.len() <= new.len(),
        forall|j: int|
            0 <= j < new.len() ==> ((#[trigger] new[j].bank == bank && new[j].prog == prog) <==> (j < old.len()
                && old[j].bank == bank && old[j].prog == prog)),
        forall|j: int| 0 <= j < old.len() && old[j].bank == bank && old[j].prog == prog ==> #[trigger] new[j] == old[j],
    ensures
        spec_tuning_pos_from(new, bank, prog, i) == spec_tuning_pos_from(old, bank, prog, i),
    decreases new.len() - i,
{
    if i < new.len() {
        lemma_tuning_pos_agree(old, new, bank, prog, i + 1);
    }
}

/// Once a tuning is removed, none is registered for its bank and program.
pub proof fn lemma_remove_then_absent<T>(b: TuningBank<T>, b2: TuningBank<T>, bank: u32, prog: u32)
    requires
        b.wf(),
        spec_tuning_pos(b.entries@, bank, prog) matches Some(k) && b2.entries@ == b.entries@.remove(k),
    ensures
        b2.spec_get(bank, prog) is None,
{
    let k = spec_tuning_pos(b.entries@, bank, prog).unwrap();
    lemma_tuning_pos_found(b.entries@, bank, prog, 0);
    assert forall|j: int| 0 <= j < b2.entries@.len() implies !(#[trigger] b2.entries@[j].bank == bank
        && b2.entries@[j].prog == prog) by {
        if j < k {
            assert(b2.entries@[j] == b.entries@[j]);
        } else {
            assert(b2.entries@[j] == b.entries@[j + 1]);
        }
    }
    lemma_tuning_pos_absent(b2.entries@, bank, prog, 0);
}

} // verus!
