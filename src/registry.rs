use vstd::prelude::*;
use crate::strategy::{CycleObtainStrategy, FundStrategy};

verus! {

/// A principal (the id of a canister or a subnet): its bytes (at most 29), big-endian in
/// `hi` (the first 16 bytes) and `lo` (the rest), zero-padded, with their count in `len`.
#[derive(Clone, Copy, Debug, PartialEq, Eq, Hash, Structural)]
pub struct PrincipalId {
    pub len: u8,
    pub hi: u128,
    pub lo: u128,
}

/// The identifier of a monitored canister.
pub type CanisterId = PrincipalId;

/// The monitoring state of one canister.
#[derive(Clone, Copy, Debug, PartialEq, Eq, Structural)]
pub struct CanisterRecord {
    /// The last balance observed, `None` until the first successful observation.
    pub last_known_budget: Option<u128>,
    /// When to top the canister up.
    pub fund_strategy: FundStrategy,
    /// How to obtain its cycles; `None` defers to the manager's global strategy.
    pub obtain_strategy: Option<CycleObtainStrategy>,
}

/// The record stored when `id` is (re-)registered over `reg`: new strategies, and the
/// balance that `reg` already knew of it.
pub open spec fn spec_registered(
    reg: Map<CanisterId, CanisterRecord>,
    id: CanisterId,
    fund_strategy: FundStrategy,
    obtain_strategy: Option<CycleObtainStrategy>,
) -> CanisterRecord {
    CanisterRecord {
        last_known_budget: if reg.contains_key(id) {
            reg[id].last_known_budget
        } else {
            None
        },
        fund_strategy,
        obtain_strategy,
    }
}

/// The registry of monitored canisters: each id at most once.
pub struct Registry {
    entries: Vec<(CanisterId, CanisterRecord)>,
}

impl Registry {
    /// No id appears twice.
    pub closed spec fn wf(&self) -> bool {
        forall|i: int, j: int|
            0 <= i < self.entries@.len() && 0 <= j < self.entries@.len() && i != j
                ==> (#[trigger] self.entries@[i]).0 != (#[trigger] self.entries@[j]).0
    }

    /// The registry as a map from canister id to its record.
    pub closed spec fn view(&self) -> Map<CanisterId, CanisterRecord> {
        Map::new(
            |k: CanisterId| exists|i: int| 0 <= i < self.entries@.len() && #[trigger] self.entries@[i].0 == k,
            |k: CanisterId|
                self.entries@[choose|i: int| 0 <= i < self.entries@.len() && #[trigger] self.entries@[i].0 == k].1,
        )
    }

    proof fn lemma_entry(&self, i: int)
        requires
            self.wf(),
            0 <= i < self.entries@.len(),
        ensures
            self@.contains_key(self.entries@[i].0),
            self@[self.entries@[i].0] == self.entries@[i].1,
    {
        let k = self.entries@[i].0;
        assert(self.entries@[i].0 == k);
        let j = choose|j: int| 0 <= j < self.entries@.len() && #[trigger] self.entries@[j].0 == k;
        assert(j == i);
    }

    pub fn new() -> (r: Registry)
        ensures
            r.wf(),
            r@ == Map::<CanisterId, CanisterRecord>::empty(),
    {
        let r = Registry { entries: Vec::new() };
        assert(r@ =~= Map::<CanisterId, CanisterRecord>::empty());
        r
    }

    /// The position of `id` in the entries, if it is registered.
    fn position(&self, id: &CanisterId) -> (r: Option<usize>)
        requires
            self.wf(),
        ensures
            match r {
                Some(i) => i < self.entries@.len() && self.entries@[i as int].0 == *id,
                None => !self@.contains_key(*id),
            },
    {
        let mut i: usize = 0;
        while i < self.entries.len()
            invariant
                i <= self.entries@.len(),
                forall|j: int| 0 <= j < i ==> self.entries@[j].0 != *id,
            decreases self.entries@.len() - i,
        {
            if self.entries[i].0 == *id {
                return Some(i);
            }
            i = i + 1;
        }
        None
    }

    /// The record of `id`, if it is registered.
    pub fn get(&self, id: &CanisterId) -> (r: Option<CanisterRecord>)
        requires
            self.wf(),
        ensures
            r == (if self@.contains_key(*id) { Some(self@[*id]) } else { None }),
    {
        match self.position(id) {
            Some(i) => {
                proof {
                    self.lemma_entry(i as int);
                }
                Some(self.entries[i].1)
            },
            None => None,
        }
    }

    /// Stores `rec` under `id`, replacing any record that `id` had.
    pub fn insert(&mut self, id: CanisterId, rec: CanisterRecord)
        requires
            old(self).wf(),
        ensures
            final(self).wf(),
            final(self)@ == old(self)@.insert(id, rec),
    {
        let pos = self.position(&id);
        let ghost old_entries = self.entries@;
        match pos {
            Some(i) => {
                self.entries.set(i, (id, rec));
            },
            None => {
                self.entries.push((id, rec));
            },
        }
        proof {
            let ghost new_map = old(self)@.insert(id, rec);
            assert forall|k: CanisterId| #[trigger] self@.contains_key(k) <==> new_map.contains_key(k) by {
                if new_map.contains_key(k) && k != id {
                    let j = choose|j: int| 0 <= j < old_entries.len() && #[trigger] old_entries[j].0 == k;
                    assert(self.entries@[j].0 == k);
                }
                if k == id {
                    match pos {
                        Some(i) => { assert(self.entries@[i as int].0 == k); },
                        None => { assert(self.entries@[old_entries.len() as int].0 == k); },
                    }
                }
                if self@.contains_key(k) && k != id {
                    let j = choose|j: int| 0 <= j < self.entries@.len() && #[trigger] self.entries@[j].0 == k;
                    assert(old_entries[j].0 == k);
                }
            }
            assert forall|k: CanisterId| #[trigger] self@.contains_key(k) implies self@[k] == new_map[k] by {
                let j = choose|j: int| 0 <= j < self.entries@.len() && #[trigger] self.entries@[j].0 == k;
                self.lemma_entry(j);
                if k != id {
                    old(self).lemma_entry(j);
                }
            }
            assert(self@ =~= new_map);
        }
    }

    /// Removes `id`; nothing changes where it is not registered.
    pub fn remove(&mut self, id: &CanisterId)
        requires
            old(self).wf(),
        ensures
            final(self).wf(),
            final(self)@ == old(self)@.remove(*id),
    {
        let pos = self.position(id);
        let ghost old_entries = self.entries@;
        match pos {
            Some(i) => {
                self.entries.remove(i);
                proof {
                    let ghost new_map = old(self)@.remove(*id);
                    assert forall|a: int, b: int|
                        0 <= a < self.entries@.len() && 0 <= b < self.entries@.len() && a != b
                            implies (#[trigger] self.entries@[a]).0 != (#[trigger] self.entries@[b]).0 by {
                        let oa = if a < i { a } else { a + 1 };
                        let ob = if b < i { b } else { b + 1 };
                        assert(old_entries[oa] == self.entries@[a]);
                        assert(old_entries[ob] == self.entries@[b]);
                    }
                    assert forall|k: CanisterId| #[trigger] self@.contains_key(k) <==> new_map.contains_key(k) by {
                        if new_map.contains_key(k) {
                            let j = choose|j: int| 0 <= j < old_entries.len() && #[trigger] old_entries[j].0 == k;
                            assert(j != i);
                            let nj = if j < i { j } else { j - 1 };
                            assert(self.entries@[nj].0 == k);
                        }
                        if self@.contains_key(k) {
                            let j = choose|j: int| 0 <= j < self.entries@.len() && #[trigger] self.entries@[j].0 == k;
                            let oj = if j < i { j } else { j + 1 };
                            assert(old_entries[oj].0 == k);
                            assert(oj != i);
                        }
                    }
                    assert forall|k: CanisterId| #[trigger] self@.contains_key(k) implies self@[k] == new_map[k] by {
                        let j = choose|j: int| 0 <= j < self.entries@.len() && #[trigger] self.entries@[j].0 == k;
                        self.lemma_entry(j);
                        let oj = if j < i { j } else { j + 1 };
                        assert(old_entries[oj] == self.entries@[j]);
                        old(self).lemma_entry(oj);
                    }
                    assert(self@ =~= new_map);
                }
            },
            None => {
                assert(self@ =~= old(self)@.remove(*id));
            },
        }
    }

    /// Every registered id with its record, each id once.
    pub fn snapshot(&self) -> (r: Vec<(CanisterId, CanisterRecord)>)
        requires
            self.wf(),
        ensures
            forall|i: int| 0 <= i < r@.len() ==> self@.contains_key(#[trigger] r@[i].0) && self@[r@[i].0] == r@[i].1,
            forall|k: CanisterId| #[trigger] self@.contains_key(k) ==> exists|i: int| 0 <= i < r@.len() && #[trigger] r@[i].0 == k,
            forall|i: int, j: int| 0 <= i < r@.len() && 0 <= j < r@.len() && i != j ==> (#[trigger] r@[i]).0 != (#[trigger] r@[j]).0,
    {
        let mut r: Vec<(CanisterId, CanisterRecord)> = Vec::new();
        let mut i: usize = 0;
        while i < self.entries.len()
            invariant
                i <= self.entries@.len(),
                r@ =~= self.entries@.subrange(0, i as int),
            decreases self.entries@.len() - i,
        {
            r.push(self.entries[i]);
            i = i + 1;
        }
        assert(r@ =~= self.entries@);
        proof {
            assert forall|i: int| 0 <= i < r@.len() implies self@.contains_key(#[trigger] r@[i].0) && self@[r@[i].0] == r@[i].1 by {
                self.lemma_entry(i);
            }
        }
        r
    }
}

} // verus!
