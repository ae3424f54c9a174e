//! The keyed store of records: one record per slot, and an abstract model of
//! it as a map from slots to record models.

use vstd::prelude::*;
use crate::address::Address;
use crate::state::{
    mapping_model, points_model, profile_model, record_at, same_slot, session_model,
    AddressMapping, AuthSession, Entry, MappingModel, PointsModel, Probe, Profile, ProfileModel,
    Record, ReverseLookup, SessionModel, Slot, UserPoints, POINT_VALUE_GORB,
};

verus! {

/// The model invariants that every operation preserves.
pub open spec fn model_wf(m: Map<Slot, Entry>) -> bool {
    &&& forall|k: Slot| #[trigger] m.contains_key(k) ==> m[k].slot() == k
    &&& forall|h: Seq<char>|
        #[trigger] m.contains_key(Slot::Profile(h)) <==> m.contains_key(Slot::Points(h))
    &&& forall|h: Seq<char>|
        #[trigger] m.contains_key(Slot::Points(h)) ==> points_value_consistent(m[Slot::Points(h)])
}

/// A points ledger's value is its balance times the value of one point.
pub open spec fn points_value_consistent(e: Entry) -> bool {
    match e {
        Entry::Points(p) => p.value as int == p.balance as int * POINT_VALUE_GORB as int,
        _ => true,
    }
}

pub open spec fn profile_of(m: Map<Slot, Entry>, h: Seq<char>) -> Option<ProfileModel> {
    if m.contains_key(Slot::Profile(h)) {
        match m[Slot::Profile(h)] {
            Entry::Profile(p) => Some(p),
            _ => None,
        }
    } else {
        None
    }
}

pub open spec fn points_of(m: Map<Slot, Entry>, h: Seq<char>) -> Option<PointsModel> {
    if m.contains_key(Slot::Points(h)) {
        match m[Slot::Points(h)] {
            Entry::Points(p) => Some(p),
            _ => None,
        }
    } else {
        None
    }
}

pub open spec fn mapping_of(m: Map<Slot, Entry>, h: Seq<char>, t: Seq<char>) -> Option<MappingModel> {
    if m.contains_key(Slot::Mapping(h, t)) {
        match m[Slot::Mapping(h, t)] {
            Entry::Mapping(x) => Some(x),
            _ => None,
        }
    } else {
        None
    }
}

pub open spec fn session_of(m: Map<Slot, Entry>, h: Seq<char>, s: Seq<char>) -> Option<SessionModel> {
    if m.contains_key(Slot::Session(h, s)) {
        match m[Slot::Session(h, s)] {
            Entry::Session(x) => Some(x),
            _ => None,
        }
    } else {
        None
    }
}

pub open spec fn reverse_of(m: Map<Slot, Entry>, a: Address) -> Option<Seq<char>> {
    if m.contains_key(Slot::Reverse(a)) {
        match m[Slot::Reverse(a)] {
            Entry::Reverse(_, h) => Some(h),
            _ => None,
        }
    } else {
        None
    }
}

/// The registry: identities, mappings, reverse lookups, points ledgers and
/// sessions of one program, each record at its own slot.
pub struct Registry {
    program_id: Address,
    records: Vec<Record>,
    model: Ghost<Map<Slot, Entry>>,
}

impl View for Registry {
    type V = Map<Slot, Entry>;

    closed spec fn view(&self) -> Map<Slot, Entry> {
        self.model@
    }
}

impl Registry {
    /// The stored records and the model agree, and no two records share a slot.
    pub closed spec fn store_wf(&self) -> bool {
        &&& forall|i: int|
            0 <= i < self.records@.len() ==> {
                &&& self.model@.contains_key(#[trigger] self.records@[i]@.slot())
                &&& self.model@[self.records@[i]@.slot()] == self.records@[i]@
            }
        &&& forall|k: Slot|
            #[trigger] self.model@.contains_key(k) ==> exists|i: int|
                0 <= i < self.records@.len() && #[trigger] self.records@[i]@.slot() == k
        &&& forall|i: int, j: int|
            0 <= i < self.records@.len() && 0 <= j < self.records@.len() && i != j
                ==> #[trigger] self.records@[i]@.slot() != #[trigger] self.records@[j]@.slot()
    }

    /// The program under which identity addresses are derived.
    pub closed spec fn program(&self) -> Address {
        self.program_id
    }

    pub fn program_id(&self) -> (r: Address)
        ensures
            r == self.program(),
    {
        self.program_id
    }

    pub open spec fn wf(&self) -> bool {
        &&& self.store_wf()
        &&& model_wf(self@)
    }

    /// An empty registry for the given program.
    pub fn new(program_id: Address) -> (r: Registry)
        ensures
            r.wf(),
            r.program() == program_id,
            r@ == Map::<Slot, Entry>::empty(),
    {
        Registry { program_id, records: Vec::new(), model: Ghost(Map::empty()) }
    }

    /// The index of the record at `probe`'s slot, if there is one.
    fn find(&self, probe: &Probe) -> (r: Option<usize>)
        requires
            self.store_wf(),
        ensures
            match r {
                Some(i) => {
                    &&& i < self.records@.len()
                    &&& self.records@[i as int]@.slot() == probe@
                    &&& self@.contains_key(probe@)
                    &&& self@[probe@] == self.records@[i as int]@
                },
                None => !self@.contains_key(probe@),
            },
    {
        let mut i: usize = 0;
        while i < self.records.len()
            invariant
                self.store_wf(),
                i <= self.records@.len(),
                forall|j: int| 0 <= j < i ==> #[trigger] self.records@[j]@.slot() != probe@,
            decreases self.records@.len() - i,
        {
            if record_at(&self.records[i], probe) {
                return Some(i);
            }
            i = i + 1;
        }
        None
    }

    /// Adds a record at a free slot.
    pub(crate) fn insert_new(&mut self, rec: Record)
        requires
            old(self).store_wf(),
            !old(self)@.contains_key(rec@.slot()),
        ensures
            final(self).store_wf(),
            final(self)@ == old(self)@.insert(rec@.slot(), rec@),
            final(self).program() == old(self).program(),
    {
        let ghost k = rec@.slot();
        let ghost e = rec@;
        self.records.push(rec);
        self.model = Ghost(self.model@.insert(k, e));
        proof {
            let n = self.records@.len() - 1;
            assert forall|kk: Slot| #[trigger] self.model@.contains_key(kk) implies exists|i: int|
                0 <= i < self.records@.len() && #[trigger] self.records@[i]@.slot() == kk by {
                if kk == k {
                    assert(self.records@[n]@.slot() == kk);
                } else {
                    assert(old(self).model@.contains_key(kk));
                    let i = choose|i: int|
                        0 <= i < old(self).records@.len() && #[trigger] old(
                            self,
                        ).records@[i]@.slot() == kk;
                    assert(self.records@[i]@.slot() == kk);
                }
            }
            assert forall|i: int| 0 <= i < self.records@.len() implies {
                &&& self.model@.contains_key(#[trigger] self.records@[i]@.slot())
                &&& self.model@[self.records@[i]@.slot()] == self.records@[i]@
            } by {
                if i < n {
                    assert(old(self).records@[i] == self.records@[i]);
                }
            }
        }
    }

    /// Puts `rec` in place of the record at index `i`, which has the same slot.
    fn replace(&mut self, i: usize, rec: Record)
        requires
            old(self).store_wf(),
            i < old(self).records@.len(),
            rec@.slot() == old(self).records@[i as int]@.slot(),
        ensures
            final(self).store_wf(),
            final(self)@ == old(self)@.insert(rec@.slot(), rec@),
            final(self).program() == old(self).program(),
    {
        let ghost k = rec@.slot();
        let ghost e = rec@;
        self.records.set(i, rec);
        self.model = Ghost(self.model@.insert(k, e));
        proof {
            assert forall|kk: Slot| #[trigger] self.model@.contains_key(kk) implies exists|j: int|
                0 <= j < self.records@.len() && #[trigger] self.records@[j]@.slot() == kk by {
                if kk == k {
                    assert(self.records@[i as int]@.slot() == kk);
                } else {
                    let j = choose|j: int|
                        0 <= j < old(self).records@.len() && #[trigger] old(
                            self,
                        ).records@[j]@.slot() == kk;
                    assert(self.records@[j]@.slot() == kk);
                }
            }
            assert forall|j: int| 0 <= j < self.records@.len() implies {
                &&& self.model@.contains_key(#[trigger] self.records@[j]@.slot())
                &&& self.model@[self.records@[j]@.slot()] == self.records@[j]@
            } by {
                if j != i {
                    assert(old(self).records@[j] == self.records@[j]);
                    assert(old(self).records@[j]@.slot() != k);
                }
            }
        }
    }

    /// Removes the record at index `i`.
    fn remove_at(&mut self, i: usize)
        requires
            old(self).store_wf(),
            i < old(self).records@.len(),
        ensures
            final(self).store_wf(),
            final(self)@ == old(self)@.remove(old(self).records@[i as int]@.slot()),
            final(self).program() == old(self).program(),
    {
        let ghost k = self.records@[i as int]@.slot();
        let ghost old_records = self.records@;
        self.records.remove(i);
        self.model = Ghost(self.model@.remove(k));
        proof {
            assert forall|kk: Slot| #[trigger] self.model@.contains_key(kk) implies exists|j: int|
                0 <= j < self.records@.len() && #[trigger] self.records@[j]@.slot() == kk by {
                let j = choose|j: int|
                    0 <= j < old_records.len() && #[trigger] old_records[j]@.slot() == kk;
                assert(j != i);
                if j < i {
                    assert(self.records@[j] == old_records[j]);
                } else {
                    assert(self.records@[j - 1] == old_records[j]);
                }
            }
            assert forall|j: int| 0 <= j < self.records@.len() implies {
                &&& self.model@.contains_key(#[trigger] self.records@[j]@.slot())
                &&& self.model@[self.records@[j]@.slot()] == self.records@[j]@
            } by {
                if j < i {
                    assert(self.records@[j] == old_records[j]);
                } else {
                    assert(self.records@[j] == old_records[j + 1]);
                }
            }
            assert forall|a: int, b: int|
                0 <= a < self.records@.len() && 0 <= b < self.records@.len() && a != b
                    implies #[trigger] self.records@[a]@.slot() != #[trigger] self.records@[b]@.slot() by {
                let oa = if a < i { a } else { a + 1 };
                let ob = if b < i { b } else { b + 1 };
                assert(self.records@[a] == old_records[oa]);
                assert(self.records@[b] == old_records[ob]);
            }
        }
    }
}

impl Registry {
    /// The index of the record at the slot of `rec`, if there is one.
    fn find_slot_of(&self, rec: &Record) -> (r: Option<usize>)
        requires
            self.store_wf(),
        ensures
            match r {
                Some(i) => i < self.records@.len() && self.records@[i as int]@.slot() == rec@.slot(),
                None => !self@.contains_key(rec@.slot()),
            },
    {
        let mut i: usize = 0;
        while i < self.records.len()
            invariant
                self.store_wf(),
                i <= self.records@.len(),
                forall|j: int| 0 <= j < i ==> #[trigger] self.records@[j]@.slot() != rec@.slot(),
            decreases self.records@.len() - i,
        {
            if same_slot(&self.records[i], rec) {
                return Some(i);
            }
            i = i + 1;
        }
        None
    }

    /// Stores `rec` at its slot, in place of what was there.
    pub(crate) fn put(&mut self, rec: Record)
        requires
            old(self).store_wf(),
        ensures
            final(self).store_wf(),
            final(self)@ == old(self)@.insert(rec@.slot(), rec@),
            final(self).program() == old(self).program(),
    {
        match self.find_slot_of(&rec) {
            Some(i) => self.replace(i, rec),
            None => self.insert_new(rec),
        }
    }

    /// Removes the record at `probe`'s slot, if there is one.
    pub(crate) fn delete(&mut self, probe: &Probe)
        requires
            old(self).store_wf(),
        ensures
            final(self).store_wf(),
            final(self)@ == old(self)@.remove(probe@),
            final(self).program() == old(self).program(),
    {
        match self.find(probe) {
            Some(i) => self.remove_at(i),
            None => {
                assert(self@.remove(probe@) =~= self@);
            },
        }
    }

    /// The identity registered under `h`, with its derived address.
    pub fn profile(&self, h: &String) -> (r: Option<(Address, &Profile)>)
        requires
            self.wf(),
        ensures
            match r {
                Some((a, p)) => profile_of(self@, h@) == Some(profile_model(a, *p)),
                None => profile_of(self@, h@) is None,
            },
    {
        match self.find(&Probe::Profile(h)) {
            Some(i) => match &self.records[i] {
                Record::Profile { address, profile } => Some((*address, profile)),
                _ => None,
            },
            None => None,
        }
    }

    /// The points ledger of `h`.
    pub fn points(&self, h: &String) -> (r: Option<&UserPoints>)
        requires
            self.wf(),
        ensures
            match r {
                Some(p) => points_of(self@, h@) == Some(points_model(*p)),
                None => points_of(self@, h@) is None,
            },
    {
        match self.find(&Probe::Points(h)) {
            Some(i) => match &self.records[i] {
                Record::Points(p) => Some(p),
                _ => None,
            },
            None => None,
        }
    }

    /// The mapping `t@h`.
    pub fn mapping(&self, h: &String, t: &String) -> (r: Option<&AddressMapping>)
        requires
            self.wf(),
        ensures
            match r {
                Some(x) => mapping_of(self@, h@, t@) == Some(mapping_model(*h, *x)),
                None => mapping_of(self@, h@, t@) is None,
            },
    {
        match self.find(&Probe::Mapping(h, t)) {
            Some(i) => match &self.records[i] {
                Record::Mapping { mapping, .. } => Some(mapping),
                _ => None,
            },
            None => None,
        }
    }

    /// The session `s` of `h`.
    pub fn session(&self, h: &String, s: &String) -> (r: Option<&AuthSession>)
        requires
            self.wf(),
        ensures
            match r {
                Some(x) => session_of(self@, h@, s@) == Some(session_model(*x)),
                None => session_of(self@, h@, s@) is None,
            },
    {
        match self.find(&Probe::Session(h, s)) {
            Some(i) => match &self.records[i] {
                Record::Session(x) => Some(x),
                _ => None,
            },
            None => None,
        }
    }

    /// The handle that `a` was last registered as main address of.
    pub fn reverse_lookup(&self, a: Address) -> (r: Option<&ReverseLookup>)
        requires
            self.wf(),
        ensures
            match r {
                Some(x) => reverse_of(self@, a) == Some(x.username@),
                None => reverse_of(self@, a) is None,
            },
    {
        match self.find(&Probe::Reverse(a)) {
            Some(i) => match &self.records[i] {
                Record::Reverse { lookup, .. } => Some(lookup),
                _ => None,
            },
            None => None,
        }
    }
}

} // verus!
