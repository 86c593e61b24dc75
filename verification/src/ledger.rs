//! Ledger store: a monotonically indexed map from id to encoded record.
//!
//! Ids are assigned starting at 1, strictly increasing, never reused and
//! never gapped: exactly the ids 1 through `count` are present. The
//! counter increment and the map insertion happen in one call, so a
//! caller holding the store exclusively can never observe an id without
//! its entry.

use vstd::prelude::*;

verus! {

use std::collections::HashMap;
use crate::codec::CompressedData;

broadcast use vstd::std_specs::hash::group_hash_axioms;

pub struct Ledger {
    storage: HashMap<u64, CompressedData>,
    zkio_counter: u64,
}

impl View for Ledger {
    type V = Map<u64, Seq<nat>>;

    closed spec fn view(&self) -> Map<u64, Seq<nat>> {
        self.storage@.map_values(|c: CompressedData| c@)
    }
}

impl Ledger {
    /// How many records have ever been inserted; also the highest id.
    pub closed spec fn count(&self) -> u64 {
        self.zkio_counter
    }

    /// The ids present are exactly 1 through `count`: none is skipped,
    /// none exceeds the counter, and id 0 is never used.
    pub open spec fn wf(&self) -> bool {
        forall|id: u64| self@.contains_key(id) <==> 1 <= id <= self.count()
    }

    pub fn new() -> (r: Ledger)
        ensures
            r@ == Map::<u64, Seq<nat>>::empty(),
            r.count() == 0,
            r.wf(),
    {
        let r = Ledger { storage: HashMap::new(), zkio_counter: 0 };
        proof {
            assert(r@ =~= Map::<u64, Seq<nat>>::empty());
        }
        r
    }

    /// Atomically draws the next id and files the record under it.
    pub fn insert(&mut self, rec: CompressedData) -> (id: u64)
        requires
            old(self).wf(),
            old(self).count() < u64::MAX,
        ensures
            id == old(self).count() + 1,
            final(self).count() == id,
            final(self)@ == old(self)@.insert(id, rec@),
            final(self).wf(),
    {
        self.zkio_counter = self.zkio_counter + 1;
        let id = self.zkio_counter;
        let ghost pre = self.storage@;
        self.storage.insert(id, rec);
        proof {
            assert(self@ =~= old(self)@.insert(id, rec@));
            assert forall|k: u64| final(self)@.contains_key(k) <==> 1 <= k <= id by {
                assert(final(self)@.contains_key(k) <==> k == id || old(self)@.contains_key(k));
            }
        }
        id
    }

    /// How many records the store holds.
    pub fn record_count(&self) -> (r: u64)
        ensures
            r == self.count(),
    {
        self.zkio_counter
    }

    /// Looks a record up by id; absence is a result, not an error.
    pub fn get(&self, index: u64) -> (r: Option<&CompressedData>)
        ensures
            match r {
                Some(c) => self@.contains_key(index) && c@ == self@[index],
                None => !self@.contains_key(index),
            },
    {
        self.storage.get(&index)
    }
}

} // verus!
