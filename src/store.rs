use vstd::prelude::*;
use std::collections::HashMap;

use crate::record::Remittance;

verus! {

broadcast use vstd::std_specs::hash::group_hash_axioms;

/// What a ledger store holds: the transaction counter and the records by
/// identifier.
pub struct LedgerState {
    pub counter: u64,
    pub records: Map<u64, Remittance>,
}

impl LedgerState {
    /// The state of a store that has never been written.
    pub open spec fn empty() -> LedgerState {
        LedgerState { counter: 0, records: Map::empty() }
    }
}

/// Keyed store of the ledger: a counter that starts at zero and a map from
/// transaction identifier to record.
pub struct LedgerStore {
    counter: u64,
    records: HashMap<u64, Remittance>,
}

impl View for LedgerStore {
    type V = LedgerState;

    closed spec fn view(&self) -> LedgerState {
        LedgerState { counter: self.counter, records: self.records@ }
    }
}

impl LedgerStore {
    /// A store with the counter at zero and no records.
    pub fn new() -> (s: LedgerStore)
        ensures
            s@ == LedgerState::empty(),
    {
        let s = LedgerStore { counter: 0, records: HashMap::new() };
        assert(s@.records =~= Map::<u64, Remittance>::empty());
        s
    }

    /// The counter; zero until it is first set.
    pub fn get_counter(&self) -> (n: u64)
        ensures
            n == self@.counter,
    {
        self.counter
    }

    /// Overwrites the counter.
    pub fn set_counter(&mut self, n: u64)
        ensures
            final(self)@ == (LedgerState { counter: n, records: old(self)@.records }),
    {
        self.counter = n;
    }

    /// The record stored under `id`, if any.
    pub fn get_record(&self, id: u64) -> (r: Option<Remittance>)
        ensures
            r == (if self@.records.contains_key(id) {
                Some(self@.records[id])
            } else {
                None::<Remittance>
            }),
    {
        match self.records.get(&id) {
            Some(rec) => Some(rec.duplicate()),
            None => None,
        }
    }

    /// Creates or overwrites the record stored under `id`.
    pub fn put_record(&mut self, id: u64, record: Remittance)
        ensures
            final(self)@ == (LedgerState {
                counter: old(self)@.counter,
                records: old(self)@.records.insert(id, record),
            }),
    {
        self.records.insert(id, record);
    }
}

} // verus!
