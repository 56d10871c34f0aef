//! The remittance records, the identifier counter and the settlement markers.

use vstd::prelude::*;
use std::collections::HashMap;
use std::collections::HashSet;
use crate::errors::ContractError;
use crate::types::Remittance;

verus! {

broadcast use vstd::std_specs::hash::group_hash_axioms;

/// The records by identifier, the last identifier handed out, and the
/// identifiers that carry a settlement marker.
#[derive(Debug)]
pub struct RemittanceStore {
    records: HashMap<u64, Remittance>,
    counter: u64,
    settled: HashSet<u64>,
}

impl RemittanceStore {
    /// The records, by identifier.
    pub closed spec fn records(&self) -> Map<u64, Remittance> {
        self.records@
    }

    /// The last identifier handed out; zero before the first.
    pub closed spec fn spec_counter(&self) -> u64 {
        self.counter
    }

    /// The identifiers that carry a settlement marker.
    pub closed spec fn settled(&self) -> Set<u64> {
        self.settled@
    }

    /// Every record is stored under its own identifier, which was handed out
    /// before, and its amounts are consistent.
    pub open spec fn wf(&self) -> bool {
        forall|id: u64| #[trigger]
            self.records().contains_key(id) ==> {
                &&& self.records()[id].id == id
                &&& 1 <= id <= self.spec_counter()
                &&& self.records()[id].is_valid()
            }
    }

    /// Makes the store with no record, no marker, and no identifier handed
    /// out.
    pub fn new() -> (s: RemittanceStore)
        ensures
            s.wf(),
            s.records() == Map::<u64, Remittance>::empty(),
            s.spec_counter() == 0,
            s.settled() == Set::<u64>::empty(),
    {
        RemittanceStore { records: HashMap::new(), counter: 0, settled: HashSet::new() }
    }

    /// Returns the last identifier handed out.
    #[verifier::when_used_as_spec(spec_counter)]
    pub fn counter(&self) -> (c: u64)
        ensures
            c == self.spec_counter(),
    {
        self.counter
    }

    /// Hands out the next identifier: one more than the last, so the first is
    /// 1 and none comes twice. Records and markers stay as they are.
    ///
    /// Fails with `Overflow`, and changes nothing, where the last identifier
    /// was the largest `u64`.
    pub fn next_id(&mut self) -> (r: Result<u64, ContractError>)
        requires
            old(self).wf(),
        ensures
            final(self).wf(),
            final(self).records() == old(self).records(),
            final(self).settled() == old(self).settled(),
            old(self).spec_counter() < u64::MAX ==> r == Ok::<u64, ContractError>(
                (old(self).spec_counter() + 1) as u64,
            ) && final(self).spec_counter() == old(self).spec_counter() + 1,
            old(self).spec_counter() == u64::MAX ==> r == Err::<u64, ContractError>(
                ContractError::Overflow,
            ) && *final(self) == *old(self),
            r matches Ok(id) ==> !old(self).records().contains_key(id),
    {
        match self.counter.checked_add(1) {
            None => Err(ContractError::Overflow),
            Some(id) => {
                self.counter = id;
                Ok(id)
            },
        }
    }

    /// Stores `record` under its identifier, in place of the record that was
    /// there, if any. The counter and the markers stay as they are.
    pub fn put(&mut self, record: Remittance)
        requires
            old(self).wf(),
            record.is_valid(),
            1 <= record.id <= old(self).spec_counter(),
        ensures
            final(self).wf(),
            final(self).records() == old(self).records().insert(record.id, record),
            final(self).spec_counter() == old(self).spec_counter(),
            final(self).settled() == old(self).settled(),
    {
        self.records.insert(record.id, record);
    }

    /// Returns the record stored under `id`, if there is one.
    pub fn get(&self, id: u64) -> (r: Option<Remittance>)
        ensures
            r == (if self.records().contains_key(id) {
                Some(self.records()[id])
            } else {
                None
            }),
    {
        match self.records.get(&id) {
            Some(record) => Some(*record),
            None => None,
        }
    }

    /// Replaces the record stored under `id` by `record`. The counter and the
    /// markers stay as they are.
    ///
    /// Fails with `RemittanceNotFound`, and changes nothing, where no record
    /// is stored under `id`.
    pub fn update(&mut self, id: u64, record: Remittance) -> (r: Result<(), ContractError>)
        requires
            old(self).wf(),
            record.is_valid(),
            record.id == id,
        ensures
            final(self).wf(),
            final(self).spec_counter() == old(self).spec_counter(),
            final(self).settled() == old(self).settled(),
            old(self).records().contains_key(id) ==> r is Ok && final(self).records() == old(
                self,
            ).records().insert(id, record),
            !old(self).records().contains_key(id) ==> r == Err::<(), ContractError>(
                ContractError::RemittanceNotFound,
            ) && *final(self) == *old(self),
    {
        if !self.records.contains_key(&id) {
            return Err(ContractError::RemittanceNotFound);
        }
        self.records.insert(id, record);
        Ok(())
    }

    /// Tells whether `id` carries a settlement marker.
    pub fn is_settled(&self, id: u64) -> (b: bool)
        ensures
            b == self.settled().contains(id),
    {
        self.settled.contains(&id)
    }

    /// Puts a settlement marker on `id`. Records and counter stay as they
    /// are.
    pub fn mark_settled(&mut self, id: u64)
        ensures
            final(self).settled() == old(self).settled().insert(id),
            final(self).records() == old(self).records(),
            final(self).spec_counter() == old(self).spec_counter(),
            old(self).wf() ==> final(self).wf(),
    {
        self.settled.insert(id);
    }
}

} // verus!
