//! The agents that may be named as the recipient of a remittance.

use vstd::prelude::*;
use crate::errors::ContractError;
use crate::types::Address;

verus! {

/// The set of registered agents.
#[derive(Debug)]
pub struct AgentRegistry {
    agents: Vec<Address>,
}

impl View for AgentRegistry {
    type V = Set<Address>;

    closed spec fn view(&self) -> Set<Address> {
        self.agents@.to_set()
    }
}

impl AgentRegistry {
    /// No agent is held twice.
    pub closed spec fn wf(&self) -> bool {
        self.agents@.no_duplicates()
    }

    /// The number of registered agents.
    pub closed spec fn spec_len(&self) -> nat {
        self.agents@.len()
    }

    /// In a well-formed registry the number of agents is the size of the set.
    pub proof fn lemma_len_is_cardinality(&self)
        requires
            self.wf(),
        ensures
            self@.finite(),
            self@.len() == self.spec_len(),
    {
        self.agents@.unique_seq_to_set();
    }

    /// Makes the registry with no agent in it: its set of agents is empty
    /// and its count is zero.
    pub fn new() -> (r: AgentRegistry)
        ensures
            r.wf(),
            r@ == Set::<Address>::empty(),
            r.spec_len() == 0,
    {
        let r = AgentRegistry { agents: Vec::new() };
        assert(r.agents@.to_set() =~= Set::<Address>::empty());
        r
    }

    /// Finds the place of `agent` in the list, if it is there.
    fn position(&self, agent: &Address) -> (p: Option<usize>)
        ensures
            match p {
                Some(i) => i < self.agents@.len() && self.agents@[i as int] == *agent,
                None => !self.agents@.contains(*agent),
            },
    {
        let mut i: usize = 0;
        while i < self.agents.len()
            invariant
                i <= self.agents@.len(),
                forall|j: int| 0 <= j < i ==> self.agents@[j] != *agent,
            decreases self.agents@.len() - i,
        {
            if self.agents[i] == *agent {
                return Some(i);
            }
            i += 1;
        }
        None
    }

    /// Tells whether `agent` is registered.
    pub fn is_registered(&self, agent: &Address) -> (b: bool)
        ensures
            b == self@.contains(*agent),
    {
        self.position(agent).is_some()
    }

    /// Returns how many agents are registered.
    pub fn len(&self) -> (n: usize)
        ensures
            n == self.spec_len(),
    {
        self.agents.len()
    }

    /// Registers `agent`. Registering an agent that is registered already
    /// changes nothing. Returns whether the agent is new to the registry.
    pub fn register(&mut self, agent: Address) -> (added: bool)
        requires
            old(self).wf(),
        ensures
            final(self).wf(),
            final(self)@ == old(self)@.insert(agent),
            added == !old(self)@.contains(agent),
            final(self).spec_len() == old(self).spec_len() + (if added { 1nat } else { 0nat }),
    {
        match self.position(&agent) {
            Some(_) => {
                assert(self.agents@.to_set().insert(agent) =~= self.agents@.to_set());
                false
            },
            None => {
                let ghost before = self.agents@;
                self.agents.push(agent);
                assert(self.agents@.to_set() =~= before.to_set().insert(agent)) by {
                    assert forall|a: Address| self.agents@.contains(a) <==> (before.contains(a) || a
                        == agent) by {
                        if before.contains(a) {
                            let i = choose|i: int| 0 <= i < before.len() && before[i] == a;
                            assert(self.agents@[i] == a);
                        }
                        if a == agent {
                            assert(self.agents@[before.len() as int] == a);
                        }
                    }
                }
                true
            },
        }
    }

    /// Takes `agent` out of the registry.
    ///
    /// Fails with `AgentNotRegistered`, and changes nothing, where the agent
    /// is not registered.
    pub fn remove(&mut self, agent: &Address) -> (r: Result<(), ContractError>)
        requires
            old(self).wf(),
        ensures
            final(self).wf(),
            old(self)@.contains(*agent) ==> r is Ok && final(self)@ == old(self)@.remove(*agent)
                && final(self).spec_len() == old(self).spec_len() - 1,
            !old(self)@.contains(*agent) ==> r == Err::<(), ContractError>(
                ContractError::AgentNotRegistered,
            ) && *final(self) == *old(self),
    {
        match self.position(agent) {
            None => Err(ContractError::AgentNotRegistered),
            Some(i) => {
                let ghost before = self.agents@;
                self.agents.remove(i);
                assert(self.agents@.to_set() =~= before.to_set().remove(*agent)) by {
                    assert forall|a: Address|
                        self.agents@.contains(a) <==> (before.contains(a) && a != *agent) by {
                        if self.agents@.contains(a) {
                            let k = choose|k: int| 0 <= k < self.agents@.len() && self.agents@[k] == a;
                            if k < i {
                                assert(before[k] == a);
                            } else {
                                assert(before[k + 1] == a);
                            }
                        }
                        if before.contains(a) && a != *agent {
                            let k = choose|k: int| 0 <= k < before.len() && before[k] == a;
                            if k < i {
                                assert(self.agents@[k] == a);
                            } else {
                                assert(self.agents@[k - 1] == a);
                            }
                        }
                    }
                }
                Ok(())
            },
        }
    }

    /// Returns the registered agents, each of them once.
    pub fn agents(&self) -> (list: Vec<Address>)
        requires
            self.wf(),
        ensures
            list@.no_duplicates(),
            list@.to_set() == self@,
    {
        let mut list: Vec<Address> = Vec::new();
        let mut i: usize = 0;
        while i < self.agents.len()
            invariant
                i <= self.agents@.len(),
                list@ == self.agents@.subrange(0, i as int),
            decreases self.agents@.len() - i,
        {
            list.push(self.agents[i]);
            assert(list@ =~= self.agents@.subrange(0, i + 1));
            i += 1;
        }
        assert(list@ =~= self.agents@);
        list
    }
}

} // verus!
