//! The identities and records that the engine works on.

use vstd::prelude::*;
use vstd::std_specs::cmp::PartialEqSpecImpl;
use crate::errors::ContractError;

verus! {

/// The length of an identity's textual form.
pub const ADDRESS_LEN: usize = 56;

/// An identity: a sender, an agent or the administrator.
///
/// It holds the 56 characters of the identity's textual form. The engine only
/// ever compares identities; two of them are the same party exactly when
/// their characters agree.
#[derive(Clone, Copy, Debug, Eq)]
pub struct Address {
    pub strkey: [u8; 56],
}

impl Address {
    /// Makes the identity with the given textual form.
    pub fn new(strkey: [u8; 56]) -> (a: Address)
        ensures
            a.strkey == strkey,
    {
        Address { strkey }
    }

    /// The characters of the identity.
    pub fn as_bytes(&self) -> (b: &[u8; 56])
        ensures
            *b == self.strkey,
    {
        &self.strkey
    }
}

impl PartialEq for Address {
    fn eq(&self, other: &Self) -> (r: bool) {
        let mut i: usize = 0;
        while i < ADDRESS_LEN
            invariant
                i <= ADDRESS_LEN,
                forall|j: int| 0 <= j < i ==> self.strkey[j] == other.strkey[j],
            decreases ADDRESS_LEN - i,
        {
            if self.strkey[i] != other.strkey[i] {
                return false;
            }
            i += 1;
        }
        proof {
            assert(self.strkey =~= other.strkey);
        }
        true
    }
}

impl PartialEqSpecImpl for Address {
    open spec fn obeys_eq_spec() -> bool {
        true
    }

    open spec fn eq_spec(&self, other: &Self) -> bool {
        *self == *other
    }
}

/// Where a remittance stands in its lifecycle. A remittance starts as
/// `Pending` and leaves that status once, for one of the two others.
#[derive(Clone, Copy, Debug, Eq, PartialEq, Structural, Hash)]
pub enum RemittanceStatus {
    /// Funded and awaiting the agent's settlement.
    Pending,
    /// Settled: the agent has received the amount net of the fee.
    Completed,
    /// Cancelled: the sender has received the amount back.
    Cancelled,
}

impl RemittanceStatus {
    /// `Completed` and `Cancelled` are terminal: no operation leaves them.
    pub open spec fn is_terminal(self) -> bool {
        self != RemittanceStatus::Pending
    }

    /// Tells whether the status is one that no operation leaves.
    pub fn terminal(&self) -> (t: bool)
        ensures
            t == self.is_terminal(),
    {
        match self {
            RemittanceStatus::Pending => false,
            RemittanceStatus::Completed => true,
            RemittanceStatus::Cancelled => true,
        }
    }
}

/// One escrowed transfer from a sender to an agent.
#[derive(Clone, Copy, Debug, Eq, PartialEq)]
pub struct Remittance {
    /// The identifier assigned at creation.
    pub id: u64,
    /// Who funded the remittance.
    pub sender: Address,
    /// Who may settle it.
    pub agent: Address,
    /// The gross amount that the sender deposited.
    pub amount: i128,
    /// The platform fee, fixed at creation.
    pub fee: i128,
    /// The current status.
    pub status: RemittanceStatus,
    /// The time after which the remittance can no longer be settled, if any.
    pub expiry: Option<u64>,
}

impl Remittance {
    /// The amounts of a record are consistent: the amount is positive and the
    /// fee lies between zero and the amount.
    pub open spec fn is_valid(self) -> bool {
        self.amount > 0 && 0 <= self.fee <= self.amount
    }

    /// What the agent receives at settlement.
    pub open spec fn spec_payout(self) -> int {
        self.amount - self.fee
    }

    /// The record has an expiry and `now` lies after it.
    pub open spec fn expired_at(self, now: u64) -> bool {
        self.expiry matches Some(deadline) && now > deadline
    }

    /// The record as it is after a change of status, all else kept.
    pub open spec fn with_status(self, status: RemittanceStatus) -> Remittance {
        Remittance { status, ..self }
    }

    /// What `transition` returns: the record with the new status where it is
    /// `Pending` and the new status is terminal, `InvalidStatus` otherwise.
    pub open spec fn spec_transition(self, to: RemittanceStatus) -> Result<
        Remittance,
        ContractError,
    > {
        if self.status == RemittanceStatus::Pending && to.is_terminal() {
            Ok(self.with_status(to))
        } else {
            Err(ContractError::InvalidStatus)
        }
    }

    /// Moves a pending record to the terminal status `to`, all else kept.
    ///
    /// Fails with `InvalidStatus` where the record is not `Pending`, and
    /// where `to` is `Pending`: no transition leaves a terminal status and
    /// none leads back.
    pub fn transition(&self, to: RemittanceStatus) -> (r: Result<Remittance, ContractError>)
        ensures
            r == self.spec_transition(to),
    {
        if self.status == RemittanceStatus::Pending && to.terminal() {
            Ok(Remittance { status: to, ..*self })
        } else {
            Err(ContractError::InvalidStatus)
        }
    }

    /// Tells whether the amounts of the record are consistent.
    pub fn check_valid(&self) -> (ok: bool)
        ensures
            ok == self.is_valid(),
    {
        self.amount > 0 && 0 <= self.fee && self.fee <= self.amount
    }

    /// Returns what the agent receives at settlement: the amount less the fee.
    pub fn payout(&self) -> (p: i128)
        requires
            self.is_valid(),
        ensures
            p == self.spec_payout(),
            0 <= p <= self.amount,
            self.amount == self.fee + p,
    {
        self.amount - self.fee
    }

    /// Tells whether the settlement window is over at time `now`.
    pub fn is_expired(&self, now: u64) -> (e: bool)
        ensures
            e == self.expired_at(now),
    {
        match self.expiry {
            Some(deadline) => now > deadline,
            None => false,
        }
    }
}

} // verus!
