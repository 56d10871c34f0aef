//! The fee rate in force and the fees accumulated for withdrawal.

use vstd::prelude::*;
use crate::errors::ContractError;
use crate::fee::checked_sum;
use crate::fee::MAX_FEE_BPS;

verus! {

/// The platform's fee rate and its balance of accumulated fees.
#[derive(Clone, Copy, Debug)]
pub struct FeeLedger {
    fee_bps: u32,
    accumulated: i128,
}

impl FeeLedger {
    /// The fee rate in basis points.
    pub closed spec fn spec_fee_bps(&self) -> u32 {
        self.fee_bps
    }

    /// The accumulated, withdrawable fees.
    pub closed spec fn spec_accumulated(&self) -> i128 {
        self.accumulated
    }

    /// The rate is at most 10000 basis points and the balance is not negative.
    pub open spec fn wf(&self) -> bool {
        self.spec_fee_bps() <= MAX_FEE_BPS && self.spec_accumulated() >= 0
    }

    /// Two ledgers with the same rate and the same balance are the same.
    pub proof fn lemma_same_parts_same_ledger(a: FeeLedger, b: FeeLedger)
        requires
            a.spec_fee_bps() == b.spec_fee_bps(),
            a.spec_accumulated() == b.spec_accumulated(),
        ensures
            a == b,
    {
    }

    /// Makes a ledger with the given rate and an empty balance.
    ///
    /// Fails with `InvalidFeeBps` where the rate exceeds 10000.
    pub fn new(fee_bps: u32) -> (r: Result<FeeLedger, ContractError>)
        ensures
            fee_bps > MAX_FEE_BPS ==> r == Err::<FeeLedger, ContractError>(
                ContractError::InvalidFeeBps,
            ),
            fee_bps <= MAX_FEE_BPS ==> (r matches Ok(l) && l.wf() && l.spec_fee_bps() == fee_bps
                && l.spec_accumulated() == 0),
    {
        if fee_bps > MAX_FEE_BPS {
            Err(ContractError::InvalidFeeBps)
        } else {
            Ok(FeeLedger { fee_bps, accumulated: 0 })
        }
    }

    /// Returns the fee rate in basis points.
    #[verifier::when_used_as_spec(spec_fee_bps)]
    pub fn fee_bps(&self) -> (bps: u32)
        ensures
            bps == self.spec_fee_bps(),
    {
        self.fee_bps
    }

    /// Returns the accumulated fees.
    #[verifier::when_used_as_spec(spec_accumulated)]
    pub fn accumulated(&self) -> (balance: i128)
        ensures
            balance == self.spec_accumulated(),
    {
        self.accumulated
    }

    /// Sets the fee rate. The balance stays as it is.
    ///
    /// Fails with `InvalidFeeBps`, and changes nothing, where the rate
    /// exceeds 10000.
    pub fn set_fee_bps(&mut self, new_bps: u32) -> (r: Result<(), ContractError>)
        ensures
            final(self).spec_accumulated() == old(self).spec_accumulated(),
            new_bps > MAX_FEE_BPS ==> r == Err::<(), ContractError>(ContractError::InvalidFeeBps)
                && *final(self) == *old(self),
            new_bps <= MAX_FEE_BPS ==> r is Ok && final(self).spec_fee_bps() == new_bps,
    {
        if new_bps > MAX_FEE_BPS {
            return Err(ContractError::InvalidFeeBps);
        }
        self.fee_bps = new_bps;
        Ok(())
    }

    /// The balance stays within its range when `amount` is added to it: it
    /// neither drops below zero nor exceeds the largest `i128`.
    pub open spec fn can_accrue(&self, amount: i128) -> bool {
        0 <= self.spec_accumulated() + amount <= i128::MAX
    }

    /// Adds `amount` to the accumulated fees. The rate stays as it is.
    ///
    /// Fails with `Overflow`, and changes nothing, where the new balance
    /// would leave its range.
    pub fn accrue(&mut self, amount: i128) -> (r: Result<(), ContractError>)
        ensures
            final(self).spec_fee_bps() == old(self).spec_fee_bps(),
            old(self).can_accrue(amount) ==> r is Ok && final(self).spec_accumulated() == old(
                self,
            ).spec_accumulated() + amount,
            !old(self).can_accrue(amount) ==> r == Err::<(), ContractError>(
                ContractError::Overflow,
            ) && *final(self) == *old(self),
    {
        match checked_sum(self.accumulated, amount) {
            Ok(balance) => {
                if balance < 0 {
                    return Err(ContractError::Overflow);
                }
                self.accumulated = balance;
                Ok(())
            },
            Err(error) => Err(error),
        }
    }

    /// Takes the whole balance out and returns it. The rate stays as it is.
    ///
    /// Fails with `NoFeesToWithdraw`, and changes nothing, where the balance
    /// is not positive.
    pub fn withdraw(&mut self) -> (r: Result<i128, ContractError>)
        ensures
            final(self).spec_fee_bps() == old(self).spec_fee_bps(),
            old(self).spec_accumulated() > 0 ==> r == Ok::<i128, ContractError>(
                old(self).spec_accumulated(),
            ) && final(self).spec_accumulated() == 0,
            old(self).spec_accumulated() <= 0 ==> r == Err::<i128, ContractError>(
                ContractError::NoFeesToWithdraw,
            ) && *final(self) == *old(self),
    {
        if self.accumulated <= 0 {
            return Err(ContractError::NoFeesToWithdraw);
        }
        let amount: i128 = self.accumulated;
        self.accumulated = 0;
        Ok(amount)
    }
}

} // verus!
