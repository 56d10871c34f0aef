//! The error codes that an operation of the engine can fail with.

use vstd::prelude::*;

verus! {

/// Why an operation was rejected. Every error is final for the operation that
/// returned it: nothing was changed and nothing was emitted.
#[derive(Copy, Clone, Debug, Eq, PartialEq, Structural, PartialOrd, Ord, Hash)]
pub enum ContractError {
    /// The contract has been initialized before.
    AlreadyInitialized,
    /// The contract has not been initialized yet.
    NotInitialized,
    /// The amount is zero or negative.
    InvalidAmount,
    /// The fee rate exceeds 10000 basis points.
    InvalidFeeBps,
    /// The agent is not in the registry.
    AgentNotRegistered,
    /// No remittance has the given identifier.
    RemittanceNotFound,
    /// The remittance is not in the status that the operation needs.
    InvalidStatus,
    /// A checked arithmetic operation left its range.
    Overflow,
    /// The accumulated fee balance is zero.
    NoFeesToWithdraw,
    /// The identity presented is not the one whose consent the operation needs.
    InvalidAddress,
    /// The settlement window of the remittance has passed.
    SettlementExpired,
    /// The remittance carries a settlement marker already.
    DuplicateSettlement,
}

impl ContractError {
    /// The numeric code of the error, from 1 for `AlreadyInitialized` to 12
    /// for `DuplicateSettlement`, in declaration order.
    pub open spec fn spec_code(self) -> u32 {
        match self {
            ContractError::AlreadyInitialized => 1,
            ContractError::NotInitialized => 2,
            ContractError::InvalidAmount => 3,
            ContractError::InvalidFeeBps => 4,
            ContractError::AgentNotRegistered => 5,
            ContractError::RemittanceNotFound => 6,
            ContractError::InvalidStatus => 7,
            ContractError::Overflow => 8,
            ContractError::NoFeesToWithdraw => 9,
            ContractError::InvalidAddress => 10,
            ContractError::SettlementExpired => 11,
            ContractError::DuplicateSettlement => 12,
        }
    }

    /// Returns the numeric code under which the error is reported.
    pub fn code(&self) -> (c: u32)
        ensures
            c == self.spec_code(),
            1 <= c <= 12,
    {
        match self {
            ContractError::AlreadyInitialized => 1,
            ContractError::NotInitialized => 2,
            ContractError::InvalidAmount => 3,
            ContractError::InvalidFeeBps => 4,
            ContractError::AgentNotRegistered => 5,
            ContractError::RemittanceNotFound => 6,
            ContractError::InvalidStatus => 7,
            ContractError::Overflow => 8,
            ContractError::NoFeesToWithdraw => 9,
            ContractError::InvalidAddress => 10,
            ContractError::SettlementExpired => 11,
            ContractError::DuplicateSettlement => 12,
        }
    }

    /// Returns the error reported under `code`, if there is one.
    pub fn from_code(code: u32) -> (e: Option<ContractError>)
        ensures
            e is Some <==> 1 <= code <= 12,
            e matches Some(err) ==> err.spec_code() == code,
    {
        match code {
            1 => Some(ContractError::AlreadyInitialized),
            2 => Some(ContractError::NotInitialized),
            3 => Some(ContractError::InvalidAmount),
            4 => Some(ContractError::InvalidFeeBps),
            5 => Some(ContractError::AgentNotRegistered),
            6 => Some(ContractError::RemittanceNotFound),
            7 => Some(ContractError::InvalidStatus),
            8 => Some(ContractError::Overflow),
            9 => Some(ContractError::NoFeesToWithdraw),
            10 => Some(ContractError::InvalidAddress),
            11 => Some(ContractError::SettlementExpired),
            12 => Some(ContractError::DuplicateSettlement),
            _ => None,
        }
    }
}

/// Distinct errors have distinct codes.
pub proof fn lemma_code_is_injective(a: ContractError, b: ContractError)
    requires
        a.spec_code() == b.spec_code(),
    ensures
        a == b,
{
}

} // verus!
