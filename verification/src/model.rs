//! The engine as a state machine over mathematical values.
//!
//! [`State`] is the whole state of an initialized contract; a contract that
//! has not been initialized has none. Each operation is a function from the
//! state before and the operation's inputs to either an [`Outcome`] or the
//! error that rejects it. A rejected operation changes nothing and asks for
//! nothing.

use vstd::prelude::*;
use crate::errors::ContractError;
use crate::events::EventPayload;
use crate::fee::fee_of;
use crate::fee::MAX_FEE_BPS;
use crate::host::Account;
use crate::host::Transfer;
use crate::types::Address;
use crate::types::Remittance;
use crate::types::RemittanceStatus;

verus! {

/// The state of an initialized contract.
pub struct State {
    /// The administrator, fixed at initialization.
    pub admin: Address,
    /// The fee rate applied to remittances created from now on.
    pub fee_bps: u32,
    /// The fees accumulated and not yet withdrawn.
    pub accumulated_fees: i128,
    /// The registered agents.
    pub agents: Set<Address>,
    /// Every remittance ever created, by identifier.
    pub remittances: Map<u64, Remittance>,
    /// The last identifier handed out; zero before the first.
    pub counter: u64,
    /// The identifiers that carry a settlement marker.
    pub settled: Set<u64>,
}

/// What a successful operation does: the state after it, the value it
/// returns, the transfer it asks for and the event it publishes.
pub struct Outcome<T> {
    pub next: State,
    pub value: T,
    pub transfer: Option<Transfer>,
    pub payload: Option<EventPayload>,
}

impl State {
    /// The invariant of the state: the rate is at most 10000, the balance is
    /// not negative, and every record is stored under its own identifier,
    /// which the counter has passed, with consistent amounts.
    pub open spec fn wf(self) -> bool {
        &&& self.fee_bps <= MAX_FEE_BPS
        &&& self.accumulated_fees >= 0
        &&& forall|id: u64| #[trigger]
            self.remittances.contains_key(id) ==> {
                &&& self.remittances[id].id == id
                &&& 1 <= id <= self.counter
                &&& self.remittances[id].is_valid()
            }
    }

    /// The state right after initialization.
    pub open spec fn fresh(admin: Address, fee_bps: u32) -> State {
        State {
            admin,
            fee_bps,
            accumulated_fees: 0,
            agents: Set::empty(),
            remittances: Map::empty(),
            counter: 0,
            settled: Set::empty(),
        }
    }
}

/// Whether `agent` is registered; no agent is before initialization.
pub open spec fn is_registered(pre: Option<State>, agent: Address) -> bool {
    pre matches Some(s) && s.agents.contains(agent)
}

/// The record stored under `id`, if any.
pub open spec fn get_remittance(pre: Option<State>, id: u64) -> Option<Remittance> {
    match pre {
        Some(s) => if s.remittances.contains_key(id) {
            Some(s.remittances[id])
        } else {
            None
        },
        None => None,
    }
}

/// Initialization: sets the administrator and the rate, with empty registry
/// and store and a zero balance. Asks for no transfer and publishes nothing.
pub open spec fn initialize(pre: Option<State>, admin: Address, fee_bps: u32) -> Result<
    Outcome<()>,
    ContractError,
> {
    if pre is Some {
        Err(ContractError::AlreadyInitialized)
    } else if fee_bps > MAX_FEE_BPS {
        Err(ContractError::InvalidFeeBps)
    } else {
        Ok(Outcome { next: State::fresh(admin, fee_bps), value: (), transfer: None, payload: None })
    }
}

/// Registration of an agent. Registering a registered agent succeeds and
/// leaves the registry as it is.
pub open spec fn register(pre: Option<State>, agent: Address) -> Result<Outcome<()>, ContractError> {
    match pre {
        None => Err(ContractError::NotInitialized),
        Some(s) => Ok(
            Outcome {
                next: State { agents: s.agents.insert(agent), ..s },
                value: (),
                transfer: None,
                payload: Some(EventPayload::AgentRegistered { agent }),
            },
        ),
    }
}

/// Removal of an agent from the registry.
pub open spec fn remove(pre: Option<State>, agent: Address) -> Result<Outcome<()>, ContractError> {
    match pre {
        None => Err(ContractError::NotInitialized),
        Some(s) => if !s.agents.contains(agent) {
            Err(ContractError::AgentNotRegistered)
        } else {
            Ok(
                Outcome {
                    next: State { agents: s.agents.remove(agent), ..s },
                    value: (),
                    transfer: None,
                    payload: Some(EventPayload::AgentRemoved { agent }),
                },
            )
        },
    }
}

/// A change of the fee rate by the administrator. Records keep the fee they
/// were created with.
pub open spec fn set_fee_bps(pre: Option<State>, admin: Address, new_bps: u32) -> Result<
    Outcome<()>,
    ContractError,
> {
    match pre {
        None => Err(ContractError::NotInitialized),
        Some(s) => if admin != s.admin {
            Err(ContractError::InvalidAddress)
        } else if new_bps > MAX_FEE_BPS {
            Err(ContractError::InvalidFeeBps)
        } else {
            Ok(
                Outcome {
                    next: State { fee_bps: new_bps, ..s },
                    value: (),
                    transfer: None,
                    payload: Some(EventPayload::FeeUpdated { fee_bps: new_bps }),
                },
            )
        },
    }
}

/// The record that a creation stores.
pub open spec fn new_record(
    s: State,
    sender: Address,
    agent: Address,
    amount: i128,
    expiry: Option<u64>,
) -> Remittance {
    Remittance {
        id: (s.counter + 1) as u64,
        sender,
        agent,
        amount,
        fee: fee_of(amount as int, s.fee_bps as int) as i128,
        status: RemittanceStatus::Pending,
        expiry,
    }
}

/// Creation of a remittance: the fee is computed at the rate in force and
/// added to the accumulated fees, the sender's deposit of the whole amount
/// into escrow is asked for, and a pending record is stored under the next
/// identifier, which is the value returned.
pub open spec fn create_remittance(
    pre: Option<State>,
    sender: Address,
    agent: Address,
    amount: i128,
    expiry: Option<u64>,
) -> Result<Outcome<u64>, ContractError> {
    match pre {
        None => Err(ContractError::NotInitialized),
        Some(s) => {
            let record = new_record(s, sender, agent, amount, expiry);
            if amount <= 0 {
                Err(ContractError::InvalidAmount)
            } else if !s.agents.contains(agent) {
                Err(ContractError::AgentNotRegistered)
            } else if amount * s.fee_bps > i128::MAX {
                Err(ContractError::Overflow)
            } else if s.accumulated_fees + fee_of(amount as int, s.fee_bps as int) > i128::MAX {
                Err(ContractError::Overflow)
            } else if s.counter == u64::MAX {
                Err(ContractError::Overflow)
            } else {
                Ok(
                    Outcome {
                        next: State {
                            accumulated_fees: (s.accumulated_fees + record.fee) as i128,
                            counter: record.id,
                            remittances: s.remittances.insert(record.id, record),
                            ..s
                        },
                        value: record.id,
                        transfer: Some(
                            Transfer {
                                from: Account::Party(sender),
                                to: Account::Escrow,
                                amount,
                            },
                        ),
                        payload: Some(
                            EventPayload::RemittanceCreated {
                                remittance_id: record.id,
                                sender,
                                agent,
                                amount,
                                fee: record.fee,
                            },
                        ),
                    },
                )
            }
        },
    }
}

/// Settlement of a remittance by its agent at time `now`: the record becomes
/// `Completed` and gets a settlement marker, and the payout of the amount
/// less the fee, which is the value returned, goes from escrow to the agent.
pub open spec fn complete_remittance(pre: Option<State>, id: u64, caller: Address, now: u64) -> Result<
    Outcome<i128>,
    ContractError,
> {
    match pre {
        None => Err(ContractError::NotInitialized),
        Some(s) => if !s.remittances.contains_key(id) {
            Err(ContractError::RemittanceNotFound)
        } else {
            let record = s.remittances[id];
            let payout = (record.amount - record.fee) as i128;
            if caller != record.agent {
                Err(ContractError::InvalidAddress)
            } else if record.status != RemittanceStatus::Pending {
                Err(ContractError::InvalidStatus)
            } else if s.settled.contains(id) {
                Err(ContractError::DuplicateSettlement)
            } else if record.expired_at(now) {
                Err(ContractError::SettlementExpired)
            } else {
                Ok(
                    Outcome {
                        next: State {
                            remittances: s.remittances.insert(
                                id,
                                record.with_status(RemittanceStatus::Completed),
                            ),
                            settled: s.settled.insert(id),
                            ..s
                        },
                        value: payout,
                        transfer: Some(
                            Transfer {
                                from: Account::Escrow,
                                to: Account::Party(record.agent),
                                amount: payout,
                            },
                        ),
                        payload: Some(
                            EventPayload::RemittanceCompleted {
                                remittance_id: id,
                                agent: record.agent,
                                amount: payout,
                            },
                        ),
                    },
                )
            }
        },
    }
}

/// Cancellation of a remittance by its sender: the record becomes
/// `Cancelled` and the whole amount, which is the value returned, goes from
/// escrow back to the sender. The accumulated fees stay as they are.
pub open spec fn cancel_remittance(pre: Option<State>, id: u64, caller: Address) -> Result<
    Outcome<i128>,
    ContractError,
> {
    match pre {
        None => Err(ContractError::NotInitialized),
        Some(s) => if !s.remittances.contains_key(id) {
            Err(ContractError::RemittanceNotFound)
        } else {
            let record = s.remittances[id];
            if caller != record.sender {
                Err(ContractError::InvalidAddress)
            } else if record.status != RemittanceStatus::Pending {
                Err(ContractError::InvalidStatus)
            } else {
                Ok(
                    Outcome {
                        next: State {
                            remittances: s.remittances.insert(
                                id,
                                record.with_status(RemittanceStatus::Cancelled),
                            ),
                            ..s
                        },
                        value: record.amount,
                        transfer: Some(
                            Transfer {
                                from: Account::Escrow,
                                to: Account::Party(record.sender),
                                amount: record.amount,
                            },
                        ),
                        payload: Some(
                            EventPayload::RemittanceCancelled {
                                remittance_id: id,
                                sender: record.sender,
                                amount: record.amount,
                            },
                        ),
                    },
                )
            }
        },
    }
}

/// Withdrawal of the accumulated fees by the administrator: the whole
/// balance, which is the value returned, goes from escrow to `to`, and the
/// balance becomes zero.
pub open spec fn withdraw_fees(pre: Option<State>, admin: Address, to: Address) -> Result<
    Outcome<i128>,
    ContractError,
> {
    match pre {
        None => Err(ContractError::NotInitialized),
        Some(s) => if admin != s.admin {
            Err(ContractError::InvalidAddress)
        } else if s.accumulated_fees <= 0 {
            Err(ContractError::NoFeesToWithdraw)
        } else {
            Ok(
                Outcome {
                    next: State { accumulated_fees: 0, ..s },
                    value: s.accumulated_fees,
                    transfer: Some(
                        Transfer {
                            from: Account::Escrow,
                            to: Account::Party(to),
                            amount: s.accumulated_fees,
                        },
                    ),
                    payload: Some(EventPayload::FeesWithdrawn { to, amount: s.accumulated_fees }),
                },
            )
        },
    }
}

/// The state after an operation with the given result: the outcome's state
/// where it succeeded, the state before where it was rejected.
pub open spec fn state_after<T>(pre: Option<State>, result: Result<Outcome<T>, ContractError>) -> Option<
    State,
> {
    match result {
        Ok(outcome) => Some(outcome.next),
        Err(_) => pre,
    }
}

/// One operation of the contract with its inputs.
pub enum Operation {
    Initialize { admin: Address, fee_bps: u32 },
    Register { agent: Address },
    Remove { agent: Address },
    SetFeeBps { admin: Address, new_bps: u32 },
    CreateRemittance { sender: Address, agent: Address, amount: i128, expiry: Option<u64> },
    CompleteRemittance { id: u64, caller: Address },
    CancelRemittance { id: u64, caller: Address },
    WithdrawFees { admin: Address, to: Address },
}

/// An outcome without its value.
pub open spec fn without_value<T>(result: Result<Outcome<T>, ContractError>) -> Result<
    Outcome<()>,
    ContractError,
> {
    match result {
        Ok(outcome) => Ok(
            Outcome {
                next: outcome.next,
                value: (),
                transfer: outcome.transfer,
                payload: outcome.payload,
            },
        ),
        Err(error) => Err(error),
    }
}

/// What `operation` does when asked for at time `now`, its value left out.
pub open spec fn attempt(pre: Option<State>, operation: Operation, now: u64) -> Result<
    Outcome<()>,
    ContractError,
> {
    match operation {
        Operation::Initialize { admin, fee_bps } => initialize(pre, admin, fee_bps),
        Operation::Register { agent } => register(pre, agent),
        Operation::Remove { agent } => remove(pre, agent),
        Operation::SetFeeBps { admin, new_bps } => set_fee_bps(pre, admin, new_bps),
        Operation::CreateRemittance { sender, agent, amount, expiry } => without_value(
            create_remittance(pre, sender, agent, amount, expiry),
        ),
        Operation::CompleteRemittance { id, caller } => without_value(
            complete_remittance(pre, id, caller, now),
        ),
        Operation::CancelRemittance { id, caller } => without_value(
            cancel_remittance(pre, id, caller),
        ),
        Operation::WithdrawFees { admin, to } => without_value(withdraw_fees(pre, admin, to)),
    }
}

/// The state after `operation` was asked for at time `now`, whether it
/// succeeded or was rejected.
pub open spec fn step(pre: Option<State>, operation: Operation, now: u64) -> Option<State> {
    state_after(pre, attempt(pre, operation, now))
}

/// The transfer that `operation` asks for at time `now`, if any.
pub open spec fn step_transfer(pre: Option<State>, operation: Operation, now: u64) -> Option<
    Transfer,
> {
    match attempt(pre, operation, now) {
        Ok(outcome) => outcome.transfer,
        Err(_) => None,
    }
}

/// An operation together with the ledger time at which it is asked for.
pub struct Request {
    pub operation: Operation,
    pub now: u64,
}

/// The state after the requests were served one after the other, starting
/// from `pre`.
pub open spec fn run(pre: Option<State>, requests: Seq<Request>) -> Option<State>
    decreases requests.len(),
{
    if requests.len() == 0 {
        pre
    } else {
        step(run(pre, requests.drop_last()), requests.last().operation, requests.last().now)
    }
}

/// The transfers asked for while the requests were served, oldest first.
pub open spec fn run_transfers(pre: Option<State>, requests: Seq<Request>) -> Seq<Transfer>
    decreases requests.len(),
{
    if requests.len() == 0 {
        Seq::empty()
    } else {
        let earlier = run_transfers(pre, requests.drop_last());
        match step_transfer(
            run(pre, requests.drop_last()),
            requests.last().operation,
            requests.last().now,
        ) {
            Some(transfer) => earlier.push(transfer),
            None => earlier,
        }
    }
}

/// What a transfer adds to the escrow: its amount where it goes into escrow,
/// the negative of it where it comes out.
pub open spec fn escrow_flow(transfer: Transfer) -> int {
    (if transfer.to == Account::Escrow {
        transfer.amount as int
    } else {
        0
    }) - (if transfer.from == Account::Escrow {
        transfer.amount as int
    } else {
        0
    })
}

/// What the escrow holds after the transfers, starting from nothing.
pub open spec fn escrow_balance(transfers: Seq<Transfer>) -> int
    decreases transfers.len(),
{
    if transfers.len() == 0 {
        0
    } else {
        escrow_balance(transfers.drop_last()) + escrow_flow(transfers.last())
    }
}

/// The two sums that the books keep over the records.
pub enum Tally {
    /// What the agents of pending remittances are still to receive.
    PendingPayouts,
    /// The fees of cancelled remittances.
    CancelledFees,
}

/// What one record counts for in a tally.
pub open spec fn weight(tally: Tally, record: Remittance) -> int {
    match tally {
        Tally::PendingPayouts => if record.status == RemittanceStatus::Pending {
            record.amount - record.fee
        } else {
            0
        },
        Tally::CancelledFees => if record.status == RemittanceStatus::Cancelled {
            record.fee as int
        } else {
            0
        },
    }
}

/// The tally over the records with identifiers from 1 to `upto`.
pub open spec fn total(records: Map<u64, Remittance>, upto: nat, tally: Tally) -> int
    decreases upto,
{
    if upto == 0 {
        0
    } else {
        total(records, (upto - 1) as nat, tally) + (if records.contains_key(upto as u64) {
            weight(tally, records[upto as u64])
        } else {
            0
        })
    }
}

impl State {
    /// The sum of the payouts that pending remittances still await.
    pub open spec fn pending_payouts(self) -> int {
        total(self.remittances, self.counter as nat, Tally::PendingPayouts)
    }

    /// The sum of the fees of cancelled remittances: fees that stay
    /// accumulated though the amounts they were taken from went back to the
    /// senders in full.
    pub open spec fn cancelled_fees(self) -> int {
        total(self.remittances, self.counter as nat, Tally::CancelledFees)
    }

    /// The markers are on the completed records and on nothing else.
    pub open spec fn markers_match(self) -> bool {
        forall|id: u64|
            #![trigger self.settled.contains(id)]
            #![trigger self.remittances.contains_key(id)]
            self.settled.contains(id) <==> (self.remittances.contains_key(id)
                && self.remittances[id].status == RemittanceStatus::Completed)
    }
}

} // verus!
