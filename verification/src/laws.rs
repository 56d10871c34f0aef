//! What holds of the engine whatever it is asked to do.
//!
//! Each law is stated over the state machine of [`crate::model`], which the
//! operations of [`crate::engine::Contract`] are proved to follow.

use vstd::prelude::*;
use crate::errors::ContractError;
use crate::fee::fee_of;
use crate::fee::lemma_fee_bounds;
use crate::fee::MAX_FEE_BPS;
use crate::host::Account;
use crate::host::Transfer;
use crate::model::cancel_remittance;
use crate::model::complete_remittance;
use crate::model::create_remittance;
use crate::model::get_remittance;
use crate::model::initialize;
use crate::model::is_registered;
use crate::model::register;
use crate::model::attempt;
use crate::model::escrow_balance;
use crate::model::escrow_flow;
use crate::model::remove;
use crate::model::run_transfers;
use crate::model::step_transfer;
use crate::model::total;
use crate::model::weight;
use crate::model::Tally;
use crate::model::run;
use crate::model::set_fee_bps;
use crate::model::state_after;
use crate::model::step;
use crate::model::withdraw_fees;
use crate::model::Operation;
use crate::model::Outcome;
use crate::model::Request;
use crate::model::State;
use crate::types::Address;
use crate::types::Remittance;
use crate::types::RemittanceStatus;

verus! {

/// The invariant of the state holds after initialization and is kept by every
/// operation, accepted or rejected: the rate stays within 10000 basis points,
/// the accumulated fees never drop below zero, and every record keeps
/// consistent amounts under its own identifier.
pub proof fn lemma_step_keeps_invariant(pre: Option<State>, operation: Operation, now: u64)
    requires
        pre matches Some(s) ==> s.wf(),
    ensures
        step(pre, operation, now) matches Some(s) ==> s.wf(),
{
    if let Some(s) = pre {
        if let Operation::CreateRemittance { sender, agent, amount, expiry } = operation {
            if amount > 0 {
                lemma_fee_bounds(amount as int, s.fee_bps as int);
            }
        }
    }
}

/// Initialization is a one-way latch: an initialized contract stays
/// initialized, under the same administrator, whatever is asked of it.
pub proof fn lemma_initialization_is_permanent(pre: Option<State>, operation: Operation, now: u64)
    requires
        pre is Some,
    ensures
        step(pre, operation, now) matches Some(s) && s.admin == pre->0.admin,
{
}

/// A second initialization fails with `AlreadyInitialized` and changes
/// nothing: the administrator and the rate of the first stay in force.
pub proof fn lemma_initialization_happens_once(
    pre: Option<State>,
    admin: Address,
    fee_bps: u32,
    other_admin: Address,
    other_fee_bps: u32,
)
    requires
        initialize(pre, admin, fee_bps) is Ok,
    ensures
        ({
            let first = state_after(pre, initialize(pre, admin, fee_bps));
            let second = initialize(first, other_admin, other_fee_bps);
            &&& first matches Some(s) && s.admin == admin && s.fee_bps == fee_bps
            &&& second == Err::<Outcome<()>, ContractError>(ContractError::AlreadyInitialized)
            &&& state_after(first, second) == first
        }),
{
}

/// No record is ever deleted, and nothing but its status ever changes: the
/// identifier, the parties, the amount, the fee and the expiry of a record
/// are those it was created with. A change of the fee rate in particular
/// leaves the fee of every existing record as it was.
pub proof fn lemma_records_are_permanent(
    pre: Option<State>,
    operation: Operation,
    now: u64,
    id: u64,
)
    requires
        pre matches Some(s) && s.wf() && s.remittances.contains_key(id),
    ensures
        step(pre, operation, now) matches Some(s) && s.remittances.contains_key(id) && ({
            let before = pre->0.remittances[id];
            let after = s.remittances[id];
            after == before.with_status(after.status)
        }),
{
}

/// A terminal status is final: once a record is `Completed` or `Cancelled`,
/// no operation changes it in any way.
pub proof fn lemma_terminal_record_never_changes(
    pre: Option<State>,
    operation: Operation,
    now: u64,
    id: u64,
)
    requires
        pre matches Some(s) && s.wf() && s.remittances.contains_key(id)
            && s.remittances[id].status.is_terminal(),
    ensures
        get_remittance(step(pre, operation, now), id) == get_remittance(pre, id),
{
}

/// The only changes of status are from `Pending` to `Completed`, by a
/// completion, and from `Pending` to `Cancelled`, by a cancellation.
pub proof fn lemma_status_moves_forward(
    pre: Option<State>,
    operation: Operation,
    now: u64,
    id: u64,
)
    requires
        pre matches Some(s) && s.wf() && s.remittances.contains_key(id),
    ensures
        ({
            let before = get_remittance(pre, id)->0.status;
            let after = get_remittance(step(pre, operation, now), id)->0.status;
            after != before ==> before == RemittanceStatus::Pending && (after
                == RemittanceStatus::Completed <==> operation is CompleteRemittance) && (after
                == RemittanceStatus::Cancelled <==> operation is CancelRemittance)
        }),
{
}

/// Completing or cancelling a remittance that is `Completed` or `Cancelled`
/// fails and changes nothing. It fails with `InvalidStatus` for the party that
/// the operation belongs to, and with `InvalidAddress` for anyone else.
pub proof fn lemma_terminal_remittance_rejects_settlement(
    pre: Option<State>,
    id: u64,
    caller: Address,
    now: u64,
)
    requires
        pre matches Some(s) && s.remittances.contains_key(id)
            && s.remittances[id].status.is_terminal(),
    ensures
        ({
            let record = pre->0.remittances[id];
            let completion = complete_remittance(pre, id, caller, now);
            let cancellation = cancel_remittance(pre, id, caller);
            &&& completion == Err::<Outcome<i128>, ContractError>(
                if caller == record.agent {
                    ContractError::InvalidStatus
                } else {
                    ContractError::InvalidAddress
                },
            )
            &&& cancellation == Err::<Outcome<i128>, ContractError>(
                if caller == record.sender {
                    ContractError::InvalidStatus
                } else {
                    ContractError::InvalidAddress
                },
            )
            &&& state_after(pre, completion) == pre
            &&& state_after(pre, cancellation) == pre
        }),
{
}

/// A remittance is settled at most once: after a successful completion the
/// record is `Completed` and marked, and every further completion or
/// cancellation of it, by anyone and at any time, fails.
pub proof fn lemma_no_second_settlement(
    pre: Option<State>,
    id: u64,
    caller: Address,
    now: u64,
    later_caller: Address,
    later: u64,
)
    requires
        complete_remittance(pre, id, caller, now) is Ok,
    ensures
        ({
            let next = state_after(pre, complete_remittance(pre, id, caller, now));
            &&& get_remittance(next, id) matches Some(record) && record.status
                == RemittanceStatus::Completed
            &&& next->0.settled.contains(id)
            &&& complete_remittance(next, id, later_caller, later) is Err
            &&& cancel_remittance(next, id, later_caller) is Err
        }),
{
}

/// A cancelled remittance cannot be completed or cancelled again: for its
/// agent a completion fails with `InvalidStatus`.
pub proof fn lemma_no_settlement_after_cancellation(
    pre: Option<State>,
    id: u64,
    caller: Address,
    later_caller: Address,
    later: u64,
)
    requires
        cancel_remittance(pre, id, caller) is Ok,
    ensures
        ({
            let next = state_after(pre, cancel_remittance(pre, id, caller));
            &&& get_remittance(next, id) matches Some(record) && record.status
                == RemittanceStatus::Cancelled
            &&& complete_remittance(next, id, later_caller, later) is Err
            &&& later_caller == pre->0.remittances[id].agent ==> complete_remittance(
                next,
                id,
                later_caller,
                later,
            ) == Err::<Outcome<i128>, ContractError>(ContractError::InvalidStatus)
            &&& cancel_remittance(next, id, later_caller) is Err
        }),
{
}

/// A completion conserves value: the amount of the record is the fee plus the
/// payout, and the payout is what goes from escrow to the record's agent.
pub proof fn lemma_completion_conserves_value(
    pre: Option<State>,
    id: u64,
    caller: Address,
    now: u64,
)
    requires
        pre matches Some(s) ==> s.wf(),
        complete_remittance(pre, id, caller, now) is Ok,
    ensures
        ({
            let record = pre->0.remittances[id];
            let outcome = complete_remittance(pre, id, caller, now)->Ok_0;
            &&& record.amount == record.fee + outcome.value
            &&& 0 <= outcome.value <= record.amount
            &&& outcome.transfer == Some(
                Transfer {
                    from: Account::Escrow,
                    to: Account::Party(record.agent),
                    amount: outcome.value,
                },
            )
            &&& outcome.next.accumulated_fees == pre->0.accumulated_fees
        }),
{
}

/// A cancellation returns the whole amount: what goes from escrow to the
/// record's sender is the amount that the sender deposited. The accumulated
/// fees stay as they are.
pub proof fn lemma_cancellation_refunds_in_full(pre: Option<State>, id: u64, caller: Address)
    requires
        cancel_remittance(pre, id, caller) is Ok,
    ensures
        ({
            let record = pre->0.remittances[id];
            let outcome = cancel_remittance(pre, id, caller)->Ok_0;
            &&& outcome.value == record.amount
            &&& outcome.transfer == Some(
                Transfer {
                    from: Account::Escrow,
                    to: Account::Party(record.sender),
                    amount: record.amount,
                },
            )
            &&& outcome.next.accumulated_fees == pre->0.accumulated_fees
        }),
{
}

/// A creation takes the whole amount into escrow and books the fee: the
/// record's fee is the floor of `amount * fee_bps / 10000` at the rate in
/// force, it is at most the amount and below it for every rate under 10000,
/// and the accumulated fees grow by exactly the fee.
pub proof fn lemma_creation_books_the_fee(
    pre: Option<State>,
    sender: Address,
    agent: Address,
    amount: i128,
    expiry: Option<u64>,
)
    requires
        pre matches Some(s) ==> s.wf(),
        create_remittance(pre, sender, agent, amount, expiry) is Ok,
    ensures
        ({
            let s = pre->0;
            let outcome = create_remittance(pre, sender, agent, amount, expiry)->Ok_0;
            let record = outcome.next.remittances[outcome.value];
            &&& !s.remittances.contains_key(outcome.value)
            &&& outcome.value == s.counter + 1
            &&& record.status == RemittanceStatus::Pending
            &&& record.amount == amount
            &&& record.fee == fee_of(amount as int, s.fee_bps as int)
            &&& 0 <= record.fee <= amount
            &&& s.fee_bps < MAX_FEE_BPS ==> record.fee < amount
            &&& outcome.next.accumulated_fees == s.accumulated_fees + record.fee
            &&& outcome.transfer == Some(
                Transfer { from: Account::Party(sender), to: Account::Escrow, amount },
            )
        }),
{
    let s = pre->0;
    lemma_fee_bounds(amount as int, s.fee_bps as int);
}

/// Identifiers grow by one with every creation and are never used twice: the
/// counter never decreases, and every record's identifier lies at or below
/// it.
pub proof fn lemma_identifiers_are_never_reused(pre: Option<State>, operation: Operation, now: u64)
    requires
        pre matches Some(s) && s.wf(),
    ensures
        ({
            let before = pre->0;
            let after = step(pre, operation, now)->0;
            &&& before.counter <= after.counter <= before.counter + 1
            &&& after.counter == before.counter + 1 ==> operation is CreateRemittance
                && !before.remittances.contains_key(after.counter)
                && after.remittances.contains_key(after.counter)
            &&& after.counter == before.counter ==> after.remittances.dom()
                == before.remittances.dom()
        }),
{
    let before = pre->0;
    let after = step(pre, operation, now)->0;
    if after.counter == before.counter {
        assert(after.remittances.dom() =~= before.remittances.dom());
    }
}

/// A withdrawal takes everything: the amount withdrawn is the balance before,
/// it is what goes from escrow to the recipient, the balance after is zero,
/// and a second withdrawal right after fails with `NoFeesToWithdraw`.
pub proof fn lemma_withdrawal_empties_balance(
    pre: Option<State>,
    admin: Address,
    to: Address,
    other_to: Address,
)
    requires
        withdraw_fees(pre, admin, to) is Ok,
    ensures
        ({
            let outcome = withdraw_fees(pre, admin, to)->Ok_0;
            &&& outcome.value == pre->0.accumulated_fees
            &&& outcome.value > 0
            &&& outcome.next.accumulated_fees == 0
            &&& outcome.transfer == Some(
                Transfer { from: Account::Escrow, to: Account::Party(to), amount: outcome.value },
            )
            &&& withdraw_fees(Some(outcome.next), admin, other_to) == Err::<
                Outcome<i128>,
                ContractError,
            >(ContractError::NoFeesToWithdraw)
        }),
{
}

/// Right after its removal an agent is not registered, and a creation that
/// names it fails: with `AgentNotRegistered` for every positive amount, with
/// `InvalidAmount` for the others.
pub proof fn lemma_removed_agent_is_refused(
    pre: Option<State>,
    agent: Address,
    sender: Address,
    amount: i128,
    expiry: Option<u64>,
)
    requires
        remove(pre, agent) is Ok,
    ensures
        ({
            let next = state_after(pre, remove(pre, agent));
            &&& is_registered(pre, agent)
            &&& !is_registered(next, agent)
            &&& create_remittance(next, sender, agent, amount, expiry) == Err::<
                Outcome<u64>,
                ContractError,
            >(
                if amount > 0 {
                    ContractError::AgentNotRegistered
                } else {
                    ContractError::InvalidAmount
                },
            )
        }),
{
}

/// Registration is idempotent: registering an agent twice leaves the same
/// registry as registering it once, and the agent is registered after it.
pub proof fn lemma_registration_is_idempotent(pre: Option<State>, agent: Address)
    requires
        pre is Some,
    ensures
        ({
            let once = state_after(pre, register(pre, agent));
            let twice = state_after(once, register(once, agent));
            &&& register(pre, agent) is Ok
            &&& register(once, agent) is Ok
            &&& is_registered(once, agent)
            &&& twice == once
        }),
{
    let once = state_after(pre, register(pre, agent));
    let twice = state_after(once, register(once, agent));
    assert(twice->0.agents =~= once->0.agents);
}

/// A new rate governs the creations that follow and nothing else: the
/// accumulated fees, the registry and every record stay as they are.
pub proof fn lemma_rate_change_is_not_retroactive(pre: Option<State>, admin: Address, new_bps: u32)
    requires
        set_fee_bps(pre, admin, new_bps) is Ok,
    ensures
        ({
            let next = set_fee_bps(pre, admin, new_bps)->Ok_0.next;
            &&& next.fee_bps == new_bps
            &&& next.remittances == pre->0.remittances
            &&& next.accumulated_fees == pre->0.accumulated_fees
            &&& next.agents == pre->0.agents
        }),
{
}

/// Every operation keeps the settlement markers on the completed records and
/// on nothing else.
pub proof fn lemma_step_keeps_markers(pre: Option<State>, operation: Operation, now: u64)
    requires
        pre matches Some(s) ==> s.wf() && s.markers_match(),
    ensures
        step(pre, operation, now) matches Some(s) ==> s.markers_match(),
{
}

/// Whatever requests a contract has served since before its initialization,
/// its state meets the invariant and its markers are on the completed records
/// and on nothing else.
pub proof fn lemma_reachable_states_are_consistent(requests: Seq<Request>)
    ensures
        run(None, requests) matches Some(s) ==> s.wf() && s.markers_match(),
    decreases requests.len(),
{
    if requests.len() > 0 {
        let before = run(None, requests.drop_last());
        lemma_reachable_states_are_consistent(requests.drop_last());
        lemma_step_keeps_invariant(before, requests.last().operation, requests.last().now);
        lemma_step_keeps_markers(before, requests.last().operation, requests.last().now);
    }
}

/// The settlement marker is a second guard behind the status: in a state
/// that a contract can reach by serving requests, no completion ever fails
/// with `DuplicateSettlement`, because a marked record is never `Pending`.
pub proof fn lemma_marker_guard_is_redundant(
    requests: Seq<Request>,
    id: u64,
    caller: Address,
    now: u64,
)
    ensures
        complete_remittance(run(None, requests), id, caller, now) != Err::<
            Outcome<i128>,
            ContractError,
        >(ContractError::DuplicateSettlement),
{
    lemma_reachable_states_are_consistent(requests);
}

/// A tally up to `upto` depends on the records with identifiers from 1 to
/// `upto` alone.
pub proof fn lemma_total_ignores_later_records(
    a: Map<u64, Remittance>,
    b: Map<u64, Remittance>,
    upto: nat,
    tally: Tally,
)
    requires
        upto <= u64::MAX,
        forall|id: u64|
            #![trigger a.contains_key(id)]
            #![trigger b.contains_key(id)]
            1 <= id <= upto ==> (a.contains_key(id) <==> b.contains_key(id)) && (a.contains_key(
                id,
            ) ==> a[id] == b[id]),
    ensures
        total(a, upto, tally) == total(b, upto, tally),
    decreases upto,
{
    if upto > 0 {
        lemma_total_ignores_later_records(a, b, (upto - 1) as nat, tally);
    }
}

/// Replacing the record under an identifier within the range changes a tally
/// by the difference of the two records' weights.
pub proof fn lemma_total_after_replacement(
    records: Map<u64, Remittance>,
    upto: nat,
    tally: Tally,
    id: u64,
    record: Remittance,
)
    requires
        upto <= u64::MAX,
        1 <= id <= upto,
        records.contains_key(id),
    ensures
        total(records.insert(id, record), upto, tally) == total(records, upto, tally) - weight(
            tally,
            records[id],
        ) + weight(tally, record),
    decreases upto,
{
    if upto == id {
        lemma_total_ignores_later_records(
            records.insert(id, record),
            records,
            (upto - 1) as nat,
            tally,
        );
    } else {
        lemma_total_after_replacement(records, (upto - 1) as nat, tally, id, record);
    }
}

/// What the books say the escrow holds: the payouts that pending remittances
/// await, plus the accumulated fees, less the fees of cancelled remittances.
/// Nothing before initialization.
pub open spec fn book_value(state: Option<State>) -> int {
    match state {
        None => 0,
        Some(s) => s.pending_payouts() + s.accumulated_fees - s.cancelled_fees(),
    }
}

/// Every operation moves into or out of escrow exactly what it changes the
/// books by.
pub proof fn lemma_step_balances(pre: Option<State>, operation: Operation, now: u64)
    requires
        pre matches Some(s) ==> s.wf(),
    ensures
        book_value(step(pre, operation, now)) == book_value(pre) + (match step_transfer(
            pre,
            operation,
            now,
        ) {
            Some(transfer) => escrow_flow(transfer),
            None => 0,
        }),
{
    if attempt(pre, operation, now) is Ok {
        match operation {
            Operation::Initialize { .. } => {},
            Operation::Register { .. } => {},
            Operation::Remove { .. } => {},
            Operation::SetFeeBps { .. } => {},
            Operation::WithdrawFees { .. } => {},
            Operation::CreateRemittance { sender, agent, amount, expiry } => {
                let s = pre->0;
                let next = step(pre, operation, now)->0;
                let id = next.counter;
                lemma_fee_bounds(amount as int, s.fee_bps as int);
                lemma_total_ignores_later_records(
                    next.remittances,
                    s.remittances,
                    s.counter as nat,
                    Tally::PendingPayouts,
                );
                lemma_total_ignores_later_records(
                    next.remittances,
                    s.remittances,
                    s.counter as nat,
                    Tally::CancelledFees,
                );
                assert(next.remittances.contains_key(id));
            },
            Operation::CompleteRemittance { id, caller } => {
                let s = pre->0;
                let record = s.remittances[id];
                let settled = record.with_status(RemittanceStatus::Completed);
                lemma_total_after_replacement(
                    s.remittances,
                    s.counter as nat,
                    Tally::PendingPayouts,
                    id,
                    settled,
                );
                lemma_total_after_replacement(
                    s.remittances,
                    s.counter as nat,
                    Tally::CancelledFees,
                    id,
                    settled,
                );
            },
            Operation::CancelRemittance { id, caller } => {
                let s = pre->0;
                let record = s.remittances[id];
                let cancelled = record.with_status(RemittanceStatus::Cancelled);
                lemma_total_after_replacement(
                    s.remittances,
                    s.counter as nat,
                    Tally::PendingPayouts,
                    id,
                    cancelled,
                );
                lemma_total_after_replacement(
                    s.remittances,
                    s.counter as nat,
                    Tally::CancelledFees,
                    id,
                    cancelled,
                );
            },
        }
    }
}

/// The books balance. Whatever requests a contract has served since before
/// its initialization, what went into escrow less what came out of it equals
/// the payouts that pending remittances await, plus the accumulated fees,
/// less the fees of cancelled remittances. Those fees stay accumulated
/// though the senders were refunded in full, so the escrow covers the pending
/// payouts and the accumulated fees exactly where no fee-bearing remittance
/// was cancelled.
pub proof fn lemma_books_balance(requests: Seq<Request>)
    ensures
        escrow_balance(run_transfers(None, requests)) == book_value(run(None, requests)),
        run(None, requests) matches Some(s) ==> (s.cancelled_fees() == 0 ==> escrow_balance(
            run_transfers(None, requests),
        ) == s.pending_payouts() + s.accumulated_fees),
    decreases requests.len(),
{
    if requests.len() > 0 {
        let earlier = requests.drop_last();
        let before = run(None, earlier);
        lemma_books_balance(earlier);
        lemma_reachable_states_are_consistent(earlier);
        lemma_step_balances(before, requests.last().operation, requests.last().now);
        let transfers = run_transfers(None, requests);
        match step_transfer(before, requests.last().operation, requests.last().now) {
            Some(transfer) => {
                assert(transfers.drop_last() =~= run_transfers(None, earlier));
                assert(transfers.last() == transfer);
            },
            None => {},
        }
    }
}

} // verus!
