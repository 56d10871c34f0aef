//! The lifecycle engine: every operation of the contract.
//!
//! A [`Contract`] is either uninitialized or holds a [`Config`]. Each
//! operation validates its inputs against the state, then changes the state
//! and records in the [`Env`] the transfer to carry out and the audit event.
//! An operation that fails leaves contract and environment exactly as they
//! were.
//!
//! A transfer that the host cannot carry out voids the operation that asked
//! for it: the host then discards the contract and the environment as the
//! operation left them and keeps those from before the call.
//!
//! Whether an identity has consented to an operation is for the host to
//! confirm before the call. The engine does its own part: where an operation
//! belongs to one party (the agent of a remittance, its sender, the
//! administrator), it is rejected with `InvalidAddress` for anyone else.

use vstd::prelude::*;
use crate::errors::ContractError;
use crate::events::emit_agent_registered;
use crate::events::emit_agent_removed;
use crate::events::emit_fee_updated;
use crate::events::emit_fees_withdrawn;
use crate::events::emit_remittance_cancelled;
use crate::events::emit_remittance_completed;
use crate::events::emit_remittance_created;
use crate::fee::compute_fee;
use crate::fee_ledger::FeeLedger;
use crate::host::Account;
use crate::host::Env;
use crate::model;
use crate::model::Outcome;
use crate::model::State;
use crate::registry::AgentRegistry;
use crate::store::RemittanceStore;
use crate::types::Address;
use crate::types::Remittance;
use crate::types::RemittanceStatus;

verus! {

/// The parts of an initialized contract.
#[derive(Debug)]
pub struct Config {
    /// The administrator.
    pub admin: Address,
    /// The fee rate and the accumulated fees.
    pub fees: FeeLedger,
    /// The registered agents.
    pub registry: AgentRegistry,
    /// The remittance records.
    pub store: RemittanceStore,
}

/// The contract: nothing before initialization, a configuration after it.
#[derive(Debug)]
pub enum Contract {
    Uninitialized,
    Initialized(Config),
}

impl View for Config {
    type V = State;

    open spec fn view(&self) -> State {
        State {
            admin: self.admin,
            fee_bps: self.fees.spec_fee_bps(),
            accumulated_fees: self.fees.spec_accumulated(),
            agents: self.registry@,
            remittances: self.store.records(),
            counter: self.store.spec_counter(),
            settled: self.store.settled(),
        }
    }
}

impl Config {
    /// Every part is well-formed.
    pub open spec fn wf(&self) -> bool {
        &&& self.fees.wf()
        &&& self.registry.wf()
        &&& self.store.wf()
    }

    /// A well-formed configuration stands for a state that meets the state's
    /// invariant.
    pub proof fn lemma_view_is_wf(&self)
        requires
            self.wf(),
        ensures
            self@.wf(),
    {
    }
}

impl View for Contract {
    type V = Option<State>;

    open spec fn view(&self) -> Option<State> {
        match self {
            Contract::Uninitialized => None,
            Contract::Initialized(config) => Some(config@),
        }
    }
}

/// The contract and the environment after an operation are what the model
/// says: on success the operation returned the outcome's value, the contract
/// stands for the outcome's state, and the environment holds one more
/// transfer and one more event where the outcome names them, stamped with the
/// unchanged clock; on failure the operation returned the error and neither
/// contract nor environment changed.
pub open spec fn realizes<T>(
    before: Contract,
    env_before: Env,
    after: Contract,
    env_after: Env,
    returned: Result<T, ContractError>,
    expected: Result<Outcome<T>, ContractError>,
) -> bool {
    match expected {
        Ok(outcome) => {
            &&& returned == Ok::<T, ContractError>(outcome.value)
            &&& after@ == Some(outcome.next)
            &&& env_after.ledger() == env_before.ledger()
            &&& env_after.transfers() == match outcome.transfer {
                Some(transfer) => env_before.transfers().push(transfer),
                None => env_before.transfers(),
            }
            &&& env_after.events() == match outcome.payload {
                Some(payload) => env_before.events().push(
                    Env::event_at(env_before.ledger(), payload),
                ),
                None => env_before.events(),
            }
        },
        Err(error) => {
            &&& returned == Err::<T, ContractError>(error)
            &&& after == before
            &&& env_after == env_before
        },
    }
}

impl Contract {
    /// The configuration, if there is one, is well-formed.
    pub open spec fn wf(&self) -> bool {
        self matches Contract::Initialized(config) ==> config.wf()
    }

    /// Makes a contract that has not been initialized.
    pub fn new() -> (c: Contract)
        ensures
            c.wf(),
            c@ is None,
    {
        Contract::Uninitialized
    }

    /// Tells whether the contract has been initialized.
    pub fn is_initialized(&self) -> (b: bool)
        ensures
            b == (self@ is Some),
    {
        match self {
            Contract::Uninitialized => false,
            Contract::Initialized(_) => true,
        }
    }

    /// Initializes the contract with its administrator and fee rate.
    ///
    /// Fails with `AlreadyInitialized` on a contract that was initialized
    /// before, and with `InvalidFeeBps` for a rate above 10000.
    pub fn initialize(&mut self, admin: Address, fee_bps: u32) -> (r: Result<(), ContractError>)
        requires
            old(self).wf(),
        ensures
            final(self).wf(),
            match model::initialize(old(self)@, admin, fee_bps) {
                Ok(outcome) => r is Ok && final(self)@ == Some(outcome.next),
                Err(error) => r == Err::<(), ContractError>(error) && *final(self) == *old(self),
            },
    {
        if self.is_initialized() {
            return Err(ContractError::AlreadyInitialized);
        }
        match FeeLedger::new(fee_bps) {
            Err(error) => Err(error),
            Ok(fees) => {
                let config = Config {
                    admin,
                    fees,
                    registry: AgentRegistry::new(),
                    store: RemittanceStore::new(),
                };
                *self = Contract::Initialized(config);
                Ok(())
            },
        }
    }

    /// Returns the administrator.
    ///
    /// Fails with `NotInitialized` before initialization.
    pub fn admin(&self) -> (r: Result<Address, ContractError>)
        ensures
            r == match self@ {
                Some(state) => Ok::<Address, ContractError>(state.admin),
                None => Err::<Address, ContractError>(ContractError::NotInitialized),
            },
    {
        match self {
            Contract::Uninitialized => Err(ContractError::NotInitialized),
            Contract::Initialized(config) => Ok(config.admin),
        }
    }

    /// Returns the fee rate in force, in basis points.
    ///
    /// Fails with `NotInitialized` before initialization.
    pub fn fee_bps(&self) -> (r: Result<u32, ContractError>)
        ensures
            r == match self@ {
                Some(state) => Ok::<u32, ContractError>(state.fee_bps),
                None => Err::<u32, ContractError>(ContractError::NotInitialized),
            },
    {
        match self {
            Contract::Uninitialized => Err(ContractError::NotInitialized),
            Contract::Initialized(config) => Ok(config.fees.fee_bps()),
        }
    }

    /// Returns the fees accumulated and not yet withdrawn.
    ///
    /// Fails with `NotInitialized` before initialization.
    pub fn accumulated_fees(&self) -> (r: Result<i128, ContractError>)
        ensures
            r == match self@ {
                Some(state) => Ok::<i128, ContractError>(state.accumulated_fees),
                None => Err::<i128, ContractError>(ContractError::NotInitialized),
            },
    {
        match self {
            Contract::Uninitialized => Err(ContractError::NotInitialized),
            Contract::Initialized(config) => Ok(config.fees.accumulated()),
        }
    }

    /// Returns the identifier of the remittance created last, or zero where
    /// none was created.
    ///
    /// Fails with `NotInitialized` before initialization.
    pub fn last_id(&self) -> (r: Result<u64, ContractError>)
        ensures
            r == match self@ {
                Some(state) => Ok::<u64, ContractError>(state.counter),
                None => Err::<u64, ContractError>(ContractError::NotInitialized),
            },
    {
        match self {
            Contract::Uninitialized => Err(ContractError::NotInitialized),
            Contract::Initialized(config) => Ok(config.store.counter()),
        }
    }

    /// Tells whether `agent` is registered.
    pub fn is_registered(&self, agent: &Address) -> (b: bool)
        ensures
            b == model::is_registered(self@, *agent),
    {
        match self {
            Contract::Uninitialized => false,
            Contract::Initialized(config) => config.registry.is_registered(agent),
        }
    }

    /// Returns the record of remittance `id`, if there is one.
    pub fn get_remittance(&self, id: u64) -> (r: Option<Remittance>)
        ensures
            r == model::get_remittance(self@, id),
    {
        match self {
            Contract::Uninitialized => None,
            Contract::Initialized(config) => config.store.get(id),
        }
    }

    /// Registers `agent` and publishes the event of it.
    ///
    /// Fails with `NotInitialized` before initialization.
    pub fn register(&mut self, env: &mut Env, agent: Address) -> (r: Result<(), ContractError>)
        requires
            old(self).wf(),
        ensures
            final(self).wf(),
            realizes(
                *old(self),
                *old(env),
                *final(self),
                *final(env),
                r,
                model::register(old(self)@, agent),
            ),
    {
        match self {
            Contract::Uninitialized => Err(ContractError::NotInitialized),
            Contract::Initialized(config) => {
                config.registry.register(agent);
                emit_agent_registered(env, agent);
                Ok(())
            },
        }
    }

    /// Takes `agent` out of the registry and publishes the event of it.
    ///
    /// Fails with `NotInitialized` before initialization, and with
    /// `AgentNotRegistered` where the agent is not registered.
    pub fn remove(&mut self, env: &mut Env, agent: Address) -> (r: Result<(), ContractError>)
        requires
            old(self).wf(),
        ensures
            final(self).wf(),
            realizes(
                *old(self),
                *old(env),
                *final(self),
                *final(env),
                r,
                model::remove(old(self)@, agent),
            ),
    {
        match self {
            Contract::Uninitialized => Err(ContractError::NotInitialized),
            Contract::Initialized(config) => {
                match config.registry.remove(&agent) {
                    Err(error) => Err(error),
                    Ok(()) => {
                        emit_agent_removed(env, agent);
                        Ok(())
                    },
                }
            },
        }
    }

    /// Sets the fee rate for the remittances created from now on and
    /// publishes the event of it. `admin` is the identity that asks.
    ///
    /// Fails with `NotInitialized` before initialization, with
    /// `InvalidAddress` where `admin` is not the administrator, and with
    /// `InvalidFeeBps` for a rate above 10000.
    pub fn set_fee_bps(&mut self, env: &mut Env, admin: Address, new_bps: u32) -> (r: Result<
        (),
        ContractError,
    >)
        requires
            old(self).wf(),
        ensures
            final(self).wf(),
            realizes(
                *old(self),
                *old(env),
                *final(self),
                *final(env),
                r,
                model::set_fee_bps(old(self)@, admin, new_bps),
            ),
    {
        match self {
            Contract::Uninitialized => Err(ContractError::NotInitialized),
            Contract::Initialized(config) => {
                if admin != config.admin {
                    return Err(ContractError::InvalidAddress);
                }
                match config.fees.set_fee_bps(new_bps) {
                    Err(error) => Err(error),
                    Ok(()) => {
                        emit_fee_updated(env, new_bps);
                        Ok(())
                    },
                }
            },
        }
    }

    /// Creates a remittance of `amount` from `sender` to `agent`, to be
    /// settled no later than `expiry` where one is given, and returns its
    /// identifier.
    ///
    /// The fee is computed at the rate in force and added to the accumulated
    /// fees; the deposit of `amount` from the sender into escrow is requested;
    /// the record is stored as `Pending`; the event of the creation is
    /// published.
    ///
    /// Fails with `NotInitialized` before initialization, with
    /// `InvalidAmount` for an amount that is not positive, with
    /// `AgentNotRegistered` where `agent` is not registered, and with
    /// `Overflow` where the fee's product, the accumulated fees or the
    /// identifier counter would leave their range.
    pub fn create_remittance(
        &mut self,
        env: &mut Env,
        sender: Address,
        agent: Address,
        amount: i128,
        expiry: Option<u64>,
    ) -> (r: Result<u64, ContractError>)
        requires
            old(self).wf(),
        ensures
            final(self).wf(),
            realizes(
                *old(self),
                *old(env),
                *final(self),
                *final(env),
                r,
                model::create_remittance(old(self)@, sender, agent, amount, expiry),
            ),
    {
        match self {
            Contract::Uninitialized => Err(ContractError::NotInitialized),
            Contract::Initialized(config) => {
                if amount <= 0 {
                    return Err(ContractError::InvalidAmount);
                }
                if !config.registry.is_registered(&agent) {
                    return Err(ContractError::AgentNotRegistered);
                }
                let fee: i128 = match compute_fee(amount, config.fees.fee_bps()) {
                    Ok(fee) => fee,
                    Err(error) => {
                        return Err(error);
                    },
                };
                if fee > i128::MAX - config.fees.accumulated() {
                    return Err(ContractError::Overflow);
                }
                if config.store.counter() == u64::MAX {
                    return Err(ContractError::Overflow);
                }
                match config.fees.accrue(fee) {
                    Ok(()) => {},
                    Err(error) => {
                        return Err(error);
                    },
                }
                let id: u64 = match config.store.next_id() {
                    Ok(id) => id,
                    Err(error) => {
                        return Err(error);
                    },
                };
                let record = Remittance {
                    id,
                    sender,
                    agent,
                    amount,
                    fee,
                    status: RemittanceStatus::Pending,
                    expiry,
                };
                config.store.put(record);
                env.request_transfer(Account::Party(sender), Account::Escrow, amount);
                emit_remittance_created(env, id, sender, agent, amount, fee);
                Ok(id)
            },
        }
    }

    /// Settles remittance `id` at the environment's current time: the payout
    /// of the amount less the fee from escrow to the agent is requested, the
    /// record becomes `Completed` and is marked as settled, and the event of
    /// the settlement is published. `caller` is the identity that asks.
    /// Returns the payout.
    ///
    /// Fails with `NotInitialized` before initialization, with
    /// `RemittanceNotFound` where there is no such record, with
    /// `InvalidAddress` where `caller` is not the record's agent, with
    /// `InvalidStatus` where the record is not `Pending`, with
    /// `DuplicateSettlement` where it is marked as settled, and with
    /// `SettlementExpired` where the current time lies after its expiry; the
    /// first of these that applies, in this order.
    pub fn complete_remittance(&mut self, env: &mut Env, id: u64, caller: Address) -> (r: Result<
        i128,
        ContractError,
    >)
        requires
            old(self).wf(),
        ensures
            final(self).wf(),
            realizes(
                *old(self),
                *old(env),
                *final(self),
                *final(env),
                r,
                model::complete_remittance(old(self)@, id, caller, old(env).ledger().timestamp),
            ),
    {
        match self {
            Contract::Uninitialized => Err(ContractError::NotInitialized),
            Contract::Initialized(config) => {
                let record: Remittance = match config.store.get(id) {
                    Some(record) => record,
                    None => {
                        return Err(ContractError::RemittanceNotFound);
                    },
                };
                if caller != record.agent {
                    return Err(ContractError::InvalidAddress);
                }
                let settled: Remittance = match record.transition(RemittanceStatus::Completed) {
                    Ok(settled) => settled,
                    Err(error) => {
                        return Err(error);
                    },
                };
                if config.store.is_settled(id) {
                    return Err(ContractError::DuplicateSettlement);
                }
                if record.is_expired(env.timestamp()) {
                    return Err(ContractError::SettlementExpired);
                }
                let payout: i128 = record.payout();
                match config.store.update(id, settled) {
                    Ok(()) => {},
                    Err(error) => {
                        return Err(error);
                    },
                }
                config.store.mark_settled(id);
                env.request_transfer(Account::Escrow, Account::Party(record.agent), payout);
                emit_remittance_completed(env, id, record.agent, payout);
                Ok(payout)
            },
        }
    }

    /// Cancels remittance `id`: the refund of the whole amount from escrow to
    /// the sender is requested, the record becomes `Cancelled`, and the event
    /// of the cancellation is published. `caller` is the identity that asks.
    /// Returns the refund. The fee taken at creation stays accumulated.
    ///
    /// Fails with `NotInitialized` before initialization, with
    /// `RemittanceNotFound` where there is no such record, with
    /// `InvalidAddress` where `caller` is not the record's sender, and with
    /// `InvalidStatus` where the record is not `Pending`; the first of these
    /// that applies, in this order.
    pub fn cancel_remittance(&mut self, env: &mut Env, id: u64, caller: Address) -> (r: Result<
        i128,
        ContractError,
    >)
        requires
            old(self).wf(),
        ensures
            final(self).wf(),
            realizes(
                *old(self),
                *old(env),
                *final(self),
                *final(env),
                r,
                model::cancel_remittance(old(self)@, id, caller),
            ),
    {
        match self {
            Contract::Uninitialized => Err(ContractError::NotInitialized),
            Contract::Initialized(config) => {
                let record: Remittance = match config.store.get(id) {
                    Some(record) => record,
                    None => {
                        return Err(ContractError::RemittanceNotFound);
                    },
                };
                if caller != record.sender {
                    return Err(ContractError::InvalidAddress);
                }
                let cancelled: Remittance = match record.transition(RemittanceStatus::Cancelled) {
                    Ok(cancelled) => cancelled,
                    Err(error) => {
                        return Err(error);
                    },
                };
                match config.store.update(id, cancelled) {
                    Ok(()) => {},
                    Err(error) => {
                        return Err(error);
                    },
                }
                env.request_transfer(Account::Escrow, Account::Party(record.sender), record.amount);
                emit_remittance_cancelled(env, id, record.sender, record.amount);
                Ok(record.amount)
            },
        }
    }

    /// Withdraws the accumulated fees: the transfer of the whole balance from
    /// escrow to `to` is requested, the balance becomes zero, and the event of
    /// the withdrawal is published. `admin` is the identity that asks.
    /// Returns the amount withdrawn.
    ///
    /// Fails with `NotInitialized` before initialization, with
    /// `InvalidAddress` where `admin` is not the administrator, and with
    /// `NoFeesToWithdraw` where the balance is zero.
    pub fn withdraw_fees(&mut self, env: &mut Env, admin: Address, to: Address) -> (r: Result<
        i128,
        ContractError,
    >)
        requires
            old(self).wf(),
        ensures
            final(self).wf(),
            realizes(
                *old(self),
                *old(env),
                *final(self),
                *final(env),
                r,
                model::withdraw_fees(old(self)@, admin, to),
            ),
    {
        match self {
            Contract::Uninitialized => Err(ContractError::NotInitialized),
            Contract::Initialized(config) => {
                if admin != config.admin {
                    return Err(ContractError::InvalidAddress);
                }
                match config.fees.withdraw() {
                    Err(error) => Err(error),
                    Ok(amount) => {
                        env.request_transfer(Account::Escrow, Account::Party(to), amount);
                        emit_fees_withdrawn(env, to, amount);
                        Ok(amount)
                    },
                }
            },
        }
    }
}

} // verus!
