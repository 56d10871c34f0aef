//! The audit events, one kind for each operation that changes state.

use vstd::prelude::*;
use crate::host::Env;
use crate::types::Address;

verus! {

/// The version of the event layout, carried by every event.
pub const SCHEMA_VERSION: u32 = 1;

/// What happened, with the fields that belong to it.
#[derive(Clone, Copy, Debug, PartialEq, Eq)]
pub enum EventPayload {
    /// A remittance was created and funded.
    RemittanceCreated { remittance_id: u64, sender: Address, agent: Address, amount: i128, fee: i128 },
    /// A remittance was settled; `amount` is what the agent received.
    RemittanceCompleted { remittance_id: u64, agent: Address, amount: i128 },
    /// A remittance was cancelled; `amount` is what the sender got back.
    RemittanceCancelled { remittance_id: u64, sender: Address, amount: i128 },
    /// An agent was registered.
    AgentRegistered { agent: Address },
    /// An agent was taken out of the registry.
    AgentRemoved { agent: Address },
    /// The fee rate was set.
    FeeUpdated { fee_bps: u32 },
    /// The accumulated fees were withdrawn to `to`.
    FeesWithdrawn { to: Address, amount: i128 },
}

/// One audit event: the schema version, the ledger clock at which it was
/// published, and what happened.
#[derive(Clone, Copy, Debug, PartialEq, Eq)]
pub struct Event {
    pub schema_version: u32,
    pub sequence: u32,
    pub timestamp: u64,
    pub payload: EventPayload,
}

impl EventPayload {
    /// The operation tag of the event.
    pub open spec fn spec_tag(self) -> Seq<char> {
        match self {
            EventPayload::RemittanceCreated { .. } => "remittance:created"@,
            EventPayload::RemittanceCompleted { .. } => "remittance:complete"@,
            EventPayload::RemittanceCancelled { .. } => "remittance:cancel"@,
            EventPayload::AgentRegistered { .. } => "agent:register"@,
            EventPayload::AgentRemoved { .. } => "agent:removed"@,
            EventPayload::FeeUpdated { .. } => "fee:updated"@,
            EventPayload::FeesWithdrawn { .. } => "fee:withdraw"@,
        }
    }

    /// Returns the operation tag of the event.
    pub fn tag(&self) -> (t: &'static str)
        ensures
            t@ == self.spec_tag(),
    {
        match self {
            EventPayload::RemittanceCreated { .. } => "remittance:created",
            EventPayload::RemittanceCompleted { .. } => "remittance:complete",
            EventPayload::RemittanceCancelled { .. } => "remittance:cancel",
            EventPayload::AgentRegistered { .. } => "agent:register",
            EventPayload::AgentRemoved { .. } => "agent:removed",
            EventPayload::FeeUpdated { .. } => "fee:updated",
            EventPayload::FeesWithdrawn { .. } => "fee:withdraw",
        }
    }
}

/// `after` is `before` with exactly one more event: `payload`, stamped with
/// the schema version and the clock of `before`. Clock and transfers agree.
pub open spec fn emitted(before: Env, after: Env, payload: EventPayload) -> bool {
    &&& after.events() == before.events().push(Env::event_at(before.ledger(), payload))
    &&& after.ledger() == before.ledger()
    &&& after.transfers() == before.transfers()
}

/// Publishes the event of a remittance's creation.
pub fn emit_remittance_created(
    env: &mut Env,
    remittance_id: u64,
    sender: Address,
    agent: Address,
    amount: i128,
    fee: i128,
)
    ensures
        emitted(
            *old(env),
            *final(env),
            (EventPayload::RemittanceCreated { remittance_id, sender, agent, amount, fee }),
        ),
{
    env.publish(EventPayload::RemittanceCreated { remittance_id, sender, agent, amount, fee });
}

/// Publishes the event of a remittance's settlement; `amount` is the payout.
pub fn emit_remittance_completed(env: &mut Env, remittance_id: u64, agent: Address, amount: i128)
    ensures
        emitted(
            *old(env),
            *final(env),
            (EventPayload::RemittanceCompleted { remittance_id, agent, amount }),
        ),
{
    env.publish(EventPayload::RemittanceCompleted { remittance_id, agent, amount });
}

/// Publishes the event of a remittance's cancellation; `amount` is the
/// refund.
pub fn emit_remittance_cancelled(env: &mut Env, remittance_id: u64, sender: Address, amount: i128)
    ensures
        emitted(
            *old(env),
            *final(env),
            (EventPayload::RemittanceCancelled { remittance_id, sender, amount }),
        ),
{
    env.publish(EventPayload::RemittanceCancelled { remittance_id, sender, amount });
}

/// Publishes the event of an agent's registration.
pub fn emit_agent_registered(env: &mut Env, agent: Address)
    ensures
        emitted(*old(env), *final(env), (EventPayload::AgentRegistered { agent })),
{
    env.publish(EventPayload::AgentRegistered { agent });
}

/// Publishes the event of an agent's removal.
pub fn emit_agent_removed(env: &mut Env, agent: Address)
    ensures
        emitted(*old(env), *final(env), (EventPayload::AgentRemoved { agent })),
{
    env.publish(EventPayload::AgentRemoved { agent });
}

/// Publishes the event of a change of the fee rate.
pub fn emit_fee_updated(env: &mut Env, fee_bps: u32)
    ensures
        emitted(*old(env), *final(env), (EventPayload::FeeUpdated { fee_bps })),
{
    env.publish(EventPayload::FeeUpdated { fee_bps });
}

/// Publishes the event of a withdrawal of the accumulated fees.
pub fn emit_fees_withdrawn(env: &mut Env, to: Address, amount: i128)
    ensures
        emitted(*old(env), *final(env), (EventPayload::FeesWithdrawn { to, amount })),
{
    env.publish(EventPayload::FeesWithdrawn { to, amount });
}

} // verus!
