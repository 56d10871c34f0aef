use swiftremit::events::emit_agent_registered;
use swiftremit::events::emit_agent_removed;
use swiftremit::events::emit_fee_updated;
use swiftremit::events::emit_fees_withdrawn;
use swiftremit::events::emit_remittance_cancelled;
use swiftremit::events::emit_remittance_completed;
use swiftremit::events::emit_remittance_created;
use swiftremit::events::Event;
use swiftremit::events::EventPayload;
use swiftremit::events::SCHEMA_VERSION;
use swiftremit::host::Account;
use swiftremit::host::Env;
use swiftremit::host::LedgerInfo;
use swiftremit::host::Transfer;
use swiftremit::types::Address;

fn who(tag: u8) -> Address {
    let mut strkey = [b'A'; 56];
    strkey[0] = b'G';
    strkey[55] = tag;
    Address::new(strkey)
}

fn env_at(sequence: u32, timestamp: u64) -> Env {
    Env::new(LedgerInfo { sequence, timestamp })
}

fn stamped(sequence: u32, timestamp: u64, payload: EventPayload) -> Event {
    Event { schema_version: 1, sequence, timestamp, payload }
}

#[test]
fn schema_version_is_one() {
    assert_eq!(SCHEMA_VERSION, 1);
}

#[test]
fn new_env_holds_nothing() {
    let env = env_at(3, 77);
    assert_eq!(env.sequence(), 3);
    assert_eq!(env.timestamp(), 77);
    assert_eq!(env.ledger_info(), LedgerInfo { sequence: 3, timestamp: 77 });
    assert!(env.event_log().is_empty());
    assert!(env.transfer_log().is_empty());
}

#[test]
fn set_ledger_moves_the_clock_and_keeps_the_logs() {
    let mut env = env_at(3, 77);
    emit_fee_updated(&mut env, 5);
    env.request_transfer(Account::Escrow, Account::Party(who(b'A')), 9);
    env.set_ledger(LedgerInfo { sequence: 4, timestamp: 90 });
    assert_eq!(env.sequence(), 4);
    assert_eq!(env.timestamp(), 90);
    assert_eq!(env.event_log().len(), 1);
    assert_eq!(env.transfer_log().len(), 1);
}

#[test]
fn request_transfer_appends_in_order() {
    let mut env = env_at(1, 1);
    env.request_transfer(Account::Party(who(b'S')), Account::Escrow, 10);
    env.request_transfer(Account::Escrow, Account::Party(who(b'T')), 9);
    assert_eq!(
        env.transfer_log(),
        &vec![
            Transfer { from: Account::Party(who(b'S')), to: Account::Escrow, amount: 10 },
            Transfer { from: Account::Escrow, to: Account::Party(who(b'T')), amount: 9 },
        ]
    );
    assert!(env.event_log().is_empty());
}

#[test]
fn created_event_carries_clock_and_fields() {
    let mut env = env_at(12, 3_456);
    emit_remittance_created(&mut env, 9, who(b'S'), who(b'T'), 10_000, 100);
    assert_eq!(
        env.event_log(),
        &vec![stamped(
            12,
            3_456,
            EventPayload::RemittanceCreated {
                remittance_id: 9,
                sender: who(b'S'),
                agent: who(b'T'),
                amount: 10_000,
                fee: 100,
            },
        )]
    );
    assert!(env.transfer_log().is_empty());
}

#[test]
fn completed_event_carries_clock_and_fields() {
    let mut env = env_at(12, 3_456);
    emit_remittance_completed(&mut env, 9, who(b'T'), 9_900);
    assert_eq!(
        env.event_log(),
        &vec![stamped(
            12,
            3_456,
            EventPayload::RemittanceCompleted { remittance_id: 9, agent: who(b'T'), amount: 9_900 },
        )]
    );
}

#[test]
fn cancelled_event_carries_clock_and_fields() {
    let mut env = env_at(12, 3_456);
    emit_remittance_cancelled(&mut env, 9, who(b'S'), 10_000);
    assert_eq!(
        env.event_log(),
        &vec![stamped(
            12,
            3_456,
            EventPayload::RemittanceCancelled {
                remittance_id: 9,
                sender: who(b'S'),
                amount: 10_000,
            },
        )]
    );
}

#[test]
fn agent_events_carry_the_agent() {
    let mut env = env_at(5, 6);
    emit_agent_registered(&mut env, who(b'T'));
    emit_agent_removed(&mut env, who(b'T'));
    assert_eq!(
        env.event_log(),
        &vec![
            stamped(5, 6, EventPayload::AgentRegistered { agent: who(b'T') }),
            stamped(5, 6, EventPayload::AgentRemoved { agent: who(b'T') }),
        ]
    );
}

#[test]
fn fee_events_carry_rate_and_amount() {
    let mut env = env_at(5, 6);
    emit_fee_updated(&mut env, 250);
    emit_fees_withdrawn(&mut env, who(b'W'), 1_234);
    assert_eq!(
        env.event_log(),
        &vec![
            stamped(5, 6, EventPayload::FeeUpdated { fee_bps: 250 }),
            stamped(5, 6, EventPayload::FeesWithdrawn { to: who(b'W'), amount: 1_234 }),
        ]
    );
}

#[test]
fn events_are_stamped_with_the_clock_at_publication() {
    let mut env = env_at(1, 100);
    emit_fee_updated(&mut env, 1);
    env.set_ledger(LedgerInfo { sequence: 2, timestamp: 200 });
    emit_fee_updated(&mut env, 2);
    let log = env.event_log();
    assert_eq!(log.len(), 2);
    assert_eq!((log[0].sequence, log[0].timestamp), (1, 100));
    assert_eq!((log[1].sequence, log[1].timestamp), (2, 200));
    assert_eq!(log[0].schema_version, 1);
    assert_eq!(log[1].schema_version, 1);
}

#[test]
fn publish_appends_one_event() {
    let mut env = env_at(8, 9);
    env.publish(EventPayload::FeeUpdated { fee_bps: 10 });
    assert_eq!(env.event_log(), &vec![stamped(8, 9, EventPayload::FeeUpdated { fee_bps: 10 })]);
}

#[test]
fn tags_name_the_operation() {
    let a = who(b'A');
    assert_eq!(
        EventPayload::RemittanceCreated {
            remittance_id: 1,
            sender: a,
            agent: a,
            amount: 1,
            fee: 0
        }
        .tag(),
        "remittance:created"
    );
    assert_eq!(
        EventPayload::RemittanceCompleted { remittance_id: 1, agent: a, amount: 1 }.tag(),
        "remittance:complete"
    );
    assert_eq!(
        EventPayload::RemittanceCancelled { remittance_id: 1, sender: a, amount: 1 }.tag(),
        "remittance:cancel"
    );
    assert_eq!(EventPayload::AgentRegistered { agent: a }.tag(), "agent:register");
    assert_eq!(EventPayload::AgentRemoved { agent: a }.tag(), "agent:removed");
    assert_eq!(EventPayload::FeeUpdated { fee_bps: 1 }.tag(), "fee:updated");
    assert_eq!(EventPayload::FeesWithdrawn { to: a, amount: 1 }.tag(), "fee:withdraw");
}
