use swiftremit::errors::ContractError;
use swiftremit::types::Address;
use swiftremit::types::Remittance;
use swiftremit::types::RemittanceStatus;

fn party(tag: u8) -> Address {
    let mut strkey = [b'A'; 56];
    strkey[0] = b'G';
    strkey[55] = tag;
    Address::new(strkey)
}

fn record(amount: i128, fee: i128, status: RemittanceStatus, expiry: Option<u64>) -> Remittance {
    Remittance { id: 1, sender: party(b'S'), agent: party(b'T'), amount, fee, status, expiry }
}

#[test]
fn addresses_compare_by_their_characters() {
    assert_eq!(party(b'X'), party(b'X'));
    assert_ne!(party(b'X'), party(b'Y'));
    let mut first = [b'A'; 56];
    let mut second = [b'A'; 56];
    first[0] = b'G';
    second[0] = b'C';
    assert_ne!(Address::new(first), Address::new(second));
}

#[test]
fn address_keeps_its_characters() {
    let mut strkey = [b'B'; 56];
    strkey[10] = b'7';
    let a = Address::new(strkey);
    assert_eq!(a.as_bytes(), &strkey);
    assert_eq!(a.strkey, strkey);
}

#[test]
fn only_pending_is_not_terminal() {
    assert!(!RemittanceStatus::Pending.terminal());
    assert!(RemittanceStatus::Completed.terminal());
    assert!(RemittanceStatus::Cancelled.terminal());
}

#[test]
fn payout_is_amount_less_fee() {
    assert_eq!(record(10_000, 100, RemittanceStatus::Pending, None).payout(), 9_900);
    assert_eq!(record(1, 0, RemittanceStatus::Pending, None).payout(), 1);
    assert_eq!(record(5, 5, RemittanceStatus::Pending, None).payout(), 0);
}

#[test]
fn record_validity_checks_the_amounts() {
    assert!(record(10_000, 100, RemittanceStatus::Pending, None).check_valid());
    assert!(record(10_000, 0, RemittanceStatus::Pending, None).check_valid());
    assert!(record(10_000, 10_000, RemittanceStatus::Pending, None).check_valid());
    assert!(!record(0, 0, RemittanceStatus::Pending, None).check_valid());
    assert!(!record(-5, 0, RemittanceStatus::Pending, None).check_valid());
    assert!(!record(10, -1, RemittanceStatus::Pending, None).check_valid());
    assert!(!record(10, 11, RemittanceStatus::Pending, None).check_valid());
}

#[test]
fn expiry_is_exclusive_of_the_deadline() {
    let r = record(10, 1, RemittanceStatus::Pending, Some(1_000));
    assert!(!r.is_expired(999));
    assert!(!r.is_expired(1_000));
    assert!(r.is_expired(1_001));
    assert!(r.is_expired(u64::MAX));
}

#[test]
fn record_without_expiry_never_expires() {
    let r = record(10, 1, RemittanceStatus::Pending, None);
    assert!(!r.is_expired(0));
    assert!(!r.is_expired(u64::MAX));
}

#[test]
fn pending_record_moves_to_a_terminal_status() {
    let r = record(10_000, 100, RemittanceStatus::Pending, Some(5));
    let done = r.transition(RemittanceStatus::Completed).unwrap();
    assert_eq!(done, Remittance { status: RemittanceStatus::Completed, ..r });
    let undone = r.transition(RemittanceStatus::Cancelled).unwrap();
    assert_eq!(undone, Remittance { status: RemittanceStatus::Cancelled, ..r });
}

#[test]
fn no_transition_leaves_a_terminal_status() {
    for from in [RemittanceStatus::Completed, RemittanceStatus::Cancelled] {
        let r = record(10_000, 100, from, None);
        for to in
            [RemittanceStatus::Pending, RemittanceStatus::Completed, RemittanceStatus::Cancelled]
        {
            assert_eq!(r.transition(to), Err(ContractError::InvalidStatus));
        }
    }
}

#[test]
fn no_transition_leads_back_to_pending() {
    let r = record(10_000, 100, RemittanceStatus::Pending, None);
    assert_eq!(r.transition(RemittanceStatus::Pending), Err(ContractError::InvalidStatus));
}
