use swiftremit::errors::ContractError;
use swiftremit::registry::AgentRegistry;
use swiftremit::types::Address;

fn agent(tag: u8) -> Address {
    let mut strkey = [b'A'; 56];
    strkey[0] = b'G';
    strkey[55] = tag;
    Address::new(strkey)
}

#[test]
fn new_registry_is_empty() {
    let r = AgentRegistry::new();
    assert_eq!(r.len(), 0);
    assert!(!r.is_registered(&agent(b'A')));
    assert!(r.agents().is_empty());
}

#[test]
fn registered_agent_is_found() {
    let mut r = AgentRegistry::new();
    assert!(r.register(agent(b'A')));
    assert!(r.is_registered(&agent(b'A')));
    assert!(!r.is_registered(&agent(b'B')));
    assert_eq!(r.len(), 1);
}

#[test]
fn registering_twice_keeps_one_entry() {
    let mut r = AgentRegistry::new();
    assert!(r.register(agent(b'A')));
    assert!(!r.register(agent(b'A')));
    assert_eq!(r.len(), 1);
    assert_eq!(r.agents(), vec![agent(b'A')]);
}

#[test]
fn removed_agent_is_no_longer_registered() {
    let mut r = AgentRegistry::new();
    r.register(agent(b'A'));
    r.register(agent(b'B'));
    r.register(agent(b'C'));
    assert_eq!(r.remove(&agent(b'B')), Ok(()));
    assert!(!r.is_registered(&agent(b'B')));
    assert!(r.is_registered(&agent(b'A')));
    assert!(r.is_registered(&agent(b'C')));
    let left = r.agents();
    assert_eq!(left.len(), 2);
    assert!(left.contains(&agent(b'A')));
    assert!(left.contains(&agent(b'C')));
}

#[test]
fn removing_an_unknown_agent_fails() {
    let mut r = AgentRegistry::new();
    assert_eq!(r.remove(&agent(b'A')), Err(ContractError::AgentNotRegistered));
    r.register(agent(b'A'));
    assert_eq!(r.remove(&agent(b'B')), Err(ContractError::AgentNotRegistered));
    assert_eq!(r.len(), 1);
}

#[test]
fn removing_twice_fails_the_second_time() {
    let mut r = AgentRegistry::new();
    r.register(agent(b'A'));
    assert_eq!(r.remove(&agent(b'A')), Ok(()));
    assert_eq!(r.remove(&agent(b'A')), Err(ContractError::AgentNotRegistered));
    assert_eq!(r.len(), 0);
}

#[test]
fn removed_agent_can_register_again() {
    let mut r = AgentRegistry::new();
    r.register(agent(b'A'));
    r.remove(&agent(b'A')).unwrap();
    assert!(r.register(agent(b'A')));
    assert!(r.is_registered(&agent(b'A')));
}
