use bor::config::{calculate_state_delay, BorConfig};
use bor::primitives::Address;
use bor::schedule::Schedule;

fn table(entries: Vec<(u64, u64)>) -> Schedule<u64> {
    Schedule::from_entries(entries).expect("keys ascend")
}

fn config_with_sprint(entries: Vec<(u64, u64)>) -> BorConfig {
    BorConfig {
        period: Schedule::new(),
        producer_delay: Schedule::new(),
        sprint: table(entries),
        backup_multiplier: Schedule::new(),
        validator_contract: Address([0x10; 20]),
        state_receiver_contract: Address([0x11; 20]),
        override_state_sync_records: Schedule::new(),
        burnt_contract: Schedule::new(),
        jaipur_block: None,
        delhi_block: Some(100),
        indore_block: Some(0),
        state_sync_confirmation_delay: Schedule::new(),
        ahmedabad_block: None,
    }
}

#[test]
fn lookup_takes_greatest_key_at_or_below() {
    let t = table(vec![(0, 64), (1000, 16)]);
    assert_eq!(t.lookup(500), Some(64));
    assert_eq!(t.lookup(1500), Some(16));
    assert_eq!(t.lookup(1000), Some(16));
    assert_eq!(t.lookup(999), Some(64));
    assert_eq!(t.lookup(0), Some(64));
    assert_eq!(t.lookup(u64::MAX), Some(16));
}

#[test]
fn lookup_on_empty_table_fails_for_any_block() {
    let t: Schedule<u64> = Schedule::new();
    assert_eq!(t.lookup(0), None);
    assert_eq!(t.lookup(500), None);
    assert_eq!(t.lookup(u64::MAX), None);
    let config = config_with_sprint(vec![]);
    assert!(config.sprint_number(7).is_err());
}

#[test]
fn lookup_below_first_key_fails() {
    let t = table(vec![(10, 5), (20, 6)]);
    assert_eq!(t.lookup(9), None);
    assert_eq!(t.lookup(10), Some(5));
}

#[test]
fn from_entries_rejects_keys_that_do_not_ascend() {
    assert!(Schedule::from_entries(vec![(5u64, 1u64), (5, 2)]).is_none());
    assert!(Schedule::from_entries(vec![(6u64, 1u64), (5, 2)]).is_none());
    assert!(Schedule::from_entries(vec![(5u64, 1u64), (6, 2)]).is_some());
    assert!(Schedule::<u64>::from_entries(vec![]).is_some());
}

#[test]
fn sprint_number_reads_the_sprint_table() {
    let config = config_with_sprint(vec![(0, 64), (1000, 16)]);
    assert_eq!(config.sprint_number(500), Ok(64));
    assert_eq!(config.sprint_number(1500), Ok(16));
}

#[test]
fn sprint_boundaries_with_sprint_length_64() {
    let config = config_with_sprint(vec![(0, 64)]);
    assert!(config.is_sprint_start(0));
    assert!(config.is_sprint_start(64));
    assert!(config.is_sprint_start(128));
    assert!(!config.is_sprint_start(65));
    assert!(!config.is_sprint_start(63));
}

#[test]
fn sprint_boundary_follows_the_length_in_effect() {
    let config = config_with_sprint(vec![(0, 64), (1000, 16)]);
    assert!(config.is_sprint_start(1008));
    assert!(!config.is_sprint_start(1010));
    assert!(!config.is_sprint_start(992 + 8));
}

#[test]
fn forks_activate_at_their_block() {
    let config = config_with_sprint(vec![(0, 64)]);
    assert!(!config.is_delhi_fork_enabled(99));
    assert!(config.is_delhi_fork_enabled(100));
    assert!(config.is_indore_fork_enabled(0));
    assert!(!config.is_jaipur_fork_enabled(u64::MAX));
    assert!(!config.is_ahmedabad_fork_enabled(0));
}

#[test]
fn contract_addresses_are_returned() {
    let config = config_with_sprint(vec![(0, 64)]);
    assert_eq!(config.validator_contract(), Address([0x10; 20]));
    assert_eq!(config.state_receiver_contract(), Address([0x11; 20]));
}

#[test]
fn burnt_contract_follows_its_table() {
    let mut config = config_with_sprint(vec![(0, 64)]);
    config.burnt_contract =
        Schedule::from_entries(vec![(0, Address([1; 20])), (50, Address([2; 20]))]).unwrap();
    assert_eq!(config.burnt_contract(49), Ok(Address([1; 20])));
    assert_eq!(config.burnt_contract(50), Ok(Address([2; 20])));
    let empty = config_with_sprint(vec![(0, 64)]);
    assert!(empty.burnt_contract(5).is_err());
}

#[test]
fn state_delay_is_zero_without_an_entry() {
    let mut config = config_with_sprint(vec![(0, 64)]);
    assert_eq!(calculate_state_delay(&config, 10), 0);
    config.state_sync_confirmation_delay = table(vec![(5, 128), (100, 256)]);
    assert_eq!(calculate_state_delay(&config, 4), 0);
    assert_eq!(calculate_state_delay(&config, 5), 128);
    assert_eq!(calculate_state_delay(&config, 150), 256);
}
