use rice_supply_chain::address::Address;
use rice_supply_chain::error::ErrorCode;
use rice_supply_chain::store::RecordStore;

fn at(seed: u8) -> Address {
    Address::new([seed; 32])
}

#[test]
fn new_store_holds_nothing() {
    let store = RecordStore::new();
    assert!(!store.contains(&at(0)));
    assert_eq!(store.read(&at(0)), None);
}

#[test]
fn allocate_gives_zero_bytes() {
    let mut store = RecordStore::new();
    assert_eq!(store.allocate(&at(1), 5), Ok(()));
    assert_eq!(store.allocate(&at(2), 0), Ok(()));
    assert!(store.contains(&at(1)));
    assert_eq!(store.read(&at(1)), Some(&vec![0u8; 5]));
    assert_eq!(store.read(&at(2)), Some(&Vec::new()));
    assert!(!store.contains(&at(3)));
}

#[test]
fn allocate_refuses_a_used_address() {
    let mut store = RecordStore::new();
    assert_eq!(store.allocate(&at(1), 5), Ok(()));
    assert_eq!(store.write(&at(1), &[1, 2, 3]), Ok(()));
    assert_eq!(store.allocate(&at(1), 9), Err(ErrorCode::AccountAlreadyInUse));
    assert_eq!(store.read(&at(1)), Some(&vec![1, 2, 3, 0, 0]));
}

#[test]
fn write_replaces_the_start_of_the_slot() {
    let mut store = RecordStore::new();
    assert_eq!(store.allocate(&at(1), 5), Ok(()));
    assert_eq!(store.allocate(&at(2), 2), Ok(()));
    assert_eq!(store.write(&at(1), &[1, 2, 3, 4, 5]), Ok(()));
    assert_eq!(store.write(&at(1), &[9, 8]), Ok(()));
    assert_eq!(store.read(&at(1)), Some(&vec![9, 8, 3, 4, 5]));
    assert_eq!(store.write(&at(1), &[]), Ok(()));
    assert_eq!(store.read(&at(1)), Some(&vec![9, 8, 3, 4, 5]));
    assert_eq!(store.read(&at(2)), Some(&vec![0, 0]));
}

#[test]
fn write_past_the_capacity_is_refused() {
    let mut store = RecordStore::new();
    assert_eq!(store.allocate(&at(1), 3), Ok(()));
    assert_eq!(store.write(&at(1), &[7, 7, 7]), Ok(()));
    assert_eq!(store.write(&at(1), &[1, 2, 3, 4]), Err(ErrorCode::InvalidTransactionData));
    assert_eq!(store.read(&at(1)), Some(&vec![7, 7, 7]));
}

#[test]
fn write_to_a_missing_slot_is_refused() {
    let mut store = RecordStore::new();
    assert_eq!(store.allocate(&at(1), 3), Ok(()));
    assert_eq!(store.write(&at(2), &[1]), Err(ErrorCode::AccountNotInitialized));
    assert_eq!(store.write(&at(2), &[]), Err(ErrorCode::AccountNotInitialized));
    assert!(!store.contains(&at(2)));
    assert_eq!(store.read(&at(1)), Some(&vec![0, 0, 0]));
}
