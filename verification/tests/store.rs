use final_transfer_tracker::error::CustomError;
use final_transfer_tracker::events::{
    Event, OwnerInitialized, OwnershipTransferred, TransferAdded, TransferUpdated,
};
use final_transfer_tracker::pubkey::Pubkey;
use final_transfer_tracker::state::{Account, OwnerAccount, TransferRecord};
use final_transfer_tracker::store::Store;

fn key(byte: u8) -> Pubkey {
    Pubkey::new_from_array([byte; 32])
}

const REGISTRY: u8 = 200;

fn registry() -> Option<Pubkey> {
    Some(key(REGISTRY))
}

/// A store whose registry, at `registry()`, names `owner`.
fn store_of(owner: Pubkey) -> Store {
    let mut store = Store::new();
    assert_eq!(store.initialize_owner(registry(), owner), Ok(()));
    store
}

/// Adds a record with fixed values at `address`, signed by `signer`.
fn add_at(store: &mut Store, address: Option<Pubkey>, signer: Pubkey) -> Result<(), CustomError> {
    store.add_transfer(
        registry(),
        address,
        signer,
        String::from("a"),
        String::from("b"),
        String::from("c"),
        key(10),
        key(11),
        100,
        1000,
        500,
        20,
        5,
    )
}

fn sample() -> TransferRecord {
    TransferRecord {
        signature_1: String::from("a"),
        signature_2: String::from("b"),
        signature_3: String::from("c"),
        from: key(10),
        to: key(11),
        amount: 100,
        timestamp: 1000,
        wallet_balance: 500,
        sol_price: 20,
        token_price: 5,
    }
}

#[test]
fn new_store_holds_nothing() {
    let store = Store::new();
    assert_eq!(store.account(&key(1)), None);
    assert_eq!(store.owner(registry()), None);
    assert_eq!(store.owner(None), None);
    assert_eq!(store.record(Some(key(1))), None);
    assert_eq!(store.record(None), None);
    assert!(store.events().is_empty());
}

#[test]
fn store_initialize_owner_writes_registry() {
    let mut store = Store::new();
    assert_eq!(store.initialize_owner(registry(), key(1)), Ok(()));
    assert_eq!(store.account(&key(REGISTRY)), Some(&Account::Owner(OwnerAccount { owner: key(1) })));
    assert_eq!(store.owner(registry()), Some(key(1)));
    assert_eq!(store.owner(Some(key(7))), None);
    assert_eq!(store.events(), &vec![Event::OwnerInitialized(OwnerInitialized { owner: key(1) })]);
}

#[test]
fn store_initialize_owner_without_address_is_invalid_seeds() {
    let mut store = Store::new();
    assert_eq!(store.initialize_owner(None, key(1)), Err(CustomError::InvalidSeeds));
    assert!(store.events().is_empty());
}

#[test]
fn store_initialize_owner_at_taken_address_is_already_initialized() {
    let mut store = store_of(key(1));
    assert_eq!(store.initialize_owner(registry(), key(2)), Err(CustomError::AlreadyInitialized));
    assert_eq!(add_at(&mut store, Some(key(50)), key(1)), Ok(()));
    assert_eq!(store.initialize_owner(Some(key(50)), key(2)), Err(CustomError::AlreadyInitialized));
    assert_eq!(store.owner(registry()), Some(key(1)));
    assert_eq!(store.events().len(), 2);
}

#[test]
fn store_add_transfer_checks_owner_then_address() {
    let mut store = store_of(key(1));
    assert_eq!(add_at(&mut store, Some(key(50)), key(2)), Err(CustomError::Unauthorized));
    assert_eq!(add_at(&mut store, None, key(2)), Err(CustomError::Unauthorized));
    assert_eq!(add_at(&mut store, None, key(1)), Err(CustomError::InvalidSeeds));
    assert_eq!(add_at(&mut store, registry(), key(1)), Err(CustomError::DuplicateRecord));
    assert_eq!(store.events().len(), 1);

    assert_eq!(add_at(&mut store, Some(key(50)), key(1)), Ok(()));
    assert_eq!(store.account(&key(50)), Some(&Account::Transfer(sample())));
    assert_eq!(store.record(Some(key(50))), Some(&sample()));
    assert_eq!(
        store.events().last(),
        Some(&Event::TransferAdded(TransferAdded {
            signature_1: String::from("a"),
            signature_2: String::from("b"),
            signature_3: String::from("c"),
            from: key(10),
            to: key(11),
            amount: 100,
            timestamp: 1000,
            wallet_balance: 500,
            sol_price: 20,
            token_price: 5,
        }))
    );

    assert_eq!(add_at(&mut store, Some(key(50)), key(1)), Err(CustomError::DuplicateRecord));
    assert_eq!(add_at(&mut store, Some(key(50)), key(2)), Err(CustomError::Unauthorized));
    assert_eq!(store.events().len(), 2);
}

#[test]
fn store_add_transfer_with_a_wrong_registry_is_unauthorized() {
    let mut store = store_of(key(1));
    assert_eq!(add_at(&mut store, Some(key(50)), key(1)), Ok(()));
    let added = store.add_transfer(
        Some(key(50)),
        Some(key(51)),
        key(1),
        String::new(),
        String::new(),
        String::new(),
        key(0),
        key(0),
        0,
        0,
        0,
        0,
        0,
    );
    assert_eq!(added, Err(CustomError::Unauthorized));
    assert_eq!(store.transfer_ownership(None, key(1), key(2)), Err(CustomError::Unauthorized));
    assert_eq!(store.update_transfer(Some(key(9)), Some(key(50)), key(1), 1, 2, 3), Err(CustomError::Unauthorized));
}

#[test]
fn store_update_transfer_replaces_three_fields_in_place() {
    let mut store = store_of(key(1));
    assert_eq!(add_at(&mut store, Some(key(50)), key(1)), Ok(()));
    assert_eq!(add_at(&mut store, Some(key(51)), key(1)), Ok(()));

    assert_eq!(store.update_transfer(registry(), Some(key(50)), key(2), 600, 21, 6), Err(CustomError::Unauthorized));
    assert_eq!(store.update_transfer(registry(), Some(key(52)), key(1), 600, 21, 6), Err(CustomError::NotFound));
    assert_eq!(store.update_transfer(registry(), None, key(1), 600, 21, 6), Err(CustomError::NotFound));
    assert_eq!(store.update_transfer(registry(), registry(), key(1), 600, 21, 6), Err(CustomError::NotFound));
    assert_eq!(store.record(Some(key(50))), Some(&sample()));
    assert_eq!(store.events().len(), 3);

    assert_eq!(store.update_transfer(registry(), Some(key(50)), key(1), 600, 21, 6), Ok(()));
    assert_eq!(
        store.record(Some(key(50))),
        Some(&TransferRecord { wallet_balance: 600, sol_price: 21, token_price: 6, ..sample() })
    );
    assert_eq!(store.record(Some(key(51))), Some(&sample()));
    assert_eq!(store.owner(registry()), Some(key(1)));
    assert_eq!(
        store.events().last(),
        Some(&Event::TransferUpdated(TransferUpdated {
            signature_1: String::from("a"),
            signature_2: String::from("b"),
            signature_3: String::from("c"),
            new_wallet_balance: 600,
            new_sol_price: 21,
            new_token_price: 6,
        }))
    );
    assert_eq!(store.events().len(), 4);
}

#[test]
fn store_transfer_ownership_rewrites_registry() {
    let mut store = store_of(key(1));
    assert_eq!(store.transfer_ownership(registry(), key(2), key(2)), Err(CustomError::Unauthorized));
    assert_eq!(store.transfer_ownership(registry(), key(1), key(2)), Ok(()));
    assert_eq!(store.account(&key(REGISTRY)), Some(&Account::Owner(OwnerAccount { owner: key(2) })));
    assert_eq!(store.transfer_ownership(registry(), key(1), key(1)), Err(CustomError::Unauthorized));
    assert_eq!(store.transfer_ownership(registry(), key(2), key(2)), Ok(()));
    assert_eq!(
        store.events(),
        &vec![
            Event::OwnerInitialized(OwnerInitialized { owner: key(1) }),
            Event::OwnershipTransferred(OwnershipTransferred { old_owner: key(1), new_owner: key(2) }),
            Event::OwnershipTransferred(OwnershipTransferred { old_owner: key(2), new_owner: key(2) }),
        ]
    );
}

#[test]
fn store_registry_address_cannot_hold_a_record() {
    let mut store = store_of(key(1));
    assert_eq!(store.record(registry()), None);
    assert_eq!(add_at(&mut store, registry(), key(1)), Err(CustomError::DuplicateRecord));
    assert_eq!(store.owner(registry()), Some(key(1)));
}

#[test]
fn store_keeps_many_accounts_apart() {
    let mut store = store_of(key(1));
    for byte in 0..100u8 {
        assert_eq!(add_at(&mut store, Some(key(byte)), key(1)), Ok(()));
    }
    for byte in 0..100u8 {
        let price = u64::from(byte);
        assert_eq!(store.update_transfer(registry(), Some(key(byte)), key(1), price, price + 1, price + 2), Ok(()));
    }
    for byte in 0..100u8 {
        let found = store.record(Some(key(byte))).expect("stored");
        assert_eq!(found.wallet_balance, u64::from(byte));
        assert_eq!(found.token_price, u64::from(byte) + 2);
        assert_eq!(found.amount, 100);
    }
    assert_eq!(store.record(Some(key(100))), None);
    assert_eq!(store.events().len(), 201);
}
