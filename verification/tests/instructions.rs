use final_transfer_tracker::error::CustomError;
use final_transfer_tracker::events::{
    OwnerInitialized, OwnershipTransferred, TransferAdded, TransferUpdated,
};
use final_transfer_tracker::instructions::{
    add_transfer, initialize_owner, transfer_ownership, update_transfer, AddTransfer,
    InitializeOwner, TransferOwnership, UpdateTransfer,
};
use final_transfer_tracker::pubkey::Pubkey;
use final_transfer_tracker::state::{OwnerAccount, TransferRecord};

fn key(byte: u8) -> Pubkey {
    Pubkey::new_from_array([byte; 32])
}

fn sample_record() -> TransferRecord {
    TransferRecord {
        signature_1: String::from("a"),
        signature_2: String::from("b"),
        signature_3: String::from("c"),
        from: key(10),
        to: key(11),
        amount: 100,
        timestamp: 1000,
        wallet_balance: 500,
        sol_price: 20,
        token_price: 5,
    }
}

fn fill(ctx: &mut AddTransfer) -> Result<TransferAdded, CustomError> {
    add_transfer(
        ctx,
        String::from("a"),
        String::from("b"),
        String::from("c"),
        key(10),
        key(11),
        100,
        1000,
        500,
        20,
        5,
    )
}

#[test]
fn initialize_owner_writes_signer() {
    let mut ctx = InitializeOwner { owner_account: OwnerAccount::default(), signer: key(7) };
    assert_eq!(initialize_owner(&mut ctx), Ok(OwnerInitialized { owner: key(7) }));
    assert_eq!(ctx, InitializeOwner { owner_account: OwnerAccount { owner: key(7) }, signer: key(7) });
}

#[test]
fn add_transfer_by_owner_fills_record_and_event() {
    let mut ctx = AddTransfer {
        owner_account: OwnerAccount { owner: key(1) },
        transfer_record: TransferRecord::default(),
        signer: key(1),
    };
    let event = fill(&mut ctx).expect("the owner signed");
    assert_eq!(ctx.transfer_record, sample_record());
    assert_eq!(ctx.owner_account, OwnerAccount { owner: key(1) });
    assert_eq!(
        event,
        TransferAdded {
            signature_1: String::from("a"),
            signature_2: String::from("b"),
            signature_3: String::from("c"),
            from: key(10),
            to: key(11),
            amount: 100,
            timestamp: 1000,
            wallet_balance: 500,
            sol_price: 20,
            token_price: 5,
        }
    );
}

#[test]
fn add_transfer_by_stranger_leaves_record_untouched() {
    let mut ctx = AddTransfer {
        owner_account: OwnerAccount { owner: key(1) },
        transfer_record: TransferRecord::default(),
        signer: key(2),
    };
    assert_eq!(fill(&mut ctx), Err(CustomError::Unauthorized));
    assert_eq!(ctx.transfer_record, TransferRecord::default());
}

#[test]
fn update_transfer_by_owner_replaces_three_fields() {
    let mut ctx = UpdateTransfer {
        owner_account: OwnerAccount { owner: key(1) },
        transfer_record: sample_record(),
        signer: key(1),
    };
    let event = update_transfer(&mut ctx, 600, 21, 6);
    assert_eq!(
        event,
        Ok(TransferUpdated {
            signature_1: String::from("a"),
            signature_2: String::from("b"),
            signature_3: String::from("c"),
            new_wallet_balance: 600,
            new_sol_price: 21,
            new_token_price: 6,
        })
    );
    assert_eq!(
        ctx.transfer_record,
        TransferRecord { wallet_balance: 600, sol_price: 21, token_price: 6, ..sample_record() }
    );
}

#[test]
fn update_transfer_by_stranger_leaves_record_untouched() {
    let mut ctx = UpdateTransfer {
        owner_account: OwnerAccount { owner: key(1) },
        transfer_record: sample_record(),
        signer: key(2),
    };
    assert_eq!(update_transfer(&mut ctx, 600, 21, 6), Err(CustomError::Unauthorized));
    assert_eq!(ctx.transfer_record, sample_record());
}

#[test]
fn transfer_ownership_by_owner_replaces_owner() {
    let mut ctx = TransferOwnership { owner_account: OwnerAccount { owner: key(1) }, signer: key(1) };
    let event = transfer_ownership(&mut ctx, key(2));
    assert_eq!(event, Ok(OwnershipTransferred { old_owner: key(1), new_owner: key(2) }));
    assert_eq!(ctx.owner_account.owner, key(2));
    assert_eq!(ctx.signer, key(1));
}

#[test]
fn transfer_ownership_by_stranger_is_unauthorized() {
    let mut ctx = TransferOwnership { owner_account: OwnerAccount { owner: key(1) }, signer: key(3) };
    assert_eq!(transfer_ownership(&mut ctx, key(2)), Err(CustomError::Unauthorized));
    assert_eq!(ctx.owner_account.owner, key(1));
}

#[test]
fn transfer_ownership_to_self_keeps_owner() {
    let mut ctx = TransferOwnership { owner_account: OwnerAccount { owner: key(1) }, signer: key(1) };
    assert_eq!(
        transfer_ownership(&mut ctx, key(1)),
        Ok(OwnershipTransferred { old_owner: key(1), new_owner: key(1) })
    );
    assert_eq!(ctx.owner_account.owner, key(1));
}

#[test]
fn fresh_accounts_are_zeroed() {
    assert_eq!(OwnerAccount::default().owner, Pubkey::new_from_array([0; 32]));
    let record = TransferRecord::default();
    assert_eq!(
        record,
        TransferRecord {
            signature_1: String::new(),
            signature_2: String::new(),
            signature_3: String::new(),
            from: key(0),
            to: key(0),
            amount: 0,
            timestamp: 0,
            wallet_balance: 0,
            sol_price: 0,
            token_price: 0,
        }
    );
    assert_eq!(record.clone(), record);
}

#[test]
fn error_messages() {
    assert_eq!(CustomError::Unauthorized.message(), "Only the owner can perform this action.");
    assert_ne!(CustomError::NotFound.message(), CustomError::DuplicateRecord.message());
    assert_ne!(CustomError::AlreadyInitialized.message(), CustomError::InvalidSeeds.message());
}
