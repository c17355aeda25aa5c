//! The four instructions, each acting on the accounts that were resolved
//! for it.

use crate::error::CustomError;
use crate::events::{OwnerInitialized, OwnershipTransferred, TransferAdded, TransferUpdated, TransferUpdatedView};
use crate::pubkey::Pubkey;
use crate::state::{OwnerAccount, TransferRecord};
use vstd::prelude::*;

verus! {

/// The accounts of `initialize_owner`: the owner registry that was allocated,
/// and whoever signed.
#[derive(Clone, Copy, Debug, PartialEq, Eq)]
pub struct InitializeOwner {
    pub owner_account: OwnerAccount,
    pub signer: Pubkey,
}

/// The accounts of `add_transfer`: the owner registry, the record that was
/// allocated for the transfer, and whoever signed.
#[derive(Debug, PartialEq, Eq)]
pub struct AddTransfer {
    pub owner_account: OwnerAccount,
    pub transfer_record: TransferRecord,
    pub signer: Pubkey,
}

/// The accounts of `update_transfer`: the owner registry, the record to
/// amend, and whoever signed.
#[derive(Debug, PartialEq, Eq)]
pub struct UpdateTransfer {
    pub owner_account: OwnerAccount,
    pub transfer_record: TransferRecord,
    pub signer: Pubkey,
}

/// The accounts of `transfer_ownership`: the owner registry and whoever
/// signed.
#[derive(Clone, Copy, Debug, PartialEq, Eq)]
pub struct TransferOwnership {
    pub owner_account: OwnerAccount,
    pub signer: Pubkey,
}

/// Fills the allocated record with the ten given values, for the owner only.
///
/// Any other signer gets `Unauthorized` and the accounts stay as they were.
/// On success the event carries the same ten values as the record.
pub fn add_transfer(
    ctx: &mut AddTransfer,
    signature_1: String,
    signature_2: String,
    signature_3: String,
    from: Pubkey,
    to: Pubkey,
    amount: u64,
    timestamp: i64,
    wallet_balance: u64,
    sol_price: u64,
    token_price: u64,
) -> (result: Result<TransferAdded, CustomError>)
    ensures
        old(ctx).owner_account.owner != old(ctx).signer ==> {
            &&& result == Err::<TransferAdded, CustomError>(CustomError::Unauthorized)
            &&& *final(ctx) == *old(ctx)
        },
        old(ctx).owner_account.owner == old(ctx).signer ==> {
            &&& result matches Ok(event)
            &&& event@ == final(ctx).transfer_record@
            &&& *final(ctx) == (AddTransfer {
                transfer_record: TransferRecord {
                    signature_1,
                    signature_2,
                    signature_3,
                    from,
                    to,
                    amount,
                    timestamp,
                    wallet_balance,
                    sol_price,
                    token_price,
                },
                ..*old(ctx)
            })
        },
{
    if ctx.owner_account.owner != ctx.signer {
        return Err(CustomError::Unauthorized);
    }
    let event = TransferAdded {
        signature_1: signature_1.clone(),
        signature_2: signature_2.clone(),
        signature_3: signature_3.clone(),
        from,
        to,
        amount,
        timestamp,
        wallet_balance,
        sol_price,
        token_price,
    };
    ctx.transfer_record.signature_1 = signature_1;
    ctx.transfer_record.signature_2 = signature_2;
    ctx.transfer_record.signature_3 = signature_3;
    ctx.transfer_record.from = from;
    ctx.transfer_record.to = to;
    ctx.transfer_record.amount = amount;
    ctx.transfer_record.timestamp = timestamp;
    ctx.transfer_record.wallet_balance = wallet_balance;
    ctx.transfer_record.sol_price = sol_price;
    ctx.transfer_record.token_price = token_price;
    Ok(event)
}

/// Replaces the balance and the two prices of the record, for the owner
/// only, and leaves its other seven fields as they were.
///
/// Any other signer gets `Unauthorized` and the accounts stay as they were.
/// On success the event names the record by its stored signature and carries
/// the three new values.
pub fn update_transfer(
    ctx: &mut UpdateTransfer,
    new_wallet_balance: u64,
    new_sol_price: u64,
    new_token_price: u64,
) -> (result: Result<TransferUpdated, CustomError>)
    ensures
        old(ctx).owner_account.owner != old(ctx).signer ==> {
            &&& result == Err::<TransferUpdated, CustomError>(CustomError::Unauthorized)
            &&& *final(ctx) == *old(ctx)
        },
        old(ctx).owner_account.owner == old(ctx).signer ==> {
            &&& result matches Ok(event)
            &&& event@ == (TransferUpdatedView {
                signature_1: old(ctx).transfer_record.signature_1@,
                signature_2: old(ctx).transfer_record.signature_2@,
                signature_3: old(ctx).transfer_record.signature_3@,
                new_wallet_balance,
                new_sol_price,
                new_token_price,
            })
            &&& *final(ctx) == (UpdateTransfer {
                transfer_record: TransferRecord {
                    wallet_balance: new_wallet_balance,
                    sol_price: new_sol_price,
                    token_price: new_token_price,
                    ..old(ctx).transfer_record
                },
                ..*old(ctx)
            })
        },
{
    if ctx.owner_account.owner != ctx.signer {
        return Err(CustomError::Unauthorized);
    }
    ctx.transfer_record.wallet_balance = new_wallet_balance;
    ctx.transfer_record.sol_price = new_sol_price;
    ctx.transfer_record.token_price = new_token_price;
    Ok(
        TransferUpdated {
            signature_1: ctx.transfer_record.signature_1.clone(),
            signature_2: ctx.transfer_record.signature_2.clone(),
            signature_3: ctx.transfer_record.signature_3.clone(),
            new_wallet_balance,
            new_sol_price,
            new_token_price,
        },
    )
}

/// Hands the registry to `new_owner`, for the owner only. The new owner may
/// be the old one: the registry then keeps its value and the event is still
/// emitted.
///
/// Any other signer gets `Unauthorized` and the accounts stay as they were.
pub fn transfer_ownership(ctx: &mut TransferOwnership, new_owner: Pubkey) -> (result: Result<
    OwnershipTransferred,
    CustomError,
>)
    ensures
        old(ctx).owner_account.owner != old(ctx).signer ==> {
            &&& result == Err::<OwnershipTransferred, CustomError>(CustomError::Unauthorized)
            &&& *final(ctx) == *old(ctx)
        },
        old(ctx).owner_account.owner == old(ctx).signer ==> {
            &&& result == Ok::<OwnershipTransferred, CustomError>(
                OwnershipTransferred { old_owner: old(ctx).signer, new_owner },
            )
            &&& *final(ctx) == (TransferOwnership {
                owner_account: OwnerAccount { owner: new_owner },
                ..*old(ctx)
            })
        },
{
    if ctx.owner_account.owner != ctx.signer {
        return Err(CustomError::Unauthorized);
    }
    ctx.owner_account.owner = new_owner;
    Ok(OwnershipTransferred { old_owner: ctx.signer, new_owner })
}

/// Makes the signer the owner that the allocated registry holds. Whoever
/// signs is accepted.
pub fn initialize_owner(ctx: &mut InitializeOwner) -> (result: Result<OwnerInitialized, CustomError>)
    ensures
        result == Ok::<OwnerInitialized, CustomError>(OwnerInitialized { owner: old(ctx).signer }),
        *final(ctx) == (InitializeOwner {
            owner_account: OwnerAccount { owner: old(ctx).signer },
            ..*old(ctx)
        }),
{
    ctx.owner_account.owner = ctx.signer;
    Ok(OwnerInitialized { owner: ctx.owner_account.owner })
}

} // verus!
