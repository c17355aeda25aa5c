//! What holds of the tracker whatever calls are made of it.

use crate::error::CustomError;
use crate::model::{Call, TrackerState};
use crate::pubkey::Pubkey;
use crate::state::{AccountView, TransferRecordView};
use vstd::prelude::*;

verus! {

/// A deployment starts with every account at its derived address (it has
/// none), and no call changes that.
pub proof fn lemma_well_addressed(program_id: Pubkey, calls: Seq<Call>)
    ensures
        TrackerState::new(program_id).after_all(calls).well_addressed(),
{
    lemma_stays_well_addressed(TrackerState::new(program_id), calls);
}

/// A state in which every account sits at its derived address stays so
/// through any sequence of calls.
pub proof fn lemma_stays_well_addressed(state: TrackerState, calls: Seq<Call>)
    requires
        state.well_addressed(),
    ensures
        state.after_all(calls).well_addressed(),
    decreases calls.len(),
{
    if calls.len() > 0 {
        lemma_stays_well_addressed(state, calls.drop_last());
    }
}

/// At most one record exists per signature, and at most one owner registry:
/// in a state in which every account sits at its derived address, two
/// records that store the same signature are one account, and so are two
/// owner accounts.
pub proof fn lemma_one_account_per_key(state: TrackerState, first: Pubkey, second: Pubkey)
    requires
        state.well_addressed(),
        state.store.accounts.contains_key(first),
        state.store.accounts.contains_key(second),
    ensures
        state.store.accounts[first] is Owner && state.store.accounts[second] is Owner ==> first
            == second,
        (state.store.accounts[first] matches AccountView::Transfer(a)
            && state.store.accounts[second] matches AccountView::Transfer(b) && a.signature_1
            == b.signature_1 && a.signature_2 == b.signature_2 && a.signature_3 == b.signature_3)
            ==> first == second,
{
}

/// No account is ever deleted or moved, nor does a deployment change its
/// program: an address that holds an account holds one of the same kind
/// after any sequence of calls.
pub proof fn lemma_accounts_stay(state: TrackerState, calls: Seq<Call>, address: Pubkey)
    requires
        state.store.accounts.contains_key(address),
    ensures
        state.after_all(calls).program_id == state.program_id,
        state.after_all(calls).store.accounts.contains_key(address),
        (state.after_all(calls).store.accounts[address] is Owner) == (
        state.store.accounts[address] is Owner),
    decreases calls.len(),
{
    if calls.len() > 0 {
        lemma_accounts_stay(state, calls.drop_last(), address);
    }
}

/// The log only grows: the events emitted before a sequence of calls are the
/// first events of the log after it, in the same order.
pub proof fn lemma_events_are_kept(state: TrackerState, calls: Seq<Call>)
    ensures
        state.store.events.is_prefix_of(state.after_all(calls).store.events),
    decreases calls.len(),
{
    if calls.len() > 0 {
        lemma_events_are_kept(state, calls.drop_last());
    }
}

/// A call writes at most once. A refused call changes nothing. A successful
/// call writes the account at one address, leaves every other account as it
/// was, and emits one event. The registry is written by `initialize_owner`
/// and `transfer_ownership` alone, with the owner that the call sets.
pub proof fn lemma_one_write_per_call(state: TrackerState, call: Call)
    ensures
        state.apply(call) is Err ==> state.after(call) == state,
        state.apply(call) is Ok ==> exists|address: Pubkey|
            {
                &&& #[trigger] state.after(call).store.accounts.contains_key(address)
                &&& state.after(call).store.accounts == state.store.accounts.insert(
                    address,
                    state.after(call).store.accounts[address],
                )
            },
        state.apply(call) is Ok ==> state.after(call).store.events == state.store.events.push(
            state.after(call).store.events.last(),
        ),
        state.owner_set_by(call) matches Some(owner) ==> state.after(call).owner() == Some(owner),
        state.owner_set_by(call) is None ==> state.after(call).owner() == state.owner(),
{
    if state.apply(call) is Ok {
        let next = state.after(call);
        let address = match call {
            Call::InitializeOwner { .. } => state.registry()->Some_0,
            Call::AddTransfer { record, .. } => state.address(
                record.signature_1,
                record.signature_2,
                record.signature_3,
            )->Some_0,
            Call::UpdateTransfer { signature_1, signature_2, signature_3, .. } => state.address(
                signature_1,
                signature_2,
                signature_3,
            )->Some_0,
            Call::TransferOwnership { .. } => state.registry()->Some_0,
        };
        assert(next.store.accounts.contains_key(address));
        assert(next.store.accounts == state.store.accounts.insert(
            address,
            next.store.accounts[address],
        ));
    }
}

/// The registry holds the owner that was last written to it. After any
/// sequence of calls the owner is the one set by the last call of the
/// sequence that succeeded in writing the registry; where none did, the
/// owner is who it was before.
pub proof fn lemma_owner_is_last_set(state: TrackerState, calls: Seq<Call>)
    ensures
        state.after_all(calls).owner() == match state.last_owner_set(calls) {
            Some(owner) => Some(owner),
            None => state.owner(),
        },
    decreases calls.len(),
{
    if calls.len() > 0 {
        lemma_owner_is_last_set(state, calls.drop_last());
        lemma_one_write_per_call(state.after_all(calls.drop_last()), calls.last());
    }
}

/// On a deployment that holds no account yet, `initialize_owner` succeeds
/// for whoever signs, unless no address can be derived for the registry.
pub proof fn lemma_initialize_owner_first(program_id: Pubkey, signer: Pubkey)
    ensures
        TrackerState::new(program_id).registry() is Some ==> {
            &&& TrackerState::new(program_id).initialize_owner(signer) matches Ok(next)
            &&& next.owner() == Some(signer)
        },
        TrackerState::new(program_id).registry() is None ==> TrackerState::new(
            program_id,
        ).initialize_owner(signer) == Err::<TrackerState, CustomError>(CustomError::InvalidSeeds),
{
}

/// `initialize_owner` succeeds at most once. After it has succeeded, every
/// further call of it is refused with `AlreadyInitialized`, whoever signs
/// and whatever calls were made in between.
pub proof fn lemma_initialize_owner_once(
    state: TrackerState,
    first: Pubkey,
    calls: Seq<Call>,
    second: Pubkey,
)
    requires
        state.initialize_owner(first) is Ok,
    ensures
        state.initialize_owner(first)->Ok_0.after_all(calls).initialize_owner(second) == Err::<
            TrackerState,
            CustomError,
        >(CustomError::AlreadyInitialized),
{
    let next = state.initialize_owner(first)->Ok_0;
    lemma_accounts_stay(next, calls, state.registry()->Some_0);
}

/// A record is created once. After `add_transfer` has succeeded, the record
/// stored under the signature is the one given, and a second `add_transfer`
/// under the same signature is refused with `DuplicateRecord`, whatever its
/// other seven values; it is refused whoever signs it, and changes nothing.
pub proof fn lemma_add_transfer_twice(
    state: TrackerState,
    signer: Pubkey,
    first: TransferRecordView,
    second: TransferRecordView,
    again: Pubkey,
)
    requires
        state.add_transfer(signer, first) is Ok,
        second.signature_1 == first.signature_1,
        second.signature_2 == first.signature_2,
        second.signature_3 == first.signature_3,
    ensures
        ({
            let next = state.add_transfer(signer, first)->Ok_0;
            &&& next.record(first.signature_1, first.signature_2, first.signature_3) == Some(first)
            &&& next.add_transfer(signer, second) == Err::<TrackerState, CustomError>(
                CustomError::DuplicateRecord,
            )
            &&& next.add_transfer(again, second) is Err
            &&& next.after(Call::AddTransfer { signer: again, record: second }) == next
            &&& next.after(Call::AddTransfer { signer: again, record: second }).record(
                first.signature_1,
                first.signature_2,
                first.signature_3,
            ) == Some(first)
        }),
{
}

/// `update_transfer` changes the balance and the two prices of one record
/// and nothing else. Where it succeeds, the record stored under the
/// signature keeps its signature, `from`, `to`, `amount` and `timestamp`;
/// every other account is as it was, and so is the owner.
pub proof fn lemma_update_transfer_keeps_rest(
    state: TrackerState,
    signer: Pubkey,
    signature_1: Seq<char>,
    signature_2: Seq<char>,
    signature_3: Seq<char>,
    new_wallet_balance: u64,
    new_sol_price: u64,
    new_token_price: u64,
)
    requires
        state.update_transfer(
            signer,
            signature_1,
            signature_2,
            signature_3,
            new_wallet_balance,
            new_sol_price,
            new_token_price,
        ) is Ok,
    ensures
        ({
            let next = state.update_transfer(
                signer,
                signature_1,
                signature_2,
                signature_3,
                new_wallet_balance,
                new_sol_price,
                new_token_price,
            )->Ok_0;
            let before = state.record(signature_1, signature_2, signature_3);
            let after = next.record(signature_1, signature_2, signature_3);
            let address = state.address(signature_1, signature_2, signature_3);
            &&& before is Some
            &&& after is Some
            &&& address is Some
            &&& after->Some_0.wallet_balance == new_wallet_balance
            &&& after->Some_0.sol_price == new_sol_price
            &&& after->Some_0.token_price == new_token_price
            &&& after->Some_0.signature_1 == before->Some_0.signature_1
            &&& after->Some_0.signature_2 == before->Some_0.signature_2
            &&& after->Some_0.signature_3 == before->Some_0.signature_3
            &&& after->Some_0.from == before->Some_0.from
            &&& after->Some_0.to == before->Some_0.to
            &&& after->Some_0.amount == before->Some_0.amount
            &&& after->Some_0.timestamp == before->Some_0.timestamp
            &&& next.store.accounts.remove(address->Some_0) == state.store.accounts.remove(
                address->Some_0,
            )
            &&& next.store.accounts.dom() == state.store.accounts.dom()
            &&& next.owner() == state.owner()
        }),
{
    let next = state.update_transfer(
        signer,
        signature_1,
        signature_2,
        signature_3,
        new_wallet_balance,
        new_sol_price,
        new_token_price,
    )->Ok_0;
    let address = state.address(signature_1, signature_2, signature_3)->Some_0;
    assert(next.store.accounts.remove(address) =~= state.store.accounts.remove(address));
    assert(next.store.accounts.dom() =~= state.store.accounts.dom());
}

/// Who is not the owner is refused, and the owner is refused only for what
/// the store holds. A call of an operation other than `initialize_owner` by
/// a signer who is not the owner is refused with `Unauthorized`; the same
/// call by the owner is never refused with `Unauthorized`:
/// `transfer_ownership` succeeds, `add_transfer` succeeds unless no address
/// can be derived or the address is taken, and `update_transfer` succeeds
/// unless there is no record under the signature.
pub proof fn lemma_owner_alone_writes(state: TrackerState, call: Call)
    requires
        call.owner_only(),
    ensures
        !state.authorizes(call.signer()) ==> state.apply(call) == Err::<TrackerState, CustomError>(
            CustomError::Unauthorized,
        ),
        state.authorizes(call.signer()) ==> state.apply(call) != Err::<TrackerState, CustomError>(
            CustomError::Unauthorized,
        ),
        state.authorizes(call.signer()) && call is TransferOwnership ==> state.apply(call) is Ok,
        state.authorizes(call.signer()) ==> (call matches Call::AddTransfer { record, .. } ==> (
        state.apply(call) is Ok <==> (state.address(
            record.signature_1,
            record.signature_2,
            record.signature_3,
        ) matches Some(address) && !state.store.accounts.contains_key(address)))),
        state.authorizes(call.signer()) ==> (call matches Call::UpdateTransfer {
            signature_1,
            signature_2,
            signature_3,
            ..
        } ==> (state.apply(call) is Ok <==> state.record(signature_1, signature_2, signature_3)
            is Some)),
{
}

/// Ownership passes whole. Once `transfer_ownership` from `old_owner` to
/// another key has succeeded, the new owner is the owner and the old one is
/// not, and this stays so through any calls that follow until one of them
/// writes the registry again: every owner-only call of `old_owner` in that
/// time is refused with `Unauthorized`, and none of `new_owner` is.
pub proof fn lemma_ownership_passes(
    state: TrackerState,
    old_owner: Pubkey,
    new_owner: Pubkey,
    calls: Seq<Call>,
    call: Call,
)
    requires
        state.transfer_ownership(old_owner, new_owner) is Ok,
        old_owner != new_owner,
        state.transfer_ownership(old_owner, new_owner)->Ok_0.last_owner_set(calls) is None,
        call.owner_only(),
    ensures
        ({
            let later = state.transfer_ownership(old_owner, new_owner)->Ok_0.after_all(calls);
            &&& later.owner() == Some(new_owner)
            &&& call.signer() == old_owner ==> later.apply(call) == Err::<TrackerState, CustomError>(
                CustomError::Unauthorized,
            )
            &&& call.signer() == new_owner ==> later.apply(call) != Err::<TrackerState, CustomError>(
                CustomError::Unauthorized,
            )
        }),
{
    let next = state.transfer_ownership(old_owner, new_owner)->Ok_0;
    lemma_owner_is_last_set(next, calls);
    lemma_owner_alone_writes(next.after_all(calls), call);
}

} // verus!
