//! The tracker: one deployment of the program, which finds every account at
//! the address derived for it.

use crate::address::{find_owner_address, find_transfer_address};
use crate::error::CustomError;
use crate::events::Event;
use crate::model::TrackerState;
use crate::pubkey::Pubkey;
use crate::state::{TransferRecord, TransferRecordView};
use crate::store::{events_view, Store};
use vstd::prelude::*;

verus! {

/// One deployment of the program: its id, and the store of the accounts
/// that exist under it.
#[derive(Debug)]
pub struct Tracker {
    program_id: Pubkey,
    store: Store,
}

impl View for Tracker {
    type V = TrackerState;

    closed spec fn view(&self) -> TrackerState {
        TrackerState { program_id: self.program_id, store: self.store@ }
    }
}

impl Tracker {
    #[verifier::type_invariant]
    spec fn valid(self) -> bool {
        self@.well_addressed()
    }

    /// A deployment under `program_id` that holds no account yet.
    pub fn new(program_id: Pubkey) -> (tracker: Tracker)
        ensures
            tracker@ == TrackerState::new(program_id),
    {
        Tracker { program_id, store: Store::new() }
    }

    /// The id of the program that this deployment runs.
    pub fn program_id(&self) -> (program_id: Pubkey)
        ensures
            program_id == self@.program_id,
    {
        self.program_id
    }

    /// The current owner, once the registry exists.
    pub fn owner(&self) -> (owner: Option<Pubkey>)
        ensures
            owner == self@.owner(),
            self@.well_addressed(),
    {
        proof {
            use_type_invariant(self);
        }
        self.store.owner(find_owner_address(&self.program_id))
    }

    /// The record stored under a signature, if there is one. Only the whole
    /// signature leads to a record: the store cannot be searched or listed.
    pub fn record(&self, signature_1: &str, signature_2: &str, signature_3: &str) -> (record: Option<
        &TransferRecord,
    >)
        ensures
            match record {
                Some(found) => self@.record(signature_1@, signature_2@, signature_3@) == Some(
                    found@,
                ),
                None => self@.record(signature_1@, signature_2@, signature_3@) is None,
            },
            self@.well_addressed(),
    {
        proof {
            use_type_invariant(self);
        }
        self.store.record(
            find_transfer_address(&self.program_id, signature_1, signature_2, signature_3),
        )
    }

    /// The events emitted so far, oldest first.
    pub fn events(&self) -> (events: &Vec<Event>)
        ensures
            events_view(events@) == self@.store.events,
    {
        self.store.events()
    }

    /// Creates the owner registry with the signer as owner, and emits
    /// `OwnerInitialized`. Whoever signs first is accepted.
    ///
    /// Once the address of the registry is taken every call gets
    /// `AlreadyInitialized`; where no address can be derived for the
    /// registry every call gets `InvalidSeeds`. A refused call changes
    /// nothing.
    pub fn initialize_owner(&mut self, signer: Pubkey) -> (result: Result<(), CustomError>)
        ensures
            match old(self)@.initialize_owner(signer) {
                Ok(next) => result is Ok && final(self)@ == next,
                Err(e) => result == Err::<(), CustomError>(e) && final(self)@ == old(self)@,
            },
            final(self)@.well_addressed(),
    {
        proof {
            use_type_invariant(&*self);
        }
        let registry = find_owner_address(&self.program_id);
        let mut store = Store::new();
        std::mem::swap(&mut store, &mut self.store);
        let result = store.initialize_owner(registry, signer);
        self.store = store;
        result
    }

    /// Creates the record of a transfer under the three parts of its
    /// signature, with the ten given values, and emits `TransferAdded` with
    /// the same ten.
    ///
    /// Only the owner may: anyone else gets `Unauthorized`. A signature from
    /// which no address can be derived gets `InvalidSeeds`, and one whose
    /// address is taken gets `DuplicateRecord`. A refused call changes
    /// nothing.
    pub fn add_transfer(
        &mut self,
        signer: Pubkey,
        signature_1: String,
        signature_2: String,
        signature_3: String,
        from: Pubkey,
        to: Pubkey,
        amount: u64,
        timestamp: i64,
        wallet_balance: u64,
        sol_price: u64,
        token_price: u64,
    ) -> (result: Result<(), CustomError>)
        ensures
            match old(self)@.add_transfer(
                signer,
                TransferRecordView {
                    signature_1: signature_1@,
                    signature_2: signature_2@,
                    signature_3: signature_3@,
                    from,
                    to,
                    amount,
                    timestamp,
                    wallet_balance,
                    sol_price,
                    token_price,
                },
            ) {
                Ok(next) => result is Ok && final(self)@ == next,
                Err(e) => result == Err::<(), CustomError>(e) && final(self)@ == old(self)@,
            },
            final(self)@.well_addressed(),
    {
        proof {
            use_type_invariant(&*self);
        }
        let registry = find_owner_address(&self.program_id);
        let address = find_transfer_address(
            &self.program_id,
            signature_1.as_str(),
            signature_2.as_str(),
            signature_3.as_str(),
        );
        let mut store = Store::new();
        std::mem::swap(&mut store, &mut self.store);
        let result = store.add_transfer(
            registry,
            address,
            signer,
            signature_1,
            signature_2,
            signature_3,
            from,
            to,
            amount,
            timestamp,
            wallet_balance,
            sol_price,
            token_price,
        );
        self.store = store;
        result
    }

    /// Replaces the balance and the two prices of the record stored under a
    /// signature, and emits `TransferUpdated` with the signature that the
    /// record stores and the three new values. The other seven fields of the
    /// record, and every other account, stay as they were.
    ///
    /// Only the owner may: anyone else gets `Unauthorized`. A signature whose
    /// address holds no transfer record gets `NotFound`. A refused call
    /// changes nothing.
    pub fn update_transfer(
        &mut self,
        signer: Pubkey,
        signature_1: &str,
        signature_2: &str,
        signature_3: &str,
        new_wallet_balance: u64,
        new_sol_price: u64,
        new_token_price: u64,
    ) -> (result: Result<(), CustomError>)
        ensures
            match old(self)@.update_transfer(
                signer,
                signature_1@,
                signature_2@,
                signature_3@,
                new_wallet_balance,
                new_sol_price,
                new_token_price,
            ) {
                Ok(next) => result is Ok && final(self)@ == next,
                Err(e) => result == Err::<(), CustomError>(e) && final(self)@ == old(self)@,
            },
            final(self)@.well_addressed(),
    {
        proof {
            use_type_invariant(&*self);
        }
        let registry = find_owner_address(&self.program_id);
        let address = find_transfer_address(
            &self.program_id,
            signature_1,
            signature_2,
            signature_3,
        );
        let mut store = Store::new();
        std::mem::swap(&mut store, &mut self.store);
        let result = store.update_transfer(
            registry,
            address,
            signer,
            new_wallet_balance,
            new_sol_price,
            new_token_price,
        );
        self.store = store;
        result
    }

    /// Hands the owner registry to `new_owner` and emits
    /// `OwnershipTransferred`. Any `new_owner` is accepted, the current
    /// owner too: the registry then keeps its value and the event is still
    /// emitted.
    ///
    /// Only the owner may: anyone else gets `Unauthorized`, and so does
    /// everyone while there is no registry. A refused call changes nothing.
    pub fn transfer_ownership(&mut self, signer: Pubkey, new_owner: Pubkey) -> (result: Result<
        (),
        CustomError,
    >)
        ensures
            match old(self)@.transfer_ownership(signer, new_owner) {
                Ok(next) => result is Ok && final(self)@ == next,
                Err(e) => result == Err::<(), CustomError>(e) && final(self)@ == old(self)@,
            },
            final(self)@.well_addressed(),
    {
        proof {
            use_type_invariant(&*self);
        }
        let registry = find_owner_address(&self.program_id);
        let mut store = Store::new();
        std::mem::swap(&mut store, &mut self.store);
        let result = store.transfer_ownership(registry, signer, new_owner);
        self.store = store;
        result
    }
}

} // verus!
