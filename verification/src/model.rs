//! The store and the tracker as mathematical states, and what each
//! operation does to them.

use crate::address::{owner_address, transfer_address};
use crate::error::CustomError;
use crate::events::{EventView, OwnerInitialized, OwnershipTransferred, TransferUpdatedView};
use crate::pubkey::Pubkey;
use crate::state::{AccountView, OwnerAccount, TransferRecordView};
use vstd::prelude::*;

verus! {

/// What a store holds: its accounts by address, and the events emitted so
/// far, oldest first.
///
/// Each operation is given the addresses that it works on, as the
/// derivation found them: `registry` for the owner registry and `address`
/// for a transfer record, each `None` where the derivation found no
/// address.
pub struct StoreState {
    pub accounts: Map<Pubkey, AccountView>,
    pub events: Seq<EventView>,
}

impl StoreState {
    /// A store that holds no account and has emitted nothing.
    pub open spec fn new() -> StoreState {
        StoreState { accounts: Map::empty(), events: Seq::empty() }
    }

    /// The owner registry: the account at `registry`, if that address holds
    /// an owner account.
    pub open spec fn owner_account(self, registry: Option<Pubkey>) -> Option<OwnerAccount> {
        match registry {
            Some(address) => if self.accounts.contains_key(address) {
                match self.accounts[address] {
                    AccountView::Owner(found) => Some(found),
                    AccountView::Transfer(_) => None,
                }
            } else {
                None
            },
            None => None,
        }
    }

    /// The current owner, once the registry exists.
    pub open spec fn owner(self, registry: Option<Pubkey>) -> Option<Pubkey> {
        match self.owner_account(registry) {
            Some(found) => Some(found.owner),
            None => None,
        }
    }

    /// Whether `signer` may write: only the owner that the registry holds
    /// may.
    pub open spec fn authorizes(self, registry: Option<Pubkey>, signer: Pubkey) -> bool {
        self.owner(registry) == Some(signer)
    }

    /// The transfer record at `address`, if that address holds one.
    pub open spec fn record(self, address: Option<Pubkey>) -> Option<TransferRecordView> {
        match address {
            Some(at) => if self.accounts.contains_key(at) {
                match self.accounts[at] {
                    AccountView::Transfer(found) => Some(found),
                    AccountView::Owner(_) => None,
                }
            } else {
                None
            },
            None => None,
        }
    }

    /// The store with one account written and one event emitted.
    pub open spec fn commit(self, address: Pubkey, account: AccountView, event: EventView) -> StoreState {
        StoreState {
            accounts: self.accounts.insert(address, account),
            events: self.events.push(event),
        }
    }

    /// Creating the owner registry with `signer` as owner. It is refused
    /// with `InvalidSeeds` where there is no address for the registry, and
    /// with `AlreadyInitialized` where that address is taken.
    pub open spec fn initialize_owner(self, registry: Option<Pubkey>, signer: Pubkey) -> Result<
        StoreState,
        CustomError,
    > {
        match registry {
            None => Err(CustomError::InvalidSeeds),
            Some(address) => if self.accounts.contains_key(address) {
                Err(CustomError::AlreadyInitialized)
            } else {
                Ok(
                    self.commit(
                        address,
                        AccountView::Owner(OwnerAccount { owner: signer }),
                        EventView::OwnerInitialized(OwnerInitialized { owner: signer }),
                    ),
                )
            },
        }
    }

    /// Creating a transfer record at `address`. It is refused with
    /// `Unauthorized` unless the owner signs, then with `InvalidSeeds` where
    /// there is no address for the record, then with `DuplicateRecord` where
    /// that address is taken.
    pub open spec fn add_transfer(
        self,
        registry: Option<Pubkey>,
        address: Option<Pubkey>,
        signer: Pubkey,
        record: TransferRecordView,
    ) -> Result<StoreState, CustomError> {
        if !self.authorizes(registry, signer) {
            Err(CustomError::Unauthorized)
        } else {
            match address {
                None => Err(CustomError::InvalidSeeds),
                Some(at) => if self.accounts.contains_key(at) {
                    Err(CustomError::DuplicateRecord)
                } else {
                    Ok(
                        self.commit(
                            at,
                            AccountView::Transfer(record),
                            EventView::TransferAdded(record),
                        ),
                    )
                },
            }
        }
    }

    /// Replacing the balance and the two prices of the record at `address`.
    /// It is refused with `Unauthorized` unless the owner signs, then with
    /// `NotFound` where the address holds no transfer record. The event
    /// names the record by the signature that it stores.
    pub open spec fn update_transfer(
        self,
        registry: Option<Pubkey>,
        address: Option<Pubkey>,
        signer: Pubkey,
        new_wallet_balance: u64,
        new_sol_price: u64,
        new_token_price: u64,
    ) -> Result<StoreState, CustomError> {
        if !self.authorizes(registry, signer) {
            Err(CustomError::Unauthorized)
        } else {
            match self.record(address) {
                None => Err(CustomError::NotFound),
                Some(found) => Ok(
                    self.commit(
                        address->Some_0,
                        AccountView::Transfer(
                            TransferRecordView {
                                wallet_balance: new_wallet_balance,
                                sol_price: new_sol_price,
                                token_price: new_token_price,
                                ..found
                            },
                        ),
                        EventView::TransferUpdated(
                            TransferUpdatedView {
                                signature_1: found.signature_1,
                                signature_2: found.signature_2,
                                signature_3: found.signature_3,
                                new_wallet_balance,
                                new_sol_price,
                                new_token_price,
                            },
                        ),
                    ),
                ),
            }
        }
    }

    /// Handing the registry to `new_owner`. It is refused with
    /// `Unauthorized` unless the owner signs; any `new_owner` is accepted,
    /// the current owner too.
    pub open spec fn transfer_ownership(
        self,
        registry: Option<Pubkey>,
        signer: Pubkey,
        new_owner: Pubkey,
    ) -> Result<StoreState, CustomError> {
        if !self.authorizes(registry, signer) {
            Err(CustomError::Unauthorized)
        } else {
            Ok(
                self.commit(
                    registry->Some_0,
                    AccountView::Owner(OwnerAccount { owner: new_owner }),
                    EventView::OwnershipTransferred(
                        OwnershipTransferred { old_owner: signer, new_owner },
                    ),
                ),
            )
        }
    }
}

/// The state of one deployment: the program that it runs, and its store.
/// The tracker derives every address from the program id: that of the owner
/// registry from the tag `owner`, that of a transfer record from the tag
/// `transfer` and the three parts of its signature.
pub struct TrackerState {
    pub program_id: Pubkey,
    pub store: StoreState,
}

/// One call of one of the four operations, with whoever signed it.
pub enum Call {
    InitializeOwner { signer: Pubkey },
    AddTransfer { signer: Pubkey, record: TransferRecordView },
    UpdateTransfer {
        signer: Pubkey,
        signature_1: Seq<char>,
        signature_2: Seq<char>,
        signature_3: Seq<char>,
        new_wallet_balance: u64,
        new_sol_price: u64,
        new_token_price: u64,
    },
    TransferOwnership { signer: Pubkey, new_owner: Pubkey },
}

impl Call {
    /// Whoever signed the call.
    pub open spec fn signer(self) -> Pubkey {
        match self {
            Call::InitializeOwner { signer } => signer,
            Call::AddTransfer { signer, .. } => signer,
            Call::UpdateTransfer { signer, .. } => signer,
            Call::TransferOwnership { signer, .. } => signer,
        }
    }

    /// Whether the call is open to the owner alone: every operation is but
    /// the one that creates the registry.
    pub open spec fn owner_only(self) -> bool {
        self !is InitializeOwner
    }
}

impl TrackerState {
    /// A deployment that holds no account and has emitted nothing.
    pub open spec fn new(program_id: Pubkey) -> TrackerState {
        TrackerState { program_id, store: StoreState::new() }
    }

    /// Where the owner registry is stored, if anywhere.
    pub open spec fn registry(self) -> Option<Pubkey> {
        owner_address(self.program_id)
    }

    /// Where the record with the given signature is stored, if anywhere.
    pub open spec fn address(
        self,
        signature_1: Seq<char>,
        signature_2: Seq<char>,
        signature_3: Seq<char>,
    ) -> Option<Pubkey> {
        transfer_address(self.program_id, signature_1, signature_2, signature_3)
    }

    /// The current owner, once the registry exists.
    pub open spec fn owner(self) -> Option<Pubkey> {
        self.store.owner(self.registry())
    }

    /// Whether `signer` may write: only the owner that the registry holds
    /// may.
    pub open spec fn authorizes(self, signer: Pubkey) -> bool {
        self.store.authorizes(self.registry(), signer)
    }

    /// The transfer record at the address derived from a signature, if that
    /// address holds one.
    pub open spec fn record(
        self,
        signature_1: Seq<char>,
        signature_2: Seq<char>,
        signature_3: Seq<char>,
    ) -> Option<TransferRecordView> {
        self.store.record(self.address(signature_1, signature_2, signature_3))
    }

    /// The outcome of an operation of the store, as an outcome of the
    /// tracker.
    pub open spec fn with(self, outcome: Result<StoreState, CustomError>) -> Result<
        TrackerState,
        CustomError,
    > {
        match outcome {
            Ok(store) => Ok(TrackerState { program_id: self.program_id, store }),
            Err(e) => Err(e),
        }
    }

    /// Creating the owner registry with `signer` as owner, at the address
    /// derived for it.
    pub open spec fn initialize_owner(self, signer: Pubkey) -> Result<TrackerState, CustomError> {
        self.with(self.store.initialize_owner(self.registry(), signer))
    }

    /// Creating a transfer record at the address derived from its
    /// signature.
    pub open spec fn add_transfer(self, signer: Pubkey, record: TransferRecordView) -> Result<
        TrackerState,
        CustomError,
    > {
        self.with(
            self.store.add_transfer(
                self.registry(),
                self.address(record.signature_1, record.signature_2, record.signature_3),
                signer,
                record,
            ),
        )
    }

    /// Replacing the balance and the two prices of the record at the
    /// address derived from a signature.
    pub open spec fn update_transfer(
        self,
        signer: Pubkey,
        signature_1: Seq<char>,
        signature_2: Seq<char>,
        signature_3: Seq<char>,
        new_wallet_balance: u64,
        new_sol_price: u64,
        new_token_price: u64,
    ) -> Result<TrackerState, CustomError> {
        self.with(
            self.store.update_transfer(
                self.registry(),
                self.address(signature_1, signature_2, signature_3),
                signer,
                new_wallet_balance,
                new_sol_price,
                new_token_price,
            ),
        )
    }

    /// Handing the registry to `new_owner`.
    pub open spec fn transfer_ownership(self, signer: Pubkey, new_owner: Pubkey) -> Result<
        TrackerState,
        CustomError,
    > {
        self.with(self.store.transfer_ownership(self.registry(), signer, new_owner))
    }

    /// What a call does: the next state, or the reason for which it is
    /// refused.
    pub open spec fn apply(self, call: Call) -> Result<TrackerState, CustomError> {
        match call {
            Call::InitializeOwner { signer } => self.initialize_owner(signer),
            Call::AddTransfer { signer, record } => self.add_transfer(signer, record),
            Call::UpdateTransfer {
                signer,
                signature_1,
                signature_2,
                signature_3,
                new_wallet_balance,
                new_sol_price,
                new_token_price,
            } => self.update_transfer(
                signer,
                signature_1,
                signature_2,
                signature_3,
                new_wallet_balance,
                new_sol_price,
                new_token_price,
            ),
            Call::TransferOwnership { signer, new_owner } => self.transfer_ownership(
                signer,
                new_owner,
            ),
        }
    }

    /// The state after a call: the next state where the call succeeds, the
    /// same state where it is refused.
    pub open spec fn after(self, call: Call) -> TrackerState {
        match self.apply(call) {
            Ok(next) => next,
            Err(_) => self,
        }
    }

    /// The state after a sequence of calls, made one after the other.
    pub open spec fn after_all(self, calls: Seq<Call>) -> TrackerState
        decreases calls.len(),
    {
        if calls.len() == 0 {
            self
        } else {
            self.after_all(calls.drop_last()).after(calls.last())
        }
    }

    /// The owner that a call writes to the registry, where it succeeds and
    /// writes one.
    pub open spec fn owner_set_by(self, call: Call) -> Option<Pubkey> {
        match call {
            Call::InitializeOwner { signer } => if self.apply(call) is Ok {
                Some(signer)
            } else {
                None
            },
            Call::TransferOwnership { new_owner, .. } => if self.apply(call) is Ok {
                Some(new_owner)
            } else {
                None
            },
            _ => None,
        }
    }

    /// The owner that was last written to the registry in the course of a
    /// sequence of calls, if any of them wrote one.
    pub open spec fn last_owner_set(self, calls: Seq<Call>) -> Option<Pubkey>
        decreases calls.len(),
    {
        if calls.len() == 0 {
            None
        } else {
            match self.after_all(calls.drop_last()).owner_set_by(calls.last()) {
                Some(owner) => Some(owner),
                None => self.last_owner_set(calls.drop_last()),
            }
        }
    }

    /// Every account sits at the address derived for it: an owner account at
    /// the address of the registry, a transfer record at the address of the
    /// signature that it stores.
    pub open spec fn well_addressed(self) -> bool {
        forall|address: Pubkey| #[trigger]
            self.store.accounts.contains_key(address) ==> match self.store.accounts[address] {
                AccountView::Owner(_) => self.registry() == Some(address),
                AccountView::Transfer(record) => self.address(
                    record.signature_1,
                    record.signature_2,
                    record.signature_3,
                ) == Some(address),
            }
    }
}

} // verus!
