//! The store: accounts kept by address, and the log of emitted events.
//!
//! Every operation is given the addresses that it works on. The tracker
//! derives them; whoever calls the store directly chooses them.

use crate::error::CustomError;
use crate::events::{Event, EventView};
use crate::instructions;
use crate::instructions::{AddTransfer, InitializeOwner, TransferOwnership, UpdateTransfer};
use crate::model::StoreState;
use crate::pubkey::Pubkey;
use crate::state::{Account, AccountView, OwnerAccount, TransferRecord, TransferRecordView};
use vstd::prelude::*;

verus! {

/// One occupied address of the store.
#[derive(Debug)]
struct Slot {
    address: Pubkey,
    account: Account,
}

/// No address occurs twice.
spec fn distinct(slots: Seq<Slot>) -> bool {
    forall|i: int, j: int|
        0 <= i < j < slots.len() ==> (#[trigger] slots[i]).address != (#[trigger] slots[j]).address
}

/// Whether some slot has the address.
spec fn occupied(slots: Seq<Slot>, address: Pubkey) -> bool {
    exists|i: int| 0 <= i < slots.len() && (#[trigger] slots[i]).address == address
}

/// The slot that has the address, where one has.
spec fn slot_of(slots: Seq<Slot>, address: Pubkey) -> int {
    choose|i: int| 0 <= i < slots.len() && (#[trigger] slots[i]).address == address
}

/// The accounts that the slots hold, by address.
spec fn accounts_of(slots: Seq<Slot>) -> Map<Pubkey, AccountView> {
    Map::new(
        |address: Pubkey| occupied(slots, address),
        |address: Pubkey| slots[slot_of(slots, address)].account@,
    )
}

/// What a sequence of events holds.
pub open spec fn events_view(events: Seq<Event>) -> Seq<EventView> {
    Seq::new(events.len(), |i: int| events[i]@)
}

/// With distinct addresses, each slot is the one found for its address.
proof fn lemma_slot(slots: Seq<Slot>, i: int)
    requires
        distinct(slots),
        0 <= i < slots.len(),
    ensures
        accounts_of(slots).contains_key(slots[i].address),
        accounts_of(slots)[slots[i].address] == slots[i].account@,
{
    assert(occupied(slots, slots[i].address));
    assert(slot_of(slots, slots[i].address) == i);
}

/// A slot pushed at a free address adds one account and keeps the rest.
proof fn lemma_push(slots: Seq<Slot>, slot: Slot)
    requires
        distinct(slots),
        !occupied(slots, slot.address),
    ensures
        distinct(slots.push(slot)),
        accounts_of(slots.push(slot)) == accounts_of(slots).insert(slot.address, slot.account@),
{
    let pushed = slots.push(slot);
    assert forall|address: Pubkey| occupied(pushed, address) <==> (occupied(slots, address)
        || address == slot.address) by {
        if occupied(pushed, address) {
            assert(slot_of(pushed, address) < slots.len() ==> slots[slot_of(pushed, address)].address
                == address);
        }
        if occupied(slots, address) {
            assert(pushed[slot_of(slots, address)].address == address);
        }
        if address == slot.address {
            assert(pushed[slots.len() as int].address == address);
        }
    }
    assert forall|address: Pubkey| occupied(pushed, address) implies accounts_of(pushed)[address]
        == accounts_of(slots).insert(slot.address, slot.account@)[address] by {
        let i = slot_of(pushed, address);
        lemma_slot(pushed, i);
        if i < slots.len() {
            lemma_slot(slots, i);
        }
    }
    assert(accounts_of(pushed) =~= accounts_of(slots).insert(slot.address, slot.account@));
}

/// A slot replaced by one of the same address replaces one account and
/// keeps the rest.
proof fn lemma_replace(slots: Seq<Slot>, i: int, slot: Slot)
    requires
        distinct(slots),
        0 <= i < slots.len(),
        slot.address == slots[i].address,
    ensures
        distinct(slots.update(i, slot)),
        accounts_of(slots.update(i, slot)) == accounts_of(slots).insert(slot.address, slot.account@),
{
    let replaced = slots.update(i, slot);
    assert forall|j: int, k: int| 0 <= j < k < replaced.len() implies (#[trigger] replaced[j]).address
        != (#[trigger] replaced[k]).address by {
        assert(slots[j].address != slots[k].address);
    }
    assert forall|address: Pubkey| occupied(replaced, address) <==> occupied(slots, address) by {
        if occupied(replaced, address) {
            assert(slots[slot_of(replaced, address)].address == address);
        }
        if occupied(slots, address) {
            assert(replaced[slot_of(slots, address)].address == address);
        }
    }
    assert forall|address: Pubkey| occupied(replaced, address) implies accounts_of(
        replaced,
    )[address] == accounts_of(slots).insert(slot.address, slot.account@)[address] by {
        let j = slot_of(replaced, address);
        lemma_slot(replaced, j);
        lemma_slot(slots, j);
    }
    assert(accounts_of(replaced) =~= accounts_of(slots).insert(slot.address, slot.account@));
}

/// The accounts that exist, each at its address, and the log of the events
/// emitted so far.
#[derive(Debug)]
pub struct Store {
    slots: Vec<Slot>,
    events: Vec<Event>,
}

impl View for Store {
    type V = StoreState;

    closed spec fn view(&self) -> StoreState {
        StoreState { accounts: accounts_of(self.slots@), events: events_view(self.events@) }
    }
}

impl Store {
    #[verifier::type_invariant]
    spec fn valid(self) -> bool {
        distinct(self.slots@)
    }

    /// A store that holds no account and has emitted nothing.
    pub fn new() -> (store: Store)
        ensures
            store@ == StoreState::new(),
    {
        let store = Store { slots: Vec::new(), events: Vec::new() };
        assert(store@.accounts =~= Map::empty());
        assert(store@.events =~= Seq::empty());
        store
    }

    /// The account at an address, if the address holds one.
    pub fn account(&self, address: &Pubkey) -> (account: Option<&Account>)
        ensures
            match account {
                Some(found) => self@.accounts.contains_key(*address) && self@.accounts[*address]
                    == found@,
                None => !self@.accounts.contains_key(*address),
            },
    {
        proof {
            use_type_invariant(self);
        }
        match self.find(address) {
            Some(index) => {
                proof {
                    lemma_slot(self.slots@, index as int);
                }
                Some(&self.slots[index].account)
            },
            None => None,
        }
    }

    /// The current owner, once the registry exists at `registry`.
    pub fn owner(&self, registry: Option<Pubkey>) -> (owner: Option<Pubkey>)
        ensures
            owner == self@.owner(registry),
    {
        match self.owner_account(registry) {
            Some((_, found)) => Some(found.owner),
            None => None,
        }
    }

    /// The transfer record at `address`, if the address holds one.
    pub fn record(&self, address: Option<Pubkey>) -> (record: Option<&TransferRecord>)
        ensures
            match record {
                Some(found) => self@.record(address) == Some(found@),
                None => self@.record(address) is None,
            },
    {
        match address {
            None => None,
            Some(at) => match self.account(&at) {
                Some(Account::Transfer(found)) => Some(found),
                Some(Account::Owner(_)) => None,
                None => None,
            },
        }
    }

    /// The events emitted so far, oldest first.
    pub fn events(&self) -> (events: &Vec<Event>)
        ensures
            events_view(events@) == self@.events,
    {
        &self.events
    }

    /// The slot that holds the address, if one does.
    fn find(&self, address: &Pubkey) -> (index: Option<usize>)
        ensures
            match index {
                Some(i) => i < self.slots@.len() && self.slots@[i as int].address == *address,
                None => !occupied(self.slots@, *address),
            },
    {
        let mut i: usize = 0;
        while i < self.slots.len()
            invariant
                i <= self.slots@.len(),
                forall|j: int| 0 <= j < i ==> (#[trigger] self.slots@[j]).address != *address,
            decreases self.slots@.len() - i,
        {
            if self.slots[i].address == *address {
                return Some(i);
            }
            i += 1;
        }
        None
    }

    /// The owner registry and the slot that holds it, where `registry`
    /// holds one.
    fn owner_account(&self, registry: Option<Pubkey>) -> (found: Option<(usize, OwnerAccount)>)
        ensures
            match found {
                Some((index, account)) => {
                    &&& self@.owner_account(registry) == Some(account)
                    &&& index < self.slots@.len()
                    &&& Some(self.slots@[index as int].address) == registry
                },
                None => self@.owner_account(registry) is None,
            },
    {
        proof {
            use_type_invariant(self);
        }
        match registry {
            None => None,
            Some(address) => match self.find(&address) {
                None => None,
                Some(index) => {
                    proof {
                        lemma_slot(self.slots@, index as int);
                    }
                    match &self.slots[index].account {
                        Account::Owner(account) => Some((index, *account)),
                        Account::Transfer(_) => None,
                    }
                },
            },
        }
    }

    /// The registry and its slot, for the signer that it names as owner;
    /// `Unauthorized` for anyone else, and for everyone while there is no
    /// registry.
    fn authorize(&self, registry: Option<Pubkey>, signer: &Pubkey) -> (found: Result<
        (usize, OwnerAccount),
        CustomError,
    >)
        ensures
            match found {
                Ok((index, account)) => {
                    &&& self@.authorizes(registry, *signer)
                    &&& account.owner == *signer
                    &&& index < self.slots@.len()
                    &&& Some(self.slots@[index as int].address) == registry
                },
                Err(e) => !self@.authorizes(registry, *signer) && e == CustomError::Unauthorized,
            },
    {
        match self.owner_account(registry) {
            Some((index, account)) => if account.owner == *signer {
                Ok((index, account))
            } else {
                Err(CustomError::Unauthorized)
            },
            None => Err(CustomError::Unauthorized),
        }
    }

    /// Writes one account, at a free address or in place of the account in
    /// the given slot, and appends one event to the log.
    fn write(&mut self, index: Option<usize>, slot: Slot, event: Event)
        requires
            match index {
                Some(i) => i < old(self).slots@.len() && old(self).slots@[i as int].address
                    == slot.address,
                None => !occupied(old(self).slots@, slot.address),
            },
        ensures
            final(self)@ == old(self)@.commit(slot.address, slot.account@, event@),
    {
        proof {
            use_type_invariant(&*self);
        }
        let mut slots = Vec::new();
        let mut events = Vec::new();
        std::mem::swap(&mut slots, &mut self.slots);
        std::mem::swap(&mut events, &mut self.events);
        proof {
            assert(events_view(events@.push(event)) =~= events_view(events@).push(event@));
        }
        match index {
            Some(i) => {
                proof {
                    lemma_replace(slots@, i as int, slot);
                }
                slots.set(i, slot);
            },
            None => {
                proof {
                    lemma_push(slots@, slot);
                }
                slots.push(slot);
            },
        }
        events.push(event);
        self.slots = slots;
        self.events = events;
    }

    /// Creates the owner registry at `registry` with the signer as owner,
    /// and emits `OwnerInitialized`. Whoever signs first is accepted.
    ///
    /// Where `registry` is `None` the call gets `InvalidSeeds`; where the
    /// address is taken it gets `AlreadyInitialized`. A refused call changes
    /// nothing.
    pub fn initialize_owner(&mut self, registry: Option<Pubkey>, signer: Pubkey) -> (result: Result<
        (),
        CustomError,
    >)
        ensures
            match old(self)@.initialize_owner(registry, signer) {
                Ok(next) => result is Ok && final(self)@ == next,
                Err(e) => result == Err::<(), CustomError>(e) && final(self)@ == old(self)@,
            },
    {
        let address = match registry {
            Some(address) => address,
            None => {
                return Err(CustomError::InvalidSeeds);
            },
        };
        if self.find(&address).is_some() {
            return Err(CustomError::AlreadyInitialized);
        }
        let mut ctx = InitializeOwner { owner_account: OwnerAccount::default(), signer };
        match instructions::initialize_owner(&mut ctx) {
            Ok(event) => {
                let slot = Slot { address, account: Account::Owner(ctx.owner_account) };
                self.write(None, slot, Event::OwnerInitialized(event));
                Ok(())
            },
            Err(e) => Err(e),
        }
    }

    /// Creates the record of a transfer at `address`, with the ten given
    /// values, and emits `TransferAdded` with the same ten.
    ///
    /// Only the owner that the registry at `registry` holds may: anyone else
    /// gets `Unauthorized`. Then, where `address` is `None` the call gets
    /// `InvalidSeeds`, and where the address is taken it gets
    /// `DuplicateRecord`. A refused call changes nothing.
    pub fn add_transfer(
        &mut self,
        registry: Option<Pubkey>,
        address: Option<Pubkey>,
        signer: Pubkey,
        signature_1: String,
        signature_2: String,
        signature_3: String,
        from: Pubkey,
        to: Pubkey,
        amount: u64,
        timestamp: i64,
        wallet_balance: u64,
        sol_price: u64,
        token_price: u64,
    ) -> (result: Result<(), CustomError>)
        ensures
            match old(self)@.add_transfer(
                registry,
                address,
                signer,
                TransferRecordView {
                    signature_1: signature_1@,
                    signature_2: signature_2@,
                    signature_3: signature_3@,
                    from,
                    to,
                    amount,
                    timestamp,
                    wallet_balance,
                    sol_price,
                    token_price,
                },
            ) {
                Ok(next) => result is Ok && final(self)@ == next,
                Err(e) => result == Err::<(), CustomError>(e) && final(self)@ == old(self)@,
            },
    {
        let owner_account = match self.authorize(registry, &signer) {
            Ok((_, found)) => found,
            Err(e) => {
                return Err(e);
            },
        };
        let at = match address {
            Some(at) => at,
            None => {
                return Err(CustomError::InvalidSeeds);
            },
        };
        if self.find(&at).is_some() {
            return Err(CustomError::DuplicateRecord);
        }
        let mut ctx = AddTransfer { owner_account, transfer_record: TransferRecord::default(), signer };
        match instructions::add_transfer(
            &mut ctx,
            signature_1,
            signature_2,
            signature_3,
            from,
            to,
            amount,
            timestamp,
            wallet_balance,
            sol_price,
            token_price,
        ) {
            Ok(event) => {
                let slot = Slot { address: at, account: Account::Transfer(ctx.transfer_record) };
                self.write(None, slot, Event::TransferAdded(event));
                Ok(())
            },
            Err(e) => Err(e),
        }
    }

    /// Replaces the balance and the two prices of the record at `address`,
    /// and emits `TransferUpdated` with the signature that the record
    /// stores and the three new values. The other seven fields of the
    /// record, and every other account, stay as they were.
    ///
    /// Only the owner that the registry at `registry` holds may: anyone else
    /// gets `Unauthorized`. Then, where `address` is `None` or holds no
    /// transfer record, the call gets `NotFound`. A refused call changes
    /// nothing.
    pub fn update_transfer(
        &mut self,
        registry: Option<Pubkey>,
        address: Option<Pubkey>,
        signer: Pubkey,
        new_wallet_balance: u64,
        new_sol_price: u64,
        new_token_price: u64,
    ) -> (result: Result<(), CustomError>)
        ensures
            match old(self)@.update_transfer(
                registry,
                address,
                signer,
                new_wallet_balance,
                new_sol_price,
                new_token_price,
            ) {
                Ok(next) => result is Ok && final(self)@ == next,
                Err(e) => result == Err::<(), CustomError>(e) && final(self)@ == old(self)@,
            },
    {
        proof {
            use_type_invariant(&*self);
        }
        let owner_account = match self.authorize(registry, &signer) {
            Ok((_, found)) => found,
            Err(e) => {
                return Err(e);
            },
        };
        let at = match address {
            Some(at) => at,
            None => {
                return Err(CustomError::NotFound);
            },
        };
        let index = match self.find(&at) {
            Some(index) => index,
            None => {
                return Err(CustomError::NotFound);
            },
        };
        proof {
            lemma_slot(self.slots@, index as int);
        }
        let transfer_record = match &self.slots[index].account {
            Account::Transfer(found) => found.clone(),
            Account::Owner(_) => {
                return Err(CustomError::NotFound);
            },
        };
        let mut ctx = UpdateTransfer { owner_account, transfer_record, signer };
        match instructions::update_transfer(
            &mut ctx,
            new_wallet_balance,
            new_sol_price,
            new_token_price,
        ) {
            Ok(event) => {
                let slot = Slot { address: at, account: Account::Transfer(ctx.transfer_record) };
                self.write(Some(index), slot, Event::TransferUpdated(event));
                Ok(())
            },
            Err(e) => Err(e),
        }
    }

    /// Hands the owner registry at `registry` to `new_owner` and emits
    /// `OwnershipTransferred`. Any `new_owner` is accepted, the current
    /// owner too: the registry then keeps its value and the event is still
    /// emitted.
    ///
    /// Only the owner that the registry holds may: anyone else gets
    /// `Unauthorized`, and so does everyone while there is no registry. A
    /// refused call changes nothing.
    pub fn transfer_ownership(
        &mut self,
        registry: Option<Pubkey>,
        signer: Pubkey,
        new_owner: Pubkey,
    ) -> (result: Result<(), CustomError>)
        ensures
            match old(self)@.transfer_ownership(registry, signer, new_owner) {
                Ok(next) => result is Ok && final(self)@ == next,
                Err(e) => result == Err::<(), CustomError>(e) && final(self)@ == old(self)@,
            },
    {
        let (index, owner_account) = match self.authorize(registry, &signer) {
            Ok(found) => found,
            Err(e) => {
                return Err(e);
            },
        };
        let address = self.slots[index].address;
        let mut ctx = TransferOwnership { owner_account, signer };
        match instructions::transfer_ownership(&mut ctx, new_owner) {
            Ok(event) => {
                let slot = Slot { address, account: Account::Owner(ctx.owner_account) };
                self.write(Some(index), slot, Event::OwnershipTransferred(event));
                Ok(())
            },
            Err(e) => Err(e),
        }
    }
}

} // verus!
