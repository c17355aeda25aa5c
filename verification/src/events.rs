//! The events that successful operations emit.

use crate::pubkey::Pubkey;
use crate::state::TransferRecordView;
use vstd::prelude::*;

verus! {

/// The owner registry was created.
#[derive(Clone, Copy, Debug, PartialEq, Eq)]
pub struct OwnerInitialized {
    pub owner: Pubkey,
}

/// A transfer record was created; the event carries all that it holds.
#[derive(Debug, PartialEq, Eq)]
pub struct TransferAdded {
    pub signature_1: String,
    pub signature_2: String,
    pub signature_3: String,
    pub from: Pubkey,
    pub to: Pubkey,
    pub amount: u64,
    pub timestamp: i64,
    pub wallet_balance: u64,
    pub sol_price: u64,
    pub token_price: u64,
}

impl View for TransferAdded {
    type V = TransferRecordView;

    open spec fn view(&self) -> TransferRecordView {
        TransferRecordView {
            signature_1: self.signature_1@,
            signature_2: self.signature_2@,
            signature_3: self.signature_3@,
            from: self.from,
            to: self.to,
            amount: self.amount,
            timestamp: self.timestamp,
            wallet_balance: self.wallet_balance,
            sol_price: self.sol_price,
            token_price: self.token_price,
        }
    }
}

/// The balance and the two prices of a transfer record were replaced.
#[derive(Debug, PartialEq, Eq)]
pub struct TransferUpdated {
    pub signature_1: String,
    pub signature_2: String,
    pub signature_3: String,
    pub new_wallet_balance: u64,
    pub new_sol_price: u64,
    pub new_token_price: u64,
}

/// What a `TransferUpdated` event holds, with each string as its characters.
pub struct TransferUpdatedView {
    pub signature_1: Seq<char>,
    pub signature_2: Seq<char>,
    pub signature_3: Seq<char>,
    pub new_wallet_balance: u64,
    pub new_sol_price: u64,
    pub new_token_price: u64,
}

impl View for TransferUpdated {
    type V = TransferUpdatedView;

    open spec fn view(&self) -> TransferUpdatedView {
        TransferUpdatedView {
            signature_1: self.signature_1@,
            signature_2: self.signature_2@,
            signature_3: self.signature_3@,
            new_wallet_balance: self.new_wallet_balance,
            new_sol_price: self.new_sol_price,
            new_token_price: self.new_token_price,
        }
    }
}

/// The owner registry passed from one owner to the next.
#[derive(Clone, Copy, Debug, PartialEq, Eq)]
pub struct OwnershipTransferred {
    pub old_owner: Pubkey,
    pub new_owner: Pubkey,
}

/// Any one of the four events, as the event log keeps it.
#[derive(Debug, PartialEq, Eq)]
pub enum Event {
    OwnerInitialized(OwnerInitialized),
    TransferAdded(TransferAdded),
    TransferUpdated(TransferUpdated),
    OwnershipTransferred(OwnershipTransferred),
}

/// What an event holds.
pub enum EventView {
    OwnerInitialized(OwnerInitialized),
    TransferAdded(TransferRecordView),
    TransferUpdated(TransferUpdatedView),
    OwnershipTransferred(OwnershipTransferred),
}

impl View for Event {
    type V = EventView;

    open spec fn view(&self) -> EventView {
        match self {
            Event::OwnerInitialized(e) => EventView::OwnerInitialized(*e),
            Event::TransferAdded(e) => EventView::TransferAdded(e@),
            Event::TransferUpdated(e) => EventView::TransferUpdated(e@),
            Event::OwnershipTransferred(e) => EventView::OwnershipTransferred(*e),
        }
    }
}

} // verus!
