//! The two kinds of account that the program keeps.

use crate::pubkey::Pubkey;
use vstd::prelude::*;

verus! {

/// The owner registry: the one account that names who may write.
#[derive(Clone, Copy, Debug, PartialEq, Eq)]
pub struct OwnerAccount {
    pub owner: Pubkey,
}

impl Default for OwnerAccount {
    /// A registry as it is allocated, before an owner is written to it.
    fn default() -> (registry: OwnerAccount)
        ensures
            forall|i: int| 0 <= i < 32 ==> registry.owner.bytes[i] == 0,
    {
        OwnerAccount { owner: Pubkey::default() }
    }
}

/// One transfer, stored under the three parts of its signature.
#[derive(Debug, PartialEq, Eq)]
pub struct TransferRecord {
    pub signature_1: String,
    pub signature_2: String,
    pub signature_3: String,
    pub from: Pubkey,
    pub to: Pubkey,
    pub amount: u64,
    pub timestamp: i64,
    pub wallet_balance: u64,
    pub sol_price: u64,
    pub token_price: u64,
}

/// What a transfer record holds, with each string as its characters.
pub struct TransferRecordView {
    pub signature_1: Seq<char>,
    pub signature_2: Seq<char>,
    pub signature_3: Seq<char>,
    pub from: Pubkey,
    pub to: Pubkey,
    pub amount: u64,
    pub timestamp: i64,
    pub wallet_balance: u64,
    pub sol_price: u64,
    pub token_price: u64,
}

impl View for TransferRecord {
    type V = TransferRecordView;

    open spec fn view(&self) -> TransferRecordView {
        TransferRecordView {
            signature_1: self.signature_1@,
            signature_2: self.signature_2@,
            signature_3: self.signature_3@,
            from: self.from,
            to: self.to,
            amount: self.amount,
            timestamp: self.timestamp,
            wallet_balance: self.wallet_balance,
            sol_price: self.sol_price,
            token_price: self.token_price,
        }
    }
}

impl Default for TransferRecord {
    /// A record as it is allocated, before a transfer is written to it:
    /// empty strings, zero keys and zero numbers.
    fn default() -> (record: TransferRecord)
        ensures
            record.signature_1@.len() == 0,
            record.signature_2@.len() == 0,
            record.signature_3@.len() == 0,
            forall|i: int| 0 <= i < 32 ==> record.from.bytes[i] == 0 && record.to.bytes[i] == 0,
            record.amount == 0,
            record.timestamp == 0,
            record.wallet_balance == 0,
            record.sol_price == 0,
            record.token_price == 0,
    {
        TransferRecord {
            signature_1: String::new(),
            signature_2: String::new(),
            signature_3: String::new(),
            from: Pubkey::default(),
            to: Pubkey::default(),
            amount: 0,
            timestamp: 0,
            wallet_balance: 0,
            sol_price: 0,
            token_price: 0,
        }
    }
}

impl Clone for TransferRecord {
    fn clone(&self) -> (copy: TransferRecord)
        ensures
            copy@ == self@,
    {
        TransferRecord {
            signature_1: self.signature_1.clone(),
            signature_2: self.signature_2.clone(),
            signature_3: self.signature_3.clone(),
            from: self.from,
            to: self.to,
            amount: self.amount,
            timestamp: self.timestamp,
            wallet_balance: self.wallet_balance,
            sol_price: self.sol_price,
            token_price: self.token_price,
        }
    }
}

/// An account of either kind, as the store keeps it.
#[derive(Debug, PartialEq, Eq)]
pub enum Account {
    Owner(OwnerAccount),
    Transfer(TransferRecord),
}

/// What an account holds.
pub enum AccountView {
    Owner(OwnerAccount),
    Transfer(TransferRecordView),
}

impl View for Account {
    type V = AccountView;

    open spec fn view(&self) -> AccountView {
        match self {
            Account::Owner(registry) => AccountView::Owner(*registry),
            Account::Transfer(record) => AccountView::Transfer(record@),
        }
    }
}

} // verus!
