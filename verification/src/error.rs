//! The reasons for which an operation is refused.

use vstd::prelude::*;

verus! {

/// Why an operation was refused. A refused operation changes nothing and
/// emits no event.
#[derive(Clone, Copy, Debug, PartialEq, Eq, Structural)]
pub enum CustomError {
    /// The signer is not the owner that the registry holds.
    Unauthorized,
    /// The address of the record to create already holds an account.
    DuplicateRecord,
    /// The address of the record to update holds no transfer record.
    NotFound,
    /// The address of the owner registry already holds an account.
    AlreadyInitialized,
    /// No address can be derived for the account to create.
    InvalidSeeds,
}

impl CustomError {
    /// The message that accompanies the error.
    pub fn message(&self) -> (msg: &'static str)
        ensures
            msg@ == self.spec_message()@,
    {
        match self {
            CustomError::Unauthorized => "Only the owner can perform this action.",
            CustomError::DuplicateRecord => "A record with this identifier already exists.",
            CustomError::NotFound => "No record with this identifier exists.",
            CustomError::AlreadyInitialized => "The owner has already been initialized.",
            CustomError::InvalidSeeds => "No address can be derived from the given seeds.",
        }
    }

    /// The message of each error.
    pub open spec fn spec_message(&self) -> &'static str {
        match self {
            CustomError::Unauthorized => "Only the owner can perform this action.",
            CustomError::DuplicateRecord => "A record with this identifier already exists.",
            CustomError::NotFound => "No record with this identifier exists.",
            CustomError::AlreadyInitialized => "The owner has already been initialized.",
            CustomError::InvalidSeeds => "No address can be derived from the given seeds.",
        }
    }
}

} // verus!
