//! An owner-gated store of transfer records, addressed by program derived
//! addresses.
//!
//! One identity, the owner, may create transfer records and amend their
//! balance and prices, and may hand ownership on. Each record is stored at
//! the address derived from the three parts of its signature, so that the
//! signature alone leads to it.
//!
//! - [`instructions`] holds the four instructions, each acting on the
//!   accounts that were resolved for it.
//! - [`store`] keeps accounts by address and runs the instructions on them.
//! - [`tracker`] is a deployment: it derives every address and leaves the
//!   rest to its store.
//! - [`model`] says what each operation does, and [`laws`] what follows.

use crate::pubkey::Pubkey;
use vstd::prelude::*;

pub mod address;
pub mod error;
pub mod events;
pub mod instructions;
pub mod laws;
pub mod model;
pub mod pubkey;
pub mod state;
pub mod store;
pub mod tracker;

verus! {

/// The bytes of the id under which the program is deployed:
/// `2K3rtnK7jN3BmFvPW4coMiF31noaXuaER6N4edNJZm7N`.
pub const ID_BYTES: [u8; 32] = [
    19, 123, 96, 36, 30, 237, 116, 169, 105, 85, 45, 218, 248, 186, 178, 185, 16, 32, 130, 243, 13,
    210, 117, 221, 217, 199, 142, 168, 150, 64, 187, 81,
];

/// The id under which the program is deployed.
pub fn id() -> (id: Pubkey)
    ensures
        id.bytes == ID_BYTES,
{
    Pubkey { bytes: ID_BYTES }
}

/// Whether `id` is the id under which the program is deployed.
pub fn check_id(id: &Pubkey) -> (same: bool)
    ensures
        same == (id.bytes == ID_BYTES),
{
    *id == self::id()
}

} // verus!
