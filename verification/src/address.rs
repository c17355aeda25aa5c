//! Program derived addresses: where the owner registry and each transfer
//! record are stored.

use crate::pubkey::Pubkey;
use vstd::prelude::*;
use vstd::string::StringSliceAdditionalSpecFns;
use vstd::utf8::encode_utf8;

verus! {

/// The address and bump seed that the derivation finds for a list of seeds
/// under a program, or `None` where it finds none.
pub uninterp spec fn program_address(seeds: Seq<Seq<u8>>, program_id: Pubkey) -> Option<(Pubkey, u8)>;

/// The byte strings that a list of seeds holds.
pub open spec fn seeds_view(seeds: Seq<&[u8]>) -> Seq<Seq<u8>> {
    Seq::new(seeds.len(), |i: int| seeds[i]@)
}

/// Calls `Pubkey::try_find_program_address` of `anchor_lang`, which searches
/// for a bump seed that puts the hash of the seeds, the bump seed and the
/// program id off the curve. What it returns depends on the seeds and the
/// program id alone; the contract gives that outcome a name and claims
/// nothing else of it.
#[verifier::external_body]
fn try_find_program_address(seeds: &[&[u8]], program_id: &Pubkey) -> (found: Option<(Pubkey, u8)>)
    ensures
        found == program_address(seeds_view(seeds@), *program_id),
{
    let program = anchor_lang::prelude::Pubkey::new_from_array(program_id.bytes);
    match anchor_lang::prelude::Pubkey::try_find_program_address(seeds, &program) {
        Some((address, bump)) => Some((Pubkey { bytes: address.to_bytes() }, bump)),
        None => None,
    }
}

/// The address alone of what the derivation found.
pub open spec fn address_of(found: Option<(Pubkey, u8)>) -> Option<Pubkey> {
    match found {
        Some((address, _)) => Some(address),
        None => None,
    }
}

/// The seeds of the owner registry: the one tag `owner`.
pub open spec fn owner_seeds() -> Seq<Seq<u8>> {
    seq!["owner".spec_bytes()]
}

/// The seeds of a transfer record: the tag `transfer`, then the three parts
/// of its signature, each as its UTF-8 bytes.
pub open spec fn transfer_seeds(
    signature_1: Seq<char>,
    signature_2: Seq<char>,
    signature_3: Seq<char>,
) -> Seq<Seq<u8>> {
    seq![
        "transfer".spec_bytes(),
        encode_utf8(signature_1),
        encode_utf8(signature_2),
        encode_utf8(signature_3),
    ]
}

/// Where the owner registry of a program is stored, if anywhere.
pub open spec fn owner_address(program_id: Pubkey) -> Option<Pubkey> {
    address_of(program_address(owner_seeds(), program_id))
}

/// Where the transfer record with the given signature is stored, if
/// anywhere.
pub open spec fn transfer_address(
    program_id: Pubkey,
    signature_1: Seq<char>,
    signature_2: Seq<char>,
    signature_3: Seq<char>,
) -> Option<Pubkey> {
    address_of(program_address(transfer_seeds(signature_1, signature_2, signature_3), program_id))
}

/// Derives the address of the owner registry of a program.
pub fn find_owner_address(program_id: &Pubkey) -> (address: Option<Pubkey>)
    ensures
        address == owner_address(*program_id),
{
    let seeds: [&[u8]; 1] = ["owner".as_bytes()];
    assert(seeds_view(seeds@) =~= owner_seeds());
    match try_find_program_address(seeds.as_slice(), program_id) {
        Some((address, _)) => Some(address),
        None => None,
    }
}

/// Derives the address of the transfer record with the given signature.
pub fn find_transfer_address(
    program_id: &Pubkey,
    signature_1: &str,
    signature_2: &str,
    signature_3: &str,
) -> (address: Option<Pubkey>)
    ensures
        address == transfer_address(*program_id, signature_1@, signature_2@, signature_3@),
{
    let seeds: [&[u8]; 4] = [
        "transfer".as_bytes(),
        signature_1.as_bytes(),
        signature_2.as_bytes(),
        signature_3.as_bytes(),
    ];
    assert(seeds_view(seeds@) =~= transfer_seeds(signature_1@, signature_2@, signature_3@));
    match try_find_program_address(seeds.as_slice(), program_id) {
        Some((address, _)) => Some(address),
        None => None,
    }
}

} // verus!
