//! Program-derived addresses.
//!
//! An address is derived from a program's identity and a list of seeds by the
//! ledger's own hashing scheme, which `anchor_lang` exposes through
//! `Pubkey`. The scheme is not restated here: its results carry the names
//! [`found_program_address`] and [`created_program_address`], and the
//! functions of this module only say which seeds and which program they hand
//! to it.

use vstd::prelude::*;
use anchor_lang::prelude::Pubkey;
use crate::address::Address;

verus! {

/// What `Pubkey::try_find_program_address` returns for these seeds and this
/// program: the derived address with its bump seed, or nothing.
pub uninterp spec fn found_program_address(seeds: Seq<Seq<u8>>, program_id: Seq<u8>) -> Option<(Seq<u8>, u8)>;

/// What `Pubkey::create_program_address` returns for these seeds and this
/// program: the address, or nothing where it reports an error.
pub uninterp spec fn created_program_address(seeds: Seq<Seq<u8>>, program_id: Seq<u8>) -> Option<Seq<u8>>;

/// The seeds as sequences of bytes.
pub open spec fn seeds_view(seeds: Seq<Vec<u8>>) -> Seq<Seq<u8>> {
    Seq::new(seeds.len(), |i: int| seeds[i]@)
}

/// The plain-value form of a derivation result.
pub open spec fn found_view(found: Option<(Address, u8)>) -> Option<(Seq<u8>, u8)> {
    match found {
        Some((address, bump)) => Some((address@, bump)),
        None => None,
    }
}

/// The plain-value form of an optional address.
pub open spec fn address_view(address: Option<Address>) -> Option<Seq<u8>> {
    match address {
        Some(a) => Some(a@),
        None => None,
    }
}

/// The seeds with a bump seed appended as one more single-byte seed.
pub open spec fn with_bump(seeds: Seq<Seq<u8>>, bump: u8) -> Seq<Seq<u8>> {
    seeds.push(seq![bump])
}

/// Calls `Pubkey::try_find_program_address`.
///
/// Trusted: the result is the one named [`found_program_address`]. The
/// search hands back an address only after `create_program_address` accepted
/// the seeds followed by the bump, so that call is named as giving the same
/// address.
#[verifier::external_body]
pub(crate) fn try_find_program_address(seeds: &Vec<Vec<u8>>, program_id: &Address) -> (found: Option<(Address, u8)>)
    ensures
        found_view(found) == found_program_address(seeds_view(seeds@), program_id@),
        found matches Some((address, bump)) ==> created_program_address(
            with_bump(seeds_view(seeds@), bump),
            program_id@,
        ) == Some(address@),
{
    let parts: Vec<&[u8]> = seeds.iter().map(|s| s.as_slice()).collect();
    let program = Pubkey::new_from_array(program_id.bytes);
    match Pubkey::try_find_program_address(&parts, &program) {
        Some((key, bump)) => Some((Address { bytes: key.to_bytes() }, bump)),
        None => None,
    }
}

/// Calls `Pubkey::create_program_address`.
///
/// Trusted: the result is the one named [`created_program_address`], an
/// error of any kind standing as nothing.
#[verifier::external_body]
pub(crate) fn create_program_address(seeds: &Vec<Vec<u8>>, program_id: &Address) -> (created: Option<Address>)
    ensures
        address_view(created) == created_program_address(seeds_view(seeds@), program_id@),
{
    let parts: Vec<&[u8]> = seeds.iter().map(|s| s.as_slice()).collect();
    let program = Pubkey::new_from_array(program_id.bytes);
    match Pubkey::create_program_address(&parts, &program) {
        Ok(key) => Some(Address { bytes: key.to_bytes() }),
        Err(_) => None,
    }
}

/// Calls `anchor_lang::system_program::ID`, the system program's address.
///
/// Trusted: it is the address of thirty-two zero bytes.
#[verifier::external_body]
pub(crate) fn system_program_id() -> (id: Address)
    ensures
        id@ == zero_address(),
{
    Address { bytes: anchor_lang::system_program::ID.to_bytes() }
}

/// Thirty-two zero bytes.
pub open spec fn zero_address() -> Seq<u8> {
    Seq::new(32, |i: int| 0u8)
}

/// The two seeds of a record kept per address: a fixed tag, then the address.
pub open spec fn tagged_seeds(tag: Seq<u8>, key: Seq<u8>) -> Seq<Seq<u8>> {
    seq![tag, key]
}

/// Builds the seeds [`tagged_seeds`] names.
pub fn make_tagged_seeds(tag: Vec<u8>, key: &Address) -> (seeds: Vec<Vec<u8>>)
    ensures
        seeds_view(seeds@) == tagged_seeds(tag@, key@),
{
    let mut seeds: Vec<Vec<u8>> = Vec::new();
    let ghost tag_bytes = tag@;
    seeds.push(tag);
    seeds.push(key.to_vec());
    assert(seeds_view(seeds@) =~= tagged_seeds(tag_bytes, key@));
    seeds
}

/// Appends a bump seed to `seeds` as one more single-byte seed.
pub fn push_bump(seeds: &mut Vec<Vec<u8>>, bump: u8)
    ensures
        seeds_view(final(seeds)@) == with_bump(seeds_view(old(seeds)@), bump),
{
    let mut last: Vec<u8> = Vec::new();
    last.push(bump);
    assert(last@ =~= seq![bump]);
    seeds.push(last);
    assert(seeds_view(seeds@) =~= with_bump(seeds_view(old(seeds)@), bump));
}

} // verus!
