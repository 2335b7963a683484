//! One-time setup of the token: its mint and its resolution table.
//!
//! Both procedures create a record in a slot that must be empty, and fail on
//! a slot that is taken, leaving it as it was. Neither moves funds.

use vstd::prelude::*;
use crate::address::Address;
use crate::error::HookError;
use crate::pda::{
    found_program_address, found_view, make_tagged_seeds, seeds_view, tagged_seeds,
    try_find_program_address, zero_address,
};
use crate::resolution::{rules_view, ExtraAccountRule, RuleView};
use crate::table::{
    build_extra_account_rules, table_for, table_has_stored_form, HookProgram, STORED_TABLE_LEN,
};
use crate::wire::{decode_table, encode_table, parse_table, table_encodable, table_encoding};

verus! {

/// Bytes of a token account record, up to which a mint record is padded
/// before its extensions.
pub const BASE_ACCOUNT_LEN: usize = 165;

/// Bytes of the account-type marker that precedes the extensions.
pub const ACCOUNT_TYPE_LEN: usize = 1;

/// Bytes of the type and length that precede each extension.
pub const EXTENSION_HEADER_LEN: usize = 4;

/// Bytes of the transfer-hook extension: an authority and a program.
pub const TRANSFER_HOOK_LEN: usize = 64;

/// Bytes of the metadata-pointer extension: an authority and an address.
pub const METADATA_POINTER_LEN: usize = 64;

/// Bytes of a mint record that holds the transfer-hook and the
/// metadata-pointer extension.
pub const MINT_WITH_HOOK_LEN: usize = 302;

/// The size of a mint record with extensions of the given sizes.
pub open spec fn mint_len(extension_lens: Seq<int>) -> int
    decreases extension_lens.len(),
{
    if extension_lens.len() == 0 {
        BASE_ACCOUNT_LEN + ACCOUNT_TYPE_LEN
    } else {
        mint_len(extension_lens.drop_last()) + EXTENSION_HEADER_LEN + extension_lens.last()
    }
}

/// The mint record of the token has room for exactly its two extensions.
pub proof fn mint_with_hook_len_is_sized()
    ensures
        MINT_WITH_HOOK_LEN == mint_len(seq![TRANSFER_HOOK_LEN as int, METADATA_POINTER_LEN as int]),
{
    let both = seq![TRANSFER_HOOK_LEN as int, METADATA_POINTER_LEN as int];
    let one = seq![TRANSFER_HOOK_LEN as int];
    assert(both.drop_last() =~= one);
    assert(one.drop_last() =~= Seq::<int>::empty());
    reveal_with_fuel(mint_len, 3);
}

/// The transfer-hook extension of a mint: who may change the hook, and which
/// program the token program calls on every transfer.
#[derive(Clone, Copy, Debug, PartialEq, Eq)]
pub struct TransferHookPointer {
    pub authority: Address,
    pub program_id: Address,
}

/// The metadata-pointer extension of a mint. Setup only makes room for it:
/// both fields are unset until the mint's authority points them somewhere.
#[derive(Clone, Copy, Debug, PartialEq, Eq)]
pub struct MetadataPointer {
    pub authority: Option<Address>,
    pub metadata_address: Option<Address>,
}

/// The mint of the token, with its hook and metadata-pointer extensions.
#[derive(Clone, Copy, Debug, PartialEq, Eq)]
pub struct MintWithHookExtension {
    /// Number of decimal places of an amount.
    pub decimals: u8,
    /// The hook called on every transfer.
    pub transfer_hook: TransferHookPointer,
    /// The pointer to the token's metadata.
    pub metadata_pointer: MetadataPointer,
    /// Bytes the record occupies.
    pub space: usize,
}

/// The mint that setup creates under `program_id` with `decimals` places.
pub open spec fn fresh_mint(program_id: Address, decimals: u8) -> MintWithHookExtension {
    MintWithHookExtension {
        decimals,
        transfer_hook: TransferHookPointer { authority: program_id, program_id },
        metadata_pointer: MetadataPointer { authority: None, metadata_address: None },
        space: MINT_WITH_HOOK_LEN,
    }
}

impl MintWithHookExtension {
    /// The mint that setup creates under `program_id` with `decimals`
    /// places.
    pub fn new(program_id: Address, decimals: u8) -> (mint: MintWithHookExtension)
        ensures
            mint == fresh_mint(program_id, decimals),
    {
        MintWithHookExtension {
            decimals,
            transfer_hook: TransferHookPointer { authority: program_id, program_id },
            metadata_pointer: MetadataPointer { authority: None, metadata_address: None },
            space: MINT_WITH_HOOK_LEN,
        }
    }
}

/// Creates the mint of the token in `slot`.
///
/// The record is sized for the transfer-hook and the metadata-pointer
/// extension; the hook's authority and its program are both the module's own
/// identity. The name and the symbol belong to the metadata that the pointer
/// will name, and the operations wallet to the module's deployment: creating
/// the mint stores none of them. A slot that already holds a mint is left as
/// it was and the call fails with `AlreadyInitialized`.
pub fn initialize_token(
    slot: &mut Option<MintWithHookExtension>,
    program: &HookProgram,
    name: &str,
    symbol: &str,
    decimals: u8,
    institution_ops_wallet: &Address,
) -> (outcome: Result<(), HookError>)
    ensures
        *old(slot) is None ==> outcome is Ok && *final(slot) == Some(
            fresh_mint(program.program_id, decimals),
        ),
        *old(slot) is Some ==> outcome == Err::<(), HookError>(HookError::AlreadyInitialized)
            && *final(slot) == *old(slot),
{
    if slot.is_some() {
        return Err(HookError::AlreadyInitialized);
    }
    *slot = Some(MintWithHookExtension::new(program.program_id, decimals));
    Ok(())
}

/// Tag of the token program's instruction that initializes a mint.
pub const INITIALIZE_MINT: u8 = 20;

/// Tag of the token program's transfer-hook instructions.
pub const TRANSFER_HOOK_EXTENSION: u8 = 36;

/// Tag of the token program's metadata-pointer instructions.
pub const METADATA_POINTER_EXTENSION: u8 = 39;

/// Tag, within an extension's instructions, of the one that initializes it.
pub const INITIALIZE_EXTENSION: u8 = 0;

/// An address that may be unset, as the token program reads it: thirty-two
/// bytes, all zero where it is unset.
pub open spec fn optional_address_bytes(address: Option<Address>) -> Seq<u8> {
    match address {
        Some(a) => a@,
        None => zero_address(),
    }
}

/// The instruction data of the three calls that set up a mint, in the order
/// in which the token program takes them: the transfer hook, the metadata
/// pointer, then the mint itself with `mint_authority` and no freeze
/// authority. Each call has the mint as its only account.
pub open spec fn mint_setup_encoding(mint: MintWithHookExtension, mint_authority: Address) -> Seq<
    Seq<u8>,
> {
    seq![
        seq![TRANSFER_HOOK_EXTENSION, INITIALIZE_EXTENSION] + mint.transfer_hook.authority@
            + mint.transfer_hook.program_id@,
        seq![METADATA_POINTER_EXTENSION, INITIALIZE_EXTENSION] + optional_address_bytes(
            mint.metadata_pointer.authority,
        ) + optional_address_bytes(mint.metadata_pointer.metadata_address),
        seq![INITIALIZE_MINT, mint.decimals] + mint_authority@ + seq![0u8],
    ]
}

/// Appends an address that may be unset to `out`.
fn append_optional_address(address: &Option<Address>, out: &mut Vec<u8>)
    ensures
        final(out)@ == old(out)@ + optional_address_bytes(*address),
{
    match address {
        Some(a) => a.append_to(out),
        None => {
            let unset = Address { bytes: [0u8; 32] };
            assert(unset@ =~= zero_address());
            unset.append_to(out);
        },
    }
}

/// Writes the instruction data of the three calls that set up `mint`.
pub fn mint_setup_calls(mint: &MintWithHookExtension, mint_authority: &Address) -> (calls: Vec<Vec<u8>>)
    ensures
        seeds_view(calls@) == mint_setup_encoding(*mint, *mint_authority),
{
    let mut hook: Vec<u8> = Vec::new();
    hook.push(TRANSFER_HOOK_EXTENSION);
    hook.push(INITIALIZE_EXTENSION);
    mint.transfer_hook.authority.append_to(&mut hook);
    mint.transfer_hook.program_id.append_to(&mut hook);
    assert(hook@ =~= mint_setup_encoding(*mint, *mint_authority)[0]);

    let mut pointer: Vec<u8> = Vec::new();
    pointer.push(METADATA_POINTER_EXTENSION);
    pointer.push(INITIALIZE_EXTENSION);
    append_optional_address(&mint.metadata_pointer.authority, &mut pointer);
    append_optional_address(&mint.metadata_pointer.metadata_address, &mut pointer);
    assert(pointer@ =~= mint_setup_encoding(*mint, *mint_authority)[1]);

    let mut create: Vec<u8> = Vec::new();
    create.push(INITIALIZE_MINT);
    create.push(mint.decimals);
    mint_authority.append_to(&mut create);
    create.push(0u8);
    assert(create@ =~= mint_setup_encoding(*mint, *mint_authority)[2]);

    let mut calls: Vec<Vec<u8>> = Vec::new();
    calls.push(hook);
    calls.push(pointer);
    calls.push(create);
    assert(seeds_view(calls@) =~= mint_setup_encoding(*mint, *mint_authority));
    calls
}

/// The namespace tag of table addresses: the bytes of `extra-account-metas`.
pub open spec fn table_seed() -> Seq<u8> {
    seq![
        101u8, 120u8, 116u8, 114u8, 97u8, 45u8, 97u8, 99u8, 99u8, 111u8, 117u8, 110u8, 116u8, 45u8,
        109u8, 101u8, 116u8, 97u8, 115u8,
    ]
}

/// The namespace tag of table addresses as bytes.
pub fn table_seed_bytes() -> (seed: Vec<u8>)
    ensures
        seed@ == table_seed(),
{
    let seed: Vec<u8> = vec![
        101u8, 120u8, 116u8, 114u8, 97u8, 45u8, 97u8, 99u8, 99u8, 111u8, 117u8, 110u8, 116u8, 45u8,
        109u8, 101u8, 116u8, 97u8, 115u8,
    ];
    assert(seed@ =~= table_seed());
    seed
}

/// The address at which the table of `mint` is stored under `program_id`,
/// with its bump seed.
pub open spec fn table_address_of(mint: Seq<u8>, program_id: Seq<u8>) -> Option<(Seq<u8>, u8)> {
    found_program_address(tagged_seeds(table_seed(), mint), program_id)
}

/// Derives the address at which the table of `mint` is stored.
pub fn table_address(mint: &Address, program_id: &Address) -> (found: Option<(Address, u8)>)
    ensures
        found_view(found) == table_address_of(mint@, program_id@),
{
    let seeds = make_tagged_seeds(table_seed_bytes(), mint);
    try_find_program_address(&seeds, program_id)
}

/// The stored resolution table of one mint.
#[derive(Debug, PartialEq, Eq)]
pub struct ExtraAccountMetaList {
    pub rules: Vec<ExtraAccountRule>,
}

impl View for ExtraAccountMetaList {
    type V = Seq<RuleView>;

    open spec fn view(&self) -> Seq<RuleView> {
        rules_view(self.rules@)
    }
}

impl ExtraAccountMetaList {
    /// Writes the table in its stored form, where it has one.
    pub fn encode(&self) -> (bytes: Option<Vec<u8>>)
        ensures
            bytes is Some <==> table_encodable(self@),
            bytes matches Some(b) ==> b@ == table_encoding(self@),
    {
        encode_table(&self.rules)
    }

    /// Reads a table from its stored form.
    pub fn decode(bytes: &[u8]) -> (list: Option<ExtraAccountMetaList>)
        ensures
            table_slot_view(list) == parse_table(bytes@),
    {
        match decode_table(bytes) {
            Some(rules) => Some(ExtraAccountMetaList { rules }),
            None => None,
        }
    }
}

/// The plain-value form of a table slot.
pub open spec fn table_slot_view(slot: Option<ExtraAccountMetaList>) -> Option<Seq<RuleView>> {
    match slot {
        Some(list) => Some(list@),
        None => None,
    }
}

/// Whether the table of a mint may be written into the slot at
/// `slot_address`, given the address `derived` for the mint: the bump seed of
/// the slot, or the error. The slot must lie at the derived address, else it
/// is not this mint's and the caller has no right to it, and it must be
/// empty.
pub open spec fn table_verdict(
    slot: Option<Seq<RuleView>>,
    slot_address: Address,
    derived: Option<(Seq<u8>, u8)>,
) -> Result<u8, HookError> {
    match derived {
        Some((address, bump)) if address == slot_address@ => if slot is Some {
            Err(HookError::AlreadyInitialized)
        } else {
            Ok(bump)
        },
        _ => Err(HookError::UnauthorizedAccess),
    }
}

/// A table that has just been written: its stored form, and the bump seed
/// of the address it is stored at.
#[derive(Debug, PartialEq, Eq)]
pub struct WrittenTable {
    pub stored: Vec<u8>,
    pub bump: u8,
}

/// Writes the table of `mint` into `slot`, given the address `derived` for
/// the mint's table, as [`table_verdict`] says, and hands back its stored
/// form, 315 bytes.
///
/// The table is the three rules of [`table_for`]. A slot that is refused is
/// left as it was.
pub fn write_extra_account_meta_list(
    slot: &mut Option<ExtraAccountMetaList>,
    slot_address: &Address,
    program: &HookProgram,
    mint: &Address,
    derived: Option<(Address, u8)>,
) -> (outcome: Result<WrittenTable, HookError>)
    ensures
        match table_verdict(table_slot_view(*old(slot)), *slot_address, found_view(derived)) {
            Ok(bump) => {
                &&& table_slot_view(*final(slot)) == Some(table_for(*program, mint@))
                &&& outcome matches Ok(written)
                &&& written.bump == bump
                &&& written.stored@ == table_encoding(table_for(*program, mint@))
                &&& written.stored@.len() == STORED_TABLE_LEN
            },
            Err(error) => {
                &&& outcome matches Err(e)
                &&& e == error
                &&& *final(slot) == *old(slot)
            },
        },
{
    let (address, bump) = match derived {
        Some(pair) => pair,
        None => { return Err(HookError::UnauthorizedAccess); },
    };
    if !address.same_as(slot_address) {
        return Err(HookError::UnauthorizedAccess);
    }
    if slot.is_some() {
        return Err(HookError::AlreadyInitialized);
    }
    let list = ExtraAccountMetaList { rules: build_extra_account_rules(program, mint) };
    proof {
        table_has_stored_form(*program, mint@);
    }
    let stored = list.encode().unwrap();
    *slot = Some(list);
    Ok(WrittenTable { stored, bump })
}

/// Writes the table of `mint` into `slot`: derives the address of the mint's
/// table under the module and decides as [`write_extra_account_meta_list`]
/// does. A slot at another address is refused with `UnauthorizedAccess`, a
/// slot that already holds a table with `AlreadyInitialized`.
pub fn initialize_extra_account_meta_list(
    slot: &mut Option<ExtraAccountMetaList>,
    slot_address: &Address,
    program: &HookProgram,
    mint: &Address,
) -> (outcome: Result<WrittenTable, HookError>)
    ensures
        match table_verdict(
            table_slot_view(*old(slot)),
            *slot_address,
            table_address_of(mint@, program.program_id@),
        ) {
            Ok(bump) => {
                &&& table_slot_view(*final(slot)) == Some(table_for(*program, mint@))
                &&& outcome matches Ok(written)
                &&& written.bump == bump
                &&& written.stored@ == table_encoding(table_for(*program, mint@))
                &&& written.stored@.len() == STORED_TABLE_LEN
            },
            Err(error) => {
                &&& outcome matches Err(e)
                &&& e == error
                &&& *final(slot) == *old(slot)
            },
        },
{
    let derived = table_address(mint, &program.program_id);
    write_extra_account_meta_list(slot, slot_address, program, mint, derived)
}

} // verus!
