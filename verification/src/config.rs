//! The per-user institution config: which institution wallet receives the
//! institution fee of a user's transfers.
//!
//! One record exists per owner. It is stored at the address derived from a
//! fixed tag and the owner's address, so the hook finds it without an index
//! and nobody but the owner can be the signer of a write to it.

use vstd::prelude::*;
use crate::address::Address;
use crate::bytes::starts_with;
use crate::error::HookError;
use crate::pda::{
    create_program_address, created_program_address, found_program_address, found_view,
    make_tagged_seeds, push_bump, tagged_seeds, try_find_program_address, with_bump,
};

verus! {

/// Number of bytes of a stored config: tag, owner, institution wallet, bump.
pub const CONFIG_LEN: usize = 73;

/// Offset of the owner in a stored config.
pub const CONFIG_OWNER_OFFSET: usize = 8;

/// Offset of the institution wallet in a stored config.
pub const CONFIG_INSTITUTION_OFFSET: usize = 40;

/// Offset of the bump seed in a stored config.
pub const CONFIG_BUMP_OFFSET: usize = 72;

/// The record-type tag that leads a stored config.
pub open spec fn config_tag() -> Seq<u8> {
    seq![242u8, 125u8, 65u8, 255u8, 71u8, 12u8, 190u8, 193u8]
}

/// The namespace tag of config addresses: the bytes of `user_institution`.
pub open spec fn config_seed() -> Seq<u8> {
    seq![
        117u8, 115u8, 101u8, 114u8, 95u8, 105u8, 110u8, 115u8, 116u8, 105u8, 116u8, 117u8, 116u8,
        105u8, 111u8, 110u8,
    ]
}

/// The seeds from which the config address of `owner` is derived.
pub open spec fn config_seeds(owner: Seq<u8>) -> Seq<Seq<u8>> {
    tagged_seeds(config_seed(), owner)
}

/// The config address of `owner` under `program_id`, with its bump seed.
pub open spec fn config_address_of(owner: Seq<u8>, program_id: Seq<u8>) -> Option<(Seq<u8>, u8)> {
    found_program_address(config_seeds(owner), program_id)
}

/// The record-type tag as bytes.
pub fn config_tag_bytes() -> (tag: Vec<u8>)
    ensures
        tag@ == config_tag(),
{
    let tag: Vec<u8> = vec![242u8, 125u8, 65u8, 255u8, 71u8, 12u8, 190u8, 193u8];
    assert(tag@ =~= config_tag());
    tag
}

/// The namespace tag as bytes.
pub fn config_seed_bytes() -> (seed: Vec<u8>)
    ensures
        seed@ == config_seed(),
{
    let seed: Vec<u8> = vec![
        117u8, 115u8, 101u8, 114u8, 95u8, 105u8, 110u8, 115u8, 116u8, 105u8, 116u8, 117u8, 116u8,
        105u8, 111u8, 110u8,
    ];
    assert(seed@ =~= config_seed());
    seed
}

/// A user's designation of the institution that receives their institution
/// fee.
#[derive(Clone, Copy, Debug, PartialEq, Eq)]
pub struct UserInstitutionConfig {
    /// The user the record belongs to.
    pub owner: Address,
    /// The wallet of the designated institution.
    pub institution_wallet: Address,
    /// The bump seed of the record's address.
    pub bump: u8,
}

impl UserInstitutionConfig {
    /// The stored form: tag, owner, institution wallet, bump.
    pub open spec fn encoding(self) -> Seq<u8> {
        config_tag() + self.owner@ + self.institution_wallet@ + seq![self.bump]
    }

    /// Tells whether `bytes` is the stored form of some config.
    pub open spec fn is_encoding(bytes: Seq<u8>) -> bool {
        bytes.len() == CONFIG_LEN && bytes.subrange(0, 8) == config_tag()
    }

    /// Writes the record in its stored form.
    pub fn encode(&self) -> (bytes: Vec<u8>)
        ensures
            bytes@ == self.encoding(),
            bytes@.len() == CONFIG_LEN,
            Self::is_encoding(bytes@),
    {
        let mut bytes: Vec<u8> = config_tag_bytes();
        self.owner.append_to(&mut bytes);
        self.institution_wallet.append_to(&mut bytes);
        bytes.push(self.bump);
        assert(bytes@.subrange(0, 8) =~= config_tag());
        bytes
    }

    /// Reads a record from its stored form. Bytes of another length, or with
    /// another tag, hold no config.
    pub fn decode(bytes: &[u8]) -> (config: Option<UserInstitutionConfig>)
        ensures
            config is Some <==> Self::is_encoding(bytes@),
            config matches Some(c) ==> {
                &&& c.owner@ == bytes@.subrange(8, 40)
                &&& c.institution_wallet@ == bytes@.subrange(40, 72)
                &&& c.bump == bytes@[72]
                &&& c.encoding() == bytes@
            },
    {
        if bytes.len() != CONFIG_LEN {
            return None;
        }
        if !starts_with(bytes, config_tag_bytes().as_slice()) {
            return None;
        }
        let config = UserInstitutionConfig {
            owner: Address::read_from(bytes, CONFIG_OWNER_OFFSET),
            institution_wallet: Address::read_from(bytes, CONFIG_INSTITUTION_OFFSET),
            bump: bytes[CONFIG_BUMP_OFFSET],
        };
        assert(config.encoding() =~= bytes@);
        Some(config)
    }
}

/// Tells whether `signer` may write the institution wallet into the slot at
/// `slot_address`: the slot must lie at the address derived for the signer,
/// and a record already in it must belong to the signer.
pub open spec fn write_allowed(
    slot: Option<UserInstitutionConfig>,
    slot_address: Address,
    signer: Address,
    derived: Option<(Seq<u8>, u8)>,
) -> bool {
    &&& derived matches Some((address, bump)) && address == slot_address@
    &&& (slot matches Some(existing) ==> existing.owner == signer)
}

/// The slot after `signer` asked to designate `institution_wallet`: the
/// signer's record with that wallet where the write is allowed, the slot as
/// it was where it is not.
pub open spec fn slot_after_write(
    slot: Option<UserInstitutionConfig>,
    slot_address: Address,
    signer: Address,
    institution_wallet: Address,
    derived: Option<(Seq<u8>, u8)>,
) -> Option<UserInstitutionConfig> {
    match derived {
        Some((_, bump)) if write_allowed(slot, slot_address, signer, derived) => Some(
            UserInstitutionConfig { owner: signer, institution_wallet, bump },
        ),
        _ => slot,
    }
}

/// Derives the address at which the config of `owner` is stored under
/// `program_id`, with its bump seed.
pub fn config_address(owner: &Address, program_id: &Address) -> (found: Option<(Address, u8)>)
    ensures
        found_view(found) == config_address_of(owner@, program_id@),
        found matches Some((address, bump)) ==> created_program_address(
            with_bump(config_seeds(owner@), bump),
            program_id@,
        ) == Some(address@),
{
    let seeds = make_tagged_seeds(config_seed_bytes(), owner);
    try_find_program_address(&seeds, program_id)
}

/// Tells whether `address` is the one that the owner and the bump stored in
/// `config` give under `program_id`.
pub fn config_address_matches(config: &UserInstitutionConfig, address: &Address, program_id: &Address) -> (matches: bool)
    ensures
        matches == (created_program_address(
            with_bump(config_seeds(config.owner@), config.bump),
            program_id@,
        ) == Some(address@)),
{
    let mut seeds = make_tagged_seeds(config_seed_bytes(), &config.owner);
    push_bump(&mut seeds, config.bump);
    match create_program_address(&seeds, program_id) {
        Some(created) => created.same_as(address),
        None => false,
    }
}

/// Tells whether an account holds a config of the module at its own address:
/// the account belongs to `program_id`, its data is the stored form of a
/// config, and the owner and the bump stored in it give `address`.
pub open spec fn holds_config(account_owner: Seq<u8>, address: Seq<u8>, data: Seq<u8>, program_id: Seq<u8>) -> bool {
    &&& account_owner == program_id
    &&& UserInstitutionConfig::is_encoding(data)
    &&& created_program_address(with_bump(config_seeds(data.subrange(8, 40)), data[72]), program_id)
        == Some(address)
}

/// Reads the config that the account at `address` holds, where it holds one
/// as [`holds_config`] says; any other account gives none.
pub fn load_config(account_owner: &Address, address: &Address, data: &[u8], program_id: &Address) -> (config:
    Option<UserInstitutionConfig>)
    ensures
        config is Some <==> holds_config(account_owner@, address@, data@, program_id@),
        config matches Some(c) ==> c.encoding() == data@,
{
    if !account_owner.same_as(program_id) {
        return None;
    }
    match UserInstitutionConfig::decode(data) {
        Some(stored) => {
            if config_address_matches(&stored, address, program_id) {
                Some(stored)
            } else {
                None
            }
        },
        None => None,
    }
}

/// Writes the institution wallet into the signer's config slot, given the
/// address `derived` for the signer: creates the record where the slot is
/// empty, replaces its wallet where it is not. A slot that is not the
/// signer's is left as it was and the write fails with `UnauthorizedAccess`.
pub fn apply_institution_wallet(
    slot: &mut Option<UserInstitutionConfig>,
    slot_address: &Address,
    signer: &Address,
    institution_wallet: Address,
    derived: Option<(Address, u8)>,
) -> (outcome: Result<(), HookError>)
    ensures
        write_allowed(*old(slot), *slot_address, *signer, found_view(derived)) ==> outcome is Ok,
        !write_allowed(*old(slot), *slot_address, *signer, found_view(derived)) ==> outcome == Err::<
            (),
            HookError,
        >(HookError::UnauthorizedAccess),
        *final(slot) == slot_after_write(
            *old(slot),
            *slot_address,
            *signer,
            institution_wallet,
            found_view(derived),
        ),
{
    let (address, bump) = match derived {
        Some(pair) => pair,
        None => { return Err(HookError::UnauthorizedAccess); },
    };
    if !address.same_as(slot_address) {
        return Err(HookError::UnauthorizedAccess);
    }
    if let Some(existing) = slot {
        if !existing.owner.same_as(signer) {
            return Err(HookError::UnauthorizedAccess);
        }
    }
    *slot = Some(UserInstitutionConfig { owner: *signer, institution_wallet, bump });
    Ok(())
}

/// Designates `institution_wallet` as the receiver of the signer's
/// institution fee: derives the signer's config address under `program_id`
/// and writes the slot as [`apply_institution_wallet`] says. On success the
/// record's owner and bump give `slot_address` back.
pub fn set_institution_wallet(
    slot: &mut Option<UserInstitutionConfig>,
    slot_address: &Address,
    signer: &Address,
    institution_wallet: Address,
    program_id: &Address,
) -> (outcome: Result<(), HookError>)
    ensures
        write_allowed(*old(slot), *slot_address, *signer, config_address_of(signer@, program_id@))
            ==> outcome is Ok,
        !write_allowed(*old(slot), *slot_address, *signer, config_address_of(signer@, program_id@))
            ==> outcome == Err::<(), HookError>(HookError::UnauthorizedAccess),
        *final(slot) == slot_after_write(
            *old(slot),
            *slot_address,
            *signer,
            institution_wallet,
            config_address_of(signer@, program_id@),
        ),
        outcome is Ok ==> (*final(slot) matches Some(written) && created_program_address(
            with_bump(config_seeds(written.owner@), written.bump),
            program_id@,
        ) == Some(slot_address@)),
{
    let derived = config_address(signer, program_id);
    apply_institution_wallet(slot, slot_address, signer, institution_wallet, derived)
}

/// Designating the same wallet a second time changes nothing: the second
/// write is allowed whenever the first was, and leaves the record, and so its
/// stored bytes, as the first write left them.
pub proof fn repeated_write_changes_nothing(
    slot: Option<UserInstitutionConfig>,
    slot_address: Address,
    signer: Address,
    institution_wallet: Address,
    derived: Option<(Seq<u8>, u8)>,
)
    requires
        write_allowed(slot, slot_address, signer, derived),
    ensures
        ({
            let once = slot_after_write(slot, slot_address, signer, institution_wallet, derived);
            let twice = slot_after_write(once, slot_address, signer, institution_wallet, derived);
            &&& write_allowed(once, slot_address, signer, derived)
            &&& twice == once
            &&& twice.unwrap().encoding() == once.unwrap().encoding()
        }),
{
}

/// Designating another wallet replaces the wallet and nothing else.
pub proof fn later_write_replaces_wallet(
    slot: Option<UserInstitutionConfig>,
    slot_address: Address,
    signer: Address,
    first_wallet: Address,
    second_wallet: Address,
    derived: Option<(Seq<u8>, u8)>,
)
    requires
        write_allowed(slot, slot_address, signer, derived),
    ensures
        ({
            let once = slot_after_write(slot, slot_address, signer, first_wallet, derived);
            let twice = slot_after_write(once, slot_address, signer, second_wallet, derived);
            &&& twice matches Some(record)
            &&& record.institution_wallet == second_wallet
            &&& record.owner == once.unwrap().owner
            &&& record.bump == once.unwrap().bump
        }),
{
}

/// A signer who is not the owner of a stored config cannot write it: the
/// write is refused and the slot is as it was.
pub proof fn foreign_signer_is_refused(
    existing: UserInstitutionConfig,
    slot_address: Address,
    signer: Address,
    institution_wallet: Address,
    derived: Option<(Seq<u8>, u8)>,
)
    requires
        existing.owner != signer,
    ensures
        !write_allowed(Some(existing), slot_address, signer, derived),
        slot_after_write(Some(existing), slot_address, signer, institution_wallet, derived) == Some(
            existing,
        ),
{
}

/// A slot that does not lie at the address derived for the signer cannot be
/// written by them, whatever it holds.
pub proof fn foreign_slot_is_refused(
    slot: Option<UserInstitutionConfig>,
    slot_address: Address,
    signer: Address,
    institution_wallet: Address,
    derived: Option<(Seq<u8>, u8)>,
)
    requires
        derived matches Some((address, bump)) ==> address != slot_address@,
    ensures
        !write_allowed(slot, slot_address, signer, derived),
        slot_after_write(slot, slot_address, signer, institution_wallet, derived) == slot,
{
}

/// The config address depends on nothing but the owner and the program:
/// equal owners under equal programs have equal config addresses.
pub proof fn config_address_is_determined(
    owner: Address,
    program_id: Address,
    other_owner: Address,
    other_program_id: Address,
)
    requires
        owner@ == other_owner@,
        program_id@ == other_program_id@,
    ensures
        config_address_of(owner@, program_id@) == config_address_of(
            other_owner@,
            other_program_id@,
        ),
{
}

/// A config created for a signer lies at the address that is derived for its
/// owner again afterwards, and carries the bump of that derivation.
pub proof fn created_config_is_found_again(
    slot_address: Address,
    signer: Address,
    institution_wallet: Address,
    program_id: Address,
)
    requires
        write_allowed(None, slot_address, signer, config_address_of(signer@, program_id@)),
    ensures
        ({
            let created = slot_after_write(
                None,
                slot_address,
                signer,
                institution_wallet,
                config_address_of(signer@, program_id@),
            );
            &&& created matches Some(record)
            &&& config_address_of(record.owner@, program_id@) == Some((slot_address@, record.bump))
        }),
{
}

/// A config read back from its stored form is the config that was written.
pub proof fn config_encoding_round_trip(config: UserInstitutionConfig)
    ensures
        UserInstitutionConfig::is_encoding(config.encoding()),
        config.encoding().subrange(8, 40) == config.owner@,
        config.encoding().subrange(40, 72) == config.institution_wallet@,
        config.encoding()[72] == config.bump,
{
    let e = config.encoding();
    assert(e.subrange(0, 8) =~= config_tag());
    assert(e.subrange(8, 40) =~= config.owner@);
    assert(e.subrange(40, 72) =~= config.institution_wallet@);
}

/// Two configs with the same stored form are the same config.
pub proof fn config_encoding_is_injective(a: UserInstitutionConfig, b: UserInstitutionConfig)
    requires
        a.encoding() == b.encoding(),
    ensures
        a == b,
{
    config_encoding_round_trip(a);
    config_encoding_round_trip(b);
    crate::address::address_determined_by_bytes(a.owner, b.owner);
    crate::address::address_determined_by_bytes(a.institution_wallet, b.institution_wallet);
}

} // verus!
