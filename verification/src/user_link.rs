//! The wallet-link registry: which school wallet a user wallet is linked to.
//!
//! One link record exists per user, stored at the address derived from a
//! fixed tag and the user's address. The user creates it, may point it at
//! another school, and may remove the link, which leaves the record in place
//! with no school in it.
//!
//! "No school" is a state of its own, in the record and in its stored form:
//! a marker byte says whether a school is linked, so every address, the
//! system program's included, can be linked as a school and none is mistaken
//! for a removed link.
//!
//! The host resolves the accounts of an instruction, reads the clock and
//! publishes the events; the functions here check the accounts, change the
//! record and say which event to publish.

use vstd::prelude::*;
use vstd::bytes::{
    lemma_auto_spec_u64_to_from_le_bytes, spec_u64_from_le_bytes, spec_u64_to_le_bytes,
    u64_from_le_bytes, u64_to_le_bytes,
};
use vstd::slice::slice_subrange;
use crate::address::Address;
use crate::bytes::starts_with;
use crate::error::ErrorCode;
use crate::pda::{
    create_program_address, created_program_address, found_program_address, found_view,
    make_tagged_seeds, push_bump, system_program_id, tagged_seeds, try_find_program_address,
    with_bump, zero_address,
};

verus! {

/// The record-type tag that leads a stored link.
pub open spec fn user_link_tag() -> Seq<u8> {
    seq![17u8, 170u8, 58u8, 62u8, 84u8, 96u8, 56u8, 13u8]
}

/// The namespace tag of link addresses: the bytes of `user_link`.
pub open spec fn user_link_seed() -> Seq<u8> {
    seq![117u8, 115u8, 101u8, 114u8, 95u8, 108u8, 105u8, 110u8, 107u8]
}

/// The seeds from which the link address of `user` is derived.
pub open spec fn user_link_seeds(user: Seq<u8>) -> Seq<Seq<u8>> {
    tagged_seeds(user_link_seed(), user)
}

/// The link address of `user` under `program_id`, with its bump seed.
pub open spec fn user_link_address_of(user: Seq<u8>, program_id: Seq<u8>) -> Option<(Seq<u8>, u8)> {
    found_program_address(user_link_seeds(user), program_id)
}

/// The record-type tag as bytes.
pub fn user_link_tag_bytes() -> (tag: Vec<u8>)
    ensures
        tag@ == user_link_tag(),
{
    let tag: Vec<u8> = vec![17u8, 170u8, 58u8, 62u8, 84u8, 96u8, 56u8, 13u8];
    assert(tag@ =~= user_link_tag());
    tag
}

/// The namespace tag as bytes.
pub fn user_link_seed_bytes() -> (seed: Vec<u8>)
    ensures
        seed@ == user_link_seed(),
{
    let seed: Vec<u8> = vec![117u8, 115u8, 101u8, 114u8, 95u8, 108u8, 105u8, 110u8, 107u8];
    assert(seed@ =~= user_link_seed());
    seed
}

/// Derives the address at which the link of `user` is stored under
/// `program_id`, with its bump seed.
pub fn user_link_address(user: &Address, program_id: &Address) -> (found: Option<(Address, u8)>)
    ensures
        found_view(found) == user_link_address_of(user@, program_id@),
        found matches Some((address, bump)) ==> created_program_address(
            with_bump(user_link_seeds(user@), bump),
            program_id@,
        ) == Some(address@),
{
    let seeds = make_tagged_seeds(user_link_seed_bytes(), user);
    try_find_program_address(&seeds, program_id)
}

/// The link of one user wallet to a school wallet.
#[derive(Clone, Copy, Debug, PartialEq, Eq)]
pub struct UserLink {
    /// The user wallet.
    pub user_wallet: Address,
    /// The linked school wallet, or nothing once the link has been removed.
    pub school_wallet: Option<Address>,
    /// Time at which the link was created, in seconds.
    pub created_at: i64,
    /// Time at which the link was last changed, in seconds.
    pub updated_at: i64,
    /// The bump seed of the record's address.
    pub bump: u8,
}

/// Marker byte of a school that is linked.
pub const SCHOOL_LINKED: u8 = 1;

/// Marker byte of no school.
pub const SCHOOL_ABSENT: u8 = 0;

/// The thirty-three bytes that stand for a school, or for none, in stored
/// and published forms: the marker byte, then the school's address, or the
/// system program's address, thirty-two zero bytes, where there is none.
pub open spec fn school_bytes(school: Option<Address>) -> Seq<u8> {
    match school {
        Some(wallet) => seq![SCHOOL_LINKED] + wallet@,
        None => seq![SCHOOL_ABSENT] + zero_address(),
    }
}

/// Tells whether thirty-three bytes stand for a school or for none.
pub open spec fn are_school_bytes(bytes: Seq<u8>) -> bool {
    bytes.len() == 33 && (bytes[0] == SCHOOL_LINKED || (bytes[0] == SCHOOL_ABSENT && bytes.subrange(
        1,
        33,
    ) == zero_address()))
}

/// The bytes of a school and the bytes of none are never the same, and the
/// bytes of two schools only where the schools are.
pub proof fn school_bytes_are_injective(first: Option<Address>, second: Option<Address>)
    requires
        school_bytes(first) == school_bytes(second),
    ensures
        first == second,
{
    assert(school_bytes(first)[0] == school_bytes(second)[0]);
    assert(first is Some ==> school_bytes(first)[0] == SCHOOL_LINKED);
    assert(first is None ==> school_bytes(first)[0] == SCHOOL_ABSENT);
    assert(second is Some ==> school_bytes(second)[0] == SCHOOL_LINKED);
    assert(second is None ==> school_bytes(second)[0] == SCHOOL_ABSENT);
    match (first, second) {
        (Some(a), Some(b)) => {
            assert(a@ =~= school_bytes(first).subrange(1, 33));
            assert(b@ =~= school_bytes(second).subrange(1, 33));
            crate::address::address_determined_by_bytes(a, b);
        },
        _ => {},
    }
}

/// Appends the bytes that stand for `school` to `out`.
fn append_school(school: &Option<Address>, out: &mut Vec<u8>)
    ensures
        final(out)@ == old(out)@ + school_bytes(*school),
{
    match school {
        Some(wallet) => {
            out.push(SCHOOL_LINKED);
            wallet.append_to(out);
        },
        None => {
            out.push(SCHOOL_ABSENT);
            system_program_id().append_to(out);
        },
    }
    assert(out@ =~= old(out)@ + school_bytes(*school));
}

/// Reads the school, or none, from the thirty-three bytes of `bytes` that
/// start at `start`. Bytes that stand for neither give nothing.
fn read_school_at(bytes: &[u8], start: usize) -> (school: Option<Option<Address>>)
    requires
        start + 33 <= bytes@.len(),
    ensures
        school is Some <==> are_school_bytes(bytes@.subrange(start as int, start + 33)),
        school matches Some(s) ==> school_bytes(s) == bytes@.subrange(start as int, start + 33),
{
    let length: usize = bytes.len();
    let ghost part = bytes@.subrange(start as int, start + 33);
    let marker = bytes[start];
    let stored = Address::read_from(bytes, start + 1);
    assert(part[0] == marker);
    assert(stored@ =~= part.subrange(1, 33));
    if marker == SCHOOL_LINKED {
        assert(school_bytes(Some(stored)) =~= part);
        Some(Some(stored))
    } else if marker == SCHOOL_ABSENT && stored.same_as(&system_program_id()) {
        assert(school_bytes(None) =~= part);
        Some(None)
    } else {
        None
    }
}

impl UserLink {
    /// Number of bytes of a stored link: tag, user wallet, marker and school
    /// wallet, two times, bump.
    pub const LEN: usize = 8 + 32 + 33 + 8 + 8 + 1;

    /// The record before its first write: no school, every other field zero.
    pub open spec fn is_blank(self) -> bool {
        &&& self.user_wallet@ == zero_address()
        &&& self.school_wallet is None
        &&& self.created_at == 0
        &&& self.updated_at == 0
        &&& self.bump == 0
    }

    /// The stored form: tag, user wallet, marker and school wallet, the two
    /// times as eight little-endian bytes each in two's complement, bump.
    pub open spec fn encoding(self) -> Seq<u8> {
        user_link_tag() + self.user_wallet@ + school_bytes(self.school_wallet)
            + spec_u64_to_le_bytes(self.created_at as u64) + spec_u64_to_le_bytes(
            self.updated_at as u64,
        ) + seq![self.bump]
    }

    /// Tells whether `bytes` is the stored form of some link.
    pub open spec fn is_encoding(bytes: Seq<u8>) -> bool {
        bytes.len() == 90 && bytes.subrange(0, 8) == user_link_tag() && are_school_bytes(
            bytes.subrange(40, 73),
        )
    }

    /// The record before its first write.
    pub fn empty() -> (link: UserLink)
        ensures
            link.is_blank(),
    {
        let zero = Address { bytes: [0u8; 32] };
        assert(zero@ =~= zero_address());
        UserLink { user_wallet: zero, school_wallet: None, created_at: 0, updated_at: 0, bump: 0 }
    }

    /// Tells whether the record is as it was before its first write.
    pub fn is_empty(&self) -> (blank: bool)
        ensures
            blank == self.is_blank(),
    {
        let zero = Address { bytes: [0u8; 32] };
        assert(zero@ =~= zero_address());
        self.user_wallet.same_as(&zero) && self.school_wallet.is_none() && self.created_at == 0
            && self.updated_at == 0 && self.bump == 0
    }

    /// Tells whether the link names no school.
    pub fn is_unlinked(&self) -> (unlinked: bool)
        ensures
            unlinked == (self.school_wallet is None),
    {
        self.school_wallet.is_none()
    }

    /// Writes the record in its stored form.
    pub fn encode(&self) -> (bytes: Vec<u8>)
        ensures
            bytes@ == self.encoding(),
            bytes@.len() == Self::LEN,
            Self::is_encoding(bytes@),
    {
        proof {
            lemma_auto_spec_u64_to_from_le_bytes();
        }
        let mut bytes: Vec<u8> = user_link_tag_bytes();
        self.user_wallet.append_to(&mut bytes);
        append_school(&self.school_wallet, &mut bytes);
        let mut created = u64_to_le_bytes(self.created_at as u64);
        bytes.append(&mut created);
        let mut updated = u64_to_le_bytes(self.updated_at as u64);
        bytes.append(&mut updated);
        bytes.push(self.bump);
        assert(bytes@.subrange(0, 8) =~= user_link_tag());
        assert(bytes@.subrange(40, 73) =~= school_bytes(self.school_wallet));
        assert(school_bytes(self.school_wallet).subrange(1, 33) =~= match self.school_wallet {
            Some(wallet) => wallet@,
            None => zero_address(),
        });
        bytes
    }

    /// Reads a record from its stored form. Bytes of another length, with
    /// another tag, or whose marker and school stand for neither a school nor
    /// none, hold no link.
    pub fn decode(bytes: &[u8]) -> (link: Option<UserLink>)
        ensures
            link is Some <==> Self::is_encoding(bytes@),
            link matches Some(l) ==> {
                &&& l.user_wallet@ == bytes@.subrange(8, 40)
                &&& school_bytes(l.school_wallet) == bytes@.subrange(40, 73)
                &&& l.school_wallet is None <==> bytes@[40] == SCHOOL_ABSENT
                &&& l.created_at == spec_u64_from_le_bytes(bytes@.subrange(73, 81)) as i64
                &&& l.updated_at == spec_u64_from_le_bytes(bytes@.subrange(81, 89)) as i64
                &&& l.bump == bytes@[89]
                &&& l.encoding() == bytes@
            },
    {
        if bytes.len() != 90 {
            return None;
        }
        if !starts_with(bytes, user_link_tag_bytes().as_slice()) {
            return None;
        }
        let school_wallet = match read_school_at(bytes, 40) {
            Some(school) => school,
            None => { return None; },
        };
        let created = u64_from_le_bytes(slice_subrange(bytes, 73, 81));
        let updated = u64_from_le_bytes(slice_subrange(bytes, 81, 89));
        let link = UserLink {
            user_wallet: Address::read_from(bytes, 8),
            school_wallet,
            created_at: created as i64,
            updated_at: updated as i64,
            bump: bytes[89],
        };
        proof {
            lemma_auto_spec_u64_to_from_le_bytes();
            assert((created as i64) as u64 == created) by (bit_vector);
            assert((updated as i64) as u64 == updated) by (bit_vector);
            assert(spec_u64_to_le_bytes(link.created_at as u64) == bytes@.subrange(73, 81));
            assert(spec_u64_to_le_bytes(link.updated_at as u64) == bytes@.subrange(81, 89));
            assert(bytes@.subrange(40, 73)[0] == bytes@[40]);
            assert(link.encoding() =~= bytes@);
        }
        Some(link)
    }
}

/// A link read back from its stored form is the link that was written.
pub proof fn user_link_encoding_round_trip(link: UserLink)
    ensures
        UserLink::is_encoding(link.encoding()),
        link.encoding().subrange(8, 40) == link.user_wallet@,
        link.encoding().subrange(40, 73) == school_bytes(link.school_wallet),
        spec_u64_from_le_bytes(link.encoding().subrange(73, 81)) as i64 == link.created_at,
        spec_u64_from_le_bytes(link.encoding().subrange(81, 89)) as i64 == link.updated_at,
        link.encoding()[89] == link.bump,
{
    lemma_auto_spec_u64_to_from_le_bytes();
    let e = link.encoding();
    let created = link.created_at;
    let updated = link.updated_at;
    let school = school_bytes(link.school_wallet);
    assert(e.subrange(0, 8) =~= user_link_tag());
    assert(e.subrange(8, 40) =~= link.user_wallet@);
    assert(e.subrange(40, 73) =~= school);
    assert(school.subrange(1, 33) =~= match link.school_wallet {
        Some(wallet) => wallet@,
        None => zero_address(),
    });
    assert(e.subrange(73, 81) =~= spec_u64_to_le_bytes(created as u64));
    assert(e.subrange(81, 89) =~= spec_u64_to_le_bytes(updated as u64));
    assert((created as u64) as i64 == created) by (bit_vector);
    assert((updated as u64) as i64 == updated) by (bit_vector);
}

/// Two links with the same stored form are the same link. In particular a
/// link without a school is stored differently from every link to a school,
/// whatever the school's address.
pub proof fn user_link_encoding_is_injective(first: UserLink, second: UserLink)
    requires
        first.encoding() == second.encoding(),
    ensures
        first == second,
{
    user_link_encoding_round_trip(first);
    user_link_encoding_round_trip(second);
    crate::address::address_determined_by_bytes(first.user_wallet, second.user_wallet);
    school_bytes_are_injective(first.school_wallet, second.school_wallet);
}

/// Published when a link has been created.
#[derive(Clone, Copy, Debug, PartialEq, Eq)]
pub struct UserLinkCreated {
    pub user_wallet: Address,
    pub school_wallet: Address,
}

/// Published when a link has been pointed at another school.
#[derive(Clone, Copy, Debug, PartialEq, Eq)]
pub struct SchoolWalletUpdated {
    pub user_wallet: Address,
    /// The school that was linked before, if one was.
    pub old_school_wallet: Option<Address>,
    pub new_school_wallet: Address,
}

/// Published when a link has been removed.
#[derive(Clone, Copy, Debug, PartialEq, Eq)]
pub struct SchoolLinkRemoved {
    pub user_wallet: Address,
    /// The school that was linked, if one was.
    pub school_wallet: Option<Address>,
}

/// The tag that leads a published `UserLinkCreated`.
pub open spec fn user_link_created_tag() -> Seq<u8> {
    seq![24u8, 201u8, 36u8, 28u8, 208u8, 111u8, 142u8, 153u8]
}

/// The tag that leads a published `SchoolWalletUpdated`.
pub open spec fn school_wallet_updated_tag() -> Seq<u8> {
    seq![113u8, 202u8, 224u8, 165u8, 97u8, 66u8, 11u8, 153u8]
}

/// The tag that leads a published `SchoolLinkRemoved`.
pub open spec fn school_link_removed_tag() -> Seq<u8> {
    seq![100u8, 38u8, 60u8, 226u8, 167u8, 178u8, 67u8, 111u8]
}

impl UserLinkCreated {
    /// The published form: tag, user wallet, school wallet.
    pub open spec fn encoding(self) -> Seq<u8> {
        user_link_created_tag() + self.user_wallet@ + self.school_wallet@
    }

    /// Writes the event in its published form.
    pub fn encode(&self) -> (bytes: Vec<u8>)
        ensures
            bytes@ == self.encoding(),
            bytes@.len() == 72,
    {
        let mut bytes: Vec<u8> = vec![24u8, 201u8, 36u8, 28u8, 208u8, 111u8, 142u8, 153u8];
        assert(bytes@ =~= user_link_created_tag());
        self.user_wallet.append_to(&mut bytes);
        self.school_wallet.append_to(&mut bytes);
        bytes
    }
}

impl SchoolWalletUpdated {
    /// The published form: tag, user wallet, marker and old school, new
    /// school.
    pub open spec fn encoding(self) -> Seq<u8> {
        school_wallet_updated_tag() + self.user_wallet@ + school_bytes(self.old_school_wallet)
            + self.new_school_wallet@
    }

    /// Writes the event in its published form.
    pub fn encode(&self) -> (bytes: Vec<u8>)
        ensures
            bytes@ == self.encoding(),
            bytes@.len() == 105,
    {
        let mut bytes: Vec<u8> = vec![113u8, 202u8, 224u8, 165u8, 97u8, 66u8, 11u8, 153u8];
        assert(bytes@ =~= school_wallet_updated_tag());
        self.user_wallet.append_to(&mut bytes);
        append_school(&self.old_school_wallet, &mut bytes);
        self.new_school_wallet.append_to(&mut bytes);
        bytes
    }
}

impl SchoolLinkRemoved {
    /// The published form: tag, user wallet, marker and the school that was
    /// linked.
    pub open spec fn encoding(self) -> Seq<u8> {
        school_link_removed_tag() + self.user_wallet@ + school_bytes(self.school_wallet)
    }

    /// Writes the event in its published form.
    pub fn encode(&self) -> (bytes: Vec<u8>)
        ensures
            bytes@ == self.encoding(),
            bytes@.len() == 73,
    {
        let mut bytes: Vec<u8> = vec![100u8, 38u8, 60u8, 226u8, 167u8, 178u8, 67u8, 111u8];
        assert(bytes@ =~= school_link_removed_tag());
        self.user_wallet.append_to(&mut bytes);
        append_school(&self.school_wallet, &mut bytes);
        bytes
    }
}

/// The accounts of `initialize_user_link`, once checked.
#[derive(Clone, Copy, Debug, PartialEq, Eq)]
pub struct InitializeUserLink {
    /// The record that is being created.
    pub user_link: UserLink,
    /// The signer, who pays for the record and owns the link.
    pub user: Address,
    /// The bump seed of the record's address.
    pub bump: u8,
}

/// The accounts of `update_school_wallet` and `remove_school_link`, once
/// checked.
#[derive(Clone, Copy, Debug, PartialEq, Eq)]
pub struct UpdateUserLink {
    /// The stored record.
    pub user_link: UserLink,
    /// The signer.
    pub user: Address,
}

impl InitializeUserLink {
    /// Whether a link may be created in the slot at `slot_address`, given the
    /// address `derived` for the signer: the bump seed to store, or the
    /// error. The slot must lie at the derived address, else the signer has
    /// no right to it, and it must be empty.
    pub open spec fn verdict(
        slot: Option<UserLink>,
        slot_address: Address,
        derived: Option<(Seq<u8>, u8)>,
    ) -> Result<u8, ErrorCode> {
        match derived {
            Some((address, bump)) if address == slot_address@ => if slot is Some {
                Err(ErrorCode::UserLinkAlreadyExists)
            } else {
                Ok(bump)
            },
            _ => Err(ErrorCode::UnauthorizedAccess),
        }
    }

    /// Checks the accounts of `initialize_user_link`, given the address
    /// `derived` for the signer, as [`Self::verdict`] says.
    pub fn check(
        slot: &Option<UserLink>,
        slot_address: &Address,
        user: Address,
        derived: Option<(Address, u8)>,
    ) -> (accounts: Result<InitializeUserLink, ErrorCode>)
        ensures
            match Self::verdict(*slot, *slot_address, found_view(derived)) {
                Ok(bump) => accounts matches Ok(a) && a.user == user && a.bump == bump
                    && a.user_link.is_blank(),
                Err(error) => accounts matches Err(e) && e == error,
            },
    {
        let (address, bump) = match derived {
            Some(pair) => pair,
            None => { return Err(ErrorCode::UnauthorizedAccess); },
        };
        if !address.same_as(slot_address) {
            return Err(ErrorCode::UnauthorizedAccess);
        }
        if slot.is_some() {
            return Err(ErrorCode::UserLinkAlreadyExists);
        }
        Ok(InitializeUserLink { user_link: UserLink::empty(), user, bump })
    }

    /// Checks the accounts of `initialize_user_link`: derives the signer's
    /// link address under `program_id` and decides as [`Self::check`] does.
    pub fn try_accounts(
        slot: &Option<UserLink>,
        slot_address: &Address,
        user: Address,
        program_id: &Address,
    ) -> (accounts: Result<InitializeUserLink, ErrorCode>)
        ensures
            match Self::verdict(*slot, *slot_address, user_link_address_of(user@, program_id@)) {
                Ok(bump) => accounts matches Ok(a) && a.user == user && a.bump == bump
                    && a.user_link.is_blank() && created_program_address(
                    with_bump(user_link_seeds(user@), bump),
                    program_id@,
                ) == Some(slot_address@),
                Err(error) => accounts matches Err(e) && e == error,
            },
    {
        let derived = user_link_address(&user, program_id);
        Self::check(slot, slot_address, user, derived)
    }
}

impl UpdateUserLink {
    /// Whether a stored link may be changed by `user`, given the address
    /// `created` from the record's own wallet and bump. There must be a
    /// record, it must lie at that address, and its wallet must be the
    /// signer's.
    pub open spec fn verdict(
        slot: Option<UserLink>,
        slot_address: Address,
        user: Address,
        created: Option<Seq<u8>>,
    ) -> Result<UserLink, ErrorCode> {
        match slot {
            None => Err(ErrorCode::UserLinkNotFound),
            Some(link) => if created != Some(slot_address@) || link.user_wallet != user {
                Err(ErrorCode::UnauthorizedAccess)
            } else {
                Ok(link)
            },
        }
    }

    /// The address that the wallet and the bump stored in `link` give under
    /// `program_id`.
    pub open spec fn stored_address_of(link: UserLink, program_id: Seq<u8>) -> Option<Seq<u8>> {
        created_program_address(
            with_bump(user_link_seeds(link.user_wallet@), link.bump),
            program_id,
        )
    }

    /// Checks the accounts of an update, given the address `created` from
    /// the record's own wallet and bump, as [`Self::verdict`] says.
    pub fn check(
        slot: &Option<UserLink>,
        slot_address: &Address,
        user: Address,
        created: Option<Address>,
    ) -> (accounts: Result<UpdateUserLink, ErrorCode>)
        ensures
            match Self::verdict(*slot, *slot_address, user, crate::pda::address_view(created)) {
                Ok(link) => accounts == Ok::<UpdateUserLink, ErrorCode>(
                    UpdateUserLink { user_link: link, user },
                ),
                Err(error) => accounts matches Err(e) && e == error,
            },
    {
        let link = match slot {
            Some(link) => *link,
            None => { return Err(ErrorCode::UserLinkNotFound); },
        };
        let at_address = match created {
            Some(address) => address.same_as(slot_address),
            None => false,
        };
        if !at_address || !link.user_wallet.same_as(&user) {
            return Err(ErrorCode::UnauthorizedAccess);
        }
        Ok(UpdateUserLink { user_link: link, user })
    }

    /// Checks the accounts of an update: rebuilds the address from the
    /// record's own wallet and bump under `program_id` and decides as
    /// [`Self::check`] does. An empty slot is `UserLinkNotFound` without any
    /// derivation.
    pub fn try_accounts(
        slot: &Option<UserLink>,
        slot_address: &Address,
        user: Address,
        program_id: &Address,
    ) -> (accounts: Result<UpdateUserLink, ErrorCode>)
        ensures
            match *slot {
                None => accounts matches Err(e) && e == ErrorCode::UserLinkNotFound,
                Some(link) => match Self::verdict(
                    *slot,
                    *slot_address,
                    user,
                    Self::stored_address_of(link, program_id@),
                ) {
                    Ok(checked) => accounts == Ok::<UpdateUserLink, ErrorCode>(
                        UpdateUserLink { user_link: checked, user },
                    ),
                    Err(error) => accounts matches Err(e) && e == error,
                },
            },
    {
        let link = match slot {
            Some(link) => link,
            None => { return Err(ErrorCode::UserLinkNotFound); },
        };
        let mut seeds = make_tagged_seeds(user_link_seed_bytes(), &link.user_wallet);
        push_bump(&mut seeds, link.bump);
        let created = create_program_address(&seeds, program_id);
        Self::check(slot, slot_address, user, created)
    }
}

/// What `initialize_user_link` does to the record `before` it: the record it
/// writes and the event it asks for. Every address can be the school. A
/// record that is not blank already holds a link and is refused with
/// `UserLinkAlreadyExists`.
pub open spec fn link_created(before: UserLink, user: Address, bump: u8, school_wallet: Address, now: i64) -> Result<
    (UserLink, UserLinkCreated),
    ErrorCode,
> {
    if !before.is_blank() {
        Err(ErrorCode::UserLinkAlreadyExists)
    } else {
        Ok(
            (
                UserLink {
                    user_wallet: user,
                    school_wallet: Some(school_wallet),
                    created_at: now,
                    updated_at: now,
                    bump,
                },
                UserLinkCreated { user_wallet: user, school_wallet },
            ),
        )
    }
}

/// What `update_school_wallet` does to `link` for the signer `user`: the
/// record it leaves and the event it asks for, or `UnauthorizedAccess` for a
/// signer who is not the wallet of the link. Every address can be the new
/// school. Only the school and the time of the last change are written.
pub open spec fn link_updated(link: UserLink, user: Address, new_school_wallet: Address, now: i64) -> Result<
    (UserLink, SchoolWalletUpdated),
    ErrorCode,
> {
    if user != link.user_wallet {
        Err(ErrorCode::UnauthorizedAccess)
    } else {
        Ok(
            (
                UserLink { school_wallet: Some(new_school_wallet), updated_at: now, ..link },
                SchoolWalletUpdated {
                    user_wallet: link.user_wallet,
                    old_school_wallet: link.school_wallet,
                    new_school_wallet,
                },
            ),
        )
    }
}

/// What `remove_school_link` does to `link` for the signer `user`: the record
/// it leaves, with no school in it, and the event it asks for, or
/// `UnauthorizedAccess` for a signer who is not the wallet of the link. Only
/// the school and the time of the last change are written.
pub open spec fn link_removed(link: UserLink, user: Address, now: i64) -> Result<
    (UserLink, SchoolLinkRemoved),
    ErrorCode,
> {
    if user != link.user_wallet {
        Err(ErrorCode::UnauthorizedAccess)
    } else {
        Ok(
            (
                UserLink { school_wallet: None, updated_at: now, ..link },
                SchoolLinkRemoved { user_wallet: link.user_wallet, school_wallet: link.school_wallet },
            ),
        )
    }
}

/// Creates the link of the signer to `school_wallet` at time `now`: fills the
/// blank record and says which event to publish. Every address can be the
/// school.
///
/// A record that is not blank already holds a link: it is left as it is and
/// the call fails with `UserLinkAlreadyExists`.
pub fn initialize_user_link(ctx: &mut InitializeUserLink, school_wallet: Address, now: i64) -> (outcome:
    Result<UserLinkCreated, ErrorCode>)
    ensures
        final(ctx).user == old(ctx).user,
        final(ctx).bump == old(ctx).bump,
        match link_created(old(ctx).user_link, old(ctx).user, old(ctx).bump, school_wallet, now) {
            Ok((link, event)) => outcome == Ok::<UserLinkCreated, ErrorCode>(event) && final(ctx).user_link
                == link,
            Err(error) => outcome == Err::<UserLinkCreated, ErrorCode>(error) && final(ctx).user_link
                == old(ctx).user_link,
        },
        old(ctx).user_link.is_blank() ==> outcome is Ok,
{
    if !ctx.user_link.is_empty() {
        return Err(ErrorCode::UserLinkAlreadyExists);
    }
    ctx.user_link.user_wallet = ctx.user;
    ctx.user_link.school_wallet = Some(school_wallet);
    ctx.user_link.created_at = now;
    ctx.user_link.updated_at = now;
    ctx.user_link.bump = ctx.bump;
    Ok(UserLinkCreated { user_wallet: ctx.user, school_wallet })
}

/// Points the signer's link at `new_school_wallet` at time `now`. Every
/// address can be the new school.
///
/// A signer who is not the wallet of the link gets `UnauthorizedAccess`, and
/// the record stays as it was. Otherwise only the school wallet and the time
/// of the last change are written, and the event names the old and the new
/// school.
pub fn update_school_wallet(ctx: &mut UpdateUserLink, new_school_wallet: Address, now: i64) -> (outcome:
    Result<SchoolWalletUpdated, ErrorCode>)
    ensures
        final(ctx).user == old(ctx).user,
        match link_updated(old(ctx).user_link, old(ctx).user, new_school_wallet, now) {
            Ok((link, event)) => outcome == Ok::<SchoolWalletUpdated, ErrorCode>(event) && final(ctx).user_link
                == link,
            Err(error) => outcome == Err::<SchoolWalletUpdated, ErrorCode>(error) && final(ctx).user_link
                == old(ctx).user_link,
        },
        outcome is Ok <==> old(ctx).user == old(ctx).user_link.user_wallet,
        old(ctx).user != old(ctx).user_link.user_wallet ==> outcome == Err::<
            SchoolWalletUpdated,
            ErrorCode,
        >(ErrorCode::UnauthorizedAccess) && final(ctx).user_link == old(ctx).user_link,
{
    if !ctx.user.same_as(&ctx.user_link.user_wallet) {
        return Err(ErrorCode::UnauthorizedAccess);
    }
    let old_school_wallet = ctx.user_link.school_wallet;
    ctx.user_link.school_wallet = Some(new_school_wallet);
    ctx.user_link.updated_at = now;
    Ok(
        SchoolWalletUpdated {
            user_wallet: ctx.user_link.user_wallet,
            old_school_wallet,
            new_school_wallet,
        },
    )
}

/// Removes the signer's link at time `now`: the record stays, with no school
/// in it.
///
/// A signer who is not the wallet of the link gets `UnauthorizedAccess`, and
/// the record stays as it was. Otherwise only the school wallet and the time
/// of the last change are written, and the event names the school that was
/// linked.
pub fn remove_school_link(ctx: &mut UpdateUserLink, now: i64) -> (outcome: Result<
    SchoolLinkRemoved,
    ErrorCode,
>)
    ensures
        final(ctx).user == old(ctx).user,
        match link_removed(old(ctx).user_link, old(ctx).user, now) {
            Ok((link, event)) => outcome == Ok::<SchoolLinkRemoved, ErrorCode>(event) && final(ctx).user_link
                == link && link.school_wallet is None,
            Err(error) => outcome == Err::<SchoolLinkRemoved, ErrorCode>(error) && final(ctx).user_link
                == old(ctx).user_link,
        },
        outcome is Ok <==> old(ctx).user == old(ctx).user_link.user_wallet,
        old(ctx).user != old(ctx).user_link.user_wallet ==> outcome == Err::<
            SchoolLinkRemoved,
            ErrorCode,
        >(ErrorCode::UnauthorizedAccess) && final(ctx).user_link == old(ctx).user_link,
{
    if !ctx.user.same_as(&ctx.user_link.user_wallet) {
        return Err(ErrorCode::UnauthorizedAccess);
    }
    let old_school_wallet = ctx.user_link.school_wallet;
    ctx.user_link.school_wallet = None;
    ctx.user_link.updated_at = now;
    Ok(SchoolLinkRemoved { user_wallet: ctx.user_link.user_wallet, school_wallet: old_school_wallet })
}

/// A signer who is not the wallet of a link can neither point it elsewhere
/// nor remove it: both are refused with `UnauthorizedAccess`.
pub proof fn foreign_signer_cannot_change_link(link: UserLink, user: Address, wallet: Address, now: i64)
    requires
        user != link.user_wallet,
    ensures
        link_updated(link, user, wallet, now) == Err::<(UserLink, SchoolWalletUpdated), ErrorCode>(
            ErrorCode::UnauthorizedAccess,
        ),
        link_removed(link, user, now) == Err::<(UserLink, SchoolLinkRemoved), ErrorCode>(
            ErrorCode::UnauthorizedAccess,
        ),
{
}

/// No school wallet is ever turned away: a blank record takes every address
/// as its school, and the wallet of a link may point it at every address.
pub proof fn every_address_can_be_school(before: UserLink, link: UserLink, bump: u8, wallet: Address, now: i64)
    requires
        before.is_blank(),
    ensures
        link_created(before, link.user_wallet, bump, wallet, now) is Ok,
        link_created(before, link.user_wallet, bump, wallet, now).unwrap().0.school_wallet == Some(
            wallet,
        ),
        link_updated(link, link.user_wallet, wallet, now) is Ok,
        link_updated(link, link.user_wallet, wallet, now).unwrap().0.school_wallet == Some(wallet),
{
}

/// A removed link is in a state that no creation and no update produces,
/// whatever address they link, and its stored form is the stored form of no
/// link to a school.
pub proof fn removed_link_is_a_state_of_its_own(
    link: UserLink,
    user: Address,
    wallet: Address,
    now: i64,
    other: UserLink,
    later: i64,
)
    requires
        link_removed(link, user, now) is Ok,
    ensures
        link_removed(link, user, now).unwrap().0.school_wallet is None,
        link_updated(other, user, wallet, later) matches Ok((updated, _)) ==> updated.school_wallet
            is Some && updated != link_removed(link, user, now).unwrap().0 && updated.encoding()
            != link_removed(link, user, now).unwrap().0.encoding(),
        link_created(other, user, link.bump, wallet, later) matches Ok((created, _))
            ==> created.school_wallet is Some && created != link_removed(link, user, now).unwrap().0
            && created.encoding() != link_removed(link, user, now).unwrap().0.encoding(),
{
    let removed = link_removed(link, user, now).unwrap().0;
    if link_updated(other, user, wallet, later) is Ok {
        let updated = link_updated(other, user, wallet, later).unwrap().0;
        if updated.encoding() == removed.encoding() {
            user_link_encoding_is_injective(updated, removed);
        }
    }
    if link_created(other, user, link.bump, wallet, later) is Ok {
        let created = link_created(other, user, link.bump, wallet, later).unwrap().0;
        if created.encoding() == removed.encoding() {
            user_link_encoding_is_injective(created, removed);
        }
    }
}

} // verus!
