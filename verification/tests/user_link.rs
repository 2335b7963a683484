use anchor_lang::prelude::Pubkey;
use division_one_crypto::address::Address;
use division_one_crypto::error::{ErrorCode, HookError};
use division_one_crypto::user_link::{
    initialize_user_link, remove_school_link, update_school_wallet, user_link_address,
    user_link_seed_bytes, user_link_tag_bytes, InitializeUserLink, SchoolLinkRemoved,
    SchoolWalletUpdated, UpdateUserLink, UserLink, UserLinkCreated,
};

fn address(byte: u8) -> Address {
    Address::new([byte; 32])
}

fn program_id() -> Address {
    Address::new([
        151, 22, 150, 29, 186, 23, 7, 152, 42, 25, 214, 62, 174, 146, 9, 93, 112, 188, 14, 7, 2, 92,
        204, 247, 226, 47, 85, 177, 172, 129, 195, 59,
    ])
}

fn derived_for(user: &Address) -> (Address, u8) {
    let (key, bump) = Pubkey::find_program_address(
        &[b"user_link", &user.bytes],
        &Pubkey::new_from_array(program_id().bytes),
    );
    (Address::new(key.to_bytes()), bump)
}

fn stored_link(user: Address) -> UserLink {
    UserLink {
        user_wallet: user,
        school_wallet: Some(address(20)),
        created_at: 1_700_000_000,
        updated_at: 1_700_000_000,
        bump: derived_for(&user).1,
    }
}

#[test]
fn registry_items_are_at_the_crate_root() {
    let stored = division_one_crypto::UserLink::empty();
    let mut ctx = division_one_crypto::UpdateUserLink { user_link: stored, user: address(0) };
    assert!(division_one_crypto::remove_school_link(&mut ctx, 1).is_ok());
    assert_eq!(division_one_crypto::ErrorCode::UserLinkNotFound.code(), 6003);
}

#[test]
fn program_id_is_the_declared_one() {
    let declared: Pubkey = "BAnYCRzAkVJSTNiHYZcDnRo8B1e2pSssQwAJEjdEcLbL".parse().unwrap();
    assert_eq!(declared.to_bytes(), program_id().bytes);
}

#[test]
fn link_address_is_the_program_derived_address() {
    let user = address(7);
    assert_eq!(user_link_seed_bytes(), b"user_link".to_vec());
    assert_eq!(user_link_address(&user, &program_id()), Some(derived_for(&user)));
}

#[test]
fn initialize_fills_the_record() {
    let user = address(7);
    let (slot_address, bump) = derived_for(&user);
    let mut ctx = InitializeUserLink::try_accounts(&None, &slot_address, user, &program_id()).unwrap();
    assert_eq!(ctx.user_link, UserLink::empty());
    assert_eq!(ctx.bump, bump);
    let event = initialize_user_link(&mut ctx, address(20), 1_700_000_000);
    assert_eq!(event, Ok(UserLinkCreated { user_wallet: user, school_wallet: address(20) }));
    assert_eq!(
        ctx.user_link,
        UserLink {
            user_wallet: user,
            school_wallet: Some(address(20)),
            created_at: 1_700_000_000,
            updated_at: 1_700_000_000,
            bump,
        }
    );
}

#[test]
fn initialize_is_refused_where_a_link_exists() {
    let user = address(7);
    let (slot_address, _) = derived_for(&user);
    let taken = Some(stored_link(user));
    assert_eq!(
        InitializeUserLink::try_accounts(&taken, &slot_address, user, &program_id()),
        Err(ErrorCode::UserLinkAlreadyExists)
    );
}

#[test]
fn initialize_is_refused_at_a_foreign_address() {
    let user = address(7);
    let (foreign, _) = derived_for(&address(8));
    assert_eq!(
        InitializeUserLink::try_accounts(&None, &foreign, user, &program_id()),
        Err(ErrorCode::UnauthorizedAccess)
    );
    let taken = Some(stored_link(address(8)));
    assert_eq!(
        InitializeUserLink::try_accounts(&taken, &foreign, user, &program_id()),
        Err(ErrorCode::UnauthorizedAccess)
    );
    assert_eq!(
        InitializeUserLink::check(&None, &foreign, user, None),
        Err(ErrorCode::UnauthorizedAccess)
    );
}

#[test]
fn update_points_the_link_at_another_school() {
    let user = address(7);
    let (slot_address, _) = derived_for(&user);
    let stored = stored_link(user);
    let mut ctx =
        UpdateUserLink::try_accounts(&Some(stored), &slot_address, user, &program_id()).unwrap();
    assert_eq!(ctx, UpdateUserLink { user_link: stored, user });
    let event = update_school_wallet(&mut ctx, address(21), 1_700_000_500);
    assert_eq!(
        event,
        Ok(SchoolWalletUpdated {
            user_wallet: user,
            old_school_wallet: Some(address(20)),
            new_school_wallet: address(21),
        })
    );
    assert_eq!(
        ctx.user_link,
        UserLink { school_wallet: Some(address(21)), updated_at: 1_700_000_500, ..stored }
    );
    assert!(!ctx.user_link.is_unlinked());
}

#[test]
fn remove_leaves_the_record_without_a_school() {
    let user = address(7);
    let stored = stored_link(user);
    let mut ctx = UpdateUserLink { user_link: stored, user };
    let event = remove_school_link(&mut ctx, 1_700_000_900);
    assert_eq!(
        event,
        Ok(SchoolLinkRemoved { user_wallet: user, school_wallet: Some(address(20)) })
    );
    assert_eq!(ctx.user_link, UserLink { school_wallet: None, updated_at: 1_700_000_900, ..stored });
    assert!(ctx.user_link.is_unlinked());
    // In the stored form the marker says "no school", and the system program's
    // address fills the place of the school.
    let bytes = ctx.user_link.encode();
    assert_eq!(bytes[40], 0);
    assert_eq!(&bytes[41..73], &anchor_lang::system_program::ID.to_bytes());
    assert_eq!(UserLink::decode(&bytes), Some(ctx.user_link));
}

#[test]
fn removed_link_differs_from_every_linked_one() {
    let user = address(7);
    let mut removed = UpdateUserLink { user_link: stored_link(user), user };
    remove_school_link(&mut removed, 5).unwrap();
    for byte in 0..=255u8 {
        let mut linked = UpdateUserLink { user_link: stored_link(user), user };
        update_school_wallet(&mut linked, address(byte), 5).unwrap();
        assert_ne!(linked.user_link, removed.user_link);
        assert_ne!(linked.user_link.encode(), removed.user_link.encode());
        assert_eq!(UserLink::decode(&linked.user_link.encode()), Some(linked.user_link));
    }
}

#[test]
fn removing_twice_names_no_school_the_second_time() {
    let user = address(7);
    let mut ctx = UpdateUserLink { user_link: stored_link(user), user };
    remove_school_link(&mut ctx, 5).unwrap();
    assert_eq!(
        remove_school_link(&mut ctx, 6),
        Ok(SchoolLinkRemoved { user_wallet: user, school_wallet: None })
    );
    assert_eq!(ctx.user_link.updated_at, 6);
    assert_eq!(
        update_school_wallet(&mut ctx, address(30), 7),
        Ok(SchoolWalletUpdated {
            user_wallet: user,
            old_school_wallet: None,
            new_school_wallet: address(30),
        })
    );
    assert_eq!(ctx.user_link.school_wallet, Some(address(30)));
}

#[test]
fn the_system_program_can_be_linked_like_any_address() {
    let system = Address::new(anchor_lang::system_program::ID.to_bytes());
    let mut ctx = InitializeUserLink { user_link: UserLink::empty(), user: address(7), bump: 250 };
    assert_eq!(
        initialize_user_link(&mut ctx, system, 5),
        Ok(UserLinkCreated { user_wallet: address(7), school_wallet: system })
    );
    assert_eq!(ctx.user_link.school_wallet, Some(system));
    assert!(!ctx.user_link.is_unlinked());
    let stored = stored_link(address(7));
    let mut ctx = UpdateUserLink { user_link: stored, user: address(7) };
    assert_eq!(
        update_school_wallet(&mut ctx, system, 5),
        Ok(SchoolWalletUpdated {
            user_wallet: address(7),
            old_school_wallet: Some(address(20)),
            new_school_wallet: system,
        })
    );
    assert_eq!(ctx.user_link, UserLink { school_wallet: Some(system), updated_at: 5, ..stored });
    // Stored, it differs from a removed link by its marker only, and reads back.
    let bytes = ctx.user_link.encode();
    assert_eq!(bytes[40], 1);
    assert_eq!(&bytes[41..73], &[0u8; 32]);
    assert_eq!(UserLink::decode(&bytes), Some(ctx.user_link));
    // The wallet may also be pointed at the school it already has.
    let mut ctx = UpdateUserLink { user_link: stored, user: address(7) };
    assert!(update_school_wallet(&mut ctx, address(20), 9).is_ok());
    assert_eq!(ctx.user_link, UserLink { updated_at: 9, ..stored });
}

#[test]
fn a_record_that_holds_a_link_is_not_initialized_again() {
    let stored = stored_link(address(7));
    let mut ctx = InitializeUserLink { user_link: stored, user: address(7), bump: stored.bump };
    assert_eq!(
        initialize_user_link(&mut ctx, address(21), 5),
        Err(ErrorCode::UserLinkAlreadyExists)
    );
    assert_eq!(ctx.user_link, stored);
    assert!(UserLink::empty().is_empty());
    assert!(!stored.is_empty());
    let removed = UserLink { school_wallet: None, ..stored };
    assert!(!removed.is_empty());
}

#[test]
fn handlers_refuse_a_signer_who_is_not_the_wallet() {
    let stored = stored_link(address(7));
    let mut ctx = UpdateUserLink { user_link: stored, user: address(8) };
    assert_eq!(
        update_school_wallet(&mut ctx, address(21), 5),
        Err(ErrorCode::UnauthorizedAccess)
    );
    assert_eq!(ctx.user_link, stored);
    assert_eq!(remove_school_link(&mut ctx, 5), Err(ErrorCode::UnauthorizedAccess));
    assert_eq!(ctx.user_link, stored);
}

#[test]
fn foreign_signer_nine_cannot_update_the_link_of_wallet_one() {
    let link = UserLink {
        user_wallet: address(1),
        school_wallet: Some(address(2)),
        created_at: 100,
        updated_at: 100,
        bump: 255,
    };
    let mut ctx = UpdateUserLink { user_link: link, user: address(9) };
    assert_eq!(update_school_wallet(&mut ctx, address(3), 250), Err(ErrorCode::UnauthorizedAccess));
    assert_eq!(ctx.user_link, link);
}

#[test]
fn update_accounts_are_checked() {
    let user = address(7);
    let (slot_address, _) = derived_for(&user);
    let stored = stored_link(user);
    assert_eq!(
        UpdateUserLink::try_accounts(&None, &slot_address, user, &program_id()),
        Err(ErrorCode::UserLinkNotFound)
    );
    assert_eq!(
        UpdateUserLink::try_accounts(&Some(stored), &slot_address, address(8), &program_id()),
        Err(ErrorCode::UnauthorizedAccess)
    );
    assert_eq!(
        UpdateUserLink::try_accounts(&Some(stored), &address(1), user, &program_id()),
        Err(ErrorCode::UnauthorizedAccess)
    );
    let other_bump = UserLink { bump: stored.bump.wrapping_sub(1), ..stored };
    assert_eq!(
        UpdateUserLink::try_accounts(&Some(other_bump), &slot_address, user, &program_id()),
        Err(ErrorCode::UnauthorizedAccess)
    );
    assert_eq!(
        UpdateUserLink::check(&Some(stored), &slot_address, user, None),
        Err(ErrorCode::UnauthorizedAccess)
    );
}

#[test]
fn stored_link_layout() {
    let link = UserLink {
        user_wallet: address(7),
        school_wallet: Some(address(20)),
        created_at: 0x0102030405060708,
        updated_at: -2,
        bump: 251,
    };
    let bytes = link.encode();
    assert_eq!(UserLink::LEN, 90);
    assert_eq!(bytes.len(), UserLink::LEN);
    assert_eq!(&bytes[..8], &[17, 170, 58, 62, 84, 96, 56, 13]);
    assert_eq!(bytes[..8].to_vec(), user_link_tag_bytes());
    assert_eq!(&bytes[8..40], &[7u8; 32]);
    assert_eq!(bytes[40], 1);
    assert_eq!(&bytes[41..73], &[20u8; 32]);
    assert_eq!(&bytes[73..81], &[8, 7, 6, 5, 4, 3, 2, 1]);
    assert_eq!(&bytes[81..89], &[254, 255, 255, 255, 255, 255, 255, 255]);
    assert_eq!(bytes[89], 251);
}

#[test]
fn stored_link_reads_back() {
    for (created, updated) in [(0i64, 0i64), (1, -1), (i64::MAX, i64::MIN), (1_700_000_000, 5)] {
        let unlinked = UserLink {
            user_wallet: address(7),
            school_wallet: None,
            created_at: created,
            updated_at: updated,
            bump: 3,
        };
        assert_eq!(UserLink::decode(&unlinked.encode()), Some(unlinked));
        let link = UserLink {
            user_wallet: address(7),
            school_wallet: Some(address(20)),
            created_at: created,
            updated_at: updated,
            bump: 3,
        };
        assert_eq!(UserLink::decode(&link.encode()), Some(link));
    }
}

#[test]
fn bytes_that_are_no_link_do_not_decode() {
    let bytes = stored_link(address(7)).encode();
    assert_eq!(UserLink::decode(&bytes[..89]), None);
    let mut other_tag = bytes.clone();
    other_tag[0] ^= 0x80;
    assert_eq!(UserLink::decode(&other_tag), None);
    let mut other_marker = bytes.clone();
    other_marker[40] = 2;
    assert_eq!(UserLink::decode(&other_marker), None);
    let mut absent_with_school = bytes.clone();
    absent_with_school[40] = 0;
    assert_eq!(UserLink::decode(&absent_with_school), None);
    let mut longer = bytes;
    longer.push(1);
    assert_eq!(UserLink::decode(&longer), None);
}

#[test]
fn error_codes_and_messages() {
    assert_eq!(ErrorCode::UnauthorizedAccess.code(), 6000);
    assert_eq!(ErrorCode::InvalidSchoolWallet.code(), 6001);
    assert_eq!(ErrorCode::UserLinkAlreadyExists.code(), 6002);
    assert_eq!(ErrorCode::UserLinkNotFound.code(), 6003);
    assert_eq!(ErrorCode::UnauthorizedAccess.message(), "Unauthorized access to user link");
    assert_eq!(ErrorCode::InvalidSchoolWallet.message(), "Invalid school wallet provided");
    assert_eq!(ErrorCode::UserLinkAlreadyExists.message(), "User link already exists");
    assert_eq!(ErrorCode::UserLinkNotFound.message(), "User link does not exist");
    assert_eq!(HookError::UnauthorizedAccess.code(), 6000);
    assert_eq!(HookError::MissingConfig.code(), 6001);
    assert_eq!(HookError::ArithmeticOverflow.code(), 6002);
    assert_eq!(HookError::SubInvocationFailure.code(), 6003);
    assert_eq!(HookError::AlreadyInitialized.code(), 6004);
}

#[test]
fn addresses_compare_and_copy() {
    let a = address(7);
    assert!(a.same_as(&Address::new([7; 32])));
    let mut other = [7u8; 32];
    other[31] = 8;
    assert!(!a.same_as(&Address::new(other)));
    assert_eq!(a.to_vec(), vec![7u8; 32]);
    let mut out = vec![1u8];
    a.append_to(&mut out);
    assert_eq!(out.len(), 33);
    assert_eq!(Address::from_slice(&out[1..]), Some(a));
    assert_eq!(Address::from_slice(&out), None);
    assert_eq!(Address::from_slice(&out[..31]), None);
}
