use anchor_lang::prelude::Pubkey;
use division_one_crypto::address::Address;
use division_one_crypto::error::HookError;
use division_one_crypto::setup::{
    initialize_extra_account_meta_list, initialize_token, mint_setup_calls, table_address,
    table_seed_bytes, write_extra_account_meta_list, ExtraAccountMetaList, MetadataPointer,
    MintWithHookExtension, TransferHookPointer, MINT_WITH_HOOK_LEN,
};
use division_one_crypto::table::{build_extra_account_rules, HookProgram, STORED_TABLE_LEN};

fn address(byte: u8) -> Address {
    Address::new([byte; 32])
}

fn program() -> HookProgram {
    HookProgram::new(address(42), address(50))
}

#[test]
fn token_is_created_with_the_hook_pointing_at_the_module() {
    let mut slot = None;
    let outcome = initialize_token(&mut slot, &program(), "Division One", "D1C", 9, &address(50));
    assert_eq!(outcome, Ok(()));
    assert_eq!(
        slot,
        Some(MintWithHookExtension {
            decimals: 9,
            transfer_hook: TransferHookPointer { authority: address(42), program_id: address(42) },
            metadata_pointer: MetadataPointer { authority: None, metadata_address: None },
            space: 302,
        })
    );
    assert_eq!(MINT_WITH_HOOK_LEN, 165 + 1 + (4 + 64) + (4 + 64));
}

#[test]
fn token_is_not_created_twice() {
    let mut slot = None;
    initialize_token(&mut slot, &program(), "Division One", "D1C", 9, &address(50)).unwrap();
    let first = slot;
    let outcome = initialize_token(&mut slot, &program(), "Other", "OTH", 6, &address(51));
    assert_eq!(outcome, Err(HookError::AlreadyInitialized));
    assert_eq!(slot, first);
}

fn table_slot(mint: &Address) -> Address {
    table_address(mint, &address(42)).unwrap().0
}

#[test]
fn table_is_written_once() {
    let mint = address(2);
    let mut slot = None;
    let written =
        initialize_extra_account_meta_list(&mut slot, &table_slot(&mint), &program(), &mint).unwrap();
    assert_eq!(
        slot,
        Some(ExtraAccountMetaList { rules: build_extra_account_rules(&program(), &mint) })
    );
    assert_eq!(slot.as_ref().unwrap().rules.len(), 3);
    assert_eq!(written.stored.len(), STORED_TABLE_LEN);
    assert_eq!(written.bump, table_address(&mint, &address(42)).unwrap().1);
    assert_eq!(slot.as_ref().unwrap().encode(), Some(written.stored.clone()));
    assert_eq!(ExtraAccountMetaList::decode(&written.stored), slot);
    let outcome =
        initialize_extra_account_meta_list(&mut slot, &table_slot(&mint), &program(), &mint);
    assert_eq!(outcome, Err(HookError::AlreadyInitialized));
    assert_eq!(
        slot,
        Some(ExtraAccountMetaList { rules: build_extra_account_rules(&program(), &mint) })
    );
}

#[test]
fn table_is_written_only_into_the_mints_own_slot() {
    let mint = address(2);
    let mut slot = None;
    let outcome =
        initialize_extra_account_meta_list(&mut slot, &table_slot(&address(3)), &program(), &mint);
    assert_eq!(outcome, Err(HookError::UnauthorizedAccess));
    assert_eq!(slot, None);
    let outcome = write_extra_account_meta_list(&mut slot, &address(1), &program(), &mint, None);
    assert_eq!(outcome, Err(HookError::UnauthorizedAccess));
    let written = write_extra_account_meta_list(
        &mut slot,
        &address(1),
        &program(),
        &mint,
        Some((address(1), 200)),
    )
    .unwrap();
    assert_eq!(written.bump, 200);
    assert!(slot.is_some());
}

#[test]
fn mint_setup_calls_in_order() {
    let mint = MintWithHookExtension::new(address(42), 9);
    let calls = mint_setup_calls(&mint, &address(5));
    let mut hook = vec![36, 0];
    hook.extend_from_slice(&[42; 32]);
    hook.extend_from_slice(&[42; 32]);
    let mut pointer = vec![39, 0];
    pointer.extend_from_slice(&[0; 64]);
    let mut create = vec![20, 9];
    create.extend_from_slice(&[5; 32]);
    create.push(0);
    assert_eq!(calls, vec![hook, pointer, create]);
    let mut pointed = mint;
    pointed.metadata_pointer.authority = Some(address(6));
    pointed.metadata_pointer.metadata_address = Some(address(7));
    let calls = mint_setup_calls(&pointed, &address(5));
    let mut pointer = vec![39, 0];
    pointer.extend_from_slice(&[6; 32]);
    pointer.extend_from_slice(&[7; 32]);
    assert_eq!(calls[1], pointer);
}

#[test]
fn table_address_is_keyed_by_the_mint() {
    let mint = address(2);
    assert_eq!(table_seed_bytes(), b"extra-account-metas".to_vec());
    let (expected, bump) = Pubkey::find_program_address(
        &[b"extra-account-metas", &mint.bytes],
        &Pubkey::new_from_array([42; 32]),
    );
    assert_eq!(
        table_address(&mint, &address(42)),
        Some((Address::new(expected.to_bytes()), bump))
    );
    assert_ne!(table_address(&address(3), &address(42)), table_address(&mint, &address(42)));
}
