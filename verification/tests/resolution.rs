use anchor_lang::prelude::Pubkey;
use division_one_crypto::address::Address;
use division_one_crypto::config::UserInstitutionConfig;
use division_one_crypto::resolution::{
    extra_accounts, gather_seeds, load_account_data, place_derived, read_seed, resolve_pass,
    AccountEntry, ExtraAccountRule, ResolveError, ResolvedAccount, Seed,
};
use division_one_crypto::table::{
    associated_token_program, build_extra_account_rules, token_account_address, token_program,
    HookProgram, BASE_ACCOUNTS, CONFIG_INDEX, INSTITUTION_INDEX, OPERATIONS_INDEX, OWNER_INDEX,
    RULE_COUNT,
};
use std::str::FromStr;

fn address(byte: u8) -> Address {
    Address::new([byte; 32])
}

fn program() -> HookProgram {
    HookProgram::new(address(42), address(50))
}

fn key(a: &Address) -> Pubkey {
    Pubkey::new_from_array(a.bytes)
}

fn token_account(wallet: &Address, mint: &Address) -> Address {
    let (found, _) = Pubkey::find_program_address(
        &[&wallet.bytes, &token_program().bytes, &mint.bytes],
        &key(&associated_token_program()),
    );
    Address::new(found.to_bytes())
}

fn config_account(owner: &Address) -> Address {
    let (found, _) =
        Pubkey::find_program_address(&[b"user_institution", &owner.bytes], &key(&address(42)));
    Address::new(found.to_bytes())
}

fn base_accounts(owner: Address, mint: Address) -> Vec<Option<AccountEntry>> {
    vec![
        Some(AccountEntry { key: address(1), data: None }),
        Some(AccountEntry { key: mint, data: None }),
        Some(AccountEntry { key: address(3), data: None }),
        Some(AccountEntry { key: owner, data: None }),
        Some(AccountEntry { key: address(5), data: None }),
        None,
        None,
        None,
    ]
}

#[test]
fn well_known_programs() {
    assert_eq!(
        key(&token_program()),
        Pubkey::from_str("TokenzQdBNbLqP5VEhdkAS6EPFLC1PHnBqCXEpPxuEb").unwrap()
    );
    assert_eq!(
        key(&associated_token_program()),
        Pubkey::from_str("ATokenGPvbdGVxr1b2hvZbsiqW5xWH25efTNsLJA8knL").unwrap()
    );
    let p = program();
    assert_eq!(p.program_id, address(42));
    assert_eq!(p.operations_wallet, address(50));
    assert_eq!(p.token_program, token_program());
    assert_eq!(p.associated_token_program, associated_token_program());
}

#[test]
fn account_positions() {
    assert_eq!(OWNER_INDEX, 3);
    assert_eq!(BASE_ACCOUNTS, 5);
    assert_eq!((CONFIG_INDEX, OPERATIONS_INDEX, INSTITUTION_INDEX), (5, 6, 7));
    assert_eq!(RULE_COUNT, 3);
}

#[test]
fn table_has_the_three_rules() {
    let mint = address(2);
    let rules = build_extra_account_rules(&program(), &mint);
    assert_eq!(
        rules,
        vec![
            ExtraAccountRule {
                program: address(42),
                seeds: vec![
                    Seed::Literal { bytes: b"user_institution".to_vec() },
                    Seed::AccountKey { index: 3 },
                ],
                is_signer: false,
                is_writable: false,
            },
            ExtraAccountRule {
                program: associated_token_program(),
                seeds: vec![
                    Seed::Literal { bytes: vec![50; 32] },
                    Seed::Literal { bytes: token_program().bytes.to_vec() },
                    Seed::Literal { bytes: vec![2; 32] },
                ],
                is_signer: false,
                is_writable: true,
            },
            ExtraAccountRule {
                program: associated_token_program(),
                seeds: vec![
                    Seed::AccountData { account_index: 5, data_index: 40, length: 32 },
                    Seed::Literal { bytes: token_program().bytes.to_vec() },
                    Seed::Literal { bytes: vec![2; 32] },
                ],
                is_signer: false,
                is_writable: true,
            },
        ]
    );
}

#[test]
fn token_account_address_is_the_associated_address() {
    let found = token_account_address(&program(), &address(50), &address(2)).unwrap();
    assert_eq!(found.0, token_account(&address(50), &address(2)));
}

#[test]
fn table_resolves_to_the_three_hook_accounts_in_order() {
    let mint = address(2);
    let owner = address(4);
    let institution_wallet = address(9);
    let rules = build_extra_account_rules(&program(), &mint);
    let mut slots = base_accounts(owner, mint);

    // First pass: the config and the operations account, not yet the institution account.
    assert_eq!(resolve_pass(&rules, &mut slots, BASE_ACCOUNTS), Ok(()));
    assert_eq!(slots[5], Some(AccountEntry { key: config_account(&owner), data: None }));
    assert_eq!(
        slots[6],
        Some(AccountEntry { key: token_account(&address(50), &mint), data: None })
    );
    assert_eq!(slots[7], None);
    assert_eq!(extra_accounts(&rules, &slots, BASE_ACCOUNTS), None);

    // The host loads the config that the first rule found.
    let stored = UserInstitutionConfig { owner, institution_wallet, bump: 255 }.encode();
    assert!(load_account_data(&mut slots, 5, stored));

    // Second pass: the institution account.
    assert_eq!(resolve_pass(&rules, &mut slots, BASE_ACCOUNTS), Ok(()));
    assert_eq!(
        extra_accounts(&rules, &slots, BASE_ACCOUNTS),
        Some(vec![
            ResolvedAccount {
                address: config_account(&owner),
                is_signer: false,
                is_writable: false,
            },
            ResolvedAccount {
                address: token_account(&address(50), &mint),
                is_signer: false,
                is_writable: true,
            },
            ResolvedAccount {
                address: token_account(&institution_wallet, &mint),
                is_signer: false,
                is_writable: true,
            },
        ])
    );
}

#[test]
fn resolution_follows_the_owner_at_index_three() {
    let mint = address(2);
    let rules = build_extra_account_rules(&program(), &mint);
    let mut first = base_accounts(address(4), mint);
    let mut second = base_accounts(address(44), mint);
    resolve_pass(&rules, &mut first, BASE_ACCOUNTS).unwrap();
    resolve_pass(&rules, &mut second, BASE_ACCOUNTS).unwrap();
    assert_ne!(first[5], second[5]);
    assert_eq!(first[6], second[6]);
    assert_eq!(second[5].as_ref().unwrap().key, config_account(&address(44)));
}

#[test]
fn a_pass_leaves_filled_places_alone() {
    let mint = address(2);
    let rules = build_extra_account_rules(&program(), &mint);
    let mut slots = base_accounts(address(4), mint);
    slots[6] = Some(AccountEntry { key: address(77), data: None });
    resolve_pass(&rules, &mut slots, BASE_ACCOUNTS).unwrap();
    assert_eq!(slots[6], Some(AccountEntry { key: address(77), data: None }));
}

#[test]
fn a_list_of_the_wrong_length_is_refused() {
    let mint = address(2);
    let rules = build_extra_account_rules(&program(), &mint);
    let mut slots = base_accounts(address(4), mint);
    slots.pop();
    let before = slots.len();
    assert_eq!(resolve_pass(&rules, &mut slots, BASE_ACCOUNTS), Err(ResolveError::WrongShape));
    assert_eq!(slots.len(), before);
    assert_eq!(slots[5], None);
    assert_eq!(resolve_pass(&rules, &mut slots, usize::MAX), Err(ResolveError::WrongShape));
    assert_eq!(extra_accounts(&rules, &slots, BASE_ACCOUNTS), None);
}

#[test]
fn a_seed_that_is_too_long_gives_no_address() {
    let rules = vec![ExtraAccountRule {
        program: address(42),
        seeds: vec![Seed::Literal { bytes: vec![1; 33] }],
        is_signer: false,
        is_writable: false,
    }];
    let mut slots = vec![None];
    assert_eq!(resolve_pass(&rules, &mut slots, 0), Err(ResolveError::NoAddress));
}

#[test]
fn a_failed_pass_leaves_the_list_as_it_was() {
    let rules = vec![
        ExtraAccountRule {
            program: address(42),
            seeds: vec![Seed::AccountKey { index: 0 }],
            is_signer: false,
            is_writable: false,
        },
        ExtraAccountRule {
            program: address(42),
            seeds: vec![Seed::Literal { bytes: vec![1; 33] }],
            is_signer: false,
            is_writable: false,
        },
    ];
    let mut slots = vec![Some(AccountEntry { key: address(1), data: None }), None, None];
    assert_eq!(resolve_pass(&rules, &mut slots, 1), Err(ResolveError::NoAddress));
    assert_eq!(slots, vec![Some(AccountEntry { key: address(1), data: None }), None, None]);
    let first_only = vec![ExtraAccountRule {
        program: address(42),
        seeds: vec![Seed::AccountKey { index: 0 }],
        is_signer: false,
        is_writable: false,
    }];
    let mut two = vec![Some(AccountEntry { key: address(1), data: None }), None];
    assert_eq!(resolve_pass(&first_only, &mut two, 1), Ok(()));
    assert!(two[1].is_some());
}

#[test]
fn sixteen_seeds_give_no_address() {
    let mut seeds = Vec::new();
    for i in 0..16u8 {
        seeds.push(Seed::Literal { bytes: vec![i] });
    }
    let rules =
        vec![ExtraAccountRule { program: address(42), seeds, is_signer: true, is_writable: false }];
    let mut slots = vec![None];
    assert_eq!(resolve_pass(&rules, &mut slots, 0), Err(ResolveError::NoAddress));
}

#[test]
fn seeds_are_read_from_the_account_list() {
    let slots = vec![
        Some(AccountEntry { key: address(1), data: Some(vec![10, 11, 12, 13, 14]) }),
        Some(AccountEntry { key: address(2), data: None }),
        None,
    ];
    assert_eq!(read_seed(&Seed::Literal { bytes: vec![9, 8] }, &slots), Some(vec![9, 8]));
    assert_eq!(read_seed(&Seed::AccountKey { index: 1 }, &slots), Some(vec![2; 32]));
    assert_eq!(read_seed(&Seed::AccountKey { index: 2 }, &slots), None);
    assert_eq!(read_seed(&Seed::AccountKey { index: 3 }, &slots), None);
    let inside = Seed::AccountData { account_index: 0, data_index: 1, length: 3 };
    assert_eq!(read_seed(&inside, &slots), Some(vec![11, 12, 13]));
    let to_the_end = Seed::AccountData { account_index: 0, data_index: 1, length: 4 };
    assert_eq!(read_seed(&to_the_end, &slots), Some(vec![11, 12, 13, 14]));
    let past_the_end = Seed::AccountData { account_index: 0, data_index: 1, length: 5 };
    assert_eq!(read_seed(&past_the_end, &slots), None);
    let large = Seed::AccountData { account_index: 0, data_index: 255, length: 255 };
    assert_eq!(read_seed(&large, &slots), None);
    let not_loaded = Seed::AccountData { account_index: 1, data_index: 0, length: 1 };
    assert_eq!(read_seed(&not_loaded, &slots), None);
    let unknown = Seed::AccountData { account_index: 2, data_index: 0, length: 1 };
    assert_eq!(read_seed(&unknown, &slots), None);
}

#[test]
fn gathering_needs_every_seed() {
    let slots = vec![Some(AccountEntry { key: address(1), data: None }), None];
    let ready = vec![Seed::Literal { bytes: vec![5] }, Seed::AccountKey { index: 0 }];
    assert_eq!(gather_seeds(&ready, &slots), Some(vec![vec![5], vec![1; 32]]));
    let waiting = vec![Seed::Literal { bytes: vec![5] }, Seed::AccountKey { index: 1 }];
    assert_eq!(gather_seeds(&waiting, &slots), None);
    assert_eq!(gather_seeds(&vec![], &slots), Some(vec![]));
}

#[test]
fn data_is_loaded_only_into_known_accounts() {
    let mut slots = vec![Some(AccountEntry { key: address(1), data: None }), None];
    assert!(!load_account_data(&mut slots, 1, vec![1]));
    assert!(!load_account_data(&mut slots, 2, vec![1]));
    assert_eq!(slots, vec![Some(AccountEntry { key: address(1), data: None }), None]);
    assert!(load_account_data(&mut slots, 0, vec![1, 2]));
    assert_eq!(slots[0], Some(AccountEntry { key: address(1), data: Some(vec![1, 2]) }));
}

#[test]
fn a_derived_address_takes_its_place() {
    let mut slots = vec![Some(AccountEntry { key: address(1), data: None }), None];
    assert_eq!(place_derived(&mut slots, 1, Some((address(9), 254))), Ok(()));
    assert_eq!(slots[1], Some(AccountEntry { key: address(9), data: None }));
    assert_eq!(place_derived(&mut slots, 1, None), Err(ResolveError::NoAddress));
    assert_eq!(slots[1], Some(AccountEntry { key: address(9), data: None }));
    assert_eq!(place_derived(&mut slots, 2, Some((address(9), 254))), Err(ResolveError::WrongShape));
    assert_eq!(slots.len(), 2);
}
