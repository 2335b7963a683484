use division_one_crypto::address::Address;
use division_one_crypto::resolution::{ExtraAccountRule, Seed};
use division_one_crypto::table::{build_extra_account_rules, HookProgram};
use division_one_crypto::wire::{
    decode_table, encode_table, rule_has_stored_form, rules_have_stored_form,
    seed_has_stored_form, seeds_have_stored_form, table_tag_bytes, RULE_HEADER_LEN,
    SEED_ACCOUNT_DATA, SEED_ACCOUNT_KEY, SEED_LITERAL, TABLE_HEADER_LEN,
};

fn address(byte: u8) -> Address {
    Address::new([byte; 32])
}

fn small_rule() -> ExtraAccountRule {
    ExtraAccountRule {
        program: address(42),
        seeds: vec![
            Seed::Literal { bytes: vec![0xaa, 0xbb] },
            Seed::AccountKey { index: 3 },
            Seed::AccountData { account_index: 5, data_index: 40, length: 32 },
        ],
        is_signer: true,
        is_writable: false,
    }
}

#[test]
fn stored_table_layout() {
    let bytes = encode_table(&vec![small_rule()]).unwrap();
    let mut expected = vec![105, 37, 101, 197, 75, 251, 102, 26];
    expected.extend_from_slice(&[49, 0, 0, 0]);
    expected.extend_from_slice(&[1, 0, 0, 0]);
    expected.extend_from_slice(&[42; 32]);
    expected.extend_from_slice(&[1, 0, 3]);
    expected.extend_from_slice(&[1, 2, 0xaa, 0xbb]);
    expected.extend_from_slice(&[3, 3]);
    expected.extend_from_slice(&[4, 5, 40, 32]);
    assert_eq!(bytes, expected);
    assert_eq!(bytes[..8].to_vec(), table_tag_bytes());
    assert_eq!((SEED_LITERAL, SEED_ACCOUNT_KEY, SEED_ACCOUNT_DATA), (1, 3, 4));
    assert_eq!((TABLE_HEADER_LEN, RULE_HEADER_LEN), (16, 35));
}

#[test]
fn empty_table_is_sixteen_bytes() {
    let bytes = encode_table(&vec![]).unwrap();
    assert_eq!(bytes, vec![105, 37, 101, 197, 75, 251, 102, 26, 4, 0, 0, 0, 0, 0, 0, 0]);
    assert_eq!(decode_table(&bytes), Some(vec![]));
}

#[test]
fn stored_table_reads_back() {
    let rules = vec![
        small_rule(),
        ExtraAccountRule { program: address(1), seeds: vec![], is_signer: false, is_writable: true },
        ExtraAccountRule {
            program: address(2),
            seeds: vec![Seed::Literal { bytes: vec![] }, Seed::Literal { bytes: vec![7; 255] }],
            is_signer: true,
            is_writable: true,
        },
    ];
    let bytes = encode_table(&rules).unwrap();
    assert_eq!(decode_table(&bytes), Some(rules));
}

#[test]
fn table_of_a_mint_reads_back() {
    let program = HookProgram::new(address(42), address(50));
    let rules = build_extra_account_rules(&program, &address(2));
    let bytes = encode_table(&rules).unwrap();
    assert_eq!(bytes.len(), 315);
    assert_eq!(&bytes[8..12], &[47, 1, 0, 0]);
    assert_eq!(&bytes[12..16], &[3, 0, 0, 0]);
    assert_eq!(decode_table(&bytes), Some(rules));
}

#[test]
fn what_has_no_stored_form() {
    let long = Seed::Literal { bytes: vec![0; 256] };
    assert!(!seed_has_stored_form(&long));
    assert!(seed_has_stored_form(&Seed::Literal { bytes: vec![0; 255] }));
    assert!(seed_has_stored_form(&Seed::AccountKey { index: 255 }));
    assert!(!seeds_have_stored_form(&vec![Seed::AccountKey { index: 1 }, long]));
    let mut many = Vec::new();
    for i in 0..256u32 {
        many.push(Seed::AccountKey { index: (i % 256) as u8 });
    }
    let crowded =
        ExtraAccountRule { program: address(1), seeds: many, is_signer: false, is_writable: false };
    assert!(!rule_has_stored_form(&crowded));
    assert!(rule_has_stored_form(&small_rule()));
    assert!(!rules_have_stored_form(&vec![small_rule(), crowded]));
    let rules = vec![ExtraAccountRule {
        program: address(1),
        seeds: vec![Seed::Literal { bytes: vec![0; 256] }],
        is_signer: false,
        is_writable: false,
    }];
    assert_eq!(encode_table(&rules), None);
}

#[test]
fn damaged_tables_do_not_read() {
    let bytes = encode_table(&vec![small_rule()]).unwrap();
    assert_eq!(decode_table(&[]), None);
    assert_eq!(decode_table(&bytes[..15]), None);
    assert_eq!(decode_table(&bytes[..bytes.len() - 1]), None);
    let mut longer = bytes.clone();
    longer.push(0);
    assert_eq!(decode_table(&longer), None);
    let mut other_tag = bytes.clone();
    other_tag[0] ^= 1;
    assert_eq!(decode_table(&other_tag), None);
    let mut other_length = bytes.clone();
    other_length[8] += 1;
    assert_eq!(decode_table(&other_length), None);
    let mut more_rules = bytes.clone();
    more_rules[12] = 2;
    assert_eq!(decode_table(&more_rules), None);
    let mut fewer_rules = bytes.clone();
    fewer_rules[12] = 0;
    assert_eq!(decode_table(&fewer_rules), None);
    let mut bad_flag = bytes.clone();
    bad_flag[16 + 32] = 2;
    assert_eq!(decode_table(&bad_flag), None);
    let mut bad_seed_kind = bytes.clone();
    bad_seed_kind[16 + 35] = 2;
    assert_eq!(decode_table(&bad_seed_kind), None);
    let mut more_seeds = bytes.clone();
    more_seeds[16 + 34] = 4;
    assert_eq!(decode_table(&more_seeds), None);
    let mut long_literal = bytes;
    long_literal[16 + 36] = 200;
    assert_eq!(decode_table(&long_literal), None);
}
