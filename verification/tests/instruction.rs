use division_one_crypto::address::Address;
use division_one_crypto::instruction::{LinkInstruction, ProgramInstruction, TokenInstruction};
use division_one_crypto::user_link::{SchoolLinkRemoved, SchoolWalletUpdated, UserLinkCreated};

fn address(byte: u8) -> Address {
    Address::new([byte; 32])
}

#[test]
fn instruction_layout() {
    let mut expected = vec![49, 171, 222, 215, 216, 216, 82, 195];
    expected.extend_from_slice(&[20; 32]);
    assert_eq!(LinkInstruction::InitializeUserLink { school_wallet: address(20) }.encode(), expected);
    let mut expected = vec![161, 222, 0, 128, 150, 237, 104, 225];
    expected.extend_from_slice(&[21; 32]);
    assert_eq!(
        LinkInstruction::UpdateSchoolWallet { new_school_wallet: address(21) }.encode(),
        expected
    );
    assert_eq!(
        LinkInstruction::RemoveSchoolLink.encode(),
        vec![250, 89, 183, 202, 54, 145, 132, 95]
    );
}

#[test]
fn instructions_read_back() {
    for instruction in [
        LinkInstruction::InitializeUserLink { school_wallet: address(20) },
        LinkInstruction::UpdateSchoolWallet { new_school_wallet: address(21) },
        LinkInstruction::RemoveSchoolLink,
    ] {
        let mut data = instruction.encode();
        assert_eq!(LinkInstruction::decode(&data), Some(instruction));
        data.extend_from_slice(&[1, 2, 3]);
        assert_eq!(LinkInstruction::decode(&data), Some(instruction));
    }
}

#[test]
fn other_data_is_no_instruction() {
    assert_eq!(LinkInstruction::decode(&[]), None);
    assert_eq!(LinkInstruction::decode(&[49, 171, 222, 215, 216, 216, 82]), None);
    let short = LinkInstruction::InitializeUserLink { school_wallet: address(20) }.encode();
    assert_eq!(LinkInstruction::decode(&short[..39]), None);
    let short = LinkInstruction::UpdateSchoolWallet { new_school_wallet: address(20) }.encode();
    assert_eq!(LinkInstruction::decode(&short[..39]), None);
    for tag_byte in 0..8 {
        for instruction in [
            LinkInstruction::InitializeUserLink { school_wallet: address(20) },
            LinkInstruction::UpdateSchoolWallet { new_school_wallet: address(21) },
            LinkInstruction::RemoveSchoolLink,
        ] {
            let mut data = instruction.encode();
            data[tag_byte] ^= 0x10;
            assert_eq!(LinkInstruction::decode(&data), None);
        }
    }
    assert_eq!(LinkInstruction::decode(&[105, 37, 101, 197, 75, 251, 102, 26, 0, 0]), None);
}

#[test]
fn execute_carries_the_amount() {
    let mut data = vec![105, 37, 101, 197, 75, 251, 102, 26];
    data.extend_from_slice(&u64::MAX.to_le_bytes());
    assert_eq!(TokenInstruction::decode(&data), Some(TokenInstruction::Execute { amount: u64::MAX }));
    assert_eq!(TokenInstruction::decode(&data[..15]), None);
    data[3] ^= 1;
    assert_eq!(TokenInstruction::decode(&data), None);
}

#[test]
fn published_events() {
    let created = UserLinkCreated { user_wallet: address(7), school_wallet: address(20) };
    let mut expected = vec![24, 201, 36, 28, 208, 111, 142, 153];
    expected.extend_from_slice(&[7; 32]);
    expected.extend_from_slice(&[20; 32]);
    assert_eq!(created.encode(), expected);

    let updated = SchoolWalletUpdated {
        user_wallet: address(7),
        old_school_wallet: Some(address(20)),
        new_school_wallet: address(21),
    };
    let mut expected = vec![113, 202, 224, 165, 97, 66, 11, 153];
    expected.extend_from_slice(&[7; 32]);
    expected.push(1);
    expected.extend_from_slice(&[20; 32]);
    expected.extend_from_slice(&[21; 32]);
    assert_eq!(updated.encode(), expected);

    let removed = SchoolLinkRemoved { user_wallet: address(7), school_wallet: Some(address(20)) };
    let mut expected = vec![100, 38, 60, 226, 167, 178, 67, 111];
    expected.extend_from_slice(&[7; 32]);
    expected.push(1);
    expected.extend_from_slice(&[20; 32]);
    assert_eq!(removed.encode(), expected);

    let nothing = SchoolLinkRemoved { user_wallet: address(7), school_wallet: None };
    let mut expected = vec![100, 38, 60, 226, 167, 178, 67, 111];
    expected.extend_from_slice(&[7; 32]);
    expected.push(0);
    expected.extend_from_slice(&[0; 32]);
    assert_eq!(nothing.encode(), expected);

    let zero_school = SchoolLinkRemoved { user_wallet: address(7), school_wallet: Some(address(0)) };
    assert_ne!(zero_school.encode(), nothing.encode());
}

#[test]
fn the_program_reads_instructions_of_both_modules() {
    let link = LinkInstruction::RemoveSchoolLink;
    assert_eq!(ProgramInstruction::decode(&link.encode()), Some(ProgramInstruction::Link(link)));
    let mut execute = vec![105, 37, 101, 197, 75, 251, 102, 26];
    execute.extend_from_slice(&7u64.to_le_bytes());
    assert_eq!(
        ProgramInstruction::decode(&execute),
        Some(ProgramInstruction::Token(TokenInstruction::Execute { amount: 7 }))
    );
    assert_eq!(ProgramInstruction::decode(&[1, 2, 3, 4, 5, 6, 7, 8, 9]), None);
    assert_eq!(ProgramInstruction::decode(&[]), None);
}

fn initialize_token_data(name: &[u8], symbol: &[u8], decimals: u8, wallet: u8) -> Vec<u8> {
    let mut data = vec![38, 209, 150, 50, 190, 117, 16, 54];
    data.extend_from_slice(&(name.len() as u32).to_le_bytes());
    data.extend_from_slice(name);
    data.extend_from_slice(&(symbol.len() as u32).to_le_bytes());
    data.extend_from_slice(symbol);
    data.push(decimals);
    data.extend_from_slice(&[wallet; 32]);
    data
}

#[test]
fn token_instructions_are_read() {
    let data = initialize_token_data(b"Division One", b"D1C", 9, 50);
    assert_eq!(
        TokenInstruction::decode(&data),
        Some(TokenInstruction::InitializeToken {
            name: b"Division One".to_vec(),
            symbol: b"D1C".to_vec(),
            decimals: 9,
            institution_ops_wallet: address(50),
        })
    );
    let empty_texts = initialize_token_data(b"", b"", 0, 1);
    assert_eq!(
        TokenInstruction::decode(&empty_texts),
        Some(TokenInstruction::InitializeToken {
            name: vec![],
            symbol: vec![],
            decimals: 0,
            institution_ops_wallet: address(1),
        })
    );
    let mut set = vec![150, 232, 7, 232, 36, 152, 228, 246];
    set.extend_from_slice(&[9; 32]);
    assert_eq!(
        TokenInstruction::decode(&set),
        Some(TokenInstruction::SetInstitutionWallet { institution_wallet: address(9) })
    );
    assert_eq!(
        TokenInstruction::decode(&[92, 197, 174, 197, 41, 124, 19, 3]),
        Some(TokenInstruction::InitializeExtraAccountMetaList)
    );
    let mut execute = vec![105, 37, 101, 197, 75, 251, 102, 26];
    execute.extend_from_slice(&1000u64.to_le_bytes());
    assert_eq!(TokenInstruction::decode(&execute), Some(TokenInstruction::Execute { amount: 1000 }));
    execute.push(1);
    assert_eq!(TokenInstruction::decode(&execute), Some(TokenInstruction::Execute { amount: 1000 }));
}

#[test]
fn damaged_token_instructions_are_not_read() {
    let data = initialize_token_data(b"Division One", b"D1C", 9, 50);
    assert_eq!(TokenInstruction::decode(&data[..data.len() - 1]), None);
    assert_eq!(TokenInstruction::decode(&data[..10]), None);
    let mut long_name = data.clone();
    long_name[8] = 200;
    assert_eq!(TokenInstruction::decode(&long_name), None);
    let mut huge_name = data.clone();
    huge_name[11] = 255;
    assert_eq!(TokenInstruction::decode(&huge_name), None);
    let mut set = vec![150, 232, 7, 232, 36, 152, 228, 246];
    set.extend_from_slice(&[9; 31]);
    assert_eq!(TokenInstruction::decode(&set), None);
    assert_eq!(TokenInstruction::decode(&[105, 37, 101, 197, 75, 251, 102, 26, 1, 2]), None);
    assert_eq!(TokenInstruction::decode(&[49, 171, 222, 215, 216, 216, 82, 195]), None);
    assert_eq!(TokenInstruction::decode(&[]), None);
}
