//! The resolution table of the token: the three rules that lead a caller of a
//! transfer to the hook's own accounts.
//!
//! The hook is called with the five accounts of the transfer, followed by the
//! three the table derives: the institution config of the transfer's owner,
//! the token account of the operations wallet, and the token account of the
//! institution wallet that the config names. The positions are part of the
//! stored table: to reorder the accounts of the transfer is to break every
//! table already written.

use vstd::prelude::*;
use crate::address::Address;
use crate::config::{config_seed, config_seed_bytes, config_seeds, CONFIG_INSTITUTION_OFFSET};
use crate::pda::{found_program_address, found_view, seeds_view, try_find_program_address};
use crate::resolution::{
    gathered, pass, pass_upto, rule_step, rules_view, seed_bytes, seeds_available, EntryView,
    ExtraAccountRule, RuleView, Seed, SeedView,
};
use crate::wire::{
    rule_encodable, rule_encoding, rules_encodable, rules_encoding, seeds_encodable,
    seeds_encoding, table_encodable, table_encoding,
};

verus! {

/// Position of the source token account in the hook's account list.
pub const SOURCE_INDEX: u8 = 0;

/// Position of the mint.
pub const MINT_INDEX: u8 = 1;

/// Position of the destination token account.
pub const DESTINATION_INDEX: u8 = 2;

/// Position of the owner, the authority of the transfer.
pub const OWNER_INDEX: u8 = 3;

/// Position of the account that stores the table.
pub const TABLE_INDEX: u8 = 4;

/// Number of accounts of the transfer itself, which precede the derived ones.
pub const BASE_ACCOUNTS: usize = 5;

/// Position of the owner's institution config.
pub const CONFIG_INDEX: u8 = 5;

/// Position of the token account of the operations wallet.
pub const OPERATIONS_INDEX: u8 = 6;

/// Position of the token account of the institution wallet.
pub const INSTITUTION_INDEX: u8 = 7;

/// Number of rules in the table.
pub const RULE_COUNT: usize = 3;

/// The address of the token program whose mints carry transfer hooks.
pub open spec fn token_program_bytes() -> Seq<u8> {
    seq![
        6u8, 221u8, 246u8, 225u8, 238u8, 117u8, 143u8, 222u8, 24u8, 66u8, 93u8, 188u8, 228u8, 108u8,
        205u8, 218u8, 182u8, 26u8, 252u8, 77u8, 131u8, 185u8, 13u8, 39u8, 254u8, 189u8, 249u8, 40u8,
        216u8, 161u8, 139u8, 252u8,
    ]
}

/// The address of the program that derives associated token accounts.
pub open spec fn associated_token_program_bytes() -> Seq<u8> {
    seq![
        140u8, 151u8, 37u8, 143u8, 78u8, 36u8, 137u8, 241u8, 187u8, 61u8, 16u8, 41u8, 20u8, 142u8,
        13u8, 131u8, 11u8, 90u8, 19u8, 153u8, 218u8, 255u8, 16u8, 132u8, 4u8, 142u8, 123u8, 216u8,
        219u8, 233u8, 248u8, 89u8,
    ]
}

/// The token program whose mints carry transfer hooks.
pub fn token_program() -> (id: Address)
    ensures
        id@ == token_program_bytes(),
{
    let id = Address {
        bytes: [
            6u8, 221u8, 246u8, 225u8, 238u8, 117u8, 143u8, 222u8, 24u8, 66u8, 93u8, 188u8, 228u8,
            108u8, 205u8, 218u8, 182u8, 26u8, 252u8, 77u8, 131u8, 185u8, 13u8, 39u8, 254u8, 189u8,
            249u8, 40u8, 216u8, 161u8, 139u8, 252u8,
        ],
    };
    assert(id@ =~= token_program_bytes());
    id
}

/// The program that derives associated token accounts.
pub fn associated_token_program() -> (id: Address)
    ensures
        id@ == associated_token_program_bytes(),
{
    let id = Address {
        bytes: [
            140u8, 151u8, 37u8, 143u8, 78u8, 36u8, 137u8, 241u8, 187u8, 61u8, 16u8, 41u8, 20u8,
            142u8, 13u8, 131u8, 11u8, 90u8, 19u8, 153u8, 218u8, 255u8, 16u8, 132u8, 4u8, 142u8,
            123u8, 216u8, 219u8, 233u8, 248u8, 89u8,
        ],
    };
    assert(id@ =~= associated_token_program_bytes());
    id
}

/// The identities the token module works with: its own, the wallet that
/// collects the operations fee, and the two programs of the token standard.
#[derive(Clone, Copy, Debug, PartialEq, Eq)]
pub struct HookProgram {
    /// The module's own program identity.
    pub program_id: Address,
    /// The wallet that receives the operations fee.
    pub operations_wallet: Address,
    /// The token program.
    pub token_program: Address,
    /// The program under which associated token accounts are derived.
    pub associated_token_program: Address,
}

impl HookProgram {
    /// The module under `program_id`, paying its operations fee to
    /// `operations_wallet`, on the standard token programs.
    pub fn new(program_id: Address, operations_wallet: Address) -> (program: HookProgram)
        ensures
            program.program_id == program_id,
            program.operations_wallet == operations_wallet,
            program.token_program@ == token_program_bytes(),
            program.associated_token_program@ == associated_token_program_bytes(),
    {
        HookProgram {
            program_id,
            operations_wallet,
            token_program: token_program(),
            associated_token_program: associated_token_program(),
        }
    }
}

/// The seeds of the token account that `wallet` holds for `mint`.
pub open spec fn token_account_seeds(wallet: Seq<u8>, token_program: Seq<u8>, mint: Seq<u8>) -> Seq<
    Seq<u8>,
> {
    seq![wallet, token_program, mint]
}

/// The address of the token account that `wallet` holds for `mint`, with its
/// bump seed.
pub open spec fn token_account_of(program: HookProgram, wallet: Seq<u8>, mint: Seq<u8>) -> Option<
    (Seq<u8>, u8),
> {
    found_program_address(
        token_account_seeds(wallet, program.token_program@, mint),
        program.associated_token_program@,
    )
}

/// Derives the address of the token account that `wallet` holds for `mint`.
pub fn token_account_address(program: &HookProgram, wallet: &Address, mint: &Address) -> (found:
    Option<(Address, u8)>)
    ensures
        found_view(found) == token_account_of(*program, wallet@, mint@),
{
    let mut seeds: Vec<Vec<u8>> = Vec::new();
    seeds.push(wallet.to_vec());
    seeds.push(program.token_program.to_vec());
    seeds.push(mint.to_vec());
    assert(seeds_view(seeds@) =~= token_account_seeds(wallet@, program.token_program@, mint@));
    try_find_program_address(&seeds, &program.associated_token_program)
}

/// The first rule: the institution config of the transfer's owner, derived
/// under the module itself from the config tag and the owner's address.
pub open spec fn config_rule(program: HookProgram) -> RuleView {
    RuleView {
        program: program.program_id@,
        seeds: seq![
            SeedView::Literal { bytes: config_seed() },
            SeedView::AccountKey { index: OWNER_INDEX },
        ],
        is_signer: false,
        is_writable: false,
    }
}

/// The second rule: the token account of the operations wallet for `mint`.
pub open spec fn operations_rule(program: HookProgram, mint: Seq<u8>) -> RuleView {
    RuleView {
        program: program.associated_token_program@,
        seeds: seq![
            SeedView::Literal { bytes: program.operations_wallet@ },
            SeedView::Literal { bytes: program.token_program@ },
            SeedView::Literal { bytes: mint },
        ],
        is_signer: false,
        is_writable: true,
    }
}

/// The third rule: the token account, for `mint`, of the institution wallet
/// read out of the config that the first rule derived.
pub open spec fn institution_rule(program: HookProgram, mint: Seq<u8>) -> RuleView {
    RuleView {
        program: program.associated_token_program@,
        seeds: seq![
            SeedView::AccountData { account_index: CONFIG_INDEX, data_index: 40, length: 32 },
            SeedView::Literal { bytes: program.token_program@ },
            SeedView::Literal { bytes: mint },
        ],
        is_signer: false,
        is_writable: true,
    }
}

/// The table of `mint`: config, operations account, institution account.
pub open spec fn table_for(program: HookProgram, mint: Seq<u8>) -> Seq<RuleView> {
    seq![config_rule(program), operations_rule(program, mint), institution_rule(program, mint)]
}

/// Builds the three rules of the table of `mint`.
pub fn build_extra_account_rules(program: &HookProgram, mint: &Address) -> (rules: Vec<
    ExtraAccountRule,
>)
    ensures
        rules_view(rules@) == table_for(*program, mint@),
        rules@.len() == RULE_COUNT,
{
    let mut config_seeds: Vec<Seed> = Vec::new();
    config_seeds.push(Seed::Literal { bytes: config_seed_bytes() });
    config_seeds.push(Seed::AccountKey { index: OWNER_INDEX });
    let first = ExtraAccountRule {
        program: program.program_id,
        seeds: config_seeds,
        is_signer: false,
        is_writable: false,
    };
    assert(first@.seeds =~= config_rule(*program).seeds);

    let mut operations_seeds: Vec<Seed> = Vec::new();
    operations_seeds.push(Seed::Literal { bytes: program.operations_wallet.to_vec() });
    operations_seeds.push(Seed::Literal { bytes: program.token_program.to_vec() });
    operations_seeds.push(Seed::Literal { bytes: mint.to_vec() });
    let second = ExtraAccountRule {
        program: program.associated_token_program,
        seeds: operations_seeds,
        is_signer: false,
        is_writable: true,
    };
    assert(second@.seeds =~= operations_rule(*program, mint@).seeds);

    let mut institution_seeds: Vec<Seed> = Vec::new();
    institution_seeds.push(
        Seed::AccountData {
            account_index: CONFIG_INDEX,
            data_index: CONFIG_INSTITUTION_OFFSET as u8,
            length: 32,
        },
    );
    institution_seeds.push(Seed::Literal { bytes: program.token_program.to_vec() });
    institution_seeds.push(Seed::Literal { bytes: mint.to_vec() });
    let third = ExtraAccountRule {
        program: program.associated_token_program,
        seeds: institution_seeds,
        is_signer: false,
        is_writable: true,
    };
    assert(third@.seeds =~= institution_rule(*program, mint@).seeds);

    let mut rules: Vec<ExtraAccountRule> = Vec::new();
    rules.push(first);
    rules.push(second);
    rules.push(third);
    assert(rules_view(rules@) =~= table_for(*program, mint@));
    rules
}

/// The account list of a transfer before resolution: the five accounts of
/// the transfer are known, the three places after them are open.
pub open spec fn unresolved_list(base: Seq<EntryView>) -> Seq<Option<EntryView>> {
    Seq::new(
        8,
        |i: int|
            if i < 5 {
                Some(base[i])
            } else {
                None
            },
    )
}

/// An account whose address is known and whose data is not loaded.
pub open spec fn found_account(key: Seq<u8>) -> Option<EntryView> {
    Some(EntryView { key, data: None })
}

/// An account whose address is known and whose data is loaded.
pub open spec fn loaded_account(key: Seq<u8>, data: Seq<u8>) -> Option<EntryView> {
    Some(EntryView { key, data: Some(data) })
}

/// The table of a mint, resolved against a transfer whose owner is the
/// fourth account, yields the hook's three accounts in their order.
///
/// The first pass finds the owner's institution config and the token account
/// of the operations wallet, and leaves the third place open, since it reads
/// the config's data. Once that data is loaded, the second pass finds the
/// token account of the institution wallet stored in it. This holds wherever
/// the three derivations find an address.
pub proof fn table_resolves_in_two_passes(
    program: HookProgram,
    mint: Seq<u8>,
    base: Seq<EntryView>,
    config_data: Seq<u8>,
)
    requires
        base.len() == 5,
        config_data.len() >= 72,
        found_program_address(config_seeds(base[3].key), program.program_id@) is Some,
        token_account_of(program, program.operations_wallet@, mint) is Some,
        token_account_of(program, config_data.subrange(40, 72), mint) is Some,
    ensures
        ({
            let config = found_program_address(
                config_seeds(base[3].key),
                program.program_id@,
            ).unwrap().0;
            let operations = token_account_of(program, program.operations_wallet@, mint).unwrap().0;
            let institution = token_account_of(
                program,
                config_data.subrange(40, 72),
                mint,
            ).unwrap().0;
            let start = unresolved_list(base);
            let first = start.update(5, found_account(config)).update(6, found_account(operations));
            let loaded = first.update(5, loaded_account(config, config_data));
            let second = loaded.update(7, found_account(institution));
            &&& pass(table_for(program, mint), start, 5) == Some(first)
            &&& first[7] is None
            &&& pass(table_for(program, mint), loaded, 5) == Some(second)
        }),
{
    let table = table_for(program, mint);
    let config = found_program_address(config_seeds(base[3].key), program.program_id@).unwrap().0;
    let operations = token_account_of(program, program.operations_wallet@, mint).unwrap().0;
    let wallet = config_data.subrange(40, 72);
    let institution = token_account_of(program, wallet, mint).unwrap().0;
    let start = unresolved_list(base);
    let after_config = start.update(5, found_account(config));
    let first = after_config.update(6, found_account(operations));
    let loaded = first.update(5, loaded_account(config, config_data));
    let second = loaded.update(7, found_account(institution));

    reveal_with_fuel(pass_upto, 4);

    // First pass, first rule: the owner's config.
    assert(seeds_available(table[0].seeds, start)) by {
        assert(seed_bytes(table[0].seeds[0], start) is Some);
        assert(seed_bytes(table[0].seeds[1], start) is Some);
    }
    assert(gathered(table[0].seeds, start) =~= config_seeds(base[3].key));
    assert(rule_step(table[0], start, 5) == Some(after_config));

    // First pass, second rule: the operations account.
    assert(seeds_available(table[1].seeds, after_config));
    assert(gathered(table[1].seeds, after_config) =~= token_account_seeds(
        program.operations_wallet@,
        program.token_program@,
        mint,
    ));
    assert(rule_step(table[1], after_config, 6) == Some(first));

    // First pass, third rule: the config's data is not loaded yet.
    assert(!seeds_available(table[2].seeds, first)) by {
        assert(seed_bytes(table[2].seeds[0], first) is None);
    }
    assert(rule_step(table[2], first, 7) == Some(first));
    assert(pass_upto(table, start, 5, 1) == Some(after_config));
    assert(pass_upto(table, start, 5, 2) == Some(first));
    assert(pass_upto(table, start, 5, 3) == Some(first));

    // Second pass: the first two places are filled, the third can be derived.
    assert(rule_step(table[0], loaded, 5) == Some(loaded));
    assert(rule_step(table[1], loaded, 6) == Some(loaded));
    assert(seeds_available(table[2].seeds, loaded)) by {
        assert(seed_bytes(table[2].seeds[0], loaded) == Some(wallet));
        assert(seed_bytes(table[2].seeds[1], loaded) is Some);
        assert(seed_bytes(table[2].seeds[2], loaded) is Some);
    }
    assert(gathered(table[2].seeds, loaded) =~= token_account_seeds(
        wallet,
        program.token_program@,
        mint,
    ));
    assert(rule_step(table[2], loaded, 7) == Some(second));
    assert(pass_upto(table, loaded, 5, 1) == Some(loaded));
    assert(pass_upto(table, loaded, 5, 2) == Some(loaded));
    assert(pass_upto(table, loaded, 5, 3) == Some(second));
}

/// Number of bytes of the stored table of a mint.
pub const STORED_TABLE_LEN: usize = 315;

/// The table of a mint always has a stored form, and it takes 315 bytes.
pub proof fn table_has_stored_form(program: HookProgram, mint: Seq<u8>)
    requires
        mint.len() == 32,
    ensures
        table_encodable(table_for(program, mint)),
        table_encoding(table_for(program, mint)).len() == STORED_TABLE_LEN,
{
    let table = table_for(program, mint);
    let first = config_rule(program);
    let second = operations_rule(program, mint);
    let third = institution_rule(program, mint);
    reveal_with_fuel(seeds_encoding, 4);
    reveal_with_fuel(rules_encoding, 4);
    vstd::bytes::lemma_auto_spec_u32_to_from_le_bytes();

    assert(seeds_encodable(first.seeds));
    assert(seeds_encodable(second.seeds));
    assert(seeds_encodable(third.seeds));
    assert(rule_encodable(first) && rule_encodable(second) && rule_encodable(third));
    assert(rules_encodable(table));

    assert(first.seeds.drop_first() =~= seq![first.seeds[1]]);
    assert(first.seeds.drop_first().drop_first() =~= seq![]);
    assert(seeds_encoding(first.seeds).len() == 20);
    assert(second.seeds.drop_first() =~= seq![second.seeds[1], second.seeds[2]]);
    assert(second.seeds.drop_first().drop_first() =~= seq![second.seeds[2]]);
    assert(second.seeds.drop_first().drop_first().drop_first() =~= seq![]);
    assert(seeds_encoding(second.seeds).len() == 102);
    assert(third.seeds.drop_first() =~= seq![third.seeds[1], third.seeds[2]]);
    assert(third.seeds.drop_first().drop_first() =~= seq![third.seeds[2]]);
    assert(third.seeds.drop_first().drop_first().drop_first() =~= seq![]);
    assert(seeds_encoding(third.seeds).len() == 72);

    assert(rule_encoding(first).len() == 55);
    assert(rule_encoding(second).len() == 137);
    assert(rule_encoding(third).len() == 107);
    assert(table.drop_first() =~= seq![second, third]);
    assert(table.drop_first().drop_first() =~= seq![third]);
    assert(table.drop_first().drop_first().drop_first() =~= seq![]);
    assert(rules_encoding(table).len() == 299);
}

} // verus!
