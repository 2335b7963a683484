//! Instruction data: what a transaction hands to the two modules.
//!
//! An instruction is an eight-byte tag that names the operation, followed by
//! its arguments: an address is its thirty-two bytes, an amount eight
//! little-endian bytes, a text its length as four little-endian bytes and then
//! its bytes. The transfer hook is entered with the tag of the execute
//! instruction, followed by the amount. Bytes after the arguments are
//! ignored.

use vstd::prelude::*;
use vstd::bytes::{
    lemma_auto_spec_u32_to_from_le_bytes, lemma_auto_spec_u64_to_from_le_bytes,
    spec_u32_from_le_bytes, spec_u32_to_le_bytes, spec_u64_from_le_bytes, spec_u64_to_le_bytes,
    u32_from_le_bytes, u64_from_le_bytes,
};
use vstd::slice::{slice_subrange, slice_to_vec};
use crate::address::{address_determined_by_bytes, Address};
use crate::bytes::{begins_with, starts_with};

verus! {

/// The tag of `initialize_user_link`.
pub open spec fn initialize_user_link_tag() -> Seq<u8> {
    seq![49u8, 171u8, 222u8, 215u8, 216u8, 216u8, 82u8, 195u8]
}

/// The tag of `update_school_wallet`.
pub open spec fn update_school_wallet_tag() -> Seq<u8> {
    seq![161u8, 222u8, 0u8, 128u8, 150u8, 237u8, 104u8, 225u8]
}

/// The tag of `remove_school_link`.
pub open spec fn remove_school_link_tag() -> Seq<u8> {
    seq![250u8, 89u8, 183u8, 202u8, 54u8, 145u8, 132u8, 95u8]
}

/// The tag of `initialize_token`.
pub open spec fn initialize_token_tag() -> Seq<u8> {
    seq![38u8, 209u8, 150u8, 50u8, 190u8, 117u8, 16u8, 54u8]
}

/// The tag of `set_institution_wallet`.
pub open spec fn set_institution_wallet_tag() -> Seq<u8> {
    seq![150u8, 232u8, 7u8, 232u8, 36u8, 152u8, 228u8, 246u8]
}

/// The tag of `initialize_extra_account_meta_list`.
pub open spec fn initialize_table_tag() -> Seq<u8> {
    seq![92u8, 197u8, 174u8, 197u8, 41u8, 124u8, 19u8, 3u8]
}

/// The tag of the hook's execute instruction.
pub open spec fn execute_tag() -> Seq<u8> {
    seq![105u8, 37u8, 101u8, 197u8, 75u8, 251u8, 102u8, 26u8]
}

/// The tag of `initialize_user_link` as bytes.
pub fn initialize_user_link_tag_bytes() -> (tag: Vec<u8>)
    ensures
        tag@ == initialize_user_link_tag(),
{
    let tag: Vec<u8> = vec![49u8, 171u8, 222u8, 215u8, 216u8, 216u8, 82u8, 195u8];
    assert(tag@ =~= initialize_user_link_tag());
    tag
}

/// The tag of `update_school_wallet` as bytes.
pub fn update_school_wallet_tag_bytes() -> (tag: Vec<u8>)
    ensures
        tag@ == update_school_wallet_tag(),
{
    let tag: Vec<u8> = vec![161u8, 222u8, 0u8, 128u8, 150u8, 237u8, 104u8, 225u8];
    assert(tag@ =~= update_school_wallet_tag());
    tag
}

/// The tag of `remove_school_link` as bytes.
pub fn remove_school_link_tag_bytes() -> (tag: Vec<u8>)
    ensures
        tag@ == remove_school_link_tag(),
{
    let tag: Vec<u8> = vec![250u8, 89u8, 183u8, 202u8, 54u8, 145u8, 132u8, 95u8];
    assert(tag@ =~= remove_school_link_tag());
    tag
}

/// The tag of `initialize_token` as bytes.
pub fn initialize_token_tag_bytes() -> (tag: Vec<u8>)
    ensures
        tag@ == initialize_token_tag(),
{
    let tag: Vec<u8> = vec![38u8, 209u8, 150u8, 50u8, 190u8, 117u8, 16u8, 54u8];
    assert(tag@ =~= initialize_token_tag());
    tag
}

/// The tag of `set_institution_wallet` as bytes.
pub fn set_institution_wallet_tag_bytes() -> (tag: Vec<u8>)
    ensures
        tag@ == set_institution_wallet_tag(),
{
    let tag: Vec<u8> = vec![150u8, 232u8, 7u8, 232u8, 36u8, 152u8, 228u8, 246u8];
    assert(tag@ =~= set_institution_wallet_tag());
    tag
}

/// The tag of `initialize_extra_account_meta_list` as bytes.
pub fn initialize_table_tag_bytes() -> (tag: Vec<u8>)
    ensures
        tag@ == initialize_table_tag(),
{
    let tag: Vec<u8> = vec![92u8, 197u8, 174u8, 197u8, 41u8, 124u8, 19u8, 3u8];
    assert(tag@ =~= initialize_table_tag());
    tag
}

/// The tag of the hook's execute instruction as bytes.
pub fn execute_tag_bytes() -> (tag: Vec<u8>)
    ensures
        tag@ == execute_tag(),
{
    let tag: Vec<u8> = vec![105u8, 37u8, 101u8, 197u8, 75u8, 251u8, 102u8, 26u8];
    assert(tag@ =~= execute_tag());
    tag
}

/// An instruction of the wallet-link registry.
#[derive(Clone, Copy, Debug, PartialEq, Eq)]
pub enum LinkInstruction {
    InitializeUserLink { school_wallet: Address },
    UpdateSchoolWallet { new_school_wallet: Address },
    RemoveSchoolLink,
}

impl LinkInstruction {
    /// The tag that names the operation.
    pub open spec fn tag(self) -> Seq<u8> {
        match self {
            LinkInstruction::InitializeUserLink { .. } => initialize_user_link_tag(),
            LinkInstruction::UpdateSchoolWallet { .. } => update_school_wallet_tag(),
            LinkInstruction::RemoveSchoolLink => remove_school_link_tag(),
        }
    }

    /// The arguments as bytes.
    pub open spec fn arguments(self) -> Seq<u8> {
        match self {
            LinkInstruction::InitializeUserLink { school_wallet } => school_wallet@,
            LinkInstruction::UpdateSchoolWallet { new_school_wallet } => new_school_wallet@,
            LinkInstruction::RemoveSchoolLink => seq![],
        }
    }

    /// The instruction as bytes: tag, then arguments.
    pub open spec fn encoding(self) -> Seq<u8> {
        self.tag() + self.arguments()
    }

    /// Tells whether `data` begins with this instruction.
    pub open spec fn carried_by(self, data: Seq<u8>) -> bool {
        begins_with(data, self.encoding())
    }

    /// Writes the instruction as bytes.
    pub fn encode(&self) -> (data: Vec<u8>)
        ensures
            data@ == self.encoding(),
            self.carried_by(data@),
    {
        let data = match self {
            LinkInstruction::InitializeUserLink { school_wallet } => {
                let mut data = initialize_user_link_tag_bytes();
                school_wallet.append_to(&mut data);
                data
            },
            LinkInstruction::UpdateSchoolWallet { new_school_wallet } => {
                let mut data = update_school_wallet_tag_bytes();
                new_school_wallet.append_to(&mut data);
                data
            },
            LinkInstruction::RemoveSchoolLink => {
                let data = remove_school_link_tag_bytes();
                assert(data@ =~= self.encoding());
                data
            },
        };
        assert(data@.subrange(0, data@.len() as int) =~= data@);
        data
    }

    /// Reads the instruction that `data` begins with. Data that begins with
    /// no instruction of the registry gives none.
    pub fn decode(data: &[u8]) -> (instruction: Option<LinkInstruction>)
        ensures
            instruction matches Some(found) ==> found.carried_by(data@),
            instruction is None ==> forall|any: LinkInstruction| !(#[trigger] any.carried_by(data@)),
    {
        proof {
            assert forall|any: LinkInstruction| #[trigger]
                any.carried_by(data@) implies begins_with(data@, any.tag()) && data@.len()
                >= any.tag().len() + any.arguments().len() by {
                carried_begins_with_tag(data@, any);
            }
        }
        if starts_with(data, initialize_user_link_tag_bytes().as_slice()) {
            if data.len() < 40 {
                return None;
            }
            let found = LinkInstruction::InitializeUserLink {
                school_wallet: Address::read_from(data, 8),
            };
            assert(data@.subrange(0, 40) =~= found.encoding());
            Some(found)
        } else if starts_with(data, update_school_wallet_tag_bytes().as_slice()) {
            if data.len() < 40 {
                return None;
            }
            let found = LinkInstruction::UpdateSchoolWallet {
                new_school_wallet: Address::read_from(data, 8),
            };
            assert(data@.subrange(0, 40) =~= found.encoding());
            Some(found)
        } else if starts_with(data, remove_school_link_tag_bytes().as_slice()) {
            assert(LinkInstruction::RemoveSchoolLink.encoding() =~= remove_school_link_tag());
            Some(LinkInstruction::RemoveSchoolLink)
        } else {
            None
        }
    }
}

/// Data that begins with an instruction begins with its tag, and is long
/// enough for its arguments. No two tags of the registry begin alike.
proof fn carried_begins_with_tag(data: Seq<u8>, any: LinkInstruction)
    requires
        any.carried_by(data),
    ensures
        begins_with(data, any.tag()),
        data.len() >= any.tag().len() + any.arguments().len(),
        data[0] == any.tag()[0],
{
    let encoded = any.encoding();
    assert(data.subrange(0, 8) =~= encoded.subrange(0, 8)) by {
        assert forall|k: int| 0 <= k < 8 implies data.subrange(0, 8)[k] == encoded.subrange(0, 8)[k] by {
            assert(data.subrange(0, encoded.len() as int)[k] == encoded[k]);
        }
    }
    assert(encoded.subrange(0, 8) =~= any.tag());
    assert(data.subrange(0, 8)[0] == data[0]);
}

/// Data begins with at most one instruction of the registry.
pub proof fn carried_instruction_is_unique(data: Seq<u8>, first: LinkInstruction, second: LinkInstruction)
    requires
        first.carried_by(data),
        second.carried_by(data),
    ensures
        first == second,
{
    let a = first.encoding();
    let b = second.encoding();
    carried_begins_with_tag(data, first);
    carried_begins_with_tag(data, second);
    match (first, second) {
        (
            LinkInstruction::InitializeUserLink { school_wallet: x },
            LinkInstruction::InitializeUserLink { school_wallet: y },
        ) => {
            assert(x@ =~= data.subrange(0, a.len() as int).subrange(8, 40));
            assert(y@ =~= data.subrange(0, b.len() as int).subrange(8, 40));
            address_determined_by_bytes(x, y);
        },
        (
            LinkInstruction::UpdateSchoolWallet { new_school_wallet: x },
            LinkInstruction::UpdateSchoolWallet { new_school_wallet: y },
        ) => {
            assert(x@ =~= data.subrange(0, a.len() as int).subrange(8, 40));
            assert(y@ =~= data.subrange(0, b.len() as int).subrange(8, 40));
            address_determined_by_bytes(x, y);
        },
        _ => {},
    }
}

/// An instruction that was written reads back, whatever follows it.
pub proof fn instruction_reads_back(instruction: LinkInstruction, rest: Seq<u8>)
    ensures
        instruction.carried_by(instruction.encoding() + rest),
{
    let data = instruction.encoding() + rest;
    assert(data.subrange(0, instruction.encoding().len() as int) =~= instruction.encoding());
}

/// An instruction of the token module.
#[derive(Debug, PartialEq, Eq)]
pub enum TokenInstruction {
    /// Create the mint. The name and the symbol come as their bytes.
    InitializeToken { name: Vec<u8>, symbol: Vec<u8>, decimals: u8, institution_ops_wallet: Address },
    /// Designate the institution that receives the signer's institution fee.
    SetInstitutionWallet { institution_wallet: Address },
    /// Write the resolution table of a mint.
    InitializeExtraAccountMetaList,
    /// Run the transfer hook for a transfer of `amount`.
    Execute { amount: u64 },
}

/// An instruction of the token module as the contracts see it.
pub enum TokenInstructionView {
    InitializeToken { name: Seq<u8>, symbol: Seq<u8>, decimals: u8, institution_ops_wallet: Seq<u8> },
    SetInstitutionWallet { institution_wallet: Seq<u8> },
    InitializeExtraAccountMetaList,
    Execute { amount: u64 },
}

impl View for TokenInstruction {
    type V = TokenInstructionView;

    open spec fn view(&self) -> TokenInstructionView {
        match *self {
            TokenInstruction::InitializeToken { name, symbol, decimals, institution_ops_wallet } => {
                TokenInstructionView::InitializeToken {
                    name: name@,
                    symbol: symbol@,
                    decimals,
                    institution_ops_wallet: institution_ops_wallet@,
                }
            },
            TokenInstruction::SetInstitutionWallet { institution_wallet } => {
                TokenInstructionView::SetInstitutionWallet { institution_wallet: institution_wallet@ }
            },
            TokenInstruction::InitializeExtraAccountMetaList => {
                TokenInstructionView::InitializeExtraAccountMetaList
            },
            TokenInstruction::Execute { amount } => TokenInstructionView::Execute { amount },
        }
    }
}

/// The plain-value form of an optional instruction.
pub open spec fn token_instruction_view(instruction: Option<TokenInstruction>) -> Option<
    TokenInstructionView,
> {
    match instruction {
        Some(i) => Some(i@),
        None => None,
    }
}

/// A text as bytes: its length as four little-endian bytes, then its bytes.
pub open spec fn text_encoding(text: Seq<u8>) -> Seq<u8> {
    spec_u32_to_le_bytes(text.len() as u32) + text
}

/// Reads a text from the front of `input`: the text and what follows it.
pub open spec fn parse_text(input: Seq<u8>) -> Option<(Seq<u8>, Seq<u8>)> {
    if input.len() >= 4 && input.len() - 4 >= spec_u32_from_le_bytes(input.subrange(0, 4)) {
        let length = spec_u32_from_le_bytes(input.subrange(0, 4)) as int;
        Some((input.subrange(4, 4 + length), input.skip(4 + length)))
    } else {
        None
    }
}

/// Reads the arguments of `initialize_token`: name, symbol, decimals,
/// operations wallet.
pub open spec fn parse_initialize_token(input: Seq<u8>) -> Option<TokenInstructionView> {
    match parse_text(input) {
        None => None,
        Some((name, after_name)) => match parse_text(after_name) {
            None => None,
            Some((symbol, rest)) => if rest.len() >= 33 {
                Some(
                    TokenInstructionView::InitializeToken {
                        name,
                        symbol,
                        decimals: rest[0],
                        institution_ops_wallet: rest.subrange(1, 33),
                    },
                )
            } else {
                None
            },
        },
    }
}

/// Reads the instruction of the token module that `data` begins with.
pub open spec fn parse_token_instruction(data: Seq<u8>) -> Option<TokenInstructionView> {
    if begins_with(data, initialize_token_tag()) {
        parse_initialize_token(data.skip(8))
    } else if begins_with(data, set_institution_wallet_tag()) {
        if data.len() >= 40 {
            Some(TokenInstructionView::SetInstitutionWallet { institution_wallet: data.subrange(8, 40) })
        } else {
            None
        }
    } else if begins_with(data, initialize_table_tag()) {
        Some(TokenInstructionView::InitializeExtraAccountMetaList)
    } else if begins_with(data, execute_tag()) {
        if data.len() >= 16 {
            Some(TokenInstructionView::Execute { amount: spec_u64_from_le_bytes(data.subrange(8, 16)) })
        } else {
            None
        }
    } else {
        None
    }
}

/// Tells whether an instruction can be written: its addresses are
/// thirty-two bytes and its texts short enough for their length field.
pub open spec fn token_instruction_encodable(instruction: TokenInstructionView) -> bool {
    match instruction {
        TokenInstructionView::InitializeToken { name, symbol, institution_ops_wallet, .. } => {
            name.len() <= u32::MAX && symbol.len() <= u32::MAX && institution_ops_wallet.len() == 32
        },
        TokenInstructionView::SetInstitutionWallet { institution_wallet } => institution_wallet.len()
            == 32,
        _ => true,
    }
}

/// An instruction of the token module as bytes: tag, then arguments.
pub open spec fn token_instruction_encoding(instruction: TokenInstructionView) -> Seq<u8> {
    match instruction {
        TokenInstructionView::InitializeToken { name, symbol, decimals, institution_ops_wallet } => {
            initialize_token_tag() + text_encoding(name) + text_encoding(symbol) + seq![decimals]
                + institution_ops_wallet
        },
        TokenInstructionView::SetInstitutionWallet { institution_wallet } => {
            set_institution_wallet_tag() + institution_wallet
        },
        TokenInstructionView::InitializeExtraAccountMetaList => initialize_table_tag(),
        TokenInstructionView::Execute { amount } => execute_tag() + spec_u64_to_le_bytes(amount),
    }
}

/// A text that was written reads back, whatever follows it.
pub proof fn text_reads_back(text: Seq<u8>, rest: Seq<u8>)
    requires
        text.len() <= u32::MAX,
    ensures
        parse_text(text_encoding(text) + rest) == Some((text, rest)),
{
    lemma_auto_spec_u32_to_from_le_bytes();
    let input = text_encoding(text) + rest;
    assert(input.subrange(0, 4) =~= spec_u32_to_le_bytes(text.len() as u32));
    assert(input.subrange(4, 4 + text.len() as int) =~= text);
    assert(input.skip(4 + text.len() as int) =~= rest);
}

/// An instruction of the token module that was written reads back, whatever
/// follows it.
pub proof fn token_instruction_reads_back(instruction: TokenInstructionView, rest: Seq<u8>)
    requires
        token_instruction_encodable(instruction),
    ensures
        parse_token_instruction(token_instruction_encoding(instruction) + rest) == Some(instruction),
{
    lemma_auto_spec_u64_to_from_le_bytes();
    let data = token_instruction_encoding(instruction) + rest;
    match instruction {
        TokenInstructionView::InitializeToken { name, symbol, decimals, institution_ops_wallet } => {
            let tail = seq![decimals] + institution_ops_wallet + rest;
            let after_name = text_encoding(symbol) + tail;
            assert(data.subrange(0, 8) =~= initialize_token_tag());
            assert(data.skip(8) =~= text_encoding(name) + after_name);
            text_reads_back(name, after_name);
            text_reads_back(symbol, tail);
            assert(tail[0] == decimals);
            assert(tail.subrange(1, 33) =~= institution_ops_wallet);
        },
        TokenInstructionView::SetInstitutionWallet { institution_wallet } => {
            assert(data.subrange(0, 8) =~= set_institution_wallet_tag());
            assert(data.subrange(0, 8)[0] == data[0]);
            assert(data.subrange(8, 40) =~= institution_wallet);
        },
        TokenInstructionView::InitializeExtraAccountMetaList => {
            assert(data.subrange(0, 8) =~= initialize_table_tag());
            assert(data.subrange(0, 8)[0] == data[0]);
        },
        TokenInstructionView::Execute { amount } => {
            assert(data.subrange(0, 8) =~= execute_tag());
            assert(data.subrange(0, 8)[0] == data[0]);
            assert(data.subrange(8, 16) =~= spec_u64_to_le_bytes(amount));
        },
    }
}

/// Reads a text from `data` at `at`: the text and the place after it.
fn read_text_at(data: &[u8], at: usize) -> (read: Option<(Vec<u8>, usize)>)
    requires
        at <= data@.len(),
    ensures
        match parse_text(data@.skip(at as int)) {
            Some((text, rest)) => read matches Some((t, next)) && t@ == text && at <= next
                <= data@.len() && data@.skip(next as int) == rest,
            None => read is None,
        },
{
    let total: usize = data.len();
    let ghost input = data@.skip(at as int);
    if total - at < 4 {
        return None;
    }
    assert(data@.subrange(at as int, at + 4) =~= input.subrange(0, 4));
    let length = u32_from_le_bytes(slice_subrange(data, at, at + 4)) as usize;
    if total - at - 4 < length {
        return None;
    }
    let text = slice_to_vec(slice_subrange(data, at + 4, at + 4 + length));
    assert(text@ =~= input.subrange(4, 4 + length));
    assert(data@.skip((at + 4 + length) as int) =~= input.skip(4 + length));
    Some((text, at + 4 + length))
}

impl TokenInstruction {
    /// Reads the instruction of the token module that `data` begins with.
    /// Data that begins with none gives none.
    pub fn decode(data: &[u8]) -> (instruction: Option<TokenInstruction>)
        ensures
            token_instruction_view(instruction) == parse_token_instruction(data@),
    {
        if starts_with(data, initialize_token_tag_bytes().as_slice()) {
            let (name, after_name) = match read_text_at(data, 8) {
                Some(read) => read,
                None => { return None; },
            };
            let (symbol, next) = match read_text_at(data, after_name) {
                Some(read) => read,
                None => { return None; },
            };
            if data.len() - next < 33 {
                return None;
            }
            let ghost rest = data@.skip(next as int);
            let decimals = data[next];
            let institution_ops_wallet = Address::read_from(data, next + 1);
            assert(rest[0] == decimals);
            assert(institution_ops_wallet@ =~= rest.subrange(1, 33));
            Some(TokenInstruction::InitializeToken { name, symbol, decimals, institution_ops_wallet })
        } else if starts_with(data, set_institution_wallet_tag_bytes().as_slice()) {
            if data.len() < 40 {
                return None;
            }
            Some(
                TokenInstruction::SetInstitutionWallet {
                    institution_wallet: Address::read_from(data, 8),
                },
            )
        } else if starts_with(data, initialize_table_tag_bytes().as_slice()) {
            Some(TokenInstruction::InitializeExtraAccountMetaList)
        } else if starts_with(data, execute_tag_bytes().as_slice()) {
            if data.len() < 16 {
                return None;
            }
            Some(TokenInstruction::Execute { amount: u64_from_le_bytes(slice_subrange(data, 8, 16)) })
        } else {
            None
        }
    }
}

/// An instruction of the program: of the registry, or of the token module.
#[derive(Debug, PartialEq, Eq)]
pub enum ProgramInstruction {
    Link(LinkInstruction),
    Token(TokenInstruction),
}

impl ProgramInstruction {
    /// Reads the instruction that `data` begins with: the registry's where
    /// it begins with one, else the token module's. Data that begins with
    /// neither gives none.
    pub fn decode(data: &[u8]) -> (instruction: Option<ProgramInstruction>)
        ensures
            match instruction {
                Some(ProgramInstruction::Link(found)) => found.carried_by(data@),
                Some(ProgramInstruction::Token(found)) => {
                    &&& forall|any: LinkInstruction| !(#[trigger] any.carried_by(data@))
                    &&& parse_token_instruction(data@) == Some(found@)
                },
                None => {
                    &&& forall|any: LinkInstruction| !(#[trigger] any.carried_by(data@))
                    &&& parse_token_instruction(data@) is None
                },
            },
    {
        match LinkInstruction::decode(data) {
            Some(found) => Some(ProgramInstruction::Link(found)),
            None => match TokenInstruction::decode(data) {
                Some(found) => Some(ProgramInstruction::Token(found)),
                None => None,
            },
        }
    }
}

} // verus!
