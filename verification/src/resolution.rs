//! The extra-account resolution table of the transfer hook.
//!
//! A caller of a transfer knows nothing of the hook's own accounts. The table
//! tells it how to find them: an ordered list of rules, each deriving one
//! account address from seeds. A seed is a literal, the address of an account
//! already in the instruction's account list, or a range of bytes stored in
//! such an account. The accounts a rule derives are appended to the list in
//! the order of the rules, so a later rule may read an earlier one's account.
//!
//! Resolution runs in passes. A pass derives every account whose seeds can be
//! had from what is known; the host then loads the data of the accounts found;
//! the next pass derives those that read it.

use vstd::prelude::*;
use vstd::slice::{slice_subrange, slice_to_vec};
use crate::address::Address;
use crate::pda::{found_program_address, found_view, seeds_view, try_find_program_address};

verus! {

/// One seed of a rule.
#[derive(Debug, PartialEq, Eq)]
pub enum Seed {
    /// These bytes.
    Literal { bytes: Vec<u8> },
    /// The address of the account at `index` of the account list.
    AccountKey { index: u8 },
    /// The `length` bytes from `data_index` on in the data of the account at
    /// `account_index` of the account list.
    AccountData { account_index: u8, data_index: u8, length: u8 },
}

/// A seed as the contracts see it.
pub enum SeedView {
    Literal { bytes: Seq<u8> },
    AccountKey { index: u8 },
    AccountData { account_index: u8, data_index: u8, length: u8 },
}

impl View for Seed {
    type V = SeedView;

    open spec fn view(&self) -> SeedView {
        match *self {
            Seed::Literal { bytes } => SeedView::Literal { bytes: bytes@ },
            Seed::AccountKey { index } => SeedView::AccountKey { index },
            Seed::AccountData { account_index, data_index, length } => SeedView::AccountData {
                account_index,
                data_index,
                length,
            },
        }
    }
}

/// One rule of the table: how to derive one extra account, and how the hook
/// uses it.
#[derive(Debug, PartialEq, Eq)]
pub struct ExtraAccountRule {
    /// The program under which the address is derived.
    pub program: Address,
    /// The seeds, in order.
    pub seeds: Vec<Seed>,
    /// Whether the account must sign.
    pub is_signer: bool,
    /// Whether the account is written to.
    pub is_writable: bool,
}

/// A rule as the contracts see it.
pub struct RuleView {
    pub program: Seq<u8>,
    pub seeds: Seq<SeedView>,
    pub is_signer: bool,
    pub is_writable: bool,
}

impl View for ExtraAccountRule {
    type V = RuleView;

    open spec fn view(&self) -> RuleView {
        RuleView {
            program: self.program@,
            seeds: Seq::new(self.seeds@.len(), |i: int| self.seeds@[i]@),
            is_signer: self.is_signer,
            is_writable: self.is_writable,
        }
    }
}

/// The rules of a table as the contracts see them.
pub open spec fn rules_view(rules: Seq<ExtraAccountRule>) -> Seq<RuleView> {
    Seq::new(rules.len(), |i: int| rules[i]@)
}

/// An account of the instruction's account list, as far as it is known: its
/// address, and its stored data once the host has loaded it.
#[derive(Debug, PartialEq, Eq)]
pub struct AccountEntry {
    pub key: Address,
    pub data: Option<Vec<u8>>,
}

/// An account entry as the contracts see it.
pub struct EntryView {
    pub key: Seq<u8>,
    pub data: Option<Seq<u8>>,
}

impl View for AccountEntry {
    type V = EntryView;

    open spec fn view(&self) -> EntryView {
        EntryView {
            key: self.key@,
            data: match self.data {
                Some(bytes) => Some(bytes@),
                None => None,
            },
        }
    }
}

/// The account list as the contracts see it: one place per account, empty
/// where the account is not known yet.
pub open spec fn slots_view(slots: Seq<Option<AccountEntry>>) -> Seq<Option<EntryView>> {
    Seq::new(
        slots.len(),
        |i: int|
            match slots[i] {
                Some(entry) => Some(entry@),
                None => None,
            },
    )
}

/// The bytes a seed stands for, given what is known of the account list, or
/// nothing where the account it names is not known, its data is not loaded,
/// or the range lies outside the data.
pub open spec fn seed_bytes(seed: SeedView, slots: Seq<Option<EntryView>>) -> Option<Seq<u8>> {
    match seed {
        SeedView::Literal { bytes } => Some(bytes),
        SeedView::AccountKey { index } => if index < slots.len() && slots[index as int] is Some {
            Some(slots[index as int].unwrap().key)
        } else {
            None
        },
        SeedView::AccountData { account_index, data_index, length } => if account_index
            < slots.len() && slots[account_index as int] is Some && slots[account_index as int].unwrap().data
            is Some && data_index + length <= slots[account_index as int].unwrap().data.unwrap().len() {
            Some(
                slots[account_index as int].unwrap().data.unwrap().subrange(
                    data_index as int,
                    data_index + length,
                ),
            )
        } else {
            None
        },
    }
}

/// Tells whether every seed can be had from what is known.
pub open spec fn seeds_available(seeds: Seq<SeedView>, slots: Seq<Option<EntryView>>) -> bool {
    forall|i: int| 0 <= i < seeds.len() ==> (#[trigger] seed_bytes(seeds[i], slots)) is Some
}

/// The bytes of all seeds, in order. Meaningful where they are available.
pub open spec fn gathered(seeds: Seq<SeedView>, slots: Seq<Option<EntryView>>) -> Seq<Seq<u8>> {
    Seq::new(seeds.len(), |i: int| seed_bytes(seeds[i], slots).unwrap())
}

/// Reads the bytes one seed stands for.
pub fn read_seed(seed: &Seed, slots: &Vec<Option<AccountEntry>>) -> (bytes: Option<Vec<u8>>)
    ensures
        match seed_bytes(seed@, slots_view(slots@)) {
            Some(expected) => bytes matches Some(b) && b@ == expected,
            None => bytes is None,
        },
{
    match seed {
        Seed::Literal { bytes } => Some(slice_to_vec(bytes.as_slice())),
        Seed::AccountKey { index } => {
            let at: usize = *index as usize;
            if at >= slots.len() {
                return None;
            }
            match &slots[at] {
                Some(entry) => Some(entry.key.to_vec()),
                None => None,
            }
        },
        Seed::AccountData { account_index, data_index, length } => {
            let at: usize = *account_index as usize;
            if at >= slots.len() {
                return None;
            }
            let entry = match &slots[at] {
                Some(entry) => entry,
                None => { return None; },
            };
            let data = match &entry.data {
                Some(data) => data,
                None => { return None; },
            };
            let start: usize = *data_index as usize;
            let end: usize = start + *length as usize;
            if end > data.len() {
                return None;
            }
            Some(slice_to_vec(slice_subrange(data.as_slice(), start, end)))
        },
    }
}

/// Reads the bytes of all seeds of a rule, or nothing where one of them
/// cannot be had yet.
pub fn gather_seeds(seeds: &Vec<Seed>, slots: &Vec<Option<AccountEntry>>) -> (bytes: Option<Vec<Vec<u8>>>)
    ensures
        bytes is Some <==> seeds_available(Seq::new(seeds@.len(), |i: int| seeds@[i]@), slots_view(slots@)),
        bytes matches Some(b) ==> seeds_view(b@) == gathered(
            Seq::new(seeds@.len(), |i: int| seeds@[i]@),
            slots_view(slots@),
        ),
{
    let ghost views = Seq::new(seeds@.len(), |i: int| seeds@[i]@);
    let ghost known = slots_view(slots@);
    let mut out: Vec<Vec<u8>> = Vec::new();
    let mut i: usize = 0;
    while i < seeds.len()
        invariant
            i <= seeds.len(),
            views == Seq::new(seeds@.len(), |k: int| seeds@[k]@),
            known == slots_view(slots@),
            out@.len() == i,
            forall|k: int| 0 <= k < i ==> (#[trigger] seed_bytes(views[k], known)) is Some,
            forall|k: int| 0 <= k < i ==> (#[trigger] out@[k])@ == seed_bytes(views[k], known).unwrap(),
        decreases seeds.len() - i,
    {
        match read_seed(&seeds[i], slots) {
            Some(bytes) => {
                out.push(bytes);
            },
            None => {
                assert(seed_bytes(views[i as int], known) is None);
                return None;
            },
        }
        i += 1;
    }
    assert(seeds_view(out@) =~= gathered(views, known));
    Some(out)
}

/// Why a resolution did not go through.
#[derive(Clone, Copy, Debug, PartialEq, Eq, Structural)]
pub enum ResolveError {
    /// The account list does not have one place per base account and rule.
    WrongShape,
    /// No address can be derived from the seeds of some rule.
    NoAddress,
}

/// The account list after the address `derived` for a rule has been put in
/// the rule's place `at`: the place holds the address, with no data loaded.
pub open spec fn placed(slots: Seq<Option<EntryView>>, at: int, derived: Option<(Seq<u8>, u8)>) -> Option<
    Seq<Option<EntryView>>,
> {
    match derived {
        Some((address, _)) => Some(slots.update(at, Some(EntryView { key: address, data: None }))),
        None => None,
    }
}

/// What one rule does to the account list in a pass, `at` being the place of
/// its account. A place already filled stays as it is; so does an empty one
/// whose seeds cannot all be had yet. Otherwise the derived address fills the
/// place, with no data loaded. Nothing comes back where the derivation finds
/// no address.
pub open spec fn rule_step(rule: RuleView, slots: Seq<Option<EntryView>>, at: int) -> Option<
    Seq<Option<EntryView>>,
> {
    if slots[at] is Some || !seeds_available(rule.seeds, slots) {
        Some(slots)
    } else {
        placed(slots, at, found_program_address(gathered(rule.seeds, slots), rule.program))
    }
}

/// The account list after the first `count` rules have had their turn in a
/// pass, the account of rule `i` having the place `base + i`.
pub open spec fn pass_upto(
    rules: Seq<RuleView>,
    slots: Seq<Option<EntryView>>,
    base: int,
    count: nat,
) -> Option<Seq<Option<EntryView>>>
    decreases count,
{
    if count == 0 {
        Some(slots)
    } else {
        match pass_upto(rules, slots, base, (count - 1) as nat) {
            Some(before) => rule_step(rules[count - 1], before, base + count - 1),
            None => None,
        }
    }
}

/// The account list after one pass over all rules.
pub open spec fn pass(rules: Seq<RuleView>, slots: Seq<Option<EntryView>>, base: int) -> Option<
    Seq<Option<EntryView>>,
> {
    pass_upto(rules, slots, base, rules.len())
}

/// A pass that has failed at some rule has failed for good.
proof fn failed_pass_stays_failed(
    rules: Seq<RuleView>,
    slots: Seq<Option<EntryView>>,
    base: int,
    failed: nat,
    count: nat,
)
    requires
        failed <= count,
        pass_upto(rules, slots, base, failed) is None,
    ensures
        pass_upto(rules, slots, base, count) is None,
    decreases count,
{
    if failed < count {
        failed_pass_stays_failed(rules, slots, base, failed, (count - 1) as nat);
    }
}

/// Puts the address `derived` for a rule in the rule's place `at`. Where the
/// derivation found no address the list stays as it is and the outcome is
/// `NoAddress`; a place outside the list is `WrongShape`.
pub fn place_derived(slots: &mut Vec<Option<AccountEntry>>, at: usize, derived: Option<(Address, u8)>) -> (outcome:
    Result<(), ResolveError>)
    ensures
        final(slots)@.len() == old(slots)@.len(),
        at >= old(slots)@.len() ==> outcome == Err::<(), ResolveError>(ResolveError::WrongShape)
            && *final(slots) == *old(slots),
        at < old(slots)@.len() ==> match placed(slots_view(old(slots)@), at as int, found_view(derived)) {
            Some(after) => outcome is Ok && slots_view(final(slots)@) == after,
            None => outcome == Err::<(), ResolveError>(ResolveError::NoAddress) && *final(slots)
                == *old(slots),
        },
{
    if at >= slots.len() {
        return Err(ResolveError::WrongShape);
    }
    match derived {
        Some((address, _)) => {
            let ghost before = slots_view(slots@);
            slots[at] = Some(AccountEntry { key: address, data: None });
            assert(slots_view(slots@) =~= before.update(
                at as int,
                Some(EntryView { key: address@, data: None }),
            ));
            Ok(())
        },
        None => Err(ResolveError::NoAddress),
    }
}

/// Runs one pass over the rules: fills every empty place whose rule can have
/// all its seeds from the accounts known so far, in the order of the rules.
///
/// `slots` holds one place per account of the instruction: `base` accounts of
/// the transfer itself, then one per rule. A list of another length is
/// refused with `WrongShape`. The pass fails with `NoAddress` where a
/// derivation finds no address. A pass that fails leaves the list as it was.
pub fn resolve_pass(rules: &Vec<ExtraAccountRule>, slots: &mut Vec<Option<AccountEntry>>, base: usize) -> (outcome:
    Result<(), ResolveError>)
    ensures
        final(slots)@.len() == old(slots)@.len(),
        old(slots)@.len() != base + rules@.len() ==> outcome == Err::<(), ResolveError>(
            ResolveError::WrongShape,
        ) && *final(slots) == *old(slots),
        old(slots)@.len() == base + rules@.len() ==> match pass(
            rules_view(rules@),
            slots_view(old(slots)@),
            base as int,
        ) {
            Some(after) => outcome is Ok && slots_view(final(slots)@) == after,
            None => outcome == Err::<(), ResolveError>(ResolveError::NoAddress) && slots_view(
                final(slots)@,
            ) == slots_view(old(slots)@),
        },
{
    let length: usize = slots.len();
    let total = match base.checked_add(rules.len()) {
        Some(total) => total,
        None => { return Err(ResolveError::WrongShape); },
    };
    if length != total {
        return Err(ResolveError::WrongShape);
    }
    let ghost views = rules_view(rules@);
    let ghost start = slots_view(slots@);
    let mut filled: Vec<bool> = Vec::new();
    let mut i: usize = 0;
    while i < rules.len()
        invariant
            i <= rules.len(),
            views == rules_view(rules@),
            base + rules@.len() <= usize::MAX,
            slots@.len() == base + rules@.len(),
            slots@.len() == old(slots)@.len(),
            start == slots_view(old(slots)@),
            pass_upto(views, start, base as int, i as nat) == Some(slots_view(slots@)),
            filled@.len() == i,
            forall|k: int| 0 <= k < i && filled@[k] ==> (#[trigger] start[base + k]) is None,
            forall|k: int|
                0 <= k < slots@.len() && !(base <= k < base + i && filled@[k - base]) ==> (
                #[trigger] slots_view(slots@)[k]) == start[k],
        decreases rules.len() - i,
    {
        let at: usize = base + i;
        let ghost before = slots_view(slots@);
        assert(views[i as int] == rules@[i as int]@);
        let mut fresh = false;
        if slots[at].is_none() {
            match gather_seeds(&rules[i].seeds, slots) {
                Some(seeds) => {
                    let derived = try_find_program_address(&seeds, &rules[i].program);
                    assert(before[at as int] == start[at as int]);
                    match place_derived(slots, at, derived) {
                        Ok(()) => {
                            fresh = true;
                        },
                        Err(_) => {
                            proof {
                                assert(pass_upto(views, start, base as int, (i + 1) as nat) is None);
                                failed_pass_stays_failed(
                                    views,
                                    start,
                                    base as int,
                                    (i + 1) as nat,
                                    views.len(),
                                );
                            }
                            empty_filled_places(slots, &filled, base, Ghost(start));
                            return Err(ResolveError::NoAddress);
                        },
                    }
                },
                None => {},
            }
        }
        filled.push(fresh);
        assert(pass_upto(views, start, base as int, (i + 1) as nat) == Some(slots_view(slots@)));
        i += 1;
    }
    Ok(())
}

/// Empties again the places that a pass has filled, `filled` saying for each
/// rule so far whether its place was filled, `start` being the list before
/// the pass.
fn empty_filled_places(
    slots: &mut Vec<Option<AccountEntry>>,
    filled: &Vec<bool>,
    base: usize,
    Ghost(start): Ghost<Seq<Option<EntryView>>>,
)
    requires
        base + filled@.len() <= old(slots)@.len(),
        start.len() == old(slots)@.len(),
        forall|k: int| 0 <= k < filled@.len() && filled@[k] ==> (#[trigger] start[base + k]) is None,
        forall|k: int|
            0 <= k < old(slots)@.len() && !(base <= k < base + filled@.len() && filled@[k - base])
                ==> (#[trigger] slots_view(old(slots)@)[k]) == start[k],
    ensures
        slots_view(final(slots)@) == start,
        final(slots)@.len() == old(slots)@.len(),
{
    let length: usize = slots.len();
    let mut k: usize = 0;
    while k < filled.len()
        invariant
            k <= filled@.len(),
            length == slots@.len(),
            base + filled@.len() <= slots@.len(),
            slots@.len() == old(slots)@.len(),
            start.len() == slots@.len(),
            forall|n: int|
                0 <= n < filled@.len() && filled@[n] ==> (#[trigger] start[base + n]) is None,
            forall|n: int|
                0 <= n < slots@.len() && !(base + k <= n < base + filled@.len() && filled@[n - base])
                    ==> (#[trigger] slots_view(slots@)[n]) == start[n],
        decreases filled.len() - k,
    {
        if filled[k] {
            let ghost before = slots_view(slots@);
            assert(start[base + k] is None);
            slots[base + k] = None;
            assert(slots_view(slots@) =~= before.update(base + k, None));
        }
        k += 1;
    }
    assert(slots_view(slots@) =~= start);
}

/// Stores the data the host has loaded for the account at `index`. A place
/// that is empty or outside the list is left alone.
pub fn load_account_data(slots: &mut Vec<Option<AccountEntry>>, index: usize, data: Vec<u8>) -> (loaded: bool)
    ensures
        final(slots)@.len() == old(slots)@.len(),
        loaded == (index < old(slots)@.len() && old(slots)@[index as int] is Some),
        loaded ==> slots_view(final(slots)@) == slots_view(old(slots)@).update(
            index as int,
            Some(EntryView { key: old(slots)@[index as int].unwrap().key@, data: Some(data@) }),
        ),
        !loaded ==> *final(slots) == *old(slots),
{
    if index >= slots.len() {
        return false;
    }
    let key = match &slots[index] {
        Some(entry) => entry.key,
        None => { return false; },
    };
    let ghost before = slots_view(slots@);
    let ghost bytes = data@;
    slots[index] = Some(AccountEntry { key, data: Some(data) });
    assert(slots_view(slots@) =~= before.update(
        index as int,
        Some(EntryView { key: key@, data: Some(bytes) }),
    ));
    true
}

/// An extra account as the caller of the hook has to supply it.
#[derive(Clone, Copy, Debug, PartialEq, Eq)]
pub struct ResolvedAccount {
    pub address: Address,
    pub is_signer: bool,
    pub is_writable: bool,
}

/// Tells whether every rule's account is known.
pub open spec fn fully_resolved(rule_count: int, slots: Seq<Option<EntryView>>, base: int) -> bool {
    &&& slots.len() == base + rule_count
    &&& forall|i: int| base <= i < slots.len() ==> (#[trigger] slots[i]) is Some
}

/// Lists the extra accounts in the order of their rules, once every one of
/// them is known; nothing comes back while one is missing.
pub fn extra_accounts(rules: &Vec<ExtraAccountRule>, slots: &Vec<Option<AccountEntry>>, base: usize) -> (accounts:
    Option<Vec<ResolvedAccount>>)
    ensures
        accounts is Some <==> fully_resolved(rules@.len() as int, slots_view(slots@), base as int),
        accounts matches Some(list) ==> {
            &&& list@.len() == rules@.len()
            &&& forall|i: int|
                0 <= i < list@.len() ==> {
                    &&& (#[trigger] list@[i]).address@ == slots_view(slots@)[base + i].unwrap().key
                    &&& list@[i].is_signer == rules@[i].is_signer
                    &&& list@[i].is_writable == rules@[i].is_writable
                }
        },
{
    let length: usize = slots.len();
    let total = match base.checked_add(rules.len()) {
        Some(total) => total,
        None => { return None; },
    };
    if length != total {
        return None;
    }
    let ghost known = slots_view(slots@);
    let mut list: Vec<ResolvedAccount> = Vec::new();
    let mut i: usize = 0;
    while i < rules.len()
        invariant
            i <= rules.len(),
            base + rules@.len() <= usize::MAX,
            slots@.len() == base + rules@.len(),
            known == slots_view(slots@),
            list@.len() == i,
            forall|k: int| base <= k < base + i ==> (#[trigger] known[k]) is Some,
            forall|k: int|
                0 <= k < i ==> {
                    &&& (#[trigger] list@[k]).address@ == known[base + k].unwrap().key
                    &&& list@[k].is_signer == rules@[k].is_signer
                    &&& list@[k].is_writable == rules@[k].is_writable
                },
        decreases rules.len() - i,
    {
        match &slots[base + i] {
            Some(entry) => {
                list.push(
                    ResolvedAccount {
                        address: entry.key,
                        is_signer: rules[i].is_signer,
                        is_writable: rules[i].is_writable,
                    },
                );
            },
            None => {
                assert(known[base + i] is None);
                return None;
            },
        }
        i += 1;
    }
    Some(list)
}

} // verus!
