//! The stored form of a resolution table.
//!
//! A table is stored as one tag-length-value record:
//!
//! ```text
//! table := TAG[8] LENGTH[4] COUNT[4] rule*      LENGTH counts every byte after itself
//! rule  := PROGRAM[32] SIGNER[1] WRITABLE[1] SEEDS[1] seed*
//! seed  := 1 LEN bytes[LEN]                     a literal
//!        | 3 INDEX                              the address of an account
//!        | 4 ACCOUNT START LEN                  a range of an account's data
//! ```
//!
//! LENGTH and COUNT are little-endian, SIGNER and WRITABLE are 0 or 1, COUNT
//! is the number of rules and SEEDS the number of seeds of a rule. The tag is
//! the one under which the token program looks up the accounts of the hook's
//! execute instruction. A literal of more than 255 bytes and a rule of more
//! than 255 seeds have no stored form.
//!
//! Reading is the exact inverse of writing: what was written reads back as
//! the same table, and bytes read as a table only if writing that table gives
//! those bytes again.

use vstd::prelude::*;
use vstd::bytes::{
    lemma_auto_spec_u32_to_from_le_bytes, spec_u32_from_le_bytes, spec_u32_to_le_bytes,
    u32_from_le_bytes, u32_to_le_bytes,
};
use vstd::slice::{slice_subrange, slice_to_vec};
use crate::address::Address;
use crate::bytes::starts_with;
use crate::resolution::{rules_view, ExtraAccountRule, RuleView, Seed, SeedView};

verus! {

/// Leading byte of a stored literal seed.
pub const SEED_LITERAL: u8 = 1;

/// Leading byte of a stored account-key seed.
pub const SEED_ACCOUNT_KEY: u8 = 3;

/// Leading byte of a stored account-data seed.
pub const SEED_ACCOUNT_DATA: u8 = 4;

/// Tells whether a seed has a stored form.
pub open spec fn seed_encodable(seed: SeedView) -> bool {
    match seed {
        SeedView::Literal { bytes } => bytes.len() <= 255,
        _ => true,
    }
}

/// The stored form of a seed.
pub open spec fn seed_encoding(seed: SeedView) -> Seq<u8> {
    match seed {
        SeedView::Literal { bytes } => seq![SEED_LITERAL, bytes.len() as u8] + bytes,
        SeedView::AccountKey { index } => seq![SEED_ACCOUNT_KEY, index],
        SeedView::AccountData { account_index, data_index, length } => seq![
            SEED_ACCOUNT_DATA,
            account_index,
            data_index,
            length,
        ],
    }
}

/// Reads one seed from the front of `input`: the seed and what follows it.
pub open spec fn parse_seed(input: Seq<u8>) -> Option<(SeedView, Seq<u8>)> {
    if input.len() >= 2 && input[0] == SEED_LITERAL && input.len() >= 2 + input[1] {
        Some((SeedView::Literal { bytes: input.subrange(2, 2 + input[1]) }, input.skip(2 + input[1])))
    } else if input.len() >= 2 && input[0] == SEED_ACCOUNT_KEY {
        Some((SeedView::AccountKey { index: input[1] }, input.skip(2)))
    } else if input.len() >= 4 && input[0] == SEED_ACCOUNT_DATA {
        Some(
            (
                SeedView::AccountData {
                    account_index: input[1],
                    data_index: input[2],
                    length: input[3],
                },
                input.skip(4),
            ),
        )
    } else {
        None
    }
}

/// A seed that was written reads back, whatever follows it.
pub proof fn seed_reads_back(seed: SeedView, rest: Seq<u8>)
    requires
        seed_encodable(seed),
    ensures
        parse_seed(seed_encoding(seed) + rest) == Some((seed, rest)),
{
    let input = seed_encoding(seed) + rest;
    match seed {
        SeedView::Literal { bytes } => {
            assert(input[0] == SEED_LITERAL);
            assert(input[1] == bytes.len() as u8);
            assert(input.subrange(2, 2 + input[1]) =~= bytes);
            assert(input.skip(2 + input[1]) =~= rest);
        },
        SeedView::AccountKey { index } => {
            assert(input[0] == SEED_ACCOUNT_KEY);
            assert(input.skip(2) =~= rest);
        },
        SeedView::AccountData { account_index, data_index, length } => {
            assert(input[0] == SEED_ACCOUNT_DATA);
            assert(input.skip(4) =~= rest);
        },
    }
}

/// What reads as a seed is that seed's stored form, followed by the rest.
pub proof fn seed_writes_back(input: Seq<u8>)
    requires
        parse_seed(input) is Some,
    ensures
        seed_encodable(parse_seed(input).unwrap().0),
        input == seed_encoding(parse_seed(input).unwrap().0) + parse_seed(input).unwrap().1,
{
    let seed = parse_seed(input).unwrap().0;
    let rest = parse_seed(input).unwrap().1;
    assert(input =~= seed_encoding(seed) + rest);
}

/// Tells whether a seed has a stored form.
pub fn seed_has_stored_form(seed: &Seed) -> (encodable: bool)
    ensures
        encodable == seed_encodable(seed@),
{
    match seed {
        Seed::Literal { bytes } => bytes.len() <= 255,
        _ => true,
    }
}

/// Appends the stored form of `seed` to `out`.
fn write_seed(seed: &Seed, out: &mut Vec<u8>)
    requires
        seed_encodable(seed@),
    ensures
        final(out)@ == old(out)@ + seed_encoding(seed@),
{
    match seed {
        Seed::Literal { bytes } => {
            out.push(SEED_LITERAL);
            out.push(bytes.len() as u8);
            let mut i: usize = 0;
            while i < bytes.len()
                invariant
                    i <= bytes.len(),
                    bytes@.len() <= 255,
                    out@ == old(out)@ + seq![SEED_LITERAL, bytes@.len() as u8] + bytes@.subrange(
                        0,
                        i as int,
                    ),
                decreases bytes.len() - i,
            {
                out.push(bytes[i]);
                i += 1;
            }
            assert(bytes@.subrange(0, bytes@.len() as int) =~= bytes@);
            assert(out@ =~= old(out)@ + seed_encoding(seed@));
        },
        Seed::AccountKey { index } => {
            out.push(SEED_ACCOUNT_KEY);
            out.push(*index);
            assert(out@ =~= old(out)@ + seed_encoding(seed@));
        },
        Seed::AccountData { account_index, data_index, length } => {
            out.push(SEED_ACCOUNT_DATA);
            out.push(*account_index);
            out.push(*data_index);
            out.push(*length);
            assert(out@ =~= old(out)@ + seed_encoding(seed@));
        },
    }
}

/// Reads one seed from `bytes` at `at`: the seed and the place after it.
fn read_seed_at(bytes: &[u8], at: usize) -> (read: Option<(Seed, usize)>)
    requires
        at <= bytes@.len(),
    ensures
        match parse_seed(bytes@.skip(at as int)) {
            Some((seed, rest)) => read matches Some((s, next)) && s@ == seed && at <= next
                <= bytes@.len() && bytes@.skip(next as int) == rest,
            None => read is None,
        },
{
    let length: usize = bytes.len();
    let ghost input = bytes@.skip(at as int);
    if length - at < 2 {
        return None;
    }
    let kind = bytes[at];
    let first = bytes[at + 1];
    assert(input[0] == kind && input[1] == first);
    if kind == SEED_LITERAL {
        let size: usize = first as usize;
        if length - at - 2 < size {
            return None;
        }
        let literal = slice_to_vec(slice_subrange(bytes, at + 2, at + 2 + size));
        assert(literal@ =~= input.subrange(2, 2 + input[1]));
        assert(bytes@.skip((at + 2 + size) as int) =~= input.skip(2 + input[1]));
        Some((Seed::Literal { bytes: literal }, at + 2 + size))
    } else if kind == SEED_ACCOUNT_KEY {
        assert(bytes@.skip((at + 2) as int) =~= input.skip(2));
        Some((Seed::AccountKey { index: first }, at + 2))
    } else if kind == SEED_ACCOUNT_DATA {
        if length - at < 4 {
            return None;
        }
        let data_index = bytes[at + 2];
        let size = bytes[at + 3];
        assert(input[2] == data_index && input[3] == size);
        assert(bytes@.skip((at + 4) as int) =~= input.skip(4));
        Some((Seed::AccountData { account_index: first, data_index, length: size }, at + 4))
    } else {
        None
    }
}

/// Tells whether every seed of a list has a stored form.
pub open spec fn seeds_encodable(seeds: Seq<SeedView>) -> bool {
    forall|i: int| 0 <= i < seeds.len() ==> seed_encodable(#[trigger] seeds[i])
}

/// The stored form of a list of seeds: one after the other.
pub open spec fn seeds_encoding(seeds: Seq<SeedView>) -> Seq<u8>
    decreases seeds.len(),
{
    if seeds.len() == 0 {
        seq![]
    } else {
        seed_encoding(seeds[0]) + seeds_encoding(seeds.drop_first())
    }
}

/// Reads `count` seeds from the front of `input`: the seeds and what follows
/// them.
pub open spec fn parse_seeds(input: Seq<u8>, count: nat) -> Option<(Seq<SeedView>, Seq<u8>)>
    decreases count,
{
    if count == 0 {
        Some((seq![], input))
    } else {
        match parse_seed(input) {
            None => None,
            Some((seed, rest)) => match parse_seeds(rest, (count - 1) as nat) {
                None => None,
                Some((seeds, end)) => Some((seq![seed] + seeds, end)),
            },
        }
    }
}

/// The stored form of a list with one more seed at its end.
pub proof fn seeds_encoding_push(seeds: Seq<SeedView>, seed: SeedView)
    ensures
        seeds_encoding(seeds.push(seed)) == seeds_encoding(seeds) + seed_encoding(seed),
    decreases seeds.len(),
{
    let longer = seeds.push(seed);
    if seeds.len() == 0 {
        assert(longer.drop_first() =~= seq![]);
        assert(seeds_encoding(longer.drop_first()) =~= seq![]);
        assert(seeds_encoding(longer) =~= seed_encoding(seed));
        assert(seeds_encoding(seeds) + seed_encoding(seed) =~= seed_encoding(seed));
    } else {
        assert(longer.drop_first() =~= seeds.drop_first().push(seed));
        seeds_encoding_push(seeds.drop_first(), seed);
        assert(seeds_encoding(longer) =~= seeds_encoding(seeds) + seed_encoding(seed));
    }
}

/// Seeds that were written read back, whatever follows them.
pub proof fn seeds_read_back(seeds: Seq<SeedView>, rest: Seq<u8>)
    requires
        seeds_encodable(seeds),
    ensures
        parse_seeds(seeds_encoding(seeds) + rest, seeds.len()) == Some((seeds, rest)),
    decreases seeds.len(),
{
    if seeds.len() == 0 {
        assert(seeds_encoding(seeds) + rest =~= rest);
        assert(seeds =~= seq![]);
    } else {
        let tail = seeds.drop_first();
        let after = seeds_encoding(tail) + rest;
        assert(seeds_encoding(seeds) + rest =~= seed_encoding(seeds[0]) + after);
        seed_reads_back(seeds[0], after);
        assert(seeds_encodable(tail)) by {
            assert forall|i: int| 0 <= i < tail.len() implies seed_encodable(#[trigger] tail[i]) by {
                assert(tail[i] == seeds[i + 1]);
            }
        }
        seeds_read_back(tail, rest);
        assert(seq![seeds[0]] + tail =~= seeds);
    }
}

/// What reads as `count` seeds is their stored form, followed by the rest.
pub proof fn seeds_write_back(input: Seq<u8>, count: nat)
    requires
        parse_seeds(input, count) is Some,
    ensures
        parse_seeds(input, count).unwrap().0.len() == count,
        seeds_encodable(parse_seeds(input, count).unwrap().0),
        input == seeds_encoding(parse_seeds(input, count).unwrap().0) + parse_seeds(
            input,
            count,
        ).unwrap().1,
    decreases count,
{
    let seeds = parse_seeds(input, count).unwrap().0;
    let end = parse_seeds(input, count).unwrap().1;
    if count == 0 {
        assert(input =~= seeds_encoding(seeds) + end);
    } else {
        let seed = parse_seed(input).unwrap().0;
        let rest = parse_seed(input).unwrap().1;
        seed_writes_back(input);
        seeds_write_back(rest, (count - 1) as nat);
        let tail = parse_seeds(rest, (count - 1) as nat).unwrap().0;
        assert(seeds == seq![seed] + tail);
        assert(seeds.drop_first() =~= tail);
        assert(seeds[0] == seed);
        assert forall|i: int| 0 <= i < seeds.len() implies seed_encodable(#[trigger] seeds[i]) by {
            if i > 0 {
                assert(seeds[i] == tail[i - 1]);
            }
        }
        assert(input =~= seeds_encoding(seeds) + end);
    }
}

/// Tells whether every seed of a list has a stored form.
pub fn seeds_have_stored_form(seeds: &Vec<Seed>) -> (encodable: bool)
    ensures
        encodable == seeds_encodable(Seq::new(seeds@.len(), |i: int| seeds@[i]@)),
{
    let ghost views = Seq::new(seeds@.len(), |i: int| seeds@[i]@);
    let mut i: usize = 0;
    while i < seeds.len()
        invariant
            i <= seeds.len(),
            views == Seq::new(seeds@.len(), |k: int| seeds@[k]@),
            forall|k: int| 0 <= k < i ==> seed_encodable(#[trigger] views[k]),
        decreases seeds.len() - i,
    {
        if !seed_has_stored_form(&seeds[i]) {
            assert(!seed_encodable(views[i as int]));
            return false;
        }
        i += 1;
    }
    true
}

/// Appends the stored form of the seeds to `out`.
fn write_seeds(seeds: &Vec<Seed>, out: &mut Vec<u8>)
    requires
        seeds_encodable(Seq::new(seeds@.len(), |i: int| seeds@[i]@)),
    ensures
        final(out)@ == old(out)@ + seeds_encoding(Seq::new(seeds@.len(), |i: int| seeds@[i]@)),
{
    let ghost views = Seq::new(seeds@.len(), |i: int| seeds@[i]@);
    let mut i: usize = 0;
    assert(views.take(0) =~= seq![]);
    assert(out@ =~= old(out)@ + seeds_encoding(views.take(0)));
    while i < seeds.len()
        invariant
            i <= seeds.len(),
            views == Seq::new(seeds@.len(), |k: int| seeds@[k]@),
            seeds_encodable(views),
            out@ == old(out)@ + seeds_encoding(views.take(i as int)),
        decreases seeds.len() - i,
    {
        let ghost before = out@;
        assert(seed_encodable(views[i as int]));
        write_seed(&seeds[i], out);
        proof {
            seeds_encoding_push(views.take(i as int), views[i as int]);
            assert(views.take(i as int).push(views[i as int]) =~= views.take(i + 1));
            assert(out@ =~= old(out)@ + seeds_encoding(views.take(i + 1)));
        }
        i += 1;
    }
    assert(views.take(seeds@.len() as int) =~= views);
}

/// Reads `count` seeds from `bytes` at `at`: the seeds and the place after
/// them.
fn read_seeds_at(bytes: &[u8], at: usize, count: u8) -> (read: Option<(Vec<Seed>, usize)>)
    requires
        at <= bytes@.len(),
    ensures
        match parse_seeds(bytes@.skip(at as int), count as nat) {
            Some((seeds, rest)) => read matches Some((list, next)) && Seq::new(
                list@.len(),
                |i: int| list@[i]@,
            ) == seeds && at <= next <= bytes@.len() && bytes@.skip(next as int) == rest,
            None => read is None,
        },
{
    let ghost input = bytes@.skip(at as int);
    let mut list: Vec<Seed> = Vec::new();
    let mut next: usize = at;
    let mut i: u8 = 0;
    assert(Seq::new(list@.len(), |k: int| list@[k]@) =~= Seq::<SeedView>::empty());
    while i < count
        invariant
            i <= count,
            at <= next <= bytes@.len(),
            input == bytes@.skip(at as int),
            parse_seeds(input, count as nat) == match parse_seeds(
                bytes@.skip(next as int),
                (count - i) as nat,
            ) {
                Some((seeds, rest)) => Some((Seq::new(list@.len(), |k: int| list@[k]@) + seeds, rest)),
                None => None,
            },
        decreases count - i,
    {
        let ghost done = Seq::new(list@.len(), |k: int| list@[k]@);
        let ghost here = bytes@.skip(next as int);
        match read_seed_at(bytes, next) {
            Some((seed, after)) => {
                proof {
                    let tail = parse_seeds(bytes@.skip(after as int), (count - i - 1) as nat);
                    if tail is Some {
                        assert((done + (seq![seed@] + tail.unwrap().0)) =~= (done.push(seed@)
                            + tail.unwrap().0));
                    }
                }
                list.push(seed);
                assert(Seq::new(list@.len(), |k: int| list@[k]@) =~= done.push(seed@));
                next = after;
            },
            None => {
                assert(parse_seeds(here, (count - i) as nat) is None);
                return None;
            },
        }
        i += 1;
    }
    assert(Seq::new(list@.len(), |k: int| list@[k]@) + Seq::<SeedView>::empty() =~= Seq::new(
        list@.len(),
        |k: int| list@[k]@,
    ));
    Some((list, next))
}

/// Number of bytes of a stored rule before its seeds.
pub const RULE_HEADER_LEN: usize = 35;

/// The stored form of a yes or no.
pub open spec fn flag(value: bool) -> u8 {
    if value {
        1
    } else {
        0
    }
}

/// Tells whether a rule has a stored form.
pub open spec fn rule_encodable(rule: RuleView) -> bool {
    rule.program.len() == 32 && rule.seeds.len() <= 255 && seeds_encodable(rule.seeds)
}

/// The stored form of a rule.
pub open spec fn rule_encoding(rule: RuleView) -> Seq<u8> {
    rule.program + seq![flag(rule.is_signer), flag(rule.is_writable), rule.seeds.len() as u8]
        + seeds_encoding(rule.seeds)
}

/// Reads one rule from the front of `input`: the rule and what follows it.
pub open spec fn parse_rule(input: Seq<u8>) -> Option<(RuleView, Seq<u8>)> {
    if input.len() >= RULE_HEADER_LEN && input[32] <= 1 && input[33] <= 1 {
        match parse_seeds(input.skip(35), input[34] as nat) {
            Some((seeds, rest)) => Some(
                (
                    RuleView {
                        program: input.subrange(0, 32),
                        seeds,
                        is_signer: input[32] == 1,
                        is_writable: input[33] == 1,
                    },
                    rest,
                ),
            ),
            None => None,
        }
    } else {
        None
    }
}

/// A rule that was written reads back, whatever follows it.
pub proof fn rule_reads_back(rule: RuleView, rest: Seq<u8>)
    requires
        rule_encodable(rule),
    ensures
        parse_rule(rule_encoding(rule) + rest) == Some((rule, rest)),
{
    let input = rule_encoding(rule) + rest;
    assert(input[32] == flag(rule.is_signer));
    assert(input[33] == flag(rule.is_writable));
    assert(input[34] == rule.seeds.len() as u8);
    assert(input.subrange(0, 32) =~= rule.program);
    assert(input.skip(35) =~= seeds_encoding(rule.seeds) + rest);
    seeds_read_back(rule.seeds, rest);
}

/// What reads as a rule is that rule's stored form, followed by the rest.
pub proof fn rule_writes_back(input: Seq<u8>)
    requires
        parse_rule(input) is Some,
    ensures
        rule_encodable(parse_rule(input).unwrap().0),
        input == rule_encoding(parse_rule(input).unwrap().0) + parse_rule(input).unwrap().1,
        parse_rule(input).unwrap().1.len() + RULE_HEADER_LEN <= input.len(),
{
    let rule = parse_rule(input).unwrap().0;
    let rest = parse_rule(input).unwrap().1;
    seeds_write_back(input.skip(35), input[34] as nat);
    assert(input =~= input.subrange(0, 32) + seq![input[32], input[33], input[34]] + input.skip(35));
    assert(input =~= rule_encoding(rule) + rest);
}

/// Tells whether every rule of a list has a stored form.
pub open spec fn rules_encodable(rules: Seq<RuleView>) -> bool {
    forall|i: int| 0 <= i < rules.len() ==> rule_encodable(#[trigger] rules[i])
}

/// The stored form of a list of rules: one after the other.
pub open spec fn rules_encoding(rules: Seq<RuleView>) -> Seq<u8>
    decreases rules.len(),
{
    if rules.len() == 0 {
        seq![]
    } else {
        rule_encoding(rules[0]) + rules_encoding(rules.drop_first())
    }
}

/// Reads `count` rules from the front of `input`: the rules and what follows
/// them.
pub open spec fn parse_rules(input: Seq<u8>, count: nat) -> Option<(Seq<RuleView>, Seq<u8>)>
    decreases count,
{
    if count == 0 {
        Some((seq![], input))
    } else {
        match parse_rule(input) {
            None => None,
            Some((rule, rest)) => match parse_rules(rest, (count - 1) as nat) {
                None => None,
                Some((rules, end)) => Some((seq![rule] + rules, end)),
            },
        }
    }
}

/// The stored form of a list with one more rule at its end.
pub proof fn rules_encoding_push(rules: Seq<RuleView>, rule: RuleView)
    ensures
        rules_encoding(rules.push(rule)) == rules_encoding(rules) + rule_encoding(rule),
    decreases rules.len(),
{
    let longer = rules.push(rule);
    if rules.len() == 0 {
        assert(longer.drop_first() =~= seq![]);
        assert(rules_encoding(longer.drop_first()) =~= seq![]);
        assert(rules_encoding(longer) =~= rule_encoding(rule));
        assert(rules_encoding(rules) + rule_encoding(rule) =~= rule_encoding(rule));
    } else {
        assert(longer.drop_first() =~= rules.drop_first().push(rule));
        rules_encoding_push(rules.drop_first(), rule);
        assert(rules_encoding(longer) =~= rules_encoding(rules) + rule_encoding(rule));
    }
}

/// A stored list of rules takes at least thirty-five bytes per rule.
pub proof fn rules_encoding_is_long(rules: Seq<RuleView>)
    requires
        rules_encodable(rules),
    ensures
        rules_encoding(rules).len() >= RULE_HEADER_LEN * rules.len(),
    decreases rules.len(),
{
    if rules.len() > 0 {
        let tail = rules.drop_first();
        assert(rules_encodable(tail)) by {
            assert forall|i: int| 0 <= i < tail.len() implies rule_encodable(#[trigger] tail[i]) by {
                assert(tail[i] == rules[i + 1]);
            }
        }
        rules_encoding_is_long(tail);
        assert(rule_encodable(rules[0]));
        assert(rule_encoding(rules[0]).len() >= 35);
        assert(RULE_HEADER_LEN * rules.len() == RULE_HEADER_LEN * (rules.len() - 1) + 35)
            by (nonlinear_arith);
    }
}

/// Rules that were written read back, whatever follows them.
pub proof fn rules_read_back(rules: Seq<RuleView>, rest: Seq<u8>)
    requires
        rules_encodable(rules),
    ensures
        parse_rules(rules_encoding(rules) + rest, rules.len()) == Some((rules, rest)),
    decreases rules.len(),
{
    if rules.len() == 0 {
        assert(rules_encoding(rules) + rest =~= rest);
        assert(rules =~= seq![]);
    } else {
        let tail = rules.drop_first();
        let after = rules_encoding(tail) + rest;
        assert(rules_encoding(rules) + rest =~= rule_encoding(rules[0]) + after);
        rule_reads_back(rules[0], after);
        assert(rules_encodable(tail)) by {
            assert forall|i: int| 0 <= i < tail.len() implies rule_encodable(#[trigger] tail[i]) by {
                assert(tail[i] == rules[i + 1]);
            }
        }
        rules_read_back(tail, rest);
        assert(seq![rules[0]] + tail =~= rules);
    }
}

/// What reads as `count` rules is their stored form, followed by the rest.
pub proof fn rules_write_back(input: Seq<u8>, count: nat)
    requires
        parse_rules(input, count) is Some,
    ensures
        parse_rules(input, count).unwrap().0.len() == count,
        rules_encodable(parse_rules(input, count).unwrap().0),
        input == rules_encoding(parse_rules(input, count).unwrap().0) + parse_rules(
            input,
            count,
        ).unwrap().1,
    decreases count,
{
    let rules = parse_rules(input, count).unwrap().0;
    let end = parse_rules(input, count).unwrap().1;
    if count == 0 {
        assert(input =~= rules_encoding(rules) + end);
    } else {
        let rule = parse_rule(input).unwrap().0;
        let rest = parse_rule(input).unwrap().1;
        rule_writes_back(input);
        rules_write_back(rest, (count - 1) as nat);
        let tail = parse_rules(rest, (count - 1) as nat).unwrap().0;
        assert(rules == seq![rule] + tail);
        assert(rules.drop_first() =~= tail);
        assert(rules[0] == rule);
        assert forall|i: int| 0 <= i < rules.len() implies rule_encodable(#[trigger] rules[i]) by {
            if i > 0 {
                assert(rules[i] == tail[i - 1]);
            }
        }
        assert(input =~= rules_encoding(rules) + end);
    }
}

/// Tells whether a rule has a stored form.
pub fn rule_has_stored_form(rule: &ExtraAccountRule) -> (encodable: bool)
    ensures
        encodable == rule_encodable(rule@),
{
    rule.seeds.len() <= 255 && seeds_have_stored_form(&rule.seeds)
}

/// Tells whether every rule of a list has a stored form.
pub fn rules_have_stored_form(rules: &Vec<ExtraAccountRule>) -> (encodable: bool)
    ensures
        encodable == rules_encodable(rules_view(rules@)),
{
    let ghost views = rules_view(rules@);
    let mut i: usize = 0;
    while i < rules.len()
        invariant
            i <= rules.len(),
            views == rules_view(rules@),
            forall|k: int| 0 <= k < i ==> rule_encodable(#[trigger] views[k]),
        decreases rules.len() - i,
    {
        if !rule_has_stored_form(&rules[i]) {
            assert(!rule_encodable(views[i as int]));
            return false;
        }
        i += 1;
    }
    true
}

/// Appends the stored form of `rule` to `out`.
fn write_rule(rule: &ExtraAccountRule, out: &mut Vec<u8>)
    requires
        rule_encodable(rule@),
    ensures
        final(out)@ == old(out)@ + rule_encoding(rule@),
{
    rule.program.append_to(out);
    out.push(if rule.is_signer { 1 } else { 0 });
    out.push(if rule.is_writable { 1 } else { 0 });
    out.push(rule.seeds.len() as u8);
    write_seeds(&rule.seeds, out);
    assert(out@ =~= old(out)@ + rule_encoding(rule@));
}

/// Appends the stored form of the rules to `out`.
fn write_rules(rules: &Vec<ExtraAccountRule>, out: &mut Vec<u8>)
    requires
        rules_encodable(rules_view(rules@)),
    ensures
        final(out)@ == old(out)@ + rules_encoding(rules_view(rules@)),
{
    let ghost views = rules_view(rules@);
    let mut i: usize = 0;
    assert(views.take(0) =~= seq![]);
    assert(out@ =~= old(out)@ + rules_encoding(views.take(0)));
    while i < rules.len()
        invariant
            i <= rules.len(),
            views == rules_view(rules@),
            rules_encodable(views),
            out@ == old(out)@ + rules_encoding(views.take(i as int)),
        decreases rules.len() - i,
    {
        assert(rule_encodable(views[i as int]));
        write_rule(&rules[i], out);
        proof {
            rules_encoding_push(views.take(i as int), views[i as int]);
            assert(views.take(i as int).push(views[i as int]) =~= views.take(i + 1));
            assert(out@ =~= old(out)@ + rules_encoding(views.take(i + 1)));
        }
        i += 1;
    }
    assert(views.take(rules@.len() as int) =~= views);
}

/// Reads one rule from `bytes` at `at`: the rule and the place after it.
fn read_rule_at(bytes: &[u8], at: usize) -> (read: Option<(ExtraAccountRule, usize)>)
    requires
        at <= bytes@.len(),
    ensures
        match parse_rule(bytes@.skip(at as int)) {
            Some((rule, rest)) => read matches Some((r, next)) && r@ == rule && at < next
                <= bytes@.len() && bytes@.skip(next as int) == rest,
            None => read is None,
        },
{
    let length: usize = bytes.len();
    let ghost input = bytes@.skip(at as int);
    if length - at < RULE_HEADER_LEN {
        return None;
    }
    let signer = bytes[at + 32];
    let writable = bytes[at + 33];
    let count = bytes[at + 34];
    assert(input[32] == signer && input[33] == writable && input[34] == count);
    if signer > 1 || writable > 1 {
        return None;
    }
    assert(bytes@.skip((at + 35) as int) =~= input.skip(35));
    let (seeds, next) = match read_seeds_at(bytes, at + 35, count) {
        Some(found) => found,
        None => { return None; },
    };
    let program = Address::read_from(bytes, at);
    assert(program@ =~= input.subrange(0, 32));
    Some((ExtraAccountRule { program, seeds, is_signer: signer == 1, is_writable: writable == 1 }, next))
}

/// Reads `count` rules from `bytes` at `at`: the rules and the place after
/// them.
fn read_rules_at(bytes: &[u8], at: usize, count: u32) -> (read: Option<(Vec<ExtraAccountRule>, usize)>)
    requires
        at <= bytes@.len(),
    ensures
        match parse_rules(bytes@.skip(at as int), count as nat) {
            Some((rules, rest)) => read matches Some((list, next)) && rules_view(list@) == rules
                && at <= next <= bytes@.len() && bytes@.skip(next as int) == rest,
            None => read is None,
        },
{
    let ghost input = bytes@.skip(at as int);
    let mut list: Vec<ExtraAccountRule> = Vec::new();
    let mut next: usize = at;
    let mut i: u32 = 0;
    assert(rules_view(list@) =~= Seq::<RuleView>::empty());
    while i < count
        invariant
            i <= count,
            at <= next <= bytes@.len(),
            input == bytes@.skip(at as int),
            parse_rules(input, count as nat) == match parse_rules(
                bytes@.skip(next as int),
                (count - i) as nat,
            ) {
                Some((rules, rest)) => Some((rules_view(list@) + rules, rest)),
                None => None,
            },
        decreases count - i,
    {
        let ghost done = rules_view(list@);
        let ghost here = bytes@.skip(next as int);
        match read_rule_at(bytes, next) {
            Some((rule, after)) => {
                proof {
                    let tail = parse_rules(bytes@.skip(after as int), (count - i - 1) as nat);
                    if tail is Some {
                        assert((done + (seq![rule@] + tail.unwrap().0)) =~= (done.push(rule@)
                            + tail.unwrap().0));
                    }
                }
                list.push(rule);
                assert(rules_view(list@) =~= done.push(rule@));
                next = after;
            },
            None => {
                assert(parse_rules(here, (count - i) as nat) is None);
                return None;
            },
        }
        i += 1;
    }
    assert(rules_view(list@) + Seq::<RuleView>::empty() =~= rules_view(list@));
    Some((list, next))
}

/// Number of bytes of a stored table before its rules.
pub const TABLE_HEADER_LEN: usize = 16;

/// Largest number of bytes the rules of a stored table may take.
pub const MAX_RULES_LEN: usize = 0xffff_fffb;

/// The tag of a stored table.
pub open spec fn table_tag() -> Seq<u8> {
    seq![105u8, 37u8, 101u8, 197u8, 75u8, 251u8, 102u8, 26u8]
}

/// The tag of a stored table as bytes.
pub fn table_tag_bytes() -> (tag: Vec<u8>)
    ensures
        tag@ == table_tag(),
{
    let tag: Vec<u8> = vec![105u8, 37u8, 101u8, 197u8, 75u8, 251u8, 102u8, 26u8];
    assert(tag@ =~= table_tag());
    tag
}

/// Tells whether a table has a stored form: every rule has one, and the
/// length of the record fits its four bytes.
pub open spec fn table_encodable(rules: Seq<RuleView>) -> bool {
    rules_encodable(rules) && rules_encoding(rules).len() <= MAX_RULES_LEN
}

/// The stored form of a table.
pub open spec fn table_encoding(rules: Seq<RuleView>) -> Seq<u8> {
    table_tag() + spec_u32_to_le_bytes((4 + rules_encoding(rules).len()) as u32)
        + spec_u32_to_le_bytes(rules.len() as u32) + rules_encoding(rules)
}

/// Reads a table from `input`, which must hold the record and nothing else.
pub open spec fn parse_table(input: Seq<u8>) -> Option<Seq<RuleView>> {
    if input.len() >= TABLE_HEADER_LEN && input.subrange(0, 8) == table_tag()
        && spec_u32_from_le_bytes(input.subrange(8, 12)) == input.len() - 12 {
        match parse_rules(input.skip(16), spec_u32_from_le_bytes(input.subrange(12, 16)) as nat) {
            Some((rules, rest)) => if rest.len() == 0 {
                Some(rules)
            } else {
                None
            },
            None => None,
        }
    } else {
        None
    }
}

/// A table that was written reads back as the same table.
pub proof fn table_reads_back(rules: Seq<RuleView>)
    requires
        table_encodable(rules),
    ensures
        parse_table(table_encoding(rules)) == Some(rules),
{
    lemma_auto_spec_u32_to_from_le_bytes();
    rules_encoding_is_long(rules);
    let body = rules_encoding(rules);
    let length = (4 + body.len()) as u32;
    let count = rules.len() as u32;
    let input = table_encoding(rules);
    assert(input.len() == 16 + body.len());
    assert(input.subrange(0, 8) =~= table_tag());
    assert(input.subrange(8, 12) =~= spec_u32_to_le_bytes(length));
    assert(input.subrange(12, 16) =~= spec_u32_to_le_bytes(count));
    assert(input.skip(16) =~= body + Seq::<u8>::empty());
    rules_read_back(rules, Seq::<u8>::empty());
}

/// Bytes that read as a table are the stored form of that table.
pub proof fn table_writes_back(input: Seq<u8>)
    requires
        parse_table(input) is Some,
    ensures
        table_encodable(parse_table(input).unwrap()),
        table_encoding(parse_table(input).unwrap()) == input,
{
    lemma_auto_spec_u32_to_from_le_bytes();
    let rules = parse_table(input).unwrap();
    let count = spec_u32_from_le_bytes(input.subrange(12, 16));
    let length = spec_u32_from_le_bytes(input.subrange(8, 12));
    rules_write_back(input.skip(16), count as nat);
    let body = rules_encoding(rules);
    assert(input.skip(16) =~= body);
    assert(length == 4 + body.len());
    assert(spec_u32_to_le_bytes(length) == input.subrange(8, 12));
    assert(spec_u32_to_le_bytes(count) == input.subrange(12, 16));
    assert(input =~= input.subrange(0, 8) + input.subrange(8, 12) + input.subrange(12, 16)
        + input.skip(16));
}

/// Two tables with the same stored form are the same table.
pub proof fn table_encoding_is_injective(first: Seq<RuleView>, second: Seq<RuleView>)
    requires
        table_encodable(first),
        table_encodable(second),
        table_encoding(first) == table_encoding(second),
    ensures
        first == second,
{
    table_reads_back(first);
    table_reads_back(second);
}

/// Writes a table in its stored form, where it has one.
pub fn encode_table(rules: &Vec<ExtraAccountRule>) -> (bytes: Option<Vec<u8>>)
    ensures
        bytes is Some <==> table_encodable(rules_view(rules@)),
        bytes matches Some(b) ==> b@ == table_encoding(rules_view(rules@)),
{
    if !rules_have_stored_form(rules) {
        return None;
    }
    let mut body: Vec<u8> = Vec::new();
    write_rules(rules, &mut body);
    assert(body@ =~= rules_encoding(rules_view(rules@)));
    if body.len() > MAX_RULES_LEN {
        return None;
    }
    proof {
        rules_encoding_is_long(rules_view(rules@));
    }
    let mut out = table_tag_bytes();
    let mut length = u32_to_le_bytes((body.len() + 4) as u32);
    out.append(&mut length);
    let mut count = u32_to_le_bytes(rules.len() as u32);
    out.append(&mut count);
    out.append(&mut body);
    Some(out)
}

/// Reads a table from its stored form. Anything that is not the stored form
/// of a table, whole and with nothing after it, holds none.
pub fn decode_table(bytes: &[u8]) -> (rules: Option<Vec<ExtraAccountRule>>)
    ensures
        match parse_table(bytes@) {
            Some(table) => rules matches Some(list) && rules_view(list@) == table,
            None => rules is None,
        },
{
    let total: usize = bytes.len();
    if total < TABLE_HEADER_LEN {
        return None;
    }
    if !starts_with(bytes, table_tag_bytes().as_slice()) {
        return None;
    }
    let length = u32_from_le_bytes(slice_subrange(bytes, 8, 12));
    if length as usize != total - 12 {
        return None;
    }
    let count = u32_from_le_bytes(slice_subrange(bytes, 12, 16));
    match read_rules_at(bytes, TABLE_HEADER_LEN, count) {
        Some((list, next)) => {
            if next != total {
                return None;
            }
            Some(list)
        },
        None => None,
    }
}

} // verus!
