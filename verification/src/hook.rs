//! The transfer hook: what the token program's callback does on a transfer.
//!
//! The hook takes three fees out of the source account through the token
//! program, in a fixed order: a transfer to the operations account, a burn,
//! and a transfer to the token account of the sender's institution. A fee of
//! zero is skipped. The hook moves nothing else: what reaches the destination
//! of the transfer is the business of the outer transfer.
//!
//! The library decides; the host acts. [`transfer_hook`] gives the whole list
//! of sub-invocations for a transfer, and [`HookEngine`] hands them out one at
//! a time and aborts at the first one the token program rejects.

use vstd::prelude::*;
use vstd::bytes::{lemma_auto_spec_u64_to_from_le_bytes, spec_u64_to_le_bytes, u64_to_le_bytes};
use crate::address::Address;
use crate::config::UserInstitutionConfig;
use crate::error::HookError;
use crate::fees::{compute_fees, fee_overflows, FeeSplit, INSTITUTION_FEE_RATE};

verus! {

/// The accounts a transfer hands to the hook, in the order of the call.
#[derive(Clone, Copy, Debug, PartialEq, Eq)]
pub struct HookAccounts {
    /// The token account the transfer takes from.
    pub source: Address,
    /// The mint of the token.
    pub mint: Address,
    /// The token account the transfer pays into.
    pub destination: Address,
    /// The authority over the source account that signed the transfer.
    pub authority: Address,
    /// The account that stores the resolution table of the mint.
    pub resolution_table: Address,
    /// The institution config stored for the authority, if there is one.
    pub config: Option<UserInstitutionConfig>,
    /// The token account of the operations wallet.
    pub operations_account: Address,
    /// The token account of the authority's institution.
    pub institution_account: Address,
}

/// One call into the token program, authorized by the transfer authority over
/// the source account.
#[derive(Clone, Copy, Debug, PartialEq, Eq)]
pub enum SubInvocation {
    /// Move `amount` from `source` to `destination`.
    Transfer { source: Address, destination: Address, authority: Address, amount: u64 },
    /// Destroy `amount` held by `account`, reducing the supply of `mint`.
    Burn { account: Address, mint: Address, authority: Address, amount: u64 },
}

impl SubInvocation {
    /// The amount the call moves or destroys.
    pub open spec fn spec_amount(self) -> u64 {
        match self {
            SubInvocation::Transfer { amount, .. } => amount,
            SubInvocation::Burn { amount, .. } => amount,
        }
    }

    /// The amount the call moves or destroys.
    pub fn amount(&self) -> (amount: u64)
        ensures
            amount == self.spec_amount(),
    {
        match self {
            SubInvocation::Transfer { amount, .. } => *amount,
            SubInvocation::Burn { amount, .. } => *amount,
        }
    }
}

/// Tag of the token program's transfer instruction.
pub const TOKEN_TRANSFER: u8 = 3;

/// Tag of the token program's burn instruction.
pub const TOKEN_BURN: u8 = 8;

/// The tag under which the token program knows a sub-invocation.
pub open spec fn token_call_tag(step: SubInvocation) -> u8 {
    match step {
        SubInvocation::Transfer { .. } => TOKEN_TRANSFER,
        SubInvocation::Burn { .. } => TOKEN_BURN,
    }
}

/// The instruction data of a sub-invocation: its tag, then the amount as
/// eight little-endian bytes.
pub open spec fn token_call_encoding(step: SubInvocation) -> Seq<u8> {
    seq![token_call_tag(step)] + spec_u64_to_le_bytes(step.spec_amount())
}

/// An account of a call into the token program, with the rights the call
/// needs on it.
#[derive(Clone, Copy, Debug, PartialEq, Eq)]
pub struct CallAccount {
    pub address: Address,
    pub is_signer: bool,
    pub is_writable: bool,
}

/// The accounts of a sub-invocation, in the order the token program expects:
/// the account debited, writable; then the account credited, or for a burn the
/// mint, writable; then the authority, which signs.
pub open spec fn token_call_accounts_of(step: SubInvocation) -> Seq<CallAccount> {
    match step {
        SubInvocation::Transfer { source, destination, authority, .. } => seq![
            CallAccount { address: source, is_signer: false, is_writable: true },
            CallAccount { address: destination, is_signer: false, is_writable: true },
            CallAccount { address: authority, is_signer: true, is_writable: false },
        ],
        SubInvocation::Burn { account, mint, authority, .. } => seq![
            CallAccount { address: account, is_signer: false, is_writable: true },
            CallAccount { address: mint, is_signer: false, is_writable: true },
            CallAccount { address: authority, is_signer: true, is_writable: false },
        ],
    }
}

/// Writes the instruction data of a sub-invocation.
pub fn token_call_data(step: &SubInvocation) -> (data: Vec<u8>)
    ensures
        data@ == token_call_encoding(*step),
        data@.len() == 9,
{
    proof {
        lemma_auto_spec_u64_to_from_le_bytes();
    }
    let mut data: Vec<u8> = Vec::new();
    match step {
        SubInvocation::Transfer { .. } => data.push(TOKEN_TRANSFER),
        SubInvocation::Burn { .. } => data.push(TOKEN_BURN),
    }
    let mut amount = u64_to_le_bytes(step.amount());
    data.append(&mut amount);
    assert(data@ =~= token_call_encoding(*step));
    data
}

/// Lists the accounts of a sub-invocation.
pub fn token_call_accounts(step: &SubInvocation) -> (accounts: Vec<CallAccount>)
    ensures
        accounts@ == token_call_accounts_of(*step),
{
    let (first, second, authority) = match step {
        SubInvocation::Transfer { source, destination, authority, .. } => (
            *source,
            *destination,
            *authority,
        ),
        SubInvocation::Burn { account, mint, authority, .. } => (*account, *mint, *authority),
    };
    let mut accounts: Vec<CallAccount> = Vec::new();
    accounts.push(CallAccount { address: first, is_signer: false, is_writable: true });
    accounts.push(CallAccount { address: second, is_signer: false, is_writable: true });
    accounts.push(CallAccount { address: authority, is_signer: true, is_writable: false });
    assert(accounts@ =~= token_call_accounts_of(*step));
    accounts
}

/// The transfer of the operations fee.
pub open spec fn operations_transfer(accounts: HookAccounts, amount: u64) -> SubInvocation {
    SubInvocation::Transfer {
        source: accounts.source,
        destination: accounts.operations_account,
        authority: accounts.authority,
        amount,
    }
}

/// The burn of the burn fee.
pub open spec fn fee_burn(accounts: HookAccounts, amount: u64) -> SubInvocation {
    SubInvocation::Burn {
        account: accounts.source,
        mint: accounts.mint,
        authority: accounts.authority,
        amount,
    }
}

/// The transfer of the institution fee.
pub open spec fn institution_transfer(accounts: HookAccounts, amount: u64) -> SubInvocation {
    SubInvocation::Transfer {
        source: accounts.source,
        destination: accounts.institution_account,
        authority: accounts.authority,
        amount,
    }
}

/// A step that is left out where its fee is zero.
pub open spec fn unless_zero(step: SubInvocation) -> Seq<SubInvocation> {
    if step.spec_amount() == 0 {
        seq![]
    } else {
        seq![step]
    }
}

/// The sub-invocations that take `fees` out of the source account: operations
/// transfer, burn, institution transfer, each only where its fee is not zero.
pub open spec fn planned(accounts: HookAccounts, fees: FeeSplit) -> Seq<SubInvocation> {
    unless_zero(operations_transfer(accounts, fees.ops_fee)) + unless_zero(
        fee_burn(accounts, fees.burn_fee),
    ) + unless_zero(institution_transfer(accounts, fees.institution_fee))
}

/// What the hook decides for a transfer of `amount`: the error that aborts
/// it, or the sub-invocations to issue.
pub open spec fn hook_outcome(accounts: HookAccounts, amount: u64) -> Result<
    Seq<SubInvocation>,
    HookError,
> {
    match accounts.config {
        None => Err(HookError::MissingConfig),
        Some(config) => if config.owner != accounts.authority {
            Err(HookError::UnauthorizedAccess)
        } else if fee_overflows(amount, INSTITUTION_FEE_RATE) {
            Err(HookError::ArithmeticOverflow)
        } else {
            Ok(planned(accounts, FeeSplit::of(amount)))
        },
    }
}

/// The plain-value form of a hook decision.
pub open spec fn outcome_view(outcome: Result<Vec<SubInvocation>, HookError>) -> Result<
    Seq<SubInvocation>,
    HookError,
> {
    match outcome {
        Ok(steps) => Ok(steps@),
        Err(e) => Err(e),
    }
}

/// Lists the sub-invocations that take `fees` out of the source account.
pub fn plan_sub_invocations(accounts: &HookAccounts, fees: &FeeSplit) -> (steps: Vec<SubInvocation>)
    ensures
        steps@ == planned(*accounts, *fees),
        steps@.len() <= 3,
{
    let mut steps: Vec<SubInvocation> = Vec::new();
    if fees.ops_fee > 0 {
        steps.push(
            SubInvocation::Transfer {
                source: accounts.source,
                destination: accounts.operations_account,
                authority: accounts.authority,
                amount: fees.ops_fee,
            },
        );
    }
    if fees.burn_fee > 0 {
        steps.push(
            SubInvocation::Burn {
                account: accounts.source,
                mint: accounts.mint,
                authority: accounts.authority,
                amount: fees.burn_fee,
            },
        );
    }
    if fees.institution_fee > 0 {
        steps.push(
            SubInvocation::Transfer {
                source: accounts.source,
                destination: accounts.institution_account,
                authority: accounts.authority,
                amount: fees.institution_fee,
            },
        );
    }
    assert(steps@ =~= planned(*accounts, *fees));
    steps
}

/// Decides what the hook does for a transfer of `amount`.
///
/// The transfer is aborted with `MissingConfig` where no institution config
/// is stored for the authority, with `UnauthorizedAccess` where the config
/// handed in belongs to someone else, and with `ArithmeticOverflow` where a
/// fee product does not fit `u64`. Otherwise the sub-invocations to issue come
/// back, in order; there are none where every fee is zero.
pub fn transfer_hook(accounts: &HookAccounts, amount: u64) -> (outcome: Result<
    Vec<SubInvocation>,
    HookError,
>)
    ensures
        outcome_view(outcome) == hook_outcome(*accounts, amount),
{
    let config = match accounts.config {
        Some(config) => config,
        None => { return Err(HookError::MissingConfig); },
    };
    if !config.owner.same_as(&accounts.authority) {
        return Err(HookError::UnauthorizedAccess);
    }
    let fees = match compute_fees(amount) {
        Ok(fees) => fees,
        Err(e) => { return Err(e); },
    };
    Ok(plan_sub_invocations(accounts, &fees))
}

/// Sum of the amounts of a list of sub-invocations.
pub open spec fn total_amount(steps: Seq<SubInvocation>) -> int
    decreases steps.len(),
{
    if steps.len() == 0 {
        0
    } else {
        total_amount(steps.drop_last()) + steps.last().spec_amount()
    }
}

/// The planned sub-invocations move exactly the fees: their amounts add up to
/// the total of the split, none of them is zero, and there are at most three.
pub proof fn plan_moves_the_fees(accounts: HookAccounts, fees: FeeSplit)
    ensures
        total_amount(planned(accounts, fees)) == fees.total(),
        planned(accounts, fees).len() <= 3,
        forall|i: int|
            0 <= i < planned(accounts, fees).len() ==> (#[trigger] planned(
                accounts,
                fees,
            )[i]).spec_amount() > 0,
        fees.is_zero() <==> planned(accounts, fees).len() == 0,
{
    let a = unless_zero(operations_transfer(accounts, fees.ops_fee));
    let b = unless_zero(fee_burn(accounts, fees.burn_fee));
    let c = unless_zero(institution_transfer(accounts, fees.institution_fee));
    total_of_at_most_one(a);
    total_of_at_most_one(b);
    total_of_at_most_one(c);
    total_of_concatenation(a, b);
    total_of_concatenation(a + b, c);
}

/// The total of a list of at most one step is that step's amount.
proof fn total_of_at_most_one(steps: Seq<SubInvocation>)
    requires
        steps.len() <= 1,
    ensures
        total_amount(steps) == if steps.len() == 0 {
            0
        } else {
            steps[0].spec_amount() as int
        },
{
    if steps.len() == 1 {
        assert(steps.drop_last().len() == 0);
        assert(total_amount(steps.drop_last()) == 0);
    }
}

/// The total of two lists in a row is the sum of their totals.
proof fn total_of_concatenation(first: Seq<SubInvocation>, second: Seq<SubInvocation>)
    ensures
        total_amount(first + second) == total_amount(first) + total_amount(second),
    decreases second.len(),
{
    if second.len() == 0 {
        assert(first + second =~= first);
    } else {
        assert((first + second).drop_last() =~= first + second.drop_last());
        total_of_concatenation(first, second.drop_last());
    }
}

/// A transfer of less than fifty base units, by an authority whose config is
/// stored, succeeds and issues nothing.
pub proof fn small_transfer_issues_nothing(accounts: HookAccounts, amount: u64)
    requires
        amount < 50,
        accounts.config matches Some(config) && config.owner == accounts.authority,
    ensures
        hook_outcome(accounts, amount) == Ok::<Seq<SubInvocation>, HookError>(seq![]),
{
    assert(planned(accounts, FeeSplit::of(amount)) =~= seq![]);
}

/// From two hundred base units on, as long as no fee product overflows, the
/// hook issues all three sub-invocations, in the order operations transfer,
/// burn, institution transfer, with the three fees as their amounts.
pub proof fn large_transfer_issues_all_three(accounts: HookAccounts, amount: u64)
    requires
        200 <= amount,
        !fee_overflows(amount, INSTITUTION_FEE_RATE),
        accounts.config matches Some(config) && config.owner == accounts.authority,
    ensures
        hook_outcome(accounts, amount) == Ok::<Seq<SubInvocation>, HookError>(
            seq![
                operations_transfer(accounts, FeeSplit::of(amount).ops_fee),
                fee_burn(accounts, FeeSplit::of(amount).burn_fee),
                institution_transfer(accounts, FeeSplit::of(amount).institution_fee),
            ],
        ),
        total_amount(planned(accounts, FeeSplit::of(amount))) <= amount,
{
    let fees = FeeSplit::of(amount);
    crate::fees::fees_within_amount(amount as int);
    plan_moves_the_fees(accounts, fees);
    assert(planned(accounts, fees) =~= seq![
        operations_transfer(accounts, fees.ops_fee),
        fee_burn(accounts, fees.burn_fee),
        institution_transfer(accounts, fees.institution_fee),
    ]);
}

/// What the host reports to the engine between two actions.
#[derive(Clone, Copy, Debug, PartialEq, Eq, Structural)]
pub enum HookEvent {
    /// The hook has been entered, or the sub-invocation issued last went
    /// through.
    Proceed,
    /// The token program rejected the sub-invocation issued last.
    Rejected,
}

/// What the engine asks of the host.
#[derive(Clone, Copy, Debug, PartialEq, Eq)]
pub enum HookAction {
    /// Issue this call to the token program and report how it went.
    Invoke(SubInvocation),
    /// Nothing is left to do: the hook succeeds.
    Complete,
    /// Abort the whole transfer with this error.
    Abort(HookError),
}

/// The engine as the contracts see it: the sub-invocations not yet issued,
/// and whether the transfer has been aborted.
pub struct EngineState {
    pub pending: Seq<SubInvocation>,
    pub aborted: bool,
}

/// One move of the engine: the state it goes to and the action it asks for.
///
/// A rejection aborts the transfer, and an aborted transfer stays aborted.
/// Otherwise the first pending sub-invocation is issued, or the hook
/// completes where none is pending.
pub open spec fn next(state: EngineState, event: HookEvent) -> (EngineState, HookAction) {
    if state.aborted || event == HookEvent::Rejected {
        (
            EngineState { pending: state.pending, aborted: true },
            HookAction::Abort(HookError::SubInvocationFailure),
        )
    } else if state.pending.len() == 0 {
        (state, HookAction::Complete)
    } else {
        (
            EngineState { pending: state.pending.drop_first(), aborted: false },
            HookAction::Invoke(state.pending[0]),
        )
    }
}

/// The actions the engine asks for, one per event, from `state` on.
pub open spec fn run(state: EngineState, events: Seq<HookEvent>) -> Seq<HookAction>
    decreases events.len(),
{
    if events.len() == 0 {
        seq![]
    } else {
        seq![next(state, events[0]).1] + run(next(state, events[0]).0, events.drop_first())
    }
}

/// The fee extraction of one transfer, handed out one sub-invocation at a
/// time.
#[derive(Debug, PartialEq, Eq)]
pub struct HookEngine {
    /// The sub-invocations of the transfer, in order.
    steps: Vec<SubInvocation>,
    /// How many of them have been issued.
    issued: usize,
    /// Whether the transfer has been aborted.
    aborted: bool,
}

impl View for HookEngine {
    type V = EngineState;

    closed spec fn view(&self) -> EngineState {
        EngineState { pending: self.steps@.skip(self.issued as int), aborted: self.aborted }
    }
}

impl HookEngine {
    /// No more sub-invocations are counted as issued than there are.
    #[verifier::type_invariant]
    spec fn counted(&self) -> bool {
        self.issued <= self.steps@.len()
    }

    /// Enters the hook for a transfer of `amount`: decides as
    /// [`transfer_hook`] does and holds the sub-invocations ready.
    pub fn begin(accounts: &HookAccounts, amount: u64) -> (engine: Result<HookEngine, HookError>)
        ensures
            match hook_outcome(*accounts, amount) {
                Ok(plan) => engine matches Ok(e) && e@.pending == plan && !e@.aborted,
                Err(error) => engine matches Err(e) && e == error,
            },
    {
        match transfer_hook(accounts, amount) {
            Ok(steps) => {
                let engine = HookEngine { steps, issued: 0, aborted: false };
                assert(engine.steps@.skip(0) =~= engine.steps@);
                Ok(engine)
            },
            Err(error) => Err(error),
        }
    }

    /// Takes the host's report and says what to do next, as [`next`] defines.
    pub fn step(&mut self, event: HookEvent) -> (action: HookAction)
        ensures
            (final(self)@, action) == next(old(self)@, event),
    {
        proof {
            use_type_invariant(&*self);
        }
        if self.aborted || event == HookEvent::Rejected {
            self.aborted = true;
            return HookAction::Abort(HookError::SubInvocationFailure);
        }
        if self.issued >= self.steps.len() {
            assert(self@.pending.len() == 0);
            return HookAction::Complete;
        }
        let step = self.steps[self.issued];
        proof {
            let before = self.steps@.skip(self.issued as int);
            assert(before[0] == step);
            assert(before.drop_first() =~= self.steps@.skip(self.issued + 1));
        }
        self.issued = self.issued + 1;
        HookAction::Invoke(step)
    }

    /// Tells whether the engine has nothing more to ask for but completion.
    pub fn is_finished(&self) -> (finished: bool)
        ensures
            finished == (!self@.aborted && self@.pending.len() == 0),
    {
        proof {
            use_type_invariant(self);
        }
        !self.aborted && self.issued >= self.steps.len()
    }

    /// The sub-invocations that have not been issued yet, in order.
    pub fn pending(&self) -> (steps: Vec<SubInvocation>)
        ensures
            steps@ == self@.pending,
    {
        proof {
            use_type_invariant(self);
        }
        let mut steps: Vec<SubInvocation> = Vec::new();
        let mut i: usize = self.issued;
        while i < self.steps.len()
            invariant
                self.issued <= i <= self.steps.len(),
                steps@ == self.steps@.subrange(self.issued as int, i as int),
            decreases self.steps.len() - i,
        {
            steps.push(self.steps[i]);
            i += 1;
        }
        assert(steps@ =~= self.steps@.skip(self.issued as int));
        steps
    }
}

/// A sequence of `count` reports that all say `Proceed`.
pub open spec fn all_proceed(count: nat) -> Seq<HookEvent> {
    Seq::new(count, |i: int| HookEvent::Proceed)
}

/// Where the token program rejects nothing, the engine issues exactly the
/// pending sub-invocations, in their order, and then completes.
pub proof fn accepted_run_issues_the_plan(state: EngineState)
    requires
        !state.aborted,
    ensures
        run(state, all_proceed(state.pending.len() + 1)) == state.pending.map_values(
            |step: SubInvocation| HookAction::Invoke(step),
        ).push(HookAction::Complete),
    decreases state.pending.len(),
{
    let events = all_proceed(state.pending.len() + 1);
    let invoke = |step: SubInvocation| HookAction::Invoke(step);
    if state.pending.len() == 0 {
        assert(events.drop_first() =~= seq![]);
        assert(run(next(state, events[0]).0, events.drop_first()) =~= seq![]);
        assert(run(state, events) =~= seq![HookAction::Complete]);
        assert(state.pending.map_values(invoke).push(HookAction::Complete) =~= seq![
            HookAction::Complete,
        ]);
    } else {
        let after = next(state, events[0]).0;
        assert(events.drop_first() =~= all_proceed(after.pending.len() + 1));
        accepted_run_issues_the_plan(after);
        assert(run(state, events) =~= state.pending.map_values(invoke).push(HookAction::Complete));
    }
}

/// The engine answers every report: a run has one action per event.
pub proof fn run_answers_every_event(state: EngineState, events: Seq<HookEvent>)
    ensures
        run(state, events).len() == events.len(),
    decreases events.len(),
{
    if events.len() > 0 {
        run_answers_every_event(next(state, events[0]).0, events.drop_first());
    }
}

/// Once the transfer is aborted, the engine asks for nothing but the abort,
/// whatever is reported to it.
pub proof fn aborted_run_stays_aborted(state: EngineState, events: Seq<HookEvent>)
    requires
        state.aborted,
    ensures
        run(state, events) == Seq::new(
            events.len(),
            |i: int| HookAction::Abort(HookError::SubInvocationFailure),
        ),
    decreases events.len(),
{
    if events.len() == 0 {
        assert(run(state, events) =~= Seq::new(
            events.len(),
            |i: int| HookAction::Abort(HookError::SubInvocationFailure),
        ));
    } else {
        aborted_run_stays_aborted(next(state, events[0]).0, events.drop_first());
        assert(run(state, events) =~= Seq::new(
            events.len(),
            |i: int| HookAction::Abort(HookError::SubInvocationFailure),
        ));
    }
}

/// A rejected sub-invocation aborts the transfer at once with
/// `SubInvocationFailure`, and nothing further is issued.
pub proof fn rejection_aborts(state: EngineState, later: Seq<HookEvent>)
    ensures
        next(state, HookEvent::Rejected).1 == HookAction::Abort(HookError::SubInvocationFailure),
        next(state, HookEvent::Rejected).0.aborted,
        run(state, seq![HookEvent::Rejected] + later) == Seq::new(
            later.len() + 1,
            |i: int| HookAction::Abort(HookError::SubInvocationFailure),
        ),
{
    let events = seq![HookEvent::Rejected] + later;
    assert(events.drop_first() =~= later);
    aborted_run_stays_aborted(next(state, HookEvent::Rejected).0, later);
    assert(run(state, events) =~= Seq::new(
        later.len() + 1,
        |i: int| HookAction::Abort(HookError::SubInvocationFailure),
    ));
}

} // verus!
