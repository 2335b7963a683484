//! Fee arithmetic of the transfer hook.
//!
//! Every transfer pays three fees, each a fixed number of thousandths of the
//! amount, rounded down: one to the operations account, one burned, one to the
//! sender's institution. The arithmetic is on integers throughout, and a
//! product that leaves `u64` is reported, never wrapped.

use vstd::prelude::*;
use crate::error::HookError;

verus! {

/// Denominator of every fee rate: rates are in thousandths.
pub const FEE_DENOMINATOR: u64 = 1000;

/// Thousandths of the amount that go to the operations account.
pub const OPS_FEE_RATE: u64 = 5;

/// Thousandths of the amount that are burned.
pub const BURN_FEE_RATE: u64 = 5;

/// Thousandths of the amount that go to the sender's institution.
pub const INSTITUTION_FEE_RATE: u64 = 20;

/// Smallest amount on which any fee is due.
pub const MIN_FEE_BEARING_AMOUNT: u64 = 50;

/// The fee on `amount` at `rate` thousandths: the quotient rounded down.
pub open spec fn fee_of(amount: int, rate: int) -> int {
    (amount * rate) / 1000
}

/// The three fees taken from one transfer.
#[derive(Clone, Copy, Debug, PartialEq, Eq, Structural)]
pub struct FeeSplit {
    pub ops_fee: u64,
    pub burn_fee: u64,
    pub institution_fee: u64,
}

impl FeeSplit {
    /// The fees due on `amount`.
    pub open spec fn of(amount: u64) -> FeeSplit {
        FeeSplit {
            ops_fee: fee_of(amount as int, OPS_FEE_RATE as int) as u64,
            burn_fee: fee_of(amount as int, BURN_FEE_RATE as int) as u64,
            institution_fee: fee_of(amount as int, INSTITUTION_FEE_RATE as int) as u64,
        }
    }

    /// Sum of the three fees.
    pub open spec fn total(self) -> int {
        self.ops_fee + self.burn_fee + self.institution_fee
    }

    /// Tells whether no fee is due at all.
    pub open spec fn is_zero(self) -> bool {
        self.ops_fee == 0 && self.burn_fee == 0 && self.institution_fee == 0
    }

    /// Sum of the three fees, where it fits the amount type.
    pub fn total_extracted(&self) -> (total: Option<u64>)
        ensures
            self.total() <= u64::MAX ==> total == Some(self.total() as u64),
            self.total() > u64::MAX ==> total is None,
    {
        match self.ops_fee.checked_add(self.burn_fee) {
            Some(two) => two.checked_add(self.institution_fee),
            None => None,
        }
    }
}

/// Tells whether the fee product `amount * rate` leaves `u64`.
pub open spec fn fee_overflows(amount: u64, rate: u64) -> bool {
    amount * rate > u64::MAX
}

/// The fee on `amount` at `rate` thousandths, or `ArithmeticOverflow` where
/// the product `amount * rate` does not fit `u64`.
pub fn compute_fee(amount: u64, rate: u64) -> (fee: Result<u64, HookError>)
    ensures
        !fee_overflows(amount, rate) ==> fee == Ok::<u64, HookError>(fee_of(amount as int, rate as int) as u64),
        fee_overflows(amount, rate) ==> fee == Err::<u64, HookError>(HookError::ArithmeticOverflow),
        fee matches Ok(f) ==> f == fee_of(amount as int, rate as int),
{
    match amount.checked_mul(rate) {
        Some(product) => Ok(product / FEE_DENOMINATOR),
        None => Err(HookError::ArithmeticOverflow),
    }
}

/// The three fees on `amount`: operations, burn and institution, in that
/// order of computation. Fails with `ArithmeticOverflow` exactly when the
/// largest product, `amount * 20`, does not fit `u64`.
pub fn compute_fees(amount: u64) -> (fees: Result<FeeSplit, HookError>)
    ensures
        !fee_overflows(amount, INSTITUTION_FEE_RATE) ==> fees == Ok::<FeeSplit, HookError>(FeeSplit::of(amount)),
        fee_overflows(amount, INSTITUTION_FEE_RATE) ==> fees == Err::<FeeSplit, HookError>(HookError::ArithmeticOverflow),
        fees matches Ok(f) ==> {
            &&& f.ops_fee == fee_of(amount as int, 5)
            &&& f.burn_fee == fee_of(amount as int, 5)
            &&& f.institution_fee == fee_of(amount as int, 20)
            &&& f.total() <= amount
            &&& (amount < MIN_FEE_BEARING_AMOUNT ==> f.is_zero())
        },
{
    let ops_fee = match compute_fee(amount, OPS_FEE_RATE) {
        Ok(fee) => fee,
        Err(e) => { return Err(e); },
    };
    let burn_fee = match compute_fee(amount, BURN_FEE_RATE) {
        Ok(fee) => fee,
        Err(e) => { return Err(e); },
    };
    let institution_fee = match compute_fee(amount, INSTITUTION_FEE_RATE) {
        Ok(fee) => fee,
        Err(e) => { return Err(e); },
    };
    Ok(FeeSplit { ops_fee, burn_fee, institution_fee })
}

/// The three fees never take more than the amount: together they are at most
/// thirty thousandths of it.
pub proof fn fees_within_amount(amount: int)
    requires
        0 <= amount,
    ensures
        0 <= fee_of(amount, 5) <= amount,
        0 <= fee_of(amount, 20) <= amount,
        fee_of(amount, 5) + fee_of(amount, 5) + fee_of(amount, 20) <= amount,
        (fee_of(amount, 5) + fee_of(amount, 5) + fee_of(amount, 20)) * 1000 <= amount * 30,
{
}

/// Below fifty base units every fee rounds down to nothing, and from fifty on
/// the institution fee is at least one unit.
pub proof fn small_amounts_pay_nothing(amount: int)
    requires
        0 <= amount,
    ensures
        amount < 50 <==> (fee_of(amount, 5) == 0 && fee_of(amount, 5) == 0 && fee_of(amount, 20) == 0),
        amount < 50 <==> fee_of(amount, 20) == 0,
        amount < 200 <==> fee_of(amount, 5) == 0,
{
}

/// A larger amount never pays a smaller fee.
pub proof fn fee_grows_with_amount(smaller: int, larger: int, rate: int)
    requires
        0 <= smaller <= larger,
        rate == 5 || rate == 20,
    ensures
        fee_of(smaller, rate) <= fee_of(larger, rate),
{
}

} // verus!
