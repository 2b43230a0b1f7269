use vstd::prelude::*;
use crate::errors::ContractError;

verus! {

/// The largest fee rate: 10000 basis points is the whole amount.
pub const MAX_FEE_BPS: u32 = 10000;

/// The fee owed on `amount` at `fee_bps` basis points, rounded down.
pub open spec fn fee_of(amount: u64, fee_bps: u32) -> int {
    (amount as int * fee_bps as int) / 10000
}

/// Whether `amount * fee_bps` exceeds what a 64-bit balance can hold.
pub open spec fn fee_overflows(amount: u64, fee_bps: u32) -> bool {
    amount as int * fee_bps as int > u64::MAX as int
}

/// Computes `floor(amount * fee_bps / 10000)`, failing with `Overflow` when
/// the product does not fit in 64 bits.
pub fn compute_fee(amount: u64, fee_bps: u32) -> (r: Result<u64, ContractError>)
    ensures
        fee_overflows(amount, fee_bps) ==> r == Err::<u64, ContractError>(ContractError::Overflow),
        !fee_overflows(amount, fee_bps) ==> r == Ok::<u64, ContractError>(fee_of(amount, fee_bps) as u64),
{
    match amount.checked_mul(fee_bps as u64) {
        None => Err(ContractError::Overflow),
        Some(product) => Ok(product / 10000),
    }
}

/// At a rate of at most 10000 basis points the fee never exceeds the amount,
/// and it is never negative.
pub proof fn lemma_fee_bounded(amount: u64, fee_bps: u32)
    requires
        fee_bps <= MAX_FEE_BPS,
    ensures
        0 <= fee_of(amount, fee_bps) <= amount,
{
    let p = amount as int * fee_bps as int;
    assert(0 <= p <= amount as int * 10000) by (nonlinear_arith)
        requires p == amount as int * fee_bps as int, fee_bps <= 10000, amount >= 0;
    assert(p / 10000 <= amount) by (nonlinear_arith)
        requires 0 <= p <= amount as int * 10000;
    assert(p / 10000 >= 0) by (nonlinear_arith)
        requires 0 <= p;
}

} // verus!
