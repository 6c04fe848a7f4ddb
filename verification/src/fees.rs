use vstd::prelude::*;
use crate::errors::ErrorCode;

verus! {

/// Cost of a message before any escalation has happened, in base units of
/// the fungible token (100,000 tokens at 6 decimals).
pub const INITIAL_MESSAGE_COST: u64 = 100_000 * 1_000_000;

/// Numerator of the escalation ratio: each message makes the next one 1%
/// more expensive.
pub const COST_INCREASE_RATE: u64 = 101;

/// Denominator of the escalation ratio.
pub const COST_INCREASE_DENOMINATOR: u64 = 100;

/// True when escalating `current` would overflow the intermediate product,
/// in which case the whole append must be refused with no state change.
pub open spec fn fee_overflows(current: u64) -> bool {
    current * COST_INCREASE_RATE > u64::MAX
}

/// The fee that follows `current` in the schedule:
/// `floor(current * 101 / 100)`.
pub open spec fn spec_next_fee(current: u64) -> u64
    recommends
        !fee_overflows(current),
{
    ((current * COST_INCREASE_RATE) / (COST_INCREASE_DENOMINATOR as int)) as u64
}

/// Computes the fee for the message after the one priced at `current`.
///
/// Fails with `Overflow` exactly when the multiply would exceed `u64`;
/// the division can never fail.
pub fn next_fee(current: u64) -> (r: Result<u64, ErrorCode>)
    ensures
        r is Ok <==> !fee_overflows(current),
        r matches Ok(f) ==> f == spec_next_fee(current),
        r matches Err(e) ==> e == ErrorCode::Overflow,
{
    match current.checked_mul(COST_INCREASE_RATE) {
        Some(product) => Ok(product / COST_INCREASE_DENOMINATOR),
        None => Err(ErrorCode::Overflow),
    }
}

/// The fee schedule is a pure function: equal inputs give equal fees, and
/// the reference point of the schedule holds exactly
/// (one hundred billion base units escalate to one hundred and one billion).
pub proof fn lemma_next_fee_deterministic(a: u64, b: u64)
    ensures
        a == b ==> spec_next_fee(a) == spec_next_fee(b),
        !fee_overflows(100_000_000_000u64),
        spec_next_fee(100_000_000_000u64) == 101_000_000_000u64,
{
}

} // verus!
