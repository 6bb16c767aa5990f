//! Integer token arithmetic: funding requirements, decimal scaling and the
//! validation that turns a trade's price into a ledger amount.
use vstd::prelude::*;
use vstd::arithmetic::power::{pow, lemma_pow_increases};
use crate::constants::{LN_2_SCALE, LN_2_SCALED};
use crate::errors::ErrorCode;

verus! {

/// A trade price after scaling to token units and rounding to the nearest
/// integer: its sign, and its magnitude saturated at `u128::MAX`.
#[derive(Clone, Copy, Debug, PartialEq, Eq, Structural)]
pub struct RoundedAmount {
    pub negative: bool,
    pub magnitude: u128,
}

/// The ledger amount for a rounded price: negative prices and prices beyond
/// `u64::MAX` are refused, never clamped.
pub open spec fn token_amount(a: RoundedAmount) -> Result<u64, ErrorCode> {
    if a.negative {
        Err(ErrorCode::InvalidAmount)
    } else if a.magnitude > u64::MAX {
        Err(ErrorCode::AmountTooLarge)
    } else {
        Ok(a.magnitude as u64)
    }
}

/// Converts a rounded price into a ledger amount of tokens.
pub fn convert_to_token_amount(a: RoundedAmount) -> (r: Result<u64, ErrorCode>)
    ensures
        r == token_amount(a),
{
    if a.negative {
        Err(ErrorCode::InvalidAmount)
    } else if a.magnitude > u64::MAX as u128 {
        Err(ErrorCode::AmountTooLarge)
    } else {
        Ok(a.magnitude as u64)
    }
}

/// `10^decimals`, the number of base units in one whole token, or `None`
/// when it exceeds `u64::MAX`.
pub fn decimal_multiplier(decimals: u8) -> (r: Option<u64>)
    ensures
        r matches Some(m) ==> m == pow(10, decimals as nat),
        r is None <==> pow(10, decimals as nat) > u64::MAX,
{
    let mut m: u64 = 1;
    let mut i: u8 = 0;
    proof {
        reveal(pow);
    }
    while i < decimals
        invariant
            i <= decimals,
            m == pow(10, i as nat),
        decreases decimals - i,
    {
        proof {
            reveal(pow);
        }
        match m.checked_mul(10) {
            Some(next) => {
                m = next;
                i = i + 1;
            },
            None => {
                proof {
                    lemma_pow_increases(10, (i + 1) as nat, decimals as nat);
                }
                return None;
            },
        }
    }
    Some(m)
}

/// Tokens the market maker must deposit before a market with liquidity
/// parameter `b` opens: `b * ln(2)`, the cost of the empty market, rounded down.
pub open spec fn funding_requirement(b: u64) -> int {
    b * LN_2_SCALED / LN_2_SCALE as int
}

/// Computes `funding_requirement(b)`.
pub fn required_funding(b: u64) -> (r: u64)
    ensures
        r == funding_requirement(b),
        r <= b,
{
    assert((b as int) * 6_931_471_805_599_453 <= u128::MAX && (b as int) * 6_931_471_805_599_453
        / 10_000_000_000_000_000 <= b) by (nonlinear_arith)
        requires
            b <= u64::MAX,
    ;
    ((b as u128) * (LN_2_SCALED as u128) / LN_2_SCALE) as u64
}

} // verus!
