use vstd::prelude::*;

verus! {

/// Number of ledger shares that make up one unit of exposure.
pub const SHARES_PER_UNIT: u64 = 1_000_000;

/// Settlement-token amount paid for one unit of winning exposure.
pub const PAYOUT_PER_SHARE: u64 = 1_000_000;

/// Smallest liquidity parameter a market may be created with.
pub const MIN_LIQUIDITY_PARAMETER: u64 = 10;

/// A market always has exactly two outcomes.
pub const MAX_OPTIONS: usize = 2;

pub const MAX_QUESTION_LENGTH: usize = 50;

pub const MAX_OPTION_LENGTH: usize = 20;

/// Minimum number of seconds between two probability reveals.
pub const MARKET_REVEAL_PROBS_TIME: u64 = 60;

/// `ln(2)` scaled by `LN_2_SCALE`.
pub const LN_2_SCALED: u64 = 6_931_471_805_599_453;

pub const LN_2_SCALE: u128 = 10_000_000_000_000_000;

/// Amount held back from the market maker's withdrawal after settlement.
pub const WINNING_RESERVE: u64 = 10_000;

/// Byte offset of the encrypted tallies in a market account.
pub const MARKET_ACCOUNT_VOTE_STATS_OFFSET: u32 = 25;

pub const MARKET_ACCOUNT_VOTE_STATS_LENGTH: u32 = 64;

pub const MARKET_ACCOUNT_PROB_LENGTH: u32 = 64;

pub const MARKET_ACCOUNT_COST_LENGTH: u32 = 32;

/// Byte offset of the encrypted shares in a user position account.
pub const USER_POSITION_SHARES_OFFSET: u32 = 25;

pub const USER_POSITION_SHARES_LENGTH: u32 = 64;

} // verus!
