use vstd::prelude::*;

verus! {

/// Every way an instruction or a callback can be refused.
#[derive(Clone, Copy, Debug, PartialEq, Eq, Structural)]
pub enum ErrorCode {
    InvalidAuthority,
    AbortedComputation,
    InvalidNumOptions,
    ClusterNotSet,
    InsufficientPayment,
    InvalidLiquidityParameter,
    EmptyOption,
    InvalidQuestion,
    MarketInactive,
    MarketActive,
    InsufficientBalance,
    MarketNotSettled,
    MarketProbsRevealRateLimit,
    InvalidAmount,
    AmountTooLarge,
    MarketNotFunded,
    InvalidMint,
}

impl ErrorCode {
    /// Human-readable description of the error.
    pub fn message(&self) -> &'static str {
        match self {
            ErrorCode::InvalidAuthority => "Invalid authority",
            ErrorCode::AbortedComputation => "The computation was aborted",
            ErrorCode::InvalidNumOptions => "Invalid number of options",
            ErrorCode::ClusterNotSet => "Cluster not set",
            ErrorCode::InsufficientPayment => "Insufficient payment",
            ErrorCode::InvalidLiquidityParameter => "liquidity parameter must >= 10",
            ErrorCode::EmptyOption => "Empty option",
            ErrorCode::InvalidQuestion => "Invalid question",
            ErrorCode::MarketInactive => "Market inactive",
            ErrorCode::MarketActive => "Market active",
            ErrorCode::InsufficientBalance => "Insufficient balance",
            ErrorCode::MarketNotSettled => "Market not settled",
            ErrorCode::MarketProbsRevealRateLimit => "Market probs reveal rate limit",
            ErrorCode::InvalidAmount => "Invalid amount: amount must be positive",
            ErrorCode::AmountTooLarge => "Amount too large: exceeds maximum u64 value",
            ErrorCode::MarketNotFunded => "Market not funded",
            ErrorCode::InvalidMint => "Invalid mint",
        }
    }
}

} // verus!
