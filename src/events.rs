//! Informational records that committed operations publish.
use vstd::prelude::*;

verus! {

#[derive(Clone, Copy, Debug, PartialEq, Eq, Structural)]
pub struct VoteEvent {
    pub market_id: u32,
    pub timestamp: i64,
    pub total_votes: u64,
    pub amount: u64,
}

/// The winner a settlement committed.
#[derive(Clone, Copy, Debug, PartialEq, Eq, Structural)]
pub struct RevealResultEvent {
    pub market_id: u32,
    pub output: u8,
}

/// A purchase: `status` 1 when committed, 0 when the balance fell short.
#[derive(Clone, Copy, Debug, PartialEq, Eq, Structural)]
pub struct BuySharesEvent {
    pub market_id: u32,
    pub status: u8,
    pub timestamp: i64,
    pub amount: u64,
}

/// A sale: `status` 1 when committed, 0 when the position held too few shares.
#[derive(Clone, Copy, Debug, PartialEq, Eq, Structural)]
pub struct SellSharesEvent {
    pub market_id: u32,
    pub status: u8,
    pub timestamp: i64,
    pub amount: u64,
}

#[derive(Clone, Copy, Debug, PartialEq, Eq, Structural)]
pub struct ClaimRewardsEvent {
    pub market_id: u32,
    pub amount: u64,
}

#[derive(Clone, Copy, Debug, PartialEq, Eq, Structural)]
pub struct InitMarketStatsEvent {
    pub market_id: u32,
}

} // verus!
