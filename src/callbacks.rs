//! The commit side of each confidential instruction.
//!
//! A callback receives the cluster's result envelope, confirms that the
//! account it writes to still admits the result, and then either commits the
//! new ciphertexts with their plaintext side effects, reports a business
//! rejection without touching anything, or fails without touching anything.
use vstd::prelude::*;
use crate::amounts::{convert_to_token_amount, token_amount, RoundedAmount};
use crate::errors::ErrorCode;
use crate::events::{
    BuySharesEvent, ClaimRewardsEvent, InitMarketStatsEvent, RevealResultEvent, SellSharesEvent,
};
use crate::states::{Ciphertext, MarketAccount, MarketStatus, UserPosition};

verus! {

/// What the cluster hands back for one computation.
pub enum ComputationOutputs<T> {
    Success(T),
    Failure,
}

/// Market state re-encrypted by the cluster under a fresh nonce.
#[derive(Clone, Copy, Debug)]
pub struct EncMarketStats {
    pub nonce: u128,
    pub vote_state: [Ciphertext; 2],
    pub probs: [Ciphertext; 2],
    pub cost: Ciphertext,
}

/// Position shares re-encrypted by the cluster under a fresh nonce.
#[derive(Clone, Copy, Debug)]
pub struct EncUserPosition {
    pub nonce: u128,
    pub shares: [Ciphertext; 2],
}

/// Result of a purchase: new state and the price, as rounded token units.
#[derive(Clone, Copy, Debug)]
pub struct BuySharesOutput {
    pub market: EncMarketStats,
    pub position: EncUserPosition,
    pub amount: RoundedAmount,
}

/// Result of a sale: new state, the refund (the negated price) as rounded
/// token units, and the sale status (0 when the position held too few).
#[derive(Clone, Copy, Debug)]
pub struct SellSharesOutput {
    pub market: EncMarketStats,
    pub position: EncUserPosition,
    pub refund: RoundedAmount,
    pub status: u8,
}

/// Revealed snapshot: probability bit patterns and tallies.
#[derive(Clone, Copy, Debug)]
pub struct RevealProbsOutput {
    pub probs: [u64; 2],
    pub votes: [u64; 2],
}

/// Settlement reveal: the winner echoed back with the final snapshot.
#[derive(Clone, Copy, Debug)]
pub struct RevealMarketOutput {
    pub winner: u8,
    pub probs: [u64; 2],
    pub votes: [u64; 2],
}

/// Result of a claim: the emptied position and the reward in tokens.
#[derive(Clone, Copy, Debug)]
pub struct ClaimRewardsOutput {
    pub position: EncUserPosition,
    pub reward: u64,
}

/// The market record with the cluster's ciphertexts and nonce in place.
pub open spec fn committed_market(m: MarketAccount, enc: EncMarketStats) -> MarketAccount {
    MarketAccount { nonce: enc.nonce, vote_state: enc.vote_state, probs: enc.probs, cost: enc.cost, ..m }
}

/// The position record with the cluster's ciphertexts and nonce in place.
pub open spec fn committed_position(p: UserPosition, enc: EncUserPosition) -> UserPosition {
    UserPosition { nonce: enc.nonce, shares: enc.shares, ..p }
}

fn commit_market(market: &mut MarketAccount, enc: &EncMarketStats)
    ensures
        *final(market) == committed_market(*old(market), *enc),
{
    market.nonce = enc.nonce;
    market.vote_state = enc.vote_state;
    market.probs = enc.probs;
    market.cost = enc.cost;
}

fn commit_position(position: &mut UserPosition, enc: &EncUserPosition)
    ensures
        *final(position) == committed_position(*old(position), *enc),
{
    position.nonce = enc.nonce;
    position.shares = enc.shares;
}

/// Outcome of the market-initialisation callback: the result and the market after it.
pub open spec fn init_market_commit(m: MarketAccount, output: ComputationOutputs<EncMarketStats>) -> (
    Result<InitMarketStatsEvent, ErrorCode>,
    MarketAccount,
) {
    if m.status != MarketStatus::Active {
        (Err(ErrorCode::MarketActive), m)
    } else {
        match output {
            ComputationOutputs::Failure => (Err(ErrorCode::AbortedComputation), m),
            ComputationOutputs::Success(enc) => (
                Ok(InitMarketStatsEvent { market_id: m.id }),
                MarketAccount { updated_at: 0, ..committed_market(m, enc) },
            ),
        }
    }
}

/// Stores the encrypted initial state of a newly created market.
pub fn init_market_stats_callback(
    market: &mut MarketAccount,
    output: ComputationOutputs<EncMarketStats>,
) -> (r: Result<InitMarketStatsEvent, ErrorCode>)
    ensures
        (r, *final(market)) == init_market_commit(*old(market), output),
{
    if market.status != MarketStatus::Active {
        return Err(ErrorCode::MarketActive);
    }
    let enc = match output {
        ComputationOutputs::Success(enc) => enc,
        ComputationOutputs::Failure => {
            return Err(ErrorCode::AbortedComputation);
        },
    };
    commit_market(market, &enc);
    market.updated_at = 0;
    Ok(InitMarketStatsEvent { market_id: market.id })
}

/// Outcome of the position-initialisation callback.
pub open spec fn init_position_commit(
    p: UserPosition,
    output: ComputationOutputs<EncUserPosition>,
) -> (Result<(), ErrorCode>, UserPosition) {
    match output {
        ComputationOutputs::Failure => (Err(ErrorCode::AbortedComputation), p),
        ComputationOutputs::Success(enc) => (Ok(()), committed_position(p, enc)),
    }
}

/// Stores the encrypted empty shares of a newly created position.
pub fn init_user_position_callback(
    position: &mut UserPosition,
    output: ComputationOutputs<EncUserPosition>,
) -> (r: Result<(), ErrorCode>)
    ensures
        (r, *final(position)) == init_position_commit(*old(position), output),
{
    match output {
        ComputationOutputs::Success(enc) => {
            commit_position(position, &enc);
            Ok(())
        },
        ComputationOutputs::Failure => Err(ErrorCode::AbortedComputation),
    }
}

/// Outcome of the purchase callback: the result, the market and the position after it.
pub open spec fn buy_commit(
    m: MarketAccount,
    p: UserPosition,
    output: ComputationOutputs<BuySharesOutput>,
    now: i64,
) -> (Result<BuySharesEvent, ErrorCode>, MarketAccount, UserPosition) {
    if m.status != MarketStatus::Active {
        (Err(ErrorCode::MarketActive), m, p)
    } else {
        match output {
            ComputationOutputs::Failure => (Err(ErrorCode::AbortedComputation), m, p),
            ComputationOutputs::Success(o) => match token_amount(o.amount) {
                Err(e) => (Err(e), m, p),
                Ok(amount) => if p.balance < amount {
                    (
                        Ok(BuySharesEvent { market_id: m.id, status: 0, timestamp: now, amount }),
                        m,
                        p,
                    )
                } else if m.tvl + amount > u64::MAX {
                    (Err(ErrorCode::AmountTooLarge), m, p)
                } else {
                    (
                        Ok(BuySharesEvent { market_id: m.id, status: 1, timestamp: now, amount }),
                        MarketAccount {
                            tvl: (m.tvl + amount) as u64,
                            ..committed_market(m, o.market)
                        },
                        UserPosition {
                            balance: (p.balance - amount) as u64,
                            ..committed_position(p, o.position)
                        },
                    )
                },
            },
        }
    }
}

/// Commits a purchase: debits the price from the participant's balance,
/// credits it to the market and stores the new ciphertexts. When the balance
/// cannot cover the price the purchase is reported with status 0 and nothing
/// is stored.
pub fn buy_shares_callback(
    market: &mut MarketAccount,
    position: &mut UserPosition,
    output: ComputationOutputs<BuySharesOutput>,
    now: i64,
) -> (r: Result<BuySharesEvent, ErrorCode>)
    ensures
        (r, *final(market), *final(position)) == buy_commit(
            *old(market),
            *old(position),
            output,
            now,
        ),
{
    if market.status != MarketStatus::Active {
        return Err(ErrorCode::MarketActive);
    }
    let o = match output {
        ComputationOutputs::Success(o) => o,
        ComputationOutputs::Failure => {
            return Err(ErrorCode::AbortedComputation);
        },
    };
    let amount = match convert_to_token_amount(o.amount) {
        Ok(a) => a,
        Err(e) => {
            return Err(e);
        },
    };
    if position.balance < amount {
        return Ok(BuySharesEvent { market_id: market.id, status: 0, timestamp: now, amount });
    }
    if market.tvl > u64::MAX - amount {
        return Err(ErrorCode::AmountTooLarge);
    }
    position.balance = position.balance - amount;
    commit_market(market, &o.market);
    commit_position(position, &o.position);
    market.tvl = market.tvl + amount;
    Ok(BuySharesEvent { market_id: market.id, status: 1, timestamp: now, amount })
}

/// Outcome of the sale callback: the result, the market and the position after it.
pub open spec fn sell_commit(
    m: MarketAccount,
    p: UserPosition,
    output: ComputationOutputs<SellSharesOutput>,
    now: i64,
) -> (Result<SellSharesEvent, ErrorCode>, MarketAccount, UserPosition) {
    if m.status != MarketStatus::Active {
        (Err(ErrorCode::MarketActive), m, p)
    } else {
        match output {
            ComputationOutputs::Failure => (Err(ErrorCode::AbortedComputation), m, p),
            ComputationOutputs::Success(o) => if o.status == 0 {
                (
                    Ok(SellSharesEvent { market_id: m.id, status: 0, timestamp: now, amount: 0 }),
                    m,
                    p,
                )
            } else {
                match token_amount(o.refund) {
                    Err(e) => (Err(e), m, p),
                    Ok(amount) => if p.balance + amount > u64::MAX {
                        (Err(ErrorCode::AmountTooLarge), m, p)
                    } else if m.tvl < amount {
                        (Err(ErrorCode::InsufficientBalance), m, p)
                    } else {
                        (
                            Ok(
                                SellSharesEvent {
                                    market_id: m.id,
                                    status: 1,
                                    timestamp: now,
                                    amount,
                                },
                            ),
                            MarketAccount {
                                tvl: (m.tvl - amount) as u64,
                                ..committed_market(m, o.market)
                            },
                            UserPosition {
                                balance: (p.balance + amount) as u64,
                                ..committed_position(p, o.position)
                            },
                        )
                    },
                }
            },
        }
    }
}

/// Commits a sale: credits the refund to the participant's balance, debits
/// it from the market and stores the new ciphertexts. A sale the position
/// could not cover is reported with status 0 and nothing is stored.
pub fn sell_shares_callback(
    market: &mut MarketAccount,
    position: &mut UserPosition,
    output: ComputationOutputs<SellSharesOutput>,
    now: i64,
) -> (r: Result<SellSharesEvent, ErrorCode>)
    ensures
        (r, *final(market), *final(position)) == sell_commit(
            *old(market),
            *old(position),
            output,
            now,
        ),
{
    if market.status != MarketStatus::Active {
        return Err(ErrorCode::MarketActive);
    }
    let o = match output {
        ComputationOutputs::Success(o) => o,
        ComputationOutputs::Failure => {
            return Err(ErrorCode::AbortedComputation);
        },
    };
    if o.status == 0 {
        return Ok(SellSharesEvent { market_id: market.id, status: 0, timestamp: now, amount: 0 });
    }
    let amount = match convert_to_token_amount(o.refund) {
        Ok(a) => a,
        Err(e) => {
            return Err(e);
        },
    };
    if position.balance > u64::MAX - amount {
        return Err(ErrorCode::AmountTooLarge);
    }
    if market.tvl < amount {
        return Err(ErrorCode::InsufficientBalance);
    }
    position.balance = position.balance + amount;
    commit_market(market, &o.market);
    commit_position(position, &o.position);
    market.tvl = market.tvl - amount;
    Ok(SellSharesEvent { market_id: market.id, status: 1, timestamp: now, amount })
}

/// Outcome of the probability-reveal callback.
pub open spec fn reveal_probs_commit(
    m: MarketAccount,
    output: ComputationOutputs<RevealProbsOutput>,
    now: u64,
) -> (Result<(), ErrorCode>, MarketAccount) {
    match output {
        ComputationOutputs::Failure => (Err(ErrorCode::AbortedComputation), m),
        ComputationOutputs::Success(o) => (
            Ok(()),
            MarketAccount { probs_revealed: o.probs, votes_revealed: o.votes, updated_at: now, ..m },
        ),
    }
}

/// Publishes a probability snapshot and records when it was taken.
pub fn reveal_probs_callback(
    market: &mut MarketAccount,
    output: ComputationOutputs<RevealProbsOutput>,
    now: u64,
) -> (r: Result<(), ErrorCode>)
    ensures
        (r, *final(market)) == reveal_probs_commit(*old(market), output, now),
{
    match output {
        ComputationOutputs::Success(o) => {
            market.probs_revealed = o.probs;
            market.votes_revealed = o.votes;
            market.updated_at = now;
            Ok(())
        },
        ComputationOutputs::Failure => Err(ErrorCode::AbortedComputation),
    }
}

/// Outcome of the settlement callback.
pub open spec fn settle_commit(m: MarketAccount, output: ComputationOutputs<RevealMarketOutput>) -> (
    Result<RevealResultEvent, ErrorCode>,
    MarketAccount,
) {
    if m.status != MarketStatus::Active {
        (Err(ErrorCode::MarketActive), m)
    } else {
        match output {
            ComputationOutputs::Failure => (Err(ErrorCode::AbortedComputation), m),
            ComputationOutputs::Success(o) => (
                Ok(RevealResultEvent { market_id: m.id, output: o.winner }),
                MarketAccount {
                    status: MarketStatus::Settled,
                    winning_outcome: o.winner,
                    probs_revealed: o.probs,
                    votes_revealed: o.votes,
                    ..m
                },
            ),
        }
    }
}

/// Settles an active market: records the winner and the final snapshot and
/// closes trading for good.
pub fn reveal_result_callback(
    market: &mut MarketAccount,
    output: ComputationOutputs<RevealMarketOutput>,
) -> (r: Result<RevealResultEvent, ErrorCode>)
    ensures
        (r, *final(market)) == settle_commit(*old(market), output),
{
    if market.status != MarketStatus::Active {
        return Err(ErrorCode::MarketActive);
    }
    match output {
        ComputationOutputs::Success(o) => {
            market.status = MarketStatus::Settled;
            market.winning_outcome = o.winner;
            market.probs_revealed = o.probs;
            market.votes_revealed = o.votes;
            Ok(RevealResultEvent { market_id: market.id, output: o.winner })
        },
        ComputationOutputs::Failure => Err(ErrorCode::AbortedComputation),
    }
}

/// Outcome of the claim callback.
pub open spec fn claim_commit(p: UserPosition, output: ComputationOutputs<ClaimRewardsOutput>) -> (
    Result<ClaimRewardsEvent, ErrorCode>,
    UserPosition,
) {
    match output {
        ComputationOutputs::Failure => (Err(ErrorCode::AbortedComputation), p),
        ComputationOutputs::Success(o) => if p.balance + o.reward > u64::MAX {
            (Err(ErrorCode::AmountTooLarge), p)
        } else {
            (
                Ok(ClaimRewardsEvent { market_id: p.market_id, amount: o.reward }),
                UserPosition {
                    balance: (p.balance + o.reward) as u64,
                    ..committed_position(p, o.position)
                },
            )
        },
    }
}

/// Credits a reward to the participant and stores the emptied shares.
pub fn claim_rewards_callback(
    position: &mut UserPosition,
    output: ComputationOutputs<ClaimRewardsOutput>,
) -> (r: Result<ClaimRewardsEvent, ErrorCode>)
    ensures
        (r, *final(position)) == claim_commit(*old(position), output),
{
    let o = match output {
        ComputationOutputs::Success(o) => o,
        ComputationOutputs::Failure => {
            return Err(ErrorCode::AbortedComputation);
        },
    };
    if position.balance > u64::MAX - o.reward {
        return Err(ErrorCode::AmountTooLarge);
    }
    position.balance = position.balance + o.reward;
    commit_position(position, &o.position);
    Ok(ClaimRewardsEvent { market_id: position.market_id, amount: o.reward })
}

/// A trade callback that fails, or that reports a business rejection
/// (status 0), leaves the market and the position exactly as they were.
pub proof fn lemma_rejected_trade_leaves_state(
    m: MarketAccount,
    p: UserPosition,
    buy: ComputationOutputs<BuySharesOutput>,
    sell: ComputationOutputs<SellSharesOutput>,
    now: i64,
)
    ensures
        ({
            let (r, m1, p1) = buy_commit(m, p, buy, now);
            (r is Err || (r matches Ok(ev) && ev.status == 0)) ==> m1 == m && p1 == p
        }),
        ({
            let (r, m1, p1) = sell_commit(m, p, sell, now);
            (r is Err || (r matches Ok(ev) && ev.status == 0)) ==> m1 == m && p1 == p
        }),
{
}

/// A committed trade moves tokens between the participant's balance and the
/// market's holdings: their sum is unchanged, and the event reports the amount moved.
pub proof fn lemma_trade_conserves_tokens(
    m: MarketAccount,
    p: UserPosition,
    buy: ComputationOutputs<BuySharesOutput>,
    sell: ComputationOutputs<SellSharesOutput>,
    now: i64,
)
    ensures
        ({
            let (r, m1, p1) = buy_commit(m, p, buy, now);
            r matches Ok(ev) ==> (ev.status == 1 ==> m1.tvl + p1.balance == m.tvl + p.balance
                && p1.balance == p.balance - ev.amount)
        }),
        ({
            let (r, m1, p1) = sell_commit(m, p, sell, now);
            r matches Ok(ev) ==> (ev.status == 1 ==> m1.tvl + p1.balance == m.tvl + p.balance
                && p1.balance == p.balance + ev.amount)
        }),
{
}

/// Once settled, a market takes no further trade or settlement: those
/// callbacks fail and change nothing.
pub proof fn lemma_settled_market_frozen(
    m: MarketAccount,
    p: UserPosition,
    buy: ComputationOutputs<BuySharesOutput>,
    sell: ComputationOutputs<SellSharesOutput>,
    settle: ComputationOutputs<RevealMarketOutput>,
    now: i64,
)
    requires
        m.status == MarketStatus::Settled,
    ensures
        buy_commit(m, p, buy, now) == (Err::<BuySharesEvent, ErrorCode>(ErrorCode::MarketActive), m, p),
        sell_commit(m, p, sell, now) == (Err::<SellSharesEvent, ErrorCode>(ErrorCode::MarketActive), m, p),
        settle_commit(m, settle) == (Err::<RevealResultEvent, ErrorCode>(ErrorCode::MarketActive), m),
{
}

} // verus!
