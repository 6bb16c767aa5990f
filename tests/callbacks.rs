use arx_predict::amounts::RoundedAmount;
use arx_predict::callbacks::{
    buy_shares_callback, claim_rewards_callback, init_market_stats_callback,
    init_user_position_callback, reveal_probs_callback, reveal_result_callback,
    sell_shares_callback, BuySharesOutput, ClaimRewardsOutput, ComputationOutputs,
    EncMarketStats, EncUserPosition, RevealMarketOutput, RevealProbsOutput, SellSharesOutput,
};
use arx_predict::errors::ErrorCode;
use arx_predict::events::{BuySharesEvent, ClaimRewardsEvent, RevealResultEvent, SellSharesEvent};
use arx_predict::states::{MarketAccount, MarketStatus, UserPosition};

fn market(tvl: u64) -> MarketAccount {
    let mut m = MarketAccount::new();
    m.id = 4;
    m.status = MarketStatus::Active;
    m.nonce = 10;
    m.tvl = tvl;
    m
}

fn position(balance: u64) -> UserPosition {
    let mut p = UserPosition::new();
    p.nonce = 20;
    p.balance = balance;
    p.market_id = 4;
    p
}

fn enc_market() -> EncMarketStats {
    EncMarketStats { nonce: 11, vote_state: [[1; 32], [2; 32]], probs: [[3; 32], [4; 32]], cost: [5; 32] }
}

fn enc_position() -> EncUserPosition {
    EncUserPosition { nonce: 21, shares: [[6; 32], [7; 32]] }
}

fn amount(n: u128) -> RoundedAmount {
    RoundedAmount { negative: false, magnitude: n }
}

fn buy(n: u128) -> ComputationOutputs<BuySharesOutput> {
    ComputationOutputs::Success(BuySharesOutput { market: enc_market(), position: enc_position(), amount: amount(n) })
}

fn sell(n: u128, status: u8) -> ComputationOutputs<SellSharesOutput> {
    ComputationOutputs::Success(SellSharesOutput {
        market: enc_market(),
        position: enc_position(),
        refund: amount(n),
        status,
    })
}

fn assert_untouched(m: &MarketAccount, p: &UserPosition, tvl: u64, balance: u64) {
    assert_eq!(m.nonce, 10);
    assert_eq!(m.cost, [0; 32]);
    assert_eq!(m.tvl, tvl);
    assert_eq!(p.nonce, 20);
    assert_eq!(p.shares, [[0; 32], [0; 32]]);
    assert_eq!(p.balance, balance);
}

#[test]
fn init_market_stats_callback_commits_state() {
    let mut m = market(0);
    m.updated_at = 99;
    let ev = init_market_stats_callback(&mut m, ComputationOutputs::Success(enc_market())).unwrap();
    assert_eq!(ev.market_id, 4);
    assert_eq!(m.nonce, 11);
    assert_eq!(m.vote_state, [[1; 32], [2; 32]]);
    assert_eq!(m.probs, [[3; 32], [4; 32]]);
    assert_eq!(m.cost, [5; 32]);
    assert_eq!(m.updated_at, 0);
}

#[test]
fn init_market_stats_callback_refusals() {
    let mut inactive = MarketAccount::new();
    let r = init_market_stats_callback(&mut inactive, ComputationOutputs::Success(enc_market()));
    assert_eq!(r, Err(ErrorCode::MarketActive));
    assert_eq!(inactive.nonce, 0);
    let mut m = market(0);
    assert_eq!(init_market_stats_callback(&mut m, ComputationOutputs::Failure), Err(ErrorCode::AbortedComputation));
    assert_eq!(m.nonce, 10);
}

#[test]
fn init_user_position_callback_commits_shares() {
    let mut p = position(0);
    assert_eq!(init_user_position_callback(&mut p, ComputationOutputs::Success(enc_position())), Ok(()));
    assert_eq!(p.nonce, 21);
    assert_eq!(p.shares, [[6; 32], [7; 32]]);
    let mut q = position(0);
    assert_eq!(init_user_position_callback(&mut q, ComputationOutputs::Failure), Err(ErrorCode::AbortedComputation));
    assert_eq!(q.nonce, 20);
}

#[test]
fn buy_callback_debits_and_commits() {
    let mut m = market(1_000);
    let mut p = position(500);
    let ev = buy_shares_callback(&mut m, &mut p, buy(300), 77).unwrap();
    assert_eq!(ev, BuySharesEvent { market_id: 4, status: 1, timestamp: 77, amount: 300 });
    assert_eq!(p.balance, 200);
    assert_eq!(m.tvl, 1_300);
    assert_eq!(m.nonce, 11);
    assert_eq!(m.cost, [5; 32]);
    assert_eq!(p.nonce, 21);
    assert_eq!(p.shares, [[6; 32], [7; 32]]);
}

#[test]
fn buy_callback_with_short_balance_commits_nothing() {
    let mut m = market(1_000);
    let mut p = position(299);
    let ev = buy_shares_callback(&mut m, &mut p, buy(300), 77).unwrap();
    assert_eq!(ev, BuySharesEvent { market_id: 4, status: 0, timestamp: 77, amount: 300 });
    assert_untouched(&m, &p, 1_000, 299);
}

#[test]
fn buy_callback_failures_commit_nothing() {
    let mut m = market(1_000);
    let mut p = position(500);
    assert_eq!(buy_shares_callback(&mut m, &mut p, ComputationOutputs::Failure, 1), Err(ErrorCode::AbortedComputation));
    let negative = ComputationOutputs::Success(BuySharesOutput {
        market: enc_market(),
        position: enc_position(),
        amount: RoundedAmount { negative: true, magnitude: 3 },
    });
    assert_eq!(buy_shares_callback(&mut m, &mut p, negative, 1), Err(ErrorCode::InvalidAmount));
    assert_eq!(
        buy_shares_callback(&mut m, &mut p, buy(u64::MAX as u128 + 1), 1),
        Err(ErrorCode::AmountTooLarge)
    );
    assert_untouched(&m, &p, 1_000, 500);
    let mut full = market(u64::MAX);
    assert_eq!(buy_shares_callback(&mut full, &mut p, buy(1), 1), Err(ErrorCode::AmountTooLarge));
    assert_untouched(&full, &p, u64::MAX, 500);
    let mut settled = market(1_000);
    settled.status = MarketStatus::Settled;
    assert_eq!(buy_shares_callback(&mut settled, &mut p, buy(1), 1), Err(ErrorCode::MarketActive));
    assert_untouched(&settled, &p, 1_000, 500);
}

#[test]
fn sell_callback_refunds_and_commits() {
    let mut m = market(1_000);
    let mut p = position(5);
    let ev = sell_shares_callback(&mut m, &mut p, sell(400, 1), 88).unwrap();
    assert_eq!(ev, SellSharesEvent { market_id: 4, status: 1, timestamp: 88, amount: 400 });
    assert_eq!(p.balance, 405);
    assert_eq!(m.tvl, 600);
    assert_eq!(m.nonce, 11);
    assert_eq!(p.nonce, 21);
}

#[test]
fn sell_callback_with_insufficient_shares_commits_nothing() {
    let mut m = market(1_000);
    let mut p = position(5);
    let ev = sell_shares_callback(&mut m, &mut p, sell(400, 0), 88).unwrap();
    assert_eq!(ev, SellSharesEvent { market_id: 4, status: 0, timestamp: 88, amount: 0 });
    assert_untouched(&m, &p, 1_000, 5);
}

#[test]
fn sell_callback_failures_commit_nothing() {
    let mut m = market(100);
    let mut p = position(5);
    assert_eq!(sell_shares_callback(&mut m, &mut p, sell(101, 1), 1), Err(ErrorCode::InsufficientBalance));
    assert_eq!(sell_shares_callback(&mut m, &mut p, ComputationOutputs::Failure, 1), Err(ErrorCode::AbortedComputation));
    let negative = ComputationOutputs::Success(SellSharesOutput {
        market: enc_market(),
        position: enc_position(),
        refund: RoundedAmount { negative: true, magnitude: 0 },
        status: 1,
    });
    assert_eq!(sell_shares_callback(&mut m, &mut p, negative, 1), Err(ErrorCode::InvalidAmount));
    assert_untouched(&m, &p, 100, 5);
    let mut rich = position(u64::MAX);
    assert_eq!(sell_shares_callback(&mut m, &mut rich, sell(1, 1), 1), Err(ErrorCode::AmountTooLarge));
    assert_untouched(&m, &rich, 100, u64::MAX);
}

#[test]
fn reveal_probs_callback_records_snapshot() {
    let mut m = market(0);
    let half = 0.5f64.to_bits();
    let out = RevealProbsOutput { probs: [half, half], votes: [3, 4] };
    assert_eq!(reveal_probs_callback(&mut m, ComputationOutputs::Success(out), 1_234), Ok(()));
    assert_eq!(m.probs_revealed, [half, half]);
    assert_eq!(m.votes_revealed, [3, 4]);
    assert_eq!(m.updated_at, 1_234);
    assert_eq!(reveal_probs_callback(&mut m, ComputationOutputs::Failure, 9), Err(ErrorCode::AbortedComputation));
    assert_eq!(m.updated_at, 1_234);
}

#[test]
fn settlement_then_claim_pays_winner() {
    let mut m = market(5_000_000);
    let out = RevealMarketOutput { winner: 0, probs: [0, 0], votes: [2_000_000, 1_000_000] };
    let ev = reveal_result_callback(&mut m, ComputationOutputs::Success(out)).unwrap();
    assert_eq!(ev, RevealResultEvent { market_id: 4, output: 0 });
    assert_eq!(m.status, MarketStatus::Settled);
    assert_eq!(m.winning_outcome, 0);
    assert_eq!(m.votes_revealed, [2_000_000, 1_000_000]);
    let again = RevealMarketOutput { winner: 1, probs: [0, 0], votes: [0, 0] };
    assert_eq!(reveal_result_callback(&mut m, ComputationOutputs::Success(again)), Err(ErrorCode::MarketActive));
    assert_eq!(m.winning_outcome, 0);

    let mut p = position(10);
    let claim = ClaimRewardsOutput { position: enc_position(), reward: 2_000_000 };
    let ev = claim_rewards_callback(&mut p, ComputationOutputs::Success(claim)).unwrap();
    assert_eq!(ev, ClaimRewardsEvent { market_id: 4, amount: 2_000_000 });
    assert_eq!(p.balance, 2_000_010);
    assert_eq!(p.nonce, 21);
}

#[test]
fn claim_callback_failures_commit_nothing() {
    let mut p = position(u64::MAX);
    let claim = ClaimRewardsOutput { position: enc_position(), reward: 1 };
    assert_eq!(claim_rewards_callback(&mut p, ComputationOutputs::Success(claim)), Err(ErrorCode::AmountTooLarge));
    assert_eq!(claim_rewards_callback(&mut p, ComputationOutputs::Failure), Err(ErrorCode::AbortedComputation));
    assert_eq!(p.balance, u64::MAX);
    assert_eq!(p.nonce, 20);
}
