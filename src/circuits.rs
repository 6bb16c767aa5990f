//! The confidential instruction set, over plaintext values.
//!
//! Inside the secure-computation boundary every value is secret, so the
//! outcome a participant picked must not steer control flow: each function
//! evaluates both outcomes and combines them with `select`, an arithmetic
//! blend on a 0/1 flag, instead of branching on the secret.
use vstd::prelude::*;
use crate::constants::{PAYOUT_PER_SHARE, SHARES_PER_UNIT};

verus! {

/// Share tallies of the two outcomes of a market.
#[derive(Clone, Copy, Debug, PartialEq, Eq, Structural)]
pub struct VoteStats {
    pub option0: u64,
    pub option1: u64,
}

/// Shares that one participant holds of each outcome.
#[derive(Clone, Copy, Debug, PartialEq, Eq, Structural)]
pub struct UserPosition {
    pub option0: u64,
    pub option1: u64,
}

/// The outcome a participant trades: 0 or 1; any other value trades nothing.
#[derive(Clone, Copy, Debug, PartialEq, Eq, Structural)]
pub struct UserVote {
    pub option: u8,
}

/// Status reported by `sell_shares` when the position holds too few shares.
pub const SELL_INSUFFICIENT: u8 = 0;

/// Status reported by `sell_shares` when the sale went through.
pub const SELL_OK: u8 = 1;

/// The amount of `(a, b)` that belongs to `option`: `a` for 0, `b` for 1, none otherwise.
pub open spec fn pick(option: u8, a: u64, b: u64) -> int {
    if option == 0 {
        a as int
    } else if option == 1 {
        b as int
    } else {
        0
    }
}

/// The market's tallies include every position, in particular this one.
pub open spec fn position_within(stats: VoteStats, pos: UserPosition) -> bool {
    pos.option0 <= stats.option0 && pos.option1 <= stats.option1
}

/// Buying `shares` of `option` fits in the integer width of tallies and positions.
pub open spec fn can_buy(option: u8, shares: u64, stats: VoteStats, pos: UserPosition) -> bool {
    &&& (option == 0 ==> stats.option0 + shares <= u64::MAX && pos.option0 + shares <= u64::MAX)
    &&& (option == 1 ==> stats.option1 + shares <= u64::MAX && pos.option1 + shares <= u64::MAX)
}

/// Tallies and position after buying `shares` of `option`.
pub open spec fn bought(option: u8, shares: u64, stats: VoteStats, pos: UserPosition) -> (
    VoteStats,
    UserPosition,
) {
    let d0: int = if option == 0 { shares as int } else { 0 };
    let d1: int = if option == 1 { shares as int } else { 0 };
    (
        VoteStats { option0: (stats.option0 + d0) as u64, option1: (stats.option1 + d1) as u64 },
        UserPosition { option0: (pos.option0 + d0) as u64, option1: (pos.option1 + d1) as u64 },
    )
}

/// The position holds at least `shares` of `option`.
pub open spec fn can_sell(option: u8, shares: u64, pos: UserPosition) -> bool {
    pick(option, pos.option0, pos.option1) >= shares || (option != 0 && option != 1)
}

/// Tallies, position and status after selling `shares` of `option`; nothing
/// changes when the position holds too few.
pub open spec fn sold(option: u8, shares: u64, stats: VoteStats, pos: UserPosition) -> (
    VoteStats,
    UserPosition,
    u8,
) {
    if !can_sell(option, shares, pos) {
        (stats, pos, SELL_INSUFFICIENT)
    } else {
        let d0: int = if option == 0 { shares as int } else { 0 };
        let d1: int = if option == 1 { shares as int } else { 0 };
        (
            VoteStats {
                option0: (stats.option0 - d0) as u64,
                option1: (stats.option1 - d1) as u64,
            },
            UserPosition { option0: (pos.option0 - d0) as u64, option1: (pos.option1 - d1) as u64 },
            SELL_OK,
        )
    }
}

/// Settlement tokens owed for the winning shares of a position.
pub open spec fn reward_for(winner: u8, pos: UserPosition) -> int {
    pick(winner, pos.option0, pos.option1) * PAYOUT_PER_SHARE / SHARES_PER_UNIT as int
}

pub open spec fn empty_position() -> UserPosition {
    UserPosition { option0: 0, option1: 0 }
}

/// 1 when `b` holds, else 0.
fn flag(b: bool) -> (r: u64)
    ensures
        r == (if b { 1u64 } else { 0u64 }),
{
    b as u64
}

/// `x` when `f` is 1 and `y` when `f` is 0, computed without a branch.
fn select(f: u64, x: u64, y: u64) -> (r: u64)
    requires
        f <= 1,
    ensures
        r == (if f == 1 { x } else { y }),
{
    assert(x * f <= x && y * (1 - f) <= y && (f == 1 ==> x * f == x && y * (1 - f) == 0) && (f
        == 0 ==> x * f == 0 && y * (1 - f) == y)) by (nonlinear_arith)
        requires
            f <= 1,
    ;
    x * f + y * (1 - f)
}

/// Fresh market tallies: nothing bought yet.
pub fn init_vote_stats() -> (r: VoteStats)
    ensures
        r == (VoteStats { option0: 0, option1: 0 }),
{
    VoteStats { option0: 0, option1: 0 }
}

/// Fresh participant position: no shares of either outcome.
pub fn init_user_position() -> (r: UserPosition)
    ensures
        r == empty_position(),
{
    UserPosition { option0: 0, option1: 0 }
}

/// Adds `shares` of the chosen outcome to both the market tallies and the
/// participant's position.
pub fn buy_shares(vote: UserVote, shares: u64, stats: VoteStats, pos: UserPosition) -> (r: (
    VoteStats,
    UserPosition,
))
    requires
        can_buy(vote.option, shares, stats, pos),
    ensures
        r == bought(vote.option, shares, stats, pos),
{
    let f0 = flag(vote.option == 0);
    let f1 = flag(vote.option == 1);
    let d0 = select(f0, shares, 0);
    let d1 = select(f1, shares, 0);
    (
        VoteStats { option0: stats.option0 + d0, option1: stats.option1 + d1 },
        UserPosition { option0: pos.option0 + d0, option1: pos.option1 + d1 },
    )
}

/// Removes `shares` of the chosen outcome from the tallies and the position,
/// or, when the position holds fewer, returns both unchanged with status
/// `SELL_INSUFFICIENT`.
pub fn sell_shares(vote: UserVote, shares: u64, stats: VoteStats, pos: UserPosition) -> (r: (
    VoteStats,
    UserPosition,
    u8,
))
    requires
        position_within(stats, pos),
    ensures
        r == sold(vote.option, shares, stats, pos),
        !can_sell(vote.option, shares, pos) ==> r.0 == stats && r.1 == pos && r.2
            == SELL_INSUFFICIENT,
        can_sell(vote.option, shares, pos) ==> r.2 == SELL_OK,
{
    let f0 = flag(vote.option == 0);
    let f1 = flag(vote.option == 1);
    let short0 = flag(pos.option0 < shares);
    let short1 = flag(pos.option1 < shares);
    // 1 when the chosen outcome is short of shares
    let short = select(f0, short0, select(f1, short1, 0));
    let ok = 1 - short;
    let d0 = select(f0, select(ok, shares, 0), 0);
    let d1 = select(f1, select(ok, shares, 0), 0);
    let status = select(ok, SELL_OK as u64, SELL_INSUFFICIENT as u64) as u8;
    (
        VoteStats { option0: stats.option0 - d0, option1: stats.option1 - d1 },
        UserPosition { option0: pos.option0 - d0, option1: pos.option1 - d1 },
        status,
    )
}

/// Pays out the shares of the winning outcome and empties the position.
pub fn claim_rewards(winner: u8, pos: UserPosition) -> (r: (UserPosition, u64))
    ensures
        r.0 == empty_position(),
        r.1 == reward_for(winner, pos),
        r.1 == pick(winner, pos.option0, pos.option1),
{
    let f0 = flag(winner == 0);
    let f1 = flag(winner == 1);
    let held = select(f0, pos.option0, select(f1, pos.option1, 0));
    assert((held as int) * 1_000_000 <= u128::MAX && (held as int) * 1_000_000 / 1_000_000
        == held as int) by (nonlinear_arith)
        requires
            held <= u64::MAX,
    ;
    let reward = (held as u128) * (PAYOUT_PER_SHARE as u128) / (SHARES_PER_UNIT as u128);
    (UserPosition { option0: 0, option1: 0 }, reward as u64)
}

/// The tallies in the order of the outcomes, as a reveal publishes them.
pub fn reveal_tally(stats: VoteStats) -> (r: [u64; 2])
    ensures
        r@ == seq![stats.option0, stats.option1],
{
    [stats.option0, stats.option1]
}

/// Selling right after buying the same quantity of the same outcome succeeds
/// and restores the tallies and the position exactly; the pricing engine is a
/// function of the tallies, so the market's cost is restored with them.
pub proof fn lemma_buy_then_sell_round_trip(
    option: u8,
    shares: u64,
    stats: VoteStats,
    pos: UserPosition,
)
    requires
        can_buy(option, shares, stats, pos),
        position_within(stats, pos),
    ensures
        ({
            let (s1, p1) = bought(option, shares, stats, pos);
            &&& position_within(s1, p1)
            &&& sold(option, shares, s1, p1) == (stats, pos, SELL_OK)
        }),
{
}

/// Trading keeps every position within the market's tallies.
pub proof fn lemma_trades_keep_position_within(
    option: u8,
    shares: u64,
    stats: VoteStats,
    pos: UserPosition,
)
    requires
        position_within(stats, pos),
    ensures
        can_buy(option, shares, stats, pos) ==> position_within(
            bought(option, shares, stats, pos).0,
            bought(option, shares, stats, pos).1,
        ),
        position_within(sold(option, shares, stats, pos).0, sold(option, shares, stats, pos).1),
{
}

/// A sale of more shares than the position holds changes nothing and reports
/// `SELL_INSUFFICIENT`.
pub proof fn lemma_insufficient_sell_unchanged(
    option: u8,
    shares: u64,
    stats: VoteStats,
    pos: UserPosition,
)
    requires
        option == 0 || option == 1,
        pick(option, pos.option0, pos.option1) < shares,
    ensures
        sold(option, shares, stats, pos) == (stats, pos, SELL_INSUFFICIENT),
{
}

/// A position pays out at most once: the first claim pays the winning
/// shares, which is nonzero exactly when some are held, and a second claim on
/// the emptied position pays nothing and leaves it empty.
pub proof fn lemma_claim_once(winner: u8, pos: UserPosition)
    ensures
        reward_for(winner, pos) == pick(winner, pos.option0, pos.option1),
        reward_for(winner, empty_position()) == 0,
{
    let held = pick(winner, pos.option0, pos.option1);
    assert(held * 1_000_000 / 1_000_000 == held) by (nonlinear_arith);
}

} // verus!
