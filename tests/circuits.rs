use arx_predict::circuits::{
    buy_shares, claim_rewards, init_user_position, init_vote_stats, reveal_tally, sell_shares,
    UserPosition, UserVote, VoteStats, SELL_INSUFFICIENT, SELL_OK,
};

const A: UserVote = UserVote { option: 0 };
const B: UserVote = UserVote { option: 1 };

#[test]
fn buy_adds_to_chosen_outcome_only() {
    let (stats, pos) = buy_shares(A, 1_000_000, init_vote_stats(), init_user_position());
    assert_eq!(stats, VoteStats { option0: 1_000_000, option1: 0 });
    assert_eq!(pos, UserPosition { option0: 1_000_000, option1: 0 });
    let (stats, pos) = buy_shares(B, 1_000_000, stats, pos);
    assert_eq!(stats, VoteStats { option0: 1_000_000, option1: 1_000_000 });
    assert_eq!(pos, UserPosition { option0: 1_000_000, option1: 1_000_000 });
}

#[test]
fn buy_with_unknown_outcome_changes_nothing() {
    let stats = VoteStats { option0: 5, option1: 7 };
    let pos = UserPosition { option0: 1, option1: 2 };
    assert_eq!(buy_shares(UserVote { option: 3 }, 10, stats, pos), (stats, pos));
}

#[test]
fn sell_removes_shares() {
    let stats = VoteStats { option0: 10, option1: 20 };
    let pos = UserPosition { option0: 4, option1: 6 };
    let (s, p, st) = sell_shares(B, 5, stats, pos);
    assert_eq!(st, SELL_OK);
    assert_eq!(s, VoteStats { option0: 10, option1: 15 });
    assert_eq!(p, UserPosition { option0: 4, option1: 1 });
}

#[test]
fn insufficient_sell_leaves_everything_unchanged() {
    let stats = VoteStats { option0: 10, option1: 20 };
    let pos = UserPosition { option0: 4, option1: 6 };
    let (s, p, st) = sell_shares(A, 5, stats, pos);
    assert_eq!(st, SELL_INSUFFICIENT);
    assert_eq!(s, stats);
    assert_eq!(p, pos);
}

#[test]
fn sell_of_exact_holding_succeeds() {
    let stats = VoteStats { option0: 10, option1: 20 };
    let pos = UserPosition { option0: 4, option1: 6 };
    let (s, p, st) = sell_shares(A, 4, stats, pos);
    assert_eq!(st, SELL_OK);
    assert_eq!(s.option0, 6);
    assert_eq!(p.option0, 0);
}

#[test]
fn buy_then_sell_round_trip() {
    let stats = VoteStats { option0: 3_000_000, option1: 500_000 };
    let pos = UserPosition { option0: 1_000_000, option1: 0 };
    let (s1, p1) = buy_shares(B, 2_000_000, stats, pos);
    let (s2, p2, st) = sell_shares(B, 2_000_000, s1, p1);
    assert_eq!(st, SELL_OK);
    assert_eq!(s2, stats);
    assert_eq!(p2, pos);
}

#[test]
fn claim_pays_winning_shares_once() {
    let pos = UserPosition { option0: 2_000_000, option1: 700 };
    let (emptied, reward) = claim_rewards(0, pos);
    assert_eq!(reward, 2_000_000);
    assert_eq!(emptied, UserPosition { option0: 0, option1: 0 });
    let (again, second) = claim_rewards(0, emptied);
    assert_eq!(second, 0);
    assert_eq!(again, UserPosition { option0: 0, option1: 0 });
}

#[test]
fn claim_on_losing_side_pays_nothing() {
    let pos = UserPosition { option0: 2_000_000, option1: 0 };
    let (emptied, reward) = claim_rewards(1, pos);
    assert_eq!(reward, 0);
    assert_eq!(emptied, UserPosition { option0: 0, option1: 0 });
}

#[test]
fn claim_of_largest_holding_is_exact() {
    let pos = UserPosition { option0: 0, option1: u64::MAX };
    let (_, reward) = claim_rewards(1, pos);
    assert_eq!(reward, u64::MAX);
}

#[test]
fn reveal_tally_lists_outcomes_in_order() {
    assert_eq!(reveal_tally(VoteStats { option0: 8, option1: 9 }), [8, 9]);
}
