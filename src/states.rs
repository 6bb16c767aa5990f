//! Durable account records of the ledger.
use vstd::prelude::*;

verus! {

/// An account address.
pub type Pubkey = [u8; 32];

/// One encrypted field element.
pub type Ciphertext = [u8; 32];

/// Lifecycle of a market: `Inactive` until created, `Active` while trading,
/// `Settled` once the winner is known (terminal).
#[derive(Clone, Copy, Debug, PartialEq, Eq, Structural)]
pub enum MarketStatus {
    Inactive,
    Active,
    Settled,
}

/// The ledger entry of a market. Tallies, probabilities and cost are held as
/// ciphertexts under `nonce`; the revealed snapshots are plaintext.
pub struct MarketAccount {
    pub bump: u8,
    /// Nonce under which the encrypted fields were last committed.
    pub nonce: u128,
    pub vote_state: [Ciphertext; 2],
    pub probs: [Ciphertext; 2],
    pub cost: Ciphertext,
    pub liquidity_parameter: u64,
    pub id: u32,
    pub authority: Pubkey,
    pub question: String,
    pub options: Vec<String>,
    /// IEEE-754 bit patterns of the last revealed probabilities; the ledger
    /// stores them without reading them.
    pub probs_revealed: [u64; 2],
    /// Time of the last probability reveal.
    pub updated_at: u64,
    pub winning_outcome: u8,
    pub status: MarketStatus,
    /// Tokens held by the market's vault on the ledger's books.
    pub tvl: u64,
    pub mint: Pubkey,
    pub mint_decimals: u8,
    pub votes_revealed: [u64; 2],
}

/// The ledger entry of one participant in one market.
pub struct UserPosition {
    pub bump: u8,
    /// Nonce under which `shares` were last committed.
    pub nonce: u128,
    pub shares: [Ciphertext; 2],
    /// Settlement tokens credited to the participant and not yet withdrawn.
    pub balance: u64,
    pub market_id: u32,
}

/// A ciphertext slot that holds no value yet.
pub open spec fn is_blank(c: Ciphertext) -> bool {
    forall|i: int| 0 <= i < 32 ==> #[trigger] c@[i] == 0u8
}

/// Whether two addresses are the same.
pub fn same_key(a: &Pubkey, b: &Pubkey) -> (r: bool)
    ensures
        r == (*a == *b),
{
    let mut i: usize = 0;
    while i < 32
        invariant
            i <= 32,
            forall|j: int| 0 <= j < i ==> a@[j] == b@[j],
        decreases 32 - i,
    {
        if a[i] != b[i] {
            return false;
        }
        i = i + 1;
    }
    proof {
        assert(*a =~= *b);
    }
    true
}

impl MarketAccount {
    /// A freshly allocated, all-zero market record.
    pub fn new() -> (r: MarketAccount)
        ensures
            r.status == MarketStatus::Inactive,
            r.bump == 0,
            r.nonce == 0,
            r.id == 0,
            r.tvl == 0,
            r.updated_at == 0,
            r.liquidity_parameter == 0,
            r.winning_outcome == 0,
            r.mint_decimals == 0,
            r.question@.len() == 0,
            r.options@.len() == 0,
            is_blank(r.vote_state[0]),
            is_blank(r.vote_state[1]),
            is_blank(r.probs[0]),
            is_blank(r.probs[1]),
            is_blank(r.cost),
            r.probs_revealed@ == seq![0u64, 0u64],
            r.votes_revealed@ == seq![0u64, 0u64],
    {
        MarketAccount {
            bump: 0,
            nonce: 0,
            vote_state: [[0u8; 32]; 2],
            probs: [[0u8; 32]; 2],
            cost: [0u8; 32],
            liquidity_parameter: 0,
            id: 0,
            authority: [0u8; 32],
            question: String::new(),
            options: Vec::new(),
            probs_revealed: [0u64; 2],
            updated_at: 0,
            winning_outcome: 0,
            status: MarketStatus::Inactive,
            tvl: 0,
            mint: [0u8; 32],
            mint_decimals: 0,
            votes_revealed: [0u64; 2],
        }
    }
}

impl UserPosition {
    /// A freshly allocated, all-zero position record.
    pub fn new() -> (r: UserPosition)
        ensures
            r.bump == 0,
            r.nonce == 0,
            r.balance == 0,
            r.market_id == 0,
            is_blank(r.shares[0]),
            is_blank(r.shares[1]),
    {
        UserPosition { bump: 0, nonce: 0, shares: [[0u8; 32]; 2], balance: 0, market_id: 0 }
    }
}

} // verus!
