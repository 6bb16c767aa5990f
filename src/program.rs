//! The request side of each instruction: validates the ledger state a caller
//! acts on, applies the plaintext part of the instruction, and describes the
//! confidential computation to enqueue.
use vstd::prelude::*;
use crate::amounts::{funding_requirement, required_funding};
use crate::constants::{
    MARKET_ACCOUNT_COST_LENGTH, MARKET_ACCOUNT_PROB_LENGTH, MARKET_ACCOUNT_VOTE_STATS_LENGTH,
    MARKET_ACCOUNT_VOTE_STATS_OFFSET, MARKET_REVEAL_PROBS_TIME, MAX_OPTIONS,
    MIN_LIQUIDITY_PARAMETER, USER_POSITION_SHARES_LENGTH, USER_POSITION_SHARES_OFFSET,
    WINNING_RESERVE,
};
use crate::errors::ErrorCode;
use crate::states::{
    is_blank, same_key, Ciphertext, MarketAccount, MarketStatus, Pubkey, UserPosition,
};

verus! {

/// A name for what `arcium_anchor::comp_def_offset` returns for a circuit name.
pub uninterp spec fn comp_def_offset_of(name: Seq<char>) -> u32;

/// Relies on `arcium_anchor::comp_def_offset`: the offset that identifies a
/// computation definition, derived from the circuit's name alone.
#[verifier::external_body]
fn circuit_offset(name: &str) -> (r: u32)
    ensures
        r == comp_def_offset_of(name@),
{
    arcium_anchor::comp_def_offset(name)
}

/// The confidential instructions the cluster can run.
#[derive(Clone, Copy, Debug, PartialEq, Eq, Structural)]
pub enum ComputationKind {
    InitMarketStats,
    InitUserPosition,
    BuyShares,
    SellShares,
    RevealProbs,
    RevealMarket,
    ClaimRewards,
}

pub open spec fn circuit_name_of(kind: ComputationKind) -> Seq<char> {
    match kind {
        ComputationKind::InitMarketStats => "init_market_stats"@,
        ComputationKind::InitUserPosition => "init_user_position"@,
        ComputationKind::BuyShares => "buy_shares"@,
        ComputationKind::SellShares => "sell_shares"@,
        ComputationKind::RevealProbs => "reveal_probs"@,
        ComputationKind::RevealMarket => "reveal_market"@,
        ComputationKind::ClaimRewards => "claim_rewards"@,
    }
}

impl ComputationKind {
    /// Name of the circuit that implements this instruction.
    pub fn circuit_name(&self) -> (r: &'static str)
        ensures
            r@ == circuit_name_of(*self),
    {
        match self {
            ComputationKind::InitMarketStats => "init_market_stats",
            ComputationKind::InitUserPosition => "init_user_position",
            ComputationKind::BuyShares => "buy_shares",
            ComputationKind::SellShares => "sell_shares",
            ComputationKind::RevealProbs => "reveal_probs",
            ComputationKind::RevealMarket => "reveal_market",
            ComputationKind::ClaimRewards => "claim_rewards",
        }
    }

    /// Offset of the computation definition registered for this instruction.
    pub fn comp_def_offset(&self) -> (r: u32)
        ensures
            r == comp_def_offset_of(circuit_name_of(*self)),
    {
        circuit_offset(self.circuit_name())
    }
}

/// One argument handed to a confidential computation.
#[derive(Clone, Copy, Debug)]
pub enum Argument {
    ArcisPubkey(Pubkey),
    PlaintextU8(u8),
    PlaintextU64(u64),
    PlaintextU128(u128),
    EncryptedBool(Ciphertext),
    /// A byte range of an account: address, offset, length.
    Account(Pubkey, u32, u32),
}

/// A confidential computation to enqueue, with the accounts its callback
/// writes to.
pub struct ComputationRequest {
    pub kind: ComputationKind,
    pub computation_offset: u64,
    pub args: Vec<Argument>,
    pub callback_accounts: Vec<Pubkey>,
}

/// The request made of these parts.
pub open spec fn is_request(
    r: ComputationRequest,
    kind: ComputationKind,
    computation_offset: u64,
    args: Seq<Argument>,
    callback_accounts: Seq<Pubkey>,
) -> bool {
    &&& r.kind == kind
    &&& r.computation_offset == computation_offset
    &&& r.args@ == args
    &&& r.callback_accounts@ == callback_accounts
}

/// The result is the request made of these parts.
pub open spec fn requested(
    r: Result<ComputationRequest, ErrorCode>,
    kind: ComputationKind,
    computation_offset: u64,
    args: Seq<Argument>,
    callback_accounts: Seq<Pubkey>,
) -> bool {
    match r {
        Ok(req) => is_request(req, kind, computation_offset, args, callback_accounts),
        Err(_) => false,
    }
}

/// The result is the error `e`.
pub open spec fn refused<T>(r: Result<T, ErrorCode>, e: ErrorCode) -> bool {
    r matches Err(x) && x == e
}

/// The encrypted tallies, probabilities and cost of a market account.
pub open spec fn market_state_ref(key: Pubkey) -> Argument {
    Argument::Account(
        key,
        MARKET_ACCOUNT_VOTE_STATS_OFFSET,
        (MARKET_ACCOUNT_VOTE_STATS_LENGTH + MARKET_ACCOUNT_PROB_LENGTH
            + MARKET_ACCOUNT_COST_LENGTH) as u32,
    )
}

/// The encrypted shares of a position account.
pub open spec fn position_shares_ref(key: Pubkey) -> Argument {
    Argument::Account(key, USER_POSITION_SHARES_OFFSET, USER_POSITION_SHARES_LENGTH)
}

fn market_state_arg(key: Pubkey) -> (r: Argument)
    ensures
        r == market_state_ref(key),
{
    Argument::Account(
        key,
        MARKET_ACCOUNT_VOTE_STATS_OFFSET,
        MARKET_ACCOUNT_VOTE_STATS_LENGTH + MARKET_ACCOUNT_PROB_LENGTH + MARKET_ACCOUNT_COST_LENGTH,
    )
}

fn position_shares_arg(key: Pubkey) -> (r: Argument)
    ensures
        r == position_shares_ref(key),
{
    Argument::Account(key, USER_POSITION_SHARES_OFFSET, USER_POSITION_SHARES_LENGTH)
}

/// Whether some option is the empty string.
pub open spec fn has_empty_option(options: Seq<String>) -> bool {
    exists|i: int| 0 <= i < options.len() && (#[trigger] options[i])@.len() == 0
}

fn any_empty(options: &Vec<String>) -> (r: bool)
    ensures
        r == has_empty_option(options@),
{
    let mut i: usize = 0;
    while i < options.len()
        invariant
            i <= options@.len(),
            forall|j: int| 0 <= j < i ==> (#[trigger] options@[j])@.len() != 0,
        decreases options@.len() - i,
    {
        if options[i].as_str().is_empty() {
            return true;
        }
        i = i + 1;
    }
    false
}

/// Accounts and ledger facts that creating a market reads.
pub struct CreateMarket {
    pub payer: Pubkey,
    /// The only address allowed to create markets.
    pub admin: Pubkey,
    pub market_key: Pubkey,
    /// Tokens already deposited in the market's vault.
    pub vault_amount: u64,
    pub mint: Pubkey,
    pub mint_decimals: u8,
}

/// The first rule that refuses a market creation, if any.
pub open spec fn create_market_error(
    ctx: CreateMarket,
    market: MarketAccount,
    question: Seq<char>,
    options: Seq<String>,
    liquidity_parameter: u64,
) -> Option<ErrorCode> {
    if liquidity_parameter < MIN_LIQUIDITY_PARAMETER {
        Some(ErrorCode::InvalidLiquidityParameter)
    } else if market.status != MarketStatus::Inactive {
        Some(ErrorCode::MarketInactive)
    } else if options.len() != MAX_OPTIONS {
        Some(ErrorCode::InvalidNumOptions)
    } else if question.len() == 0 {
        Some(ErrorCode::InvalidQuestion)
    } else if ctx.payer != ctx.admin {
        Some(ErrorCode::InvalidAuthority)
    } else if has_empty_option(options) {
        Some(ErrorCode::EmptyOption)
    } else if ctx.vault_amount < funding_requirement(liquidity_parameter) {
        Some(ErrorCode::MarketNotFunded)
    } else {
        None
    }
}

impl CreateMarket {
    /// Opens a market: validates the parameters and the funding, records the
    /// market as active, and asks the cluster for its encrypted initial state.
    pub fn create_market(
        &self,
        market: &mut MarketAccount,
        id: u32,
        question: String,
        options: Vec<String>,
        liquidity_parameter: u64,
        nonce: u128,
        computation_offset: u64,
        bump: u8,
    ) -> (r: Result<ComputationRequest, ErrorCode>)
        ensures
            match create_market_error(*self, *old(market), question@, options@, liquidity_parameter) {
                Some(e) => refused(r, e) && *final(market) == *old(market),
                None => requested(r,
                    ComputationKind::InitMarketStats,
                    computation_offset,
                    seq![Argument::PlaintextU128(nonce), Argument::PlaintextU64(liquidity_parameter)],
                    seq![self.market_key],
                ) && final(market).id == id && final(market).question == question
                    && final(market).options == options && final(market).bump == bump
                    && final(market).authority == self.payer && final(market).nonce == nonce
                    && final(market).liquidity_parameter == liquidity_parameter
                    && final(market).status == MarketStatus::Active && final(market).tvl
                    == self.vault_amount && final(market).probs_revealed@ == seq![0u64, 0u64]
                    && final(market).mint == self.mint && final(market).mint_decimals
                    == self.mint_decimals && final(market).updated_at == old(market).updated_at
                    && final(market).winning_outcome == old(market).winning_outcome
                    && final(market).votes_revealed == old(market).votes_revealed
                    && is_blank(final(market).vote_state[0]) && is_blank(final(market).vote_state[1])
                    && is_blank(final(market).probs[0]) && is_blank(final(market).probs[1])
                    && is_blank(final(market).cost),
            },
    {
        if liquidity_parameter < MIN_LIQUIDITY_PARAMETER {
            return Err(ErrorCode::InvalidLiquidityParameter);
        }
        if market.status != MarketStatus::Inactive {
            return Err(ErrorCode::MarketInactive);
        }
        if options.len() != MAX_OPTIONS {
            return Err(ErrorCode::InvalidNumOptions);
        }
        if question.as_str().is_empty() {
            return Err(ErrorCode::InvalidQuestion);
        }
        if !same_key(&self.payer, &self.admin) {
            return Err(ErrorCode::InvalidAuthority);
        }
        if any_empty(&options) {
            return Err(ErrorCode::EmptyOption);
        }
        if self.vault_amount < required_funding(liquidity_parameter) {
            return Err(ErrorCode::MarketNotFunded);
        }
        market.id = id;
        market.question = question;
        market.bump = bump;
        market.authority = self.payer;
        market.nonce = nonce;
        market.options = options;
        market.vote_state = [[0u8; 32]; 2];
        market.probs = [[0u8; 32]; 2];
        market.cost = [0u8; 32];
        market.liquidity_parameter = liquidity_parameter;
        market.status = MarketStatus::Active;
        market.tvl = self.vault_amount;
        market.probs_revealed = [0u64; 2];
        market.mint = self.mint;
        market.mint_decimals = self.mint_decimals;
        let req = ComputationRequest {
            kind: ComputationKind::InitMarketStats,
            computation_offset,
            args: vec![Argument::PlaintextU128(nonce), Argument::PlaintextU64(liquidity_parameter)],
            callback_accounts: vec![self.market_key],
        };
        assert(req.args@ =~= seq![Argument::PlaintextU128(nonce), Argument::PlaintextU64(liquidity_parameter)]);
        assert(req.callback_accounts@ =~= seq![self.market_key]);
        assert(market.probs_revealed@ =~= seq![0u64, 0u64]);
        Ok(req)
    }
}

/// Arguments of a trade: the encrypted vote with its key and nonce, the
/// quantity, the market's depth, and the encrypted market and position.
pub open spec fn trade_args(
    vote: Ciphertext,
    vote_encryption_pubkey: Pubkey,
    vote_nonce: u128,
    shares: u64,
    market: MarketAccount,
    market_key: Pubkey,
    position: UserPosition,
    position_key: Pubkey,
) -> Seq<Argument> {
    seq![
        Argument::ArcisPubkey(vote_encryption_pubkey),
        Argument::PlaintextU128(vote_nonce),
        Argument::EncryptedBool(vote),
        Argument::PlaintextU64(shares),
        Argument::PlaintextU64(market.liquidity_parameter),
        Argument::PlaintextU128(market.nonce),
        market_state_ref(market_key),
        Argument::PlaintextU128(position.nonce),
        position_shares_ref(position_key),
    ]
}

fn trade_request(
    kind: ComputationKind,
    market: &MarketAccount,
    market_key: Pubkey,
    position: &UserPosition,
    position_key: Pubkey,
    vote: Ciphertext,
    vote_encryption_pubkey: Pubkey,
    vote_nonce: u128,
    computation_offset: u64,
    shares: u64,
) -> (r: ComputationRequest)
    ensures
        is_request(
            r,
            kind,
            computation_offset,
            trade_args(
                vote,
                vote_encryption_pubkey,
                vote_nonce,
                shares,
                *market,
                market_key,
                *position,
                position_key,
            ),
            seq![market_key, position_key],
        ),
{
    let args = vec![
        Argument::ArcisPubkey(vote_encryption_pubkey),
        Argument::PlaintextU128(vote_nonce),
        Argument::EncryptedBool(vote),
        Argument::PlaintextU64(shares),
        Argument::PlaintextU64(market.liquidity_parameter),
        Argument::PlaintextU128(market.nonce),
        market_state_arg(market_key),
        Argument::PlaintextU128(position.nonce),
        position_shares_arg(position_key),
    ];
    let callback_accounts = vec![market_key, position_key];
    assert(args@ =~= trade_args(
        vote,
        vote_encryption_pubkey,
        vote_nonce,
        shares,
        *market,
        market_key,
        *position,
        position_key,
    ));
    assert(callback_accounts@ =~= seq![market_key, position_key]);
    ComputationRequest { kind, computation_offset, args, callback_accounts }
}

/// Accounts that buying shares reads.
pub struct BuyShares {
    pub payer: Pubkey,
    pub market_key: Pubkey,
    pub position_key: Pubkey,
}

impl BuyShares {
    /// Asks the cluster to buy `shares` of the encrypted outcome `vote`;
    /// refused unless the market is active.
    pub fn buy_shares(
        &self,
        market: &MarketAccount,
        position: &UserPosition,
        vote: Ciphertext,
        vote_encryption_pubkey: Pubkey,
        vote_nonce: u128,
        computation_offset: u64,
        shares: u64,
    ) -> (r: Result<ComputationRequest, ErrorCode>)
        ensures
            market.status != MarketStatus::Active ==> refused(r, ErrorCode::MarketActive),
            market.status == MarketStatus::Active ==> requested(r,
                ComputationKind::BuyShares,
                computation_offset,
                trade_args(
                    vote,
                    vote_encryption_pubkey,
                    vote_nonce,
                    shares,
                    *market,
                    self.market_key,
                    *position,
                    self.position_key,
                ),
                seq![self.market_key, self.position_key],
            ),
    {
        if market.status != MarketStatus::Active {
            return Err(ErrorCode::MarketActive);
        }
        Ok(
            trade_request(
                ComputationKind::BuyShares,
                market,
                self.market_key,
                position,
                self.position_key,
                vote,
                vote_encryption_pubkey,
                vote_nonce,
                computation_offset,
                shares,
            ),
        )
    }
}

/// Accounts that selling shares reads.
pub struct SellShares {
    pub payer: Pubkey,
    pub market_key: Pubkey,
    pub position_key: Pubkey,
}

impl SellShares {
    /// Asks the cluster to sell `shares` of the encrypted outcome `vote`;
    /// refused unless the market is active.
    pub fn sell_shares(
        &self,
        market: &MarketAccount,
        position: &UserPosition,
        vote: Ciphertext,
        vote_encryption_pubkey: Pubkey,
        vote_nonce: u128,
        computation_offset: u64,
        shares: u64,
    ) -> (r: Result<ComputationRequest, ErrorCode>)
        ensures
            market.status != MarketStatus::Active ==> refused(r, ErrorCode::MarketActive),
            market.status == MarketStatus::Active ==> requested(r,
                ComputationKind::SellShares,
                computation_offset,
                trade_args(
                    vote,
                    vote_encryption_pubkey,
                    vote_nonce,
                    shares,
                    *market,
                    self.market_key,
                    *position,
                    self.position_key,
                ),
                seq![self.market_key, self.position_key],
            ),
    {
        if market.status != MarketStatus::Active {
            return Err(ErrorCode::MarketActive);
        }
        Ok(
            trade_request(
                ComputationKind::SellShares,
                market,
                self.market_key,
                position,
                self.position_key,
                vote,
                vote_encryption_pubkey,
                vote_nonce,
                computation_offset,
                shares,
            ),
        )
    }
}

/// Accounts that opening a position reads.
pub struct CreateUserPosition {
    pub payer: Pubkey,
    pub position_key: Pubkey,
}

impl CreateUserPosition {
    /// Records an empty position with a zero balance and asks the cluster for
    /// its encrypted empty shares.
    pub fn create_user_position(
        &self,
        position: &mut UserPosition,
        market_id: u32,
        nonce: u128,
        computation_offset: u64,
        bump: u8,
    ) -> (r: ComputationRequest)
        ensures
            final(position).bump == bump,
            final(position).nonce == nonce,
            final(position).balance == 0,
            final(position).market_id == market_id,
            is_blank(final(position).shares[0]),
            is_blank(final(position).shares[1]),
            is_request(
                r,
                ComputationKind::InitUserPosition,
                computation_offset,
                seq![Argument::PlaintextU128(nonce)],
                seq![self.position_key],
            ),
    {
        position.bump = bump;
        position.nonce = nonce;
        position.shares = [[0u8; 32]; 2];
        position.balance = 0;
        position.market_id = market_id;
        let args = vec![Argument::PlaintextU128(nonce)];
        let callback_accounts = vec![self.position_key];
        assert(args@ =~= seq![Argument::PlaintextU128(nonce)]);
        assert(callback_accounts@ =~= seq![self.position_key]);
        ComputationRequest {
            kind: ComputationKind::InitUserPosition,
            computation_offset,
            args,
            callback_accounts,
        }
    }
}

/// A new probability reveal is allowed: more than the minimum interval has
/// passed since the last one.
pub open spec fn reveal_allowed(market: MarketAccount, now: u64) -> bool {
    now - market.updated_at > MARKET_REVEAL_PROBS_TIME
}

/// Accounts that revealing probabilities reads.
pub struct RevealProbs {
    pub payer: Pubkey,
    pub market_key: Pubkey,
}

impl RevealProbs {
    /// Asks the cluster to reveal the current probabilities and tallies;
    /// refused unless the market is active and the last reveal is old enough.
    pub fn reveal_probs(&self, market: &MarketAccount, now: u64, computation_offset: u64) -> (r:
        Result<ComputationRequest, ErrorCode>)
        ensures
            market.status != MarketStatus::Active ==> refused(r, ErrorCode::MarketActive),
            market.status == MarketStatus::Active && !reveal_allowed(*market, now) ==> refused(r, ErrorCode::MarketProbsRevealRateLimit),
            market.status == MarketStatus::Active && reveal_allowed(*market, now) ==> requested(r,
                ComputationKind::RevealProbs,
                computation_offset,
                seq![Argument::PlaintextU128(market.nonce), market_state_ref(self.market_key)],
                seq![self.market_key],
            ),
    {
        if market.status != MarketStatus::Active {
            return Err(ErrorCode::MarketActive);
        }
        if now <= market.updated_at || now - market.updated_at <= MARKET_REVEAL_PROBS_TIME {
            return Err(ErrorCode::MarketProbsRevealRateLimit);
        }
        let args = vec![Argument::PlaintextU128(market.nonce), market_state_arg(self.market_key)];
        let callback_accounts = vec![self.market_key];
        assert(args@ =~= seq![Argument::PlaintextU128(market.nonce), market_state_ref(self.market_key)]);
        assert(callback_accounts@ =~= seq![self.market_key]);
        Ok(ComputationRequest { kind: ComputationKind::RevealProbs, computation_offset, args, callback_accounts })
    }
}

/// Accounts that settling a market reads.
pub struct SettleMarket {
    pub payer: Pubkey,
    pub market_key: Pubkey,
}

impl SettleMarket {
    /// Asks the cluster to reveal the final state of the market with
    /// `winner`; only the market's authority may, and only while it is active.
    pub fn settle_market(&self, market: &MarketAccount, winner: u8, computation_offset: u64) -> (r:
        Result<ComputationRequest, ErrorCode>)
        ensures
            self.payer != market.authority ==> refused(r, ErrorCode::InvalidAuthority),
            self.payer == market.authority && market.status != MarketStatus::Active ==> refused(r, ErrorCode::MarketActive),
            self.payer == market.authority && market.status == MarketStatus::Active ==> requested(r,
                ComputationKind::RevealMarket,
                computation_offset,
                seq![
                    Argument::PlaintextU128(market.nonce),
                    market_state_ref(self.market_key),
                    Argument::PlaintextU8(winner),
                ],
                seq![self.market_key],
            ),
    {
        if !same_key(&self.payer, &market.authority) {
            return Err(ErrorCode::InvalidAuthority);
        }
        if market.status != MarketStatus::Active {
            return Err(ErrorCode::MarketActive);
        }
        let args = vec![
            Argument::PlaintextU128(market.nonce),
            market_state_arg(self.market_key),
            Argument::PlaintextU8(winner),
        ];
        let callback_accounts = vec![self.market_key];
        assert(args@ =~= seq![
            Argument::PlaintextU128(market.nonce),
            market_state_ref(self.market_key),
            Argument::PlaintextU8(winner),
        ]);
        assert(callback_accounts@ =~= seq![self.market_key]);
        Ok(ComputationRequest { kind: ComputationKind::RevealMarket, computation_offset, args, callback_accounts })
    }
}

/// Accounts that claiming a reward reads.
pub struct ClaimRewards {
    pub payer: Pubkey,
    pub position_key: Pubkey,
}

impl ClaimRewards {
    /// Asks the cluster to pay out the position's winning shares; refused
    /// unless the market is settled.
    pub fn claim_rewards(
        &self,
        market: &MarketAccount,
        position: &UserPosition,
        computation_offset: u64,
    ) -> (r: Result<ComputationRequest, ErrorCode>)
        ensures
            market.status != MarketStatus::Settled ==> refused(r, ErrorCode::MarketNotSettled),
            market.status == MarketStatus::Settled ==> requested(r,
                ComputationKind::ClaimRewards,
                computation_offset,
                seq![
                    Argument::PlaintextU8(market.winning_outcome),
                    Argument::PlaintextU128(position.nonce),
                    position_shares_ref(self.position_key),
                ],
                seq![self.position_key],
            ),
    {
        if market.status != MarketStatus::Settled {
            return Err(ErrorCode::MarketNotSettled);
        }
        let args = vec![
            Argument::PlaintextU8(market.winning_outcome),
            Argument::PlaintextU128(position.nonce),
            position_shares_arg(self.position_key),
        ];
        let callback_accounts = vec![self.position_key];
        assert(args@ =~= seq![
            Argument::PlaintextU8(market.winning_outcome),
            Argument::PlaintextU128(position.nonce),
            position_shares_ref(self.position_key),
        ]);
        assert(callback_accounts@ =~= seq![self.position_key]);
        Ok(ComputationRequest { kind: ComputationKind::ClaimRewards, computation_offset, args, callback_accounts })
    }
}

/// Accounts that withdrawing a balance reads.
pub struct WithdrawPayment {
    pub payer: Pubkey,
    /// Mint of the token being withdrawn.
    pub mint: Pubkey,
    /// The settlement token the markets accept.
    pub accepted_mint: Pubkey,
}

impl WithdrawPayment {
    /// Debits `amount` from the participant's balance, to be transferred out
    /// of the vault; refused for another token or a balance below `amount`.
    pub fn withdraw_payment(&self, position: &mut UserPosition, amount: u64) -> (r: Result<
        u64,
        ErrorCode,
    >)
        ensures
            self.mint != self.accepted_mint ==> refused(r, ErrorCode::InvalidMint)
                && *final(position) == *old(position),
            self.mint == self.accepted_mint && old(position).balance < amount ==> refused(r, ErrorCode::InsufficientBalance) && *final(position) == *old(position),
            self.mint == self.accepted_mint && old(position).balance >= amount ==> r == Ok::<
                u64,
                ErrorCode,
            >(amount) && *final(position) == (UserPosition {
                balance: (old(position).balance - amount) as u64,
                ..*old(position)
            }),
    {
        if !same_key(&self.mint, &self.accepted_mint) {
            return Err(ErrorCode::InvalidMint);
        }
        if position.balance < amount {
            return Err(ErrorCode::InsufficientBalance);
        }
        position.balance = position.balance - amount;
        Ok(amount)
    }
}

/// Accounts that funding a market reads.
pub struct FundMarket {
    pub payer: Pubkey,
    pub admin: Pubkey,
    pub mint: Pubkey,
    pub accepted_mint: Pubkey,
}

impl FundMarket {
    /// Authorises a deposit of `amount` into a market's vault: only the
    /// admin may fund, and only in the accepted token.
    pub fn fund_market(&self, amount: u64) -> (r: Result<u64, ErrorCode>)
        ensures
            self.mint != self.accepted_mint ==> r == Err::<u64, ErrorCode>(ErrorCode::InvalidMint),
            self.mint == self.accepted_mint && self.payer != self.admin ==> r == Err::<
                u64,
                ErrorCode,
            >(ErrorCode::InvalidAuthority),
            self.mint == self.accepted_mint && self.payer == self.admin ==> r == Ok::<
                u64,
                ErrorCode,
            >(amount),
    {
        if !same_key(&self.mint, &self.accepted_mint) {
            return Err(ErrorCode::InvalidMint);
        }
        if !same_key(&self.payer, &self.admin) {
            return Err(ErrorCode::InvalidAuthority);
        }
        Ok(amount)
    }
}

/// Accounts that the market maker's withdrawal reads.
pub struct ClaimMarketFunds {
    pub payer: Pubkey,
}

impl ClaimMarketFunds {
    /// The amount the market's authority may withdraw once the market is
    /// settled: its holdings beyond the reserve kept for winners.
    pub fn claim_market_funds(&self, market: &MarketAccount) -> (r: Result<u64, ErrorCode>)
        ensures
            market.status != MarketStatus::Settled ==> r == Err::<u64, ErrorCode>(
                ErrorCode::MarketNotSettled,
            ),
            market.status == MarketStatus::Settled && self.payer != market.authority ==> r == Err::<
                u64,
                ErrorCode,
            >(ErrorCode::InvalidAuthority),
            market.status == MarketStatus::Settled && self.payer == market.authority && market.tvl
                <= WINNING_RESERVE ==> r == Err::<u64, ErrorCode>(ErrorCode::InsufficientBalance),
            market.status == MarketStatus::Settled && self.payer == market.authority && market.tvl
                > WINNING_RESERVE ==> r == Ok::<u64, ErrorCode>(
                (market.tvl - WINNING_RESERVE) as u64,
            ),
    {
        if market.status != MarketStatus::Settled {
            return Err(ErrorCode::MarketNotSettled);
        }
        if !same_key(&self.payer, &market.authority) {
            return Err(ErrorCode::InvalidAuthority);
        }
        if market.tvl <= WINNING_RESERVE {
            return Err(ErrorCode::InsufficientBalance);
        }
        Ok(market.tvl - WINNING_RESERVE)
    }
}

} // verus!
