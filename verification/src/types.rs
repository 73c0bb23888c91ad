use vstd::prelude::*;
use solana_sdk::pubkey::Pubkey;
use solana_sdk::signature::Keypair;
use crate::errors::TradingEndpointError;

verus! {

/// The kind of operation a transaction performs; it selects the fee and
/// tip that a provider's configuration gives it.
#[derive(Debug, Clone, Copy, PartialEq, Eq, Structural)]
pub enum TransactionType {
    Buy,
    Sell,
    Create,
}

/// The two legs of one swap. In a buy SOL goes in and tokens come out; in
/// a sell tokens go in and SOL comes out.
#[derive(Debug, Clone, Copy, PartialEq, Eq, Structural)]
pub struct SwapInfo {
    pub token_amount: u64,
    pub sol_amount: u64,
}

/// A pool as the ledger showed it at one moment.
#[derive(Debug, Clone, Copy)]
pub struct PoolInfo {
    pub pool: Pubkey,
    pub creator: Option<Pubkey>,
    pub creator_vault: Option<Pubkey>,
    pub config: Option<Pubkey>,
    pub token_reserves: u64,
    pub sol_reserves: u64,
}

/// How a trade gets the payer's token account.
#[derive(Debug, Clone, PartialEq, Eq)]
pub enum CreateATA {
    /// Create the associated account; the transaction fails where it exists.
    Create,
    /// Create the associated account where it does not exist yet.
    Idempotent,
    /// Use the associated account as it is.
    NoCreate,
    /// Create an account at the address derived from the payer and a seed.
    CreateWithSeed(String),
}

/// How many tokens a sell gives up.
#[derive(Debug, Clone, Copy, PartialEq, Eq, Structural)]
pub enum TokenAmountType {
    /// This many tokens.
    Amount(u64),
    /// All that the payer's token account holds.
    All,
}

impl TokenAmountType {
    /// The amount to sell, given the balance of the payer's token account
    /// where the ledger was asked for it. Selling all needs the balance.
    pub fn to_amount(&self, balance: Option<u64>) -> (r: Result<u64, TradingEndpointError>)
        ensures
            match (*self, balance) {
                (TokenAmountType::Amount(amount), _) => r == Ok::<u64, TradingEndpointError>(
                    amount,
                ),
                (TokenAmountType::All, Some(held)) => r == Ok::<u64, TradingEndpointError>(held),
                (TokenAmountType::All, None) => r matches Err(
                    TradingEndpointError::LedgerQueryError(_),
                ),
            },
    {
        match self {
            TokenAmountType::Amount(amount) => Ok(*amount),
            TokenAmountType::All => match balance {
                Some(held) => Ok(held),
                None => Err(
                    TradingEndpointError::LedgerQueryError("token balance unknown".to_owned()),
                ),
            },
        }
    }
}

/// What the creation of a token needs: the token's name, symbol and
/// metadata address, the key pair of its mint, and the first buy of the
/// creator where there is one.
pub struct Create {
    pub name: String,
    pub symbol: String,
    pub uri: String,
    pub mint_private_key: Keypair,
    pub buy_sol_amount: Option<u64>,
    pub slippage_basis_points: Option<u64>,
}

/// One buyer of a batch: who pays and how many lamports.
pub struct BatchBuyParam {
    pub payer: Keypair,
    pub sol_amount: u64,
}

/// One seller of a batch: who sells, how many tokens, from which account,
/// and whether the account is closed afterwards.
pub struct BatchSellParam {
    pub payer: Keypair,
    pub token_amount: u64,
    pub close_mint_ata: bool,
    pub custom_ata: Option<Pubkey>,
}

} // verus!
