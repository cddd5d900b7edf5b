//! Accounts as a request hands them over.

use vstd::prelude::*;

use crate::state::Pubkey;

verus! {

/// What the engine reads of one account: a copy taken when the request
/// arrives. Nothing here is written back.
#[derive(Debug, Clone, PartialEq, Eq)]
pub struct AccountSnapshot {
    /// Address of the account.
    pub key: Pubkey,
    /// Program that owns the account.
    pub owner: Pubkey,
    /// Whether the request was signed by this account.
    pub is_signer: bool,
    /// The account's bytes, or `None` where they were not to be had.
    pub data: Option<Vec<u8>>,
}

impl AccountSnapshot {
    /// The account's bytes, where there are any.
    pub open spec fn bytes(&self) -> Option<Seq<u8>> {
        match self.data {
            Some(data) => Some(data@),
            None => None,
        }
    }
}

/// Position of the payer, who signs the request.
pub const PAYER: usize = 0;

/// Position of the payer's token account for the asset paid in.
pub const SOURCE_TOKEN: usize = 1;

/// Position of the payer's token account for the asset bought.
pub const DESTINATION_TOKEN: usize = 2;

/// Position of the mint of the asset to buy.
pub const TARGET_MINT: usize = 3;

/// Position of the mint of the asset to pay with.
pub const QUOTE_MINT: usize = 4;

/// Position of the pool program.
pub const POOL_PROGRAM: usize = 5;

/// Position of the pool.
pub const POOL: usize = 6;

/// Position of the pool's vault for asset A.
pub const POOL_VAULT_A: usize = 7;

/// Position of the pool's vault for asset B.
pub const POOL_VAULT_B: usize = 8;

/// Position of the token program.
pub const TOKEN_PROGRAM: usize = 9;

/// Position of the system program.
pub const SYSTEM_PROGRAM: usize = 10;

/// Position of the pool's authority.
pub const POOL_AUTHORITY: usize = 11;

/// Position of the pool's open-orders account.
pub const POOL_OPEN_ORDERS: usize = 12;

/// Position of the pool's target-orders account.
pub const POOL_TARGET_ORDERS: usize = 13;

/// Position of the order-book program.
pub const MARKET_PROGRAM: usize = 14;

/// Position of the order-book market.
pub const MARKET: usize = 15;

/// Position of the market's bids.
pub const MARKET_BIDS: usize = 16;

/// Position of the market's asks.
pub const MARKET_ASKS: usize = 17;

/// Position of the market's event queue.
pub const MARKET_EVENT_QUEUE: usize = 18;

/// Position of the market's vault for the base asset.
pub const MARKET_COIN_VAULT: usize = 19;

/// Position of the market's vault for the quote asset.
pub const MARKET_PC_VAULT: usize = 20;

/// Position of the signer of the market's vaults.
pub const MARKET_VAULT_SIGNER: usize = 21;

/// Accounts that validating a request reads.
pub const ACCOUNTS_TO_VALIDATE: usize = 11;

/// Accounts that a swap call names, counted from the first position.
pub const ACCOUNTS_TO_SWAP: usize = 22;

} // verus!
