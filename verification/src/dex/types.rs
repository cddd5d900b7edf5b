//! Values that pass between the registry, a provider and the caller.

use vstd::prelude::*;

use crate::error::AutoBuyerError;
use crate::state::{Pubkey, SwapCalculation, TradingPair};

verus! {

/// The providers the registry knows.
#[derive(Debug, Clone, Copy, PartialEq, Eq, Structural)]
pub enum DexProvider {
    /// The constant-product pools of Raydium, version 4.
    RaydiumV4,
}

/// A fully resolved swap: the pair, the amounts asked for and the quote.
#[derive(Debug, Clone, Copy, PartialEq, Eq)]
pub struct SwapParams {
    /// The pair and its pool.
    pub trading_pair: TradingPair,
    /// Amount paid in.
    pub amount_in: u64,
    /// Least amount the caller accepts.
    pub min_amount_out: u64,
    /// The quote the swap goes by.
    pub calculation: SwapCalculation,
}

/// What a pool holds.
#[derive(Debug, Clone, Copy, PartialEq, Eq)]
pub struct PoolLiquidity {
    /// Reserve of asset A.
    pub reserve_a: u64,
    /// Reserve of asset B.
    pub reserve_b: u64,
    /// Share tokens in circulation.
    pub total_supply: u64,
}

/// A pool found for a pair, with a score by which to prefer one pool over
/// another.
#[derive(Debug, Clone, Copy, PartialEq, Eq)]
pub struct PoolSearchResult {
    /// The pair and its pool.
    pub trading_pair: TradingPair,
    /// What the pool holds.
    pub liquidity: PoolLiquidity,
    /// The pool's score; higher is better.
    pub score: u64,
}

impl PoolSearchResult {
    /// What `calculate_score` sets the score to: the two reserves together,
    /// held at the largest 64-bit number where the sum exceeds it.
    pub open spec fn spec_score(liquidity: PoolLiquidity) -> u64 {
        if liquidity.reserve_a + liquidity.reserve_b > u64::MAX {
            u64::MAX
        } else {
            (liquidity.reserve_a + liquidity.reserve_b) as u64
        }
    }

    /// Scores the pool by its liquidity: the deeper the pool, the higher
    /// the score.
    pub fn calculate_score(&mut self)
        ensures
            final(self).score == Self::spec_score(old(self).liquidity),
            final(self).trading_pair == old(self).trading_pair,
            final(self).liquidity == old(self).liquidity,
    {
        self.score = self.liquidity.reserve_a.saturating_add(self.liquidity.reserve_b);
    }
}

/// One account of an outbound call.
#[derive(Debug, Clone, Copy, PartialEq, Eq)]
pub struct CallAccount {
    /// Position of the account in the request's account list.
    pub index: usize,
    /// Address of the account.
    pub key: Pubkey,
    /// Whether the called program may write to the account.
    pub is_writable: bool,
    /// Whether the account signs the call.
    pub is_signer: bool,
}

/// A call to a pool program, ready to be issued: the program, the accounts
/// in the order the program expects them, the instruction bytes, and the
/// seeds of the derived address that signs.
#[derive(Debug, Clone, PartialEq, Eq)]
pub struct PoolCall {
    /// Address of the program to call.
    pub program_id: Pubkey,
    /// Accounts of the call, in order.
    pub accounts: Vec<CallAccount>,
    /// Instruction bytes.
    pub data: Vec<u8>,
    /// Seeds from which the signing address is derived.
    pub signer_seeds: Vec<Vec<u8>>,
}

/// A `PoolCall` as plain sequences.
pub struct PoolCallView {
    /// Address of the program to call.
    pub program_id: Pubkey,
    /// Accounts of the call, in order.
    pub accounts: Seq<CallAccount>,
    /// Instruction bytes.
    pub data: Seq<u8>,
    /// Seeds from which the signing address is derived.
    pub signer_seeds: Seq<Seq<u8>>,
}

impl View for PoolCall {
    type V = PoolCallView;

    open spec fn view(&self) -> PoolCallView {
        PoolCallView {
            program_id: self.program_id,
            accounts: self.accounts@,
            data: self.data@,
            signer_seeds: Seq::new(self.signer_seeds@.len(), |i: int| self.signer_seeds@[i]@),
        }
    }
}

/// A call that was built, or the error in its place, as plain sequences.
pub open spec fn call_view(built: Result<PoolCall, AutoBuyerError>) -> Result<
    PoolCallView,
    AutoBuyerError,
> {
    match built {
        Ok(call) => Ok(call@),
        Err(e) => Err(e),
    }
}

/// A swap that has been quoted and accepted and now waits for its call to
/// be issued.
#[derive(Debug, Clone, PartialEq, Eq)]
pub struct PendingSwap {
    /// The quote.
    pub calculation: SwapCalculation,
    /// The call that carries the swap out.
    pub call: PoolCall,
}

impl View for PendingSwap {
    type V = (SwapCalculation, PoolCallView);

    open spec fn view(&self) -> (SwapCalculation, PoolCallView) {
        (self.calculation, self.call@)
    }
}

/// A swap that was planned, or the error in its place, as plain sequences.
pub open spec fn pending_view(planned: Result<PendingSwap, AutoBuyerError>) -> Result<
    (SwapCalculation, PoolCallView),
    AutoBuyerError,
> {
    match planned {
        Ok(pending) => Ok(pending@),
        Err(e) => Err(e),
    }
}

impl PendingSwap {
    /// Closes the swap once its call has been issued: the quote where the
    /// pool program accepted the call, `CpiError` where it did not.
    pub fn settle(self, call_succeeded: bool) -> (outcome: Result<SwapCalculation, AutoBuyerError>)
        ensures
            outcome == (if call_succeeded {
                Ok(self.calculation)
            } else {
                Err(AutoBuyerError::CpiError)
            }),
    {
        if call_succeeded {
            Ok(self.calculation)
        } else {
            Err(AutoBuyerError::CpiError)
        }
    }
}

} // verus!
