//! Liquidity providers: what each must be able to do, and the registry that
//! picks one for a request.

use vstd::prelude::*;

use crate::account::AccountSnapshot;
use crate::dex::raydium::{calculated, discovered, swap_call, RaydiumV4};
use crate::dex::types::{
    pending_view, DexProvider, PendingSwap, PoolCall, PoolCallView, SwapParams,
};
use crate::error::AutoBuyerError;
use crate::state::{Pubkey, SwapCalculation, TradingPair};

pub mod curve;
pub mod raydium;
pub mod types;

verus! {

/// What a liquidity provider does for the engine. A request is served in
/// three steps, each on the accounts that came with it: find the pool that
/// trades the pair, quote the swap, assemble the call.
pub trait DexInterface {
    /// Finds the pool that trades the pair, if the accounts hold one.
    /// `Ok(None)` says that this provider has no such pool; another may.
    /// A pair that is found is the pair that was asked for, and the pool's
    /// two mints are that pair in one order or the other.
    fn find_trading_pair(
        &self,
        base_mint: &Pubkey,
        quote_mint: &Pubkey,
        accounts: &[AccountSnapshot],
    ) -> (found: Result<Option<TradingPair>, AutoBuyerError>)
        ensures
            found matches Ok(Some(pair)) ==> {
                &&& pair.base_mint == *base_mint
                &&& pair.quote_mint == *quote_mint
                &&& pair.wf()
            },
    ;

    /// Quotes a swap of `amount_in` of the pair's quote asset. The fee is
    /// part of the amount, and the amount paid out is less than the
    /// reserve it comes from.
    fn calculate_swap(
        &self,
        trading_pair: &TradingPair,
        amount_in: u64,
        accounts: &[AccountSnapshot],
    ) -> (calculation: Result<SwapCalculation, AutoBuyerError>)
        ensures
            calculation matches Ok(quoted) ==> quoted.amount_in == amount_in && quoted.wf(),
    ;

    /// Assembles the call to the provider's program that carries out the
    /// swap.
    fn execute_swap(
        &self,
        program_id: &Pubkey,
        accounts: &[AccountSnapshot],
        swap_params: &SwapParams,
    ) -> (call: Result<PoolCall, AutoBuyerError>)
    ;

    /// Which provider this is.
    fn provider_type(&self) -> (provider: DexProvider)
    ;
}

/// What a provider finds for a pair among the accounts.
pub open spec fn provider_discovers(
    provider: DexProvider,
    base_mint: Pubkey,
    quote_mint: Pubkey,
    accounts: Seq<AccountSnapshot>,
) -> Result<Option<TradingPair>, AutoBuyerError> {
    match provider {
        DexProvider::RaydiumV4 => discovered(base_mint, quote_mint, accounts),
    }
}

/// What a provider quotes for a pair it found.
pub open spec fn provider_calculates(
    provider: DexProvider,
    pair: TradingPair,
    amount_in: u64,
    accounts: Seq<AccountSnapshot>,
) -> Result<SwapCalculation, AutoBuyerError> {
    match provider {
        DexProvider::RaydiumV4 => calculated(pair, amount_in, accounts),
    }
}

/// The call by which a provider carries out a swap.
pub open spec fn provider_call(
    provider: DexProvider,
    accounts: Seq<AccountSnapshot>,
    amount_in: u64,
    min_amount_out: u64,
) -> Result<PoolCallView, AutoBuyerError> {
    match provider {
        DexProvider::RaydiumV4 => swap_call(accounts, amount_in, min_amount_out),
    }
}

/// The pair to trade and the provider to trade it with: the providers are
/// asked in order and the first that finds the pair serves it. A provider
/// that fails ends the search with its error; if every provider finds
/// nothing, the pool is not found.
pub open spec fn best_trading_pair(
    providers: Seq<DexProvider>,
    base_mint: Pubkey,
    quote_mint: Pubkey,
    accounts: Seq<AccountSnapshot>,
) -> Result<(TradingPair, DexProvider), AutoBuyerError>
    decreases providers.len(),
{
    if providers.len() == 0 {
        Err(AutoBuyerError::PoolNotFound)
    } else {
        match provider_discovers(providers[0], base_mint, quote_mint, accounts) {
            Err(e) => Err(e),
            Ok(Some(pair)) => Ok((pair, providers[0])),
            Ok(None) => best_trading_pair(providers.drop_first(), base_mint, quote_mint, accounts),
        }
    }
}

/// What a request comes to before any call is issued: the quote and the
/// call that carries it out, or the reason there is no call. The quote is
/// held against the caller's minimum before the call is assembled.
pub open spec fn auto_swap(
    providers: Seq<DexProvider>,
    accounts: Seq<AccountSnapshot>,
    base_mint: Pubkey,
    quote_mint: Pubkey,
    amount_in: u64,
    min_amount_out: u64,
) -> Result<(SwapCalculation, PoolCallView), AutoBuyerError> {
    match best_trading_pair(providers, base_mint, quote_mint, accounts) {
        Err(e) => Err(e),
        Ok((pair, provider)) => match provider_calculates(provider, pair, amount_in, accounts) {
            Err(e) => Err(e),
            Ok(calculation) => if calculation.amount_out < min_amount_out {
                Err(AutoBuyerError::SlippageTooHigh)
            } else {
                match provider_call(provider, accounts, amount_in, min_amount_out) {
                    Err(_) => Err(AutoBuyerError::CpiError),
                    Ok(call) => Ok((calculation, call)),
                }
            },
        },
    }
}

/// Where no provider finds the pair, the pool is not found.
pub proof fn lemma_no_match_is_pool_not_found(
    providers: Seq<DexProvider>,
    base_mint: Pubkey,
    quote_mint: Pubkey,
    accounts: Seq<AccountSnapshot>,
)
    requires
        forall|i: int|
            0 <= i < providers.len() ==> provider_discovers(
                #[trigger] providers[i],
                base_mint,
                quote_mint,
                accounts,
            ) == Ok::<Option<TradingPair>, AutoBuyerError>(None),
    ensures
        best_trading_pair(providers, base_mint, quote_mint, accounts) == Err::<
            (TradingPair, DexProvider),
            AutoBuyerError,
        >(AutoBuyerError::PoolNotFound),
    decreases providers.len(),
{
    if providers.len() > 0 {
        let rest = providers.drop_first();
        assert forall|i: int| 0 <= i < rest.len() implies provider_discovers(
            #[trigger] rest[i],
            base_mint,
            quote_mint,
            accounts,
        ) == Ok::<Option<TradingPair>, AutoBuyerError>(None) by {
            assert(rest[i] == providers[i + 1]);
        }
        lemma_no_match_is_pool_not_found(rest, base_mint, quote_mint, accounts);
    }
}

/// A request comes to a call only with a quote for the amount asked that
/// meets the caller's minimum.
pub proof fn lemma_call_meets_minimum(
    providers: Seq<DexProvider>,
    accounts: Seq<AccountSnapshot>,
    base_mint: Pubkey,
    quote_mint: Pubkey,
    amount_in: u64,
    min_amount_out: u64,
)
    ensures
        auto_swap(providers, accounts, base_mint, quote_mint, amount_in, min_amount_out) matches Ok(
            (calculation, call),
        ) ==> {
            &&& calculation.amount_out >= min_amount_out
            &&& best_trading_pair(providers, base_mint, quote_mint, accounts) matches Ok(
                (pair, provider),
            )
            &&& provider_calculates(provider, pair, amount_in, accounts) == Ok::<
                SwapCalculation,
                AutoBuyerError,
            >(calculation)
            &&& provider_call(provider, accounts, amount_in, min_amount_out) == Ok::<
                PoolCallView,
                AutoBuyerError,
            >(call)
        },
{
}

/// A quote below the caller's minimum is refused as slippage, and no call
/// comes of it, whatever the call would have been.
pub proof fn lemma_quote_below_minimum_is_refused(
    providers: Seq<DexProvider>,
    accounts: Seq<AccountSnapshot>,
    base_mint: Pubkey,
    quote_mint: Pubkey,
    amount_in: u64,
    min_amount_out: u64,
    pair: TradingPair,
    provider: DexProvider,
    calculation: SwapCalculation,
)
    requires
        best_trading_pair(providers, base_mint, quote_mint, accounts) == Ok::<
            (TradingPair, DexProvider),
            AutoBuyerError,
        >((pair, provider)),
        provider_calculates(provider, pair, amount_in, accounts) == Ok::<
            SwapCalculation,
            AutoBuyerError,
        >(calculation),
        calculation.amount_out < min_amount_out,
    ensures
        auto_swap(providers, accounts, base_mint, quote_mint, amount_in, min_amount_out) == Err::<
            (SwapCalculation, PoolCallView),
            AutoBuyerError,
        >(AutoBuyerError::SlippageTooHigh),
{
}

/// Where no provider finds the pair, the request ends as `PoolNotFound`
/// and no call comes of it.
pub proof fn lemma_no_match_has_no_call(
    providers: Seq<DexProvider>,
    accounts: Seq<AccountSnapshot>,
    base_mint: Pubkey,
    quote_mint: Pubkey,
    amount_in: u64,
    min_amount_out: u64,
)
    requires
        forall|i: int|
            0 <= i < providers.len() ==> provider_discovers(
                #[trigger] providers[i],
                base_mint,
                quote_mint,
                accounts,
            ) == Ok::<Option<TradingPair>, AutoBuyerError>(None),
    ensures
        auto_swap(providers, accounts, base_mint, quote_mint, amount_in, min_amount_out) == Err::<
            (SwapCalculation, PoolCallView),
            AutoBuyerError,
        >(AutoBuyerError::PoolNotFound),
{
    lemma_no_match_is_pool_not_found(providers, base_mint, quote_mint, accounts);
}

/// The registry of providers, in the order in which they are asked.
#[derive(Debug, Clone, PartialEq, Eq)]
pub struct DexManager {
    providers: Vec<DexProvider>,
}

impl View for DexManager {
    type V = Seq<DexProvider>;

    closed spec fn view(&self) -> Seq<DexProvider> {
        self.providers@
    }
}

impl DexManager {
    /// The registry of all known providers.
    pub fn new() -> (manager: Self)
        ensures
            manager@ == seq![DexProvider::RaydiumV4],
    {
        let mut providers: Vec<DexProvider> = Vec::new();
        providers.push(DexProvider::RaydiumV4);
        DexManager { providers }
    }

    /// Asks the providers in order for the pair and returns the first
    /// match with the provider that found it; `PoolNotFound` if none does.
    pub fn find_best_trading_pair(
        &self,
        base_mint: &Pubkey,
        quote_mint: &Pubkey,
        accounts: &[AccountSnapshot],
    ) -> (found: Result<(TradingPair, DexProvider), AutoBuyerError>)
        ensures
            found == best_trading_pair(self@, *base_mint, *quote_mint, accounts@),
    {
        let mut i: usize = 0;
        assert(self.providers@.skip(0) =~= self.providers@);
        while i < self.providers.len()
            invariant
                i <= self.providers@.len(),
                best_trading_pair(self.providers@, *base_mint, *quote_mint, accounts@)
                    == best_trading_pair(
                    self.providers@.skip(i as int),
                    *base_mint,
                    *quote_mint,
                    accounts@,
                ),
            decreases self.providers@.len() - i,
        {
            let provider = self.providers[i];
            assert(self.providers@.skip(i as int)[0] == provider);
            assert(self.providers@.skip(i as int).drop_first() =~= self.providers@.skip(i + 1));
            let found = match provider {
                DexProvider::RaydiumV4 => RaydiumV4::new().find_trading_pair(
                    base_mint,
                    quote_mint,
                    accounts,
                ),
            };
            match found {
                Err(e) => return Err(e),
                Ok(Some(pair)) => return Ok((pair, provider)),
                Ok(None) => {},
            }
            i += 1;
        }
        assert(self.providers@.skip(i as int).len() == 0);
        Err(AutoBuyerError::PoolNotFound)
    }

    /// Serves a request up to the point where the call is to be issued:
    /// finds the pair, quotes the swap, refuses a quote below
    /// `min_amount_out` as `SlippageTooHigh`, and only then assembles the
    /// call. An error means that there is no call to issue.
    ///
    /// The caller issues the call of the pending swap and closes it with
    /// `PendingSwap::settle`.
    pub fn execute_auto_swap(
        &self,
        program_id: &Pubkey,
        accounts: &[AccountSnapshot],
        base_mint: &Pubkey,
        quote_mint: &Pubkey,
        amount_in: u64,
        min_amount_out: u64,
    ) -> (planned: Result<PendingSwap, AutoBuyerError>)
        ensures
            pending_view(planned) == auto_swap(
                self@,
                accounts@,
                *base_mint,
                *quote_mint,
                amount_in,
                min_amount_out,
            ),
            planned matches Ok(pending) ==> {
                &&& pending.calculation.wf()
                &&& pending.calculation.amount_in == amount_in
                &&& pending.calculation.amount_out >= min_amount_out
            },
    {
        let (trading_pair, provider) = match self.find_best_trading_pair(
            base_mint,
            quote_mint,
            accounts,
        ) {
            Ok(found) => found,
            Err(e) => return Err(e),
        };
        let calculated = match provider {
            DexProvider::RaydiumV4 => RaydiumV4::new().calculate_swap(
                &trading_pair,
                amount_in,
                accounts,
            ),
        };
        let calculation = match calculated {
            Ok(calculation) => calculation,
            Err(e) => return Err(e),
        };
        if calculation.amount_out < min_amount_out {
            return Err(AutoBuyerError::SlippageTooHigh);
        }
        let swap_params = SwapParams { trading_pair, amount_in, min_amount_out, calculation };
        let built = match provider {
            DexProvider::RaydiumV4 => RaydiumV4::new().execute_swap(
                program_id,
                accounts,
                &swap_params,
            ),
        };
        match built {
            Ok(call) => Ok(PendingSwap { calculation, call }),
            Err(_) => Err(AutoBuyerError::CpiError),
        }
    }
}

} // verus!
