//! The front of the engine: a request is checked, planned and, once its
//! call has been issued, reported on.

use vstd::prelude::*;

use crate::account::{
    AccountSnapshot, ACCOUNTS_TO_VALIDATE, DESTINATION_TOKEN, PAYER, POOL_PROGRAM, QUOTE_MINT,
    SOURCE_TOKEN, TARGET_MINT, TOKEN_PROGRAM,
};
use crate::dex::types::{pending_view, DexProvider, PendingSwap, PoolCallView};
use crate::dex::{auto_swap, DexManager};
use crate::error::AutoBuyerError;
use crate::instruction::{AutoBuyerInstruction, BuyResult};
use crate::state::constants::{RAYDIUM_V4_PROGRAM_ID, TOKEN_PROGRAM_ID};
use crate::state::{keys_equal, Pubkey, SwapCalculation};

verus! {

/// The instruction processor.
#[derive(Debug, Clone, Copy, PartialEq, Eq)]
pub struct Processor;

/// What validating the accounts of a request comes to. The checks run in
/// this order and the first that fails decides: enough accounts; the payer
/// signed; the payer's two token accounts belong to the token program; the
/// token program and the pool program stand at their positions.
pub open spec fn validated(accounts: Seq<AccountSnapshot>) -> Result<(), AutoBuyerError> {
    if accounts.len() < ACCOUNTS_TO_VALIDATE {
        Err(AutoBuyerError::InvalidParameters)
    } else if !accounts[PAYER as int].is_signer {
        Err(AutoBuyerError::InvalidParameters)
    } else if accounts[SOURCE_TOKEN as int].owner != TOKEN_PROGRAM_ID {
        Err(AutoBuyerError::InvalidAccountOwner)
    } else if accounts[DESTINATION_TOKEN as int].owner != TOKEN_PROGRAM_ID {
        Err(AutoBuyerError::InvalidAccountOwner)
    } else if accounts[TOKEN_PROGRAM as int].key != TOKEN_PROGRAM_ID {
        Err(AutoBuyerError::InvalidParameters)
    } else if accounts[POOL_PROGRAM as int].key != RAYDIUM_V4_PROGRAM_ID {
        Err(AutoBuyerError::InvalidParameters)
    } else {
        Ok(())
    }
}

/// What a purchase comes to before any call is issued. Neither amount may
/// be zero and the accounts must be valid; then the asset to buy and the
/// asset to pay with are the mints at their positions, and the registry of
/// all providers serves the swap.
pub open spec fn purchase(
    accounts: Seq<AccountSnapshot>,
    amount_in: u64,
    min_amount_out: u64,
) -> Result<(SwapCalculation, PoolCallView), AutoBuyerError> {
    if amount_in == 0 || min_amount_out == 0 {
        Err(AutoBuyerError::InvalidParameters)
    } else {
        match validated(accounts) {
            Err(e) => Err(e),
            Ok(_) => auto_swap(
                seq![DexProvider::RaydiumV4],
                accounts,
                accounts[TARGET_MINT as int].key,
                accounts[QUOTE_MINT as int].key,
                amount_in,
                min_amount_out,
            ),
        }
    }
}

impl Processor {
    /// Plans what the instruction asks for: an error, or the swap whose
    /// call is now to be issued.
    pub fn process(
        program_id: &Pubkey,
        accounts: &[AccountSnapshot],
        instruction: AutoBuyerInstruction,
    ) -> (planned: Result<PendingSwap, AutoBuyerError>)
        ensures
            instruction matches AutoBuyerInstruction::BuyToken { amount_in, min_amount_out }
                && pending_view(planned) == purchase(accounts@, amount_in, min_amount_out),
    {
        match instruction {
            AutoBuyerInstruction::BuyToken { amount_in, min_amount_out } => {
                Self::process_buy_token(program_id, accounts, amount_in, min_amount_out)
            },
        }
    }

    /// Plans a purchase.
    fn process_buy_token(
        program_id: &Pubkey,
        accounts: &[AccountSnapshot],
        amount_in: u64,
        min_amount_out: u64,
    ) -> (planned: Result<PendingSwap, AutoBuyerError>)
        ensures
            pending_view(planned) == purchase(accounts@, amount_in, min_amount_out),
    {
        if amount_in == 0 {
            return Err(AutoBuyerError::InvalidParameters);
        }
        if min_amount_out == 0 {
            return Err(AutoBuyerError::InvalidParameters);
        }
        match Self::validate_accounts(accounts) {
            Ok(_) => {},
            Err(e) => return Err(e),
        }
        let source_token_account = &accounts[SOURCE_TOKEN];
        let target_mint = &accounts[TARGET_MINT];
        let quote_mint = &accounts[QUOTE_MINT];
        match Self::check_user_balance(source_token_account, amount_in) {
            Ok(_) => {},
            Err(e) => return Err(e),
        }
        let dex_manager = DexManager::new();
        dex_manager.execute_auto_swap(
            program_id,
            accounts,
            &target_mint.key,
            &quote_mint.key,
            amount_in,
            min_amount_out,
        )
    }

    /// Reports on a purchase whose call has been issued: success with the
    /// amounts of the quote where the pool program accepted the call,
    /// `CpiError` where it did not.
    pub fn finish_buy_token(pending: PendingSwap, call_succeeded: bool) -> (report: Result<
        BuyResult,
        AutoBuyerError,
    >)
        ensures
            report == (if call_succeeded {
                Ok(
                    BuyResult {
                        success: true,
                        amount_out: pending.calculation.amount_out,
                        fee_paid: pending.calculation.fee_amount,
                        timestamp: 0,
                    },
                )
            } else {
                Err(AutoBuyerError::CpiError)
            }),
    {
        match pending.settle(call_succeeded) {
            Ok(swap_result) => Ok(
                BuyResult {
                    success: true,
                    amount_out: swap_result.amount_out,
                    fee_paid: swap_result.fee_amount,
                    timestamp: 0,
                },
            ),
            Err(e) => Err(e),
        }
    }

    /// Checks the accounts that came with a request.
    pub fn validate_accounts(accounts: &[AccountSnapshot]) -> (valid: Result<(), AutoBuyerError>)
        ensures
            valid == validated(accounts@),
    {
        if accounts.len() < ACCOUNTS_TO_VALIDATE {
            return Err(AutoBuyerError::InvalidParameters);
        }
        if !accounts[PAYER].is_signer {
            return Err(AutoBuyerError::InvalidParameters);
        }
        let token_program = &TOKEN_PROGRAM_ID;
        if !keys_equal(&accounts[SOURCE_TOKEN].owner, token_program) {
            return Err(AutoBuyerError::InvalidAccountOwner);
        }
        if !keys_equal(&accounts[DESTINATION_TOKEN].owner, token_program) {
            return Err(AutoBuyerError::InvalidAccountOwner);
        }
        if !keys_equal(&accounts[TOKEN_PROGRAM].key, token_program) {
            return Err(AutoBuyerError::InvalidParameters);
        }
        if !keys_equal(&accounts[POOL_PROGRAM].key, &RAYDIUM_V4_PROGRAM_ID) {
            return Err(AutoBuyerError::InvalidParameters);
        }
        Ok(())
    }

    /// Checks that the payer holds the amount to pay in. The source
    /// account is taken to be valid: every amount passes.
    fn check_user_balance(_source_account: &AccountSnapshot, required_amount: u64) -> (enough:
        Result<(), AutoBuyerError>)
        ensures
            enough is Ok,
    {
        Ok(())
    }
}

} // verus!
