//! Raydium version 4: reading its pools, quoting against them and
//! assembling the swap call its program expects.

use spl_token::solana_program::program_pack::Pack;
use vstd::prelude::*;

use crate::account::{
    AccountSnapshot, ACCOUNTS_TO_SWAP, DESTINATION_TOKEN, MARKET, MARKET_ASKS, MARKET_BIDS,
    MARKET_COIN_VAULT, MARKET_EVENT_QUEUE, MARKET_PC_VAULT, MARKET_PROGRAM, MARKET_VAULT_SIGNER,
    PAYER, POOL, POOL_AUTHORITY, POOL_OPEN_ORDERS, POOL_PROGRAM, POOL_TARGET_ORDERS, POOL_VAULT_A,
    POOL_VAULT_B, SOURCE_TOKEN, TOKEN_PROGRAM,
};
use crate::dex::curve::{lemma_quote_bounds, quote};
use crate::dex::types::{
    call_view, CallAccount, DexProvider, PoolCall, PoolCallView, SwapParams,
};
use crate::dex::DexInterface;
use crate::error::AutoBuyerError;
use crate::state::constants::{BASIS_POINTS, RAYDIUM_V4_PROGRAM_ID};
use crate::state::{keys_equal, PoolConfig, Pubkey, SwapCalculation, TradingPair};
use crate::wire::{key_at, le_bytes, push_u64, u128_at, u64_at, Reader};

verus! {

/// The Raydium version 4 provider.
#[derive(Debug, Clone, Copy, PartialEq, Eq)]
pub struct RaydiumV4;

/// State of a pool as its program keeps it in the pool's account: a record
/// of fixed size, every number little-endian, the fields one after another
/// in this order with nothing between them.
#[derive(Debug, Clone, Copy, PartialEq, Eq)]
pub struct AmmInfo {
    /// Lifecycle status of the pool.
    pub status: u64,
    /// Bump from which the pool authority's address is derived.
    pub nonce: u64,
    /// Largest number of orders the pool places.
    pub order_num: u64,
    /// Depth of the order grid.
    pub depth: u64,
    /// Decimals of the base asset.
    pub base_decimals: u64,
    /// Decimals of the quote asset.
    pub quote_decimals: u64,
    /// State of the pool's order placement.
    pub state: u64,
    /// Whether the orders are to be reset.
    pub reset_flag: u64,
    /// Smallest order size.
    pub min_size: u64,
    /// Largest cut of the volume per order.
    pub vol_max_cut_ratio: u64,
    /// Tolerated wave of the amounts.
    pub amount_wave_ratio: u64,
    /// Lot size of the base asset.
    pub base_lot_size: u64,
    /// Lot size of the quote asset.
    pub quote_lot_size: u64,
    /// Lower bound of the price multiplier.
    pub min_price_multiplier: u64,
    /// Upper bound of the price multiplier.
    pub max_price_multiplier: u64,
    /// Scale of the pool's own decimals.
    pub system_decimals_value: u64,
    /// Numerator of the smallest order separation.
    pub min_separate_numerator: u64,
    /// Denominator of the smallest order separation.
    pub min_separate_denominator: u64,
    /// Numerator of the fee taken from each swap.
    pub trade_fee_numerator: u64,
    /// Denominator of the fee taken from each swap.
    pub trade_fee_denominator: u64,
    /// Numerator of the share of profit taken.
    pub pnl_numerator: u64,
    /// Denominator of the share of profit taken.
    pub pnl_denominator: u64,
    /// Numerator of the swap fee.
    pub swap_fee_numerator: u64,
    /// Denominator of the swap fee.
    pub swap_fee_denominator: u64,
    /// Profit in the base asset still to be taken.
    pub base_need_take_pnl: u64,
    /// Profit in the quote asset still to be taken.
    pub quote_need_take_pnl: u64,
    /// Profit taken so far in the quote asset.
    pub quote_total_pnl: u64,
    /// Profit taken so far in the base asset.
    pub base_total_pnl: u64,
    /// Time from which the pool trades.
    pub pool_open_time: u64,
    /// Penalty held in the quote asset.
    pub punish_pc_amount: u64,
    /// Penalty held in the base asset.
    pub punish_coin_amount: u64,
    /// Time at which the order book starts.
    pub orderbook_to_init_time: u64,
    /// Base asset swapped in so far.
    pub swap_base_in_amount: u128,
    /// Quote asset swapped out so far.
    pub swap_quote_out_amount: u128,
    /// Fees taken on swaps from base to quote.
    pub swap_base2_quote_fee: u64,
    /// Quote asset swapped in so far.
    pub swap_quote_in_amount: u128,
    /// Base asset swapped out so far.
    pub swap_base_out_amount: u128,
    /// Fees taken on swaps from quote to base.
    pub swap_quote2_base_fee: u64,
    /// Account that holds the base reserve.
    pub base_vault: Pubkey,
    /// Account that holds the quote reserve.
    pub quote_vault: Pubkey,
    /// Mint of the base asset.
    pub base_mint: Pubkey,
    /// Mint of the quote asset.
    pub quote_mint: Pubkey,
    /// Mint of the pool's share token.
    pub lp_mint: Pubkey,
    /// The pool's open-orders account.
    pub open_orders: Pubkey,
    /// The order-book market behind the pool.
    pub market_id: Pubkey,
    /// Program of that market.
    pub market_program_id: Pubkey,
    /// The pool's target-orders account.
    pub target_orders: Pubkey,
    /// The pool's withdraw queue.
    pub withdraw_queue: Pubkey,
    /// Vault of share tokens.
    pub lp_vault: Pubkey,
    /// Owner of the pool.
    pub owner: Pubkey,
    /// Share tokens in circulation.
    pub lp_reserve: u64,
}

impl AmmInfo {
    /// Size of the record in bytes.
    pub const LEN: usize = 728;

    /// The record that `data` holds, each field at its place.
    pub open spec fn decoded(data: Seq<u8>) -> AmmInfo {
        AmmInfo {
            status: u64_at(data, 0),
            nonce: u64_at(data, 8),
            order_num: u64_at(data, 16),
            depth: u64_at(data, 24),
            base_decimals: u64_at(data, 32),
            quote_decimals: u64_at(data, 40),
            state: u64_at(data, 48),
            reset_flag: u64_at(data, 56),
            min_size: u64_at(data, 64),
            vol_max_cut_ratio: u64_at(data, 72),
            amount_wave_ratio: u64_at(data, 80),
            base_lot_size: u64_at(data, 88),
            quote_lot_size: u64_at(data, 96),
            min_price_multiplier: u64_at(data, 104),
            max_price_multiplier: u64_at(data, 112),
            system_decimals_value: u64_at(data, 120),
            min_separate_numerator: u64_at(data, 128),
            min_separate_denominator: u64_at(data, 136),
            trade_fee_numerator: u64_at(data, 144),
            trade_fee_denominator: u64_at(data, 152),
            pnl_numerator: u64_at(data, 160),
            pnl_denominator: u64_at(data, 168),
            swap_fee_numerator: u64_at(data, 176),
            swap_fee_denominator: u64_at(data, 184),
            base_need_take_pnl: u64_at(data, 192),
            quote_need_take_pnl: u64_at(data, 200),
            quote_total_pnl: u64_at(data, 208),
            base_total_pnl: u64_at(data, 216),
            pool_open_time: u64_at(data, 224),
            punish_pc_amount: u64_at(data, 232),
            punish_coin_amount: u64_at(data, 240),
            orderbook_to_init_time: u64_at(data, 248),
            swap_base_in_amount: u128_at(data, 256),
            swap_quote_out_amount: u128_at(data, 272),
            swap_base2_quote_fee: u64_at(data, 288),
            swap_quote_in_amount: u128_at(data, 296),
            swap_base_out_amount: u128_at(data, 312),
            swap_quote2_base_fee: u64_at(data, 328),
            base_vault: key_at(data, 336),
            quote_vault: key_at(data, 368),
            base_mint: key_at(data, 400),
            quote_mint: key_at(data, 432),
            lp_mint: key_at(data, 464),
            open_orders: key_at(data, 496),
            market_id: key_at(data, 528),
            market_program_id: key_at(data, 560),
            target_orders: key_at(data, 592),
            withdraw_queue: key_at(data, 624),
            lp_vault: key_at(data, 656),
            owner: key_at(data, 688),
            lp_reserve: u64_at(data, 720),
        }
    }

    /// Reads a record from bytes that hold exactly one: `None` for any
    /// other count of bytes.
    pub fn try_from_slice(data: &[u8]) -> (info: Option<AmmInfo>)
        ensures
            info == (if data@.len() == AmmInfo::LEN {
                Some(AmmInfo::decoded(data@))
            } else {
                None
            }),
    {
        if data.len() != AmmInfo::LEN {
            return None;
        }
        let mut reader = Reader::new(data);
        let status = reader.read_u64();
        let nonce = reader.read_u64();
        let order_num = reader.read_u64();
        let depth = reader.read_u64();
        let base_decimals = reader.read_u64();
        let quote_decimals = reader.read_u64();
        let state = reader.read_u64();
        let reset_flag = reader.read_u64();
        let min_size = reader.read_u64();
        let vol_max_cut_ratio = reader.read_u64();
        let amount_wave_ratio = reader.read_u64();
        let base_lot_size = reader.read_u64();
        let quote_lot_size = reader.read_u64();
        let min_price_multiplier = reader.read_u64();
        let max_price_multiplier = reader.read_u64();
        let system_decimals_value = reader.read_u64();
        let min_separate_numerator = reader.read_u64();
        let min_separate_denominator = reader.read_u64();
        let trade_fee_numerator = reader.read_u64();
        let trade_fee_denominator = reader.read_u64();
        let pnl_numerator = reader.read_u64();
        let pnl_denominator = reader.read_u64();
        let swap_fee_numerator = reader.read_u64();
        let swap_fee_denominator = reader.read_u64();
        let base_need_take_pnl = reader.read_u64();
        let quote_need_take_pnl = reader.read_u64();
        let quote_total_pnl = reader.read_u64();
        let base_total_pnl = reader.read_u64();
        let pool_open_time = reader.read_u64();
        let punish_pc_amount = reader.read_u64();
        let punish_coin_amount = reader.read_u64();
        let orderbook_to_init_time = reader.read_u64();
        let swap_base_in_amount = reader.read_u128();
        let swap_quote_out_amount = reader.read_u128();
        let swap_base2_quote_fee = reader.read_u64();
        let swap_quote_in_amount = reader.read_u128();
        let swap_base_out_amount = reader.read_u128();
        let swap_quote2_base_fee = reader.read_u64();
        let base_vault = reader.read_key();
        let quote_vault = reader.read_key();
        let base_mint = reader.read_key();
        let quote_mint = reader.read_key();
        let lp_mint = reader.read_key();
        let open_orders = reader.read_key();
        let market_id = reader.read_key();
        let market_program_id = reader.read_key();
        let target_orders = reader.read_key();
        let withdraw_queue = reader.read_key();
        let lp_vault = reader.read_key();
        let owner = reader.read_key();
        let lp_reserve = reader.read_u64();
        Some(
            AmmInfo {
            status,
            nonce,
            order_num,
            depth,
            base_decimals,
            quote_decimals,
            state,
            reset_flag,
            min_size,
            vol_max_cut_ratio,
            amount_wave_ratio,
            base_lot_size,
            quote_lot_size,
            min_price_multiplier,
            max_price_multiplier,
            system_decimals_value,
            min_separate_numerator,
            min_separate_denominator,
            trade_fee_numerator,
            trade_fee_denominator,
            pnl_numerator,
            pnl_denominator,
            swap_fee_numerator,
            swap_fee_denominator,
            base_need_take_pnl,
            quote_need_take_pnl,
            quote_total_pnl,
            base_total_pnl,
            pool_open_time,
            punish_pc_amount,
            punish_coin_amount,
            orderbook_to_init_time,
            swap_base_in_amount,
            swap_quote_out_amount,
            swap_base2_quote_fee,
            swap_quote_in_amount,
            swap_base_out_amount,
            swap_quote2_base_fee,
            base_vault,
            quote_vault,
            base_mint,
            quote_mint,
            lp_mint,
            open_orders,
            market_id,
            market_program_id,
            target_orders,
            withdraw_queue,
            lp_vault,
            owner,
            lp_reserve,
            },
        )
    }
}

/// Whether the four bytes at `at` are the tag of an optional field: a
/// little-endian 0 for absent or 1 for present.
pub open spec fn is_option_tag(data: Seq<u8>, at: int) -> bool {
    &&& data[at] == 0 || data[at] == 1
    &&& data[at + 1] == 0
    &&& data[at + 2] == 0
    &&& data[at + 3] == 0
}

/// Whether `data` is the packed state of a token account in use: 165
/// bytes, the state byte saying initialized or frozen, and a well-formed tag
/// before each of the three optional fields.
pub open spec fn is_token_account(data: Seq<u8>) -> bool {
    &&& data.len() == 165
    &&& is_option_tag(data, 72)
    &&& data[108] == 1 || data[108] == 2
    &&& is_option_tag(data, 109)
    &&& is_option_tag(data, 129)
}

/// The amount a token account holds, where `data` is one.
pub open spec fn token_amount(data: Seq<u8>) -> Option<u64> {
    if is_token_account(data) {
        Some(u64_at(data, 64))
    } else {
        None
    }
}

/// `spl_token::state::Account::unpack`, of which the amount is kept. It
/// accepts exactly 165 bytes whose state byte is 1 or 2 and whose three
/// option tags are 0 or 1, and reads the amount from bytes 64 to 71.
#[verifier::external_body]
fn unpack_token_amount(data: &[u8]) -> (amount: Option<u64>)
    ensures
        amount == token_amount(data@),
{
    spl_token::state::Account::unpack(data).ok().map(|account| account.amount)
}

/// What `load_amm_info` makes of a pool account.
pub open spec fn pool_info(pool: AccountSnapshot) -> Result<AmmInfo, AutoBuyerError> {
    if pool.owner != RAYDIUM_V4_PROGRAM_ID {
        Err(AutoBuyerError::InvalidAccountOwner)
    } else {
        match pool.bytes() {
            Some(data) if data.len() == AmmInfo::LEN => Ok(AmmInfo::decoded(data)),
            _ => Err(AutoBuyerError::InvalidParameters),
        }
    }
}

/// What `get_token_balance` makes of a vault account: the amount it holds
/// where its bytes are a token account, `InvalidParameters` where they are
/// not, and `CpiError` where there are no bytes to read.
pub open spec fn token_balance(account: AccountSnapshot) -> Result<u64, AutoBuyerError> {
    match account.bytes() {
        Some(data) => if is_token_account(data) {
            Ok(u64_at(data, 64))
        } else {
            Err(AutoBuyerError::InvalidParameters)
        },
        None => Err(AutoBuyerError::CpiError),
    }
}

/// Whether the pool trades the two assets, in one order or the other.
pub open spec fn trades_pair(info: AmmInfo, base_mint: Pubkey, quote_mint: Pubkey) -> bool {
    ||| info.base_mint == base_mint && info.quote_mint == quote_mint
    ||| info.base_mint == quote_mint && info.quote_mint == base_mint
}

/// The pool's trade fee in basis points, rounded down. `None` where the
/// fee has no denominator, its product with 10000 leaves the 64-bit range,
/// or the rate itself is more than 16 bits hold.
pub open spec fn fee_rate_of(info: AmmInfo) -> Option<u16> {
    if info.trade_fee_denominator == 0 || info.trade_fee_numerator * BASIS_POINTS > u64::MAX {
        None
    } else {
        let rate = info.trade_fee_numerator * BASIS_POINTS / (info.trade_fee_denominator as int);
        if rate > u16::MAX {
            None
        } else {
            Some(rate as u16)
        }
    }
}

/// What `find_trading_pair` makes of a request: the pair with its pool
/// where the account at the pool's position is a pool of this program that
/// trades the two assets, and no pair where it is not.
pub open spec fn discovered(
    base_mint: Pubkey,
    quote_mint: Pubkey,
    accounts: Seq<AccountSnapshot>,
) -> Result<Option<TradingPair>, AutoBuyerError> {
    if accounts.len() <= POOL {
        Ok(None)
    } else {
        match pool_info(accounts[POOL as int]) {
            Err(_) => Ok(None),
            Ok(info) => if !trades_pair(info, base_mint, quote_mint) {
                Ok(None)
            } else {
                match fee_rate_of(info) {
                    None => Err(AutoBuyerError::MathOverflow),
                    Some(fee_rate) => Ok(
                        Some(
                            TradingPair {
                                base_mint,
                                quote_mint,
                                pool_config: PoolConfig {
                                    pool_address: accounts[POOL as int].key,
                                    token_a_account: info.base_vault,
                                    token_b_account: info.quote_vault,
                                    token_a_mint: info.base_mint,
                                    token_b_mint: info.quote_mint,
                                    fee_rate,
                                },
                            },
                        ),
                    ),
                }
            },
        }
    }
}

/// Which reserve is paid into and which is paid out of, in that order: the
/// asset paid in is the quote asset, so vault A takes it in where the pool's
/// asset A is the quote asset, and vault B where it is not.
pub open spec fn reserves_for(pair: TradingPair, reserve_a: u64, reserve_b: u64) -> (u64, u64) {
    if pair.pool_config.token_a_mint == pair.quote_mint {
        (reserve_a, reserve_b)
    } else {
        (reserve_b, reserve_a)
    }
}

/// What `calculate_swap` makes of a request: the quote against the
/// balances of the two vaults, at the pool's trade fee. The pool is read
/// first, then vault A, then vault B, and the first that cannot be read
/// decides the error.
pub open spec fn calculated(
    pair: TradingPair,
    amount_in: u64,
    accounts: Seq<AccountSnapshot>,
) -> Result<SwapCalculation, AutoBuyerError> {
    if accounts.len() <= POOL {
        Err(AutoBuyerError::InvalidParameters)
    } else {
        match pool_info(accounts[POOL as int]) {
            Err(e) => Err(e),
            Ok(info) => if accounts.len() <= POOL_VAULT_B {
                Err(AutoBuyerError::InvalidParameters)
            } else {
                match token_balance(accounts[POOL_VAULT_A as int]) {
                    Err(e) => Err(e),
                    Ok(reserve_a) => match token_balance(accounts[POOL_VAULT_B as int]) {
                        Err(e) => Err(e),
                        Ok(reserve_b) => {
                            let (reserve_in, reserve_out) = reserves_for(
                                pair,
                                reserve_a,
                                reserve_b,
                            );
                            match quote(
                                amount_in,
                                reserve_in,
                                reserve_out,
                                info.trade_fee_numerator,
                                info.trade_fee_denominator,
                            ) {
                                Err(e) => Err(e),
                                Ok((amount_out, fee_amount)) => Ok(
                                    SwapCalculation {
                                        amount_in,
                                        amount_out,
                                        fee_amount,
                                        reserve_in,
                                        reserve_out,
                                    },
                                ),
                            }
                        },
                    },
                }
            },
        }
    }
}

/// The pool program's number for a swap of a fixed amount in.
pub const SWAP_OPCODE: u8 = 9;

/// The label from which, with the pool's nonce, the address of the pool
/// authority is derived: the text `amm_authority`.
pub const AUTHORITY_SEED: [u8; 13] = [97, 109, 109, 95, 97, 117, 116, 104, 111, 114, 105, 116, 121];

/// How many accounts a swap call names.
pub const SWAP_CALL_ACCOUNTS: usize = 18;

/// The accounts of a swap call, in the order in which the pool program
/// takes them, each by its position in the request's account list: the
/// payer with the source and destination token accounts; the token program;
/// the pool, its authority, open orders, target orders and two vaults; the
/// order-book program, its market, bids, asks, event queue, two vaults and
/// vault signer.
pub const SWAP_CALL_POSITIONS: [usize; 18] = [
    PAYER,
    SOURCE_TOKEN,
    DESTINATION_TOKEN,
    TOKEN_PROGRAM,
    POOL,
    POOL_AUTHORITY,
    POOL_OPEN_ORDERS,
    POOL_TARGET_ORDERS,
    POOL_VAULT_A,
    POOL_VAULT_B,
    MARKET_PROGRAM,
    MARKET,
    MARKET_BIDS,
    MARKET_ASKS,
    MARKET_EVENT_QUEUE,
    MARKET_COIN_VAULT,
    MARKET_PC_VAULT,
    MARKET_VAULT_SIGNER,
];

/// Which accounts of a swap call the pool program may write to, in the
/// call's order: all but the payer, the two programs, the pool's authority
/// and the signer of the market's vaults.
pub const SWAP_CALL_WRITABLE: [bool; 18] = [
    false,
    true,
    true,
    false,
    true,
    false,
    true,
    true,
    true,
    true,
    false,
    true,
    true,
    true,
    true,
    true,
    true,
    false,
];

/// Which accounts of a swap call sign it, in the call's order: the payer
/// alone.
pub const SWAP_CALL_SIGNER: [bool; 18] = [
    true,
    false,
    false,
    false,
    false,
    false,
    false,
    false,
    false,
    false,
    false,
    false,
    false,
    false,
    false,
    false,
    false,
    false,
];

/// The instruction bytes of a swap: the opcode, then the amount paid in
/// and the least amount accepted, each as eight little-endian bytes.
pub open spec fn swap_payload(amount_in: u64, min_amount_out: u64) -> Seq<u8> {
    seq![SWAP_OPCODE] + le_bytes(amount_in as nat, 8) + le_bytes(min_amount_out as nat, 8)
}

/// The account that stands at place `place` of a swap call.
pub open spec fn swap_account(accounts: Seq<AccountSnapshot>, place: int) -> CallAccount {
    CallAccount {
        index: SWAP_CALL_POSITIONS[place],
        key: accounts[SWAP_CALL_POSITIONS[place] as int].key,
        is_writable: SWAP_CALL_WRITABLE[place],
        is_signer: SWAP_CALL_SIGNER[place],
    }
}

/// The accounts of a swap call, in order.
pub open spec fn swap_accounts(accounts: Seq<AccountSnapshot>) -> Seq<CallAccount> {
    Seq::new(SWAP_CALL_ACCOUNTS as nat, |place: int| swap_account(accounts, place))
}

/// The seeds of the pool authority's address: the label, then the pool's
/// nonce as eight little-endian bytes.
pub open spec fn authority_seeds(nonce: u64) -> Seq<Seq<u8>> {
    seq![AUTHORITY_SEED@, le_bytes(nonce as nat, 8)]
}

/// What `execute_raydium_swap` makes of a request: the call to the pool
/// program, named by the account at the program's position.
pub open spec fn swap_call(
    accounts: Seq<AccountSnapshot>,
    amount_in: u64,
    min_amount_out: u64,
) -> Result<PoolCallView, AutoBuyerError> {
    if accounts.len() <= POOL {
        Err(AutoBuyerError::InvalidParameters)
    } else {
        match pool_info(accounts[POOL as int]) {
            Err(e) => Err(e),
            Ok(info) => if accounts.len() < ACCOUNTS_TO_SWAP {
                Err(AutoBuyerError::InvalidParameters)
            } else {
                Ok(
                    PoolCallView {
                        program_id: accounts[POOL_PROGRAM as int].key,
                        accounts: swap_accounts(accounts),
                        data: swap_payload(amount_in, min_amount_out),
                        signer_seeds: authority_seeds(info.nonce),
                    },
                )
            },
        }
    }
}

/// A pool whose two mints are not the requested pair, in either order, is
/// not found for it.
pub proof fn lemma_other_mints_are_not_found(
    base_mint: Pubkey,
    quote_mint: Pubkey,
    accounts: Seq<AccountSnapshot>,
)
    requires
        accounts.len() > POOL ==> (pool_info(accounts[POOL as int]) matches Ok(info)
            ==> !trades_pair(info, base_mint, quote_mint)),
    ensures
        discovered(base_mint, quote_mint, accounts) == Ok::<Option<TradingPair>, AutoBuyerError>(
            None,
        ),
{
}

/// A pair that is found is the pair that was asked for, at a pool whose
/// two mints are that pair in one order or the other.
pub proof fn lemma_found_pair_is_the_request(
    base_mint: Pubkey,
    quote_mint: Pubkey,
    accounts: Seq<AccountSnapshot>,
)
    ensures
        discovered(base_mint, quote_mint, accounts) matches Ok(Some(pair)) ==> {
            &&& pair.base_mint == base_mint
            &&& pair.quote_mint == quote_mint
            &&& pair.wf()
        },
{
}

/// Asking for a pair in one direction or the other finds the same pool,
/// and the two directions pay into opposite reserves: what is the reserve
/// in for one is the reserve out for the other, so that the two quotes run
/// along the same curve in opposite directions.
pub proof fn lemma_orientation_swaps_reserves(
    first_mint: Pubkey,
    second_mint: Pubkey,
    accounts: Seq<AccountSnapshot>,
    amount_forward: u64,
    amount_backward: u64,
)
    requires
        first_mint != second_mint,
    ensures
        match (
            discovered(first_mint, second_mint, accounts),
            discovered(second_mint, first_mint, accounts),
        ) {
            (Ok(Some(forward)), Ok(Some(backward))) => {
                &&& backward.pool_config == forward.pool_config
                &&& backward.base_mint == forward.quote_mint
                &&& backward.quote_mint == forward.base_mint
                &&& forall|reserve_a: u64, reserve_b: u64|
                    #![trigger reserves_for(forward, reserve_a, reserve_b)]
                    #![trigger reserves_for(backward, reserve_a, reserve_b)]
                    {
                        &&& reserves_for(backward, reserve_a, reserve_b).0 == reserves_for(
                            forward,
                            reserve_a,
                            reserve_b,
                        ).1
                        &&& reserves_for(backward, reserve_a, reserve_b).1 == reserves_for(
                            forward,
                            reserve_a,
                            reserve_b,
                        ).0
                    }
                &&& match (
                    calculated(forward, amount_forward, accounts),
                    calculated(backward, amount_backward, accounts),
                ) {
                    (Ok(there), Ok(back)) => {
                        &&& there.reserve_in == back.reserve_out
                        &&& there.reserve_out == back.reserve_in
                    },
                    _ => true,
                }
            },
            (Ok(None), Ok(None)) => true,
            (Err(e), Err(f)) => e == f,
            _ => false,
        },
{
}

impl RaydiumV4 {
    /// The provider. It keeps no state.
    pub fn new() -> (provider: Self)
        ensures
            provider == RaydiumV4,
    {
        RaydiumV4
    }

    /// Reads the pool's state from its account. The account must be owned
    /// by the pool program, which is all that vouches for its bytes; after
    /// that the bytes must be exactly one record.
    pub fn load_amm_info(&self, pool_account: &AccountSnapshot) -> (info: Result<
        AmmInfo,
        AutoBuyerError,
    >)
        ensures
            info == pool_info(*pool_account),
    {
        if !keys_equal(&pool_account.owner, &RAYDIUM_V4_PROGRAM_ID) {
            return Err(AutoBuyerError::InvalidAccountOwner);
        }
        match &pool_account.data {
            Some(data) => match AmmInfo::try_from_slice(data.as_slice()) {
                Some(info) => Ok(info),
                None => Err(AutoBuyerError::InvalidParameters),
            },
            None => Err(AutoBuyerError::InvalidParameters),
        }
    }

    /// Reads the amount that a token account holds. Bytes that are no
    /// token account in use give `InvalidParameters`; an account whose
    /// bytes are not to be had gives `CpiError`.
    pub fn get_token_balance(account_info: &AccountSnapshot) -> (balance: Result<
        u64,
        AutoBuyerError,
    >)
        ensures
            balance == token_balance(*account_info),
    {
        match &account_info.data {
            Some(data) => match unpack_token_amount(data.as_slice()) {
                Some(amount) => Ok(amount),
                None => Err(AutoBuyerError::InvalidParameters),
            },
            None => Err(AutoBuyerError::CpiError),
        }
    }

    /// Quotes a swap of `amount_in` against the two reserves: the amount
    /// paid out and the fee kept.
    ///
    /// An empty reserve gives `InsufficientLiquidity`. A step that leaves
    /// the 64-bit range gives `MathOverflow`: the fee's product
    /// `amount_in * fee_numerator`, a zero `fee_denominator`, a fee above
    /// the amount, the curve's product or its sum.
    pub fn calculate_amount_out(
        &self,
        amount_in: u64,
        reserve_in: u64,
        reserve_out: u64,
        fee_numerator: u64,
        fee_denominator: u64,
    ) -> (quoted: Result<(u64, u64), AutoBuyerError>)
        ensures
            quoted == quote(amount_in, reserve_in, reserve_out, fee_numerator, fee_denominator),
            reserve_in == 0 || reserve_out == 0 ==> quoted == Err::<(u64, u64), AutoBuyerError>(
                AutoBuyerError::InsufficientLiquidity,
            ),
            reserve_in > 0 && reserve_out > 0 && amount_in * fee_numerator > u64::MAX ==> quoted
                == Err::<(u64, u64), AutoBuyerError>(AutoBuyerError::MathOverflow),
            quoted matches Ok((amount_out, fee_amount)) ==> fee_amount <= amount_in && amount_out
                < reserve_out,
    {
        proof {
            lemma_quote_bounds(amount_in, reserve_in, reserve_out, fee_numerator, fee_denominator);
        }
        if reserve_in == 0 || reserve_out == 0 {
            return Err(AutoBuyerError::InsufficientLiquidity);
        }
        let fee_product = match amount_in.checked_mul(fee_numerator) {
            Some(product) => product,
            None => return Err(AutoBuyerError::MathOverflow),
        };
        let fee_amount = match fee_product.checked_div(fee_denominator) {
            Some(fee) => fee,
            None => return Err(AutoBuyerError::MathOverflow),
        };
        let amount_in_after_fee = match amount_in.checked_sub(fee_amount) {
            Some(rest) => rest,
            None => return Err(AutoBuyerError::MathOverflow),
        };
        let numerator = match amount_in_after_fee.checked_mul(reserve_out) {
            Some(product) => product,
            None => return Err(AutoBuyerError::MathOverflow),
        };
        let denominator = match reserve_in.checked_add(amount_in_after_fee) {
            Some(sum) => sum,
            None => return Err(AutoBuyerError::MathOverflow),
        };
        let amount_out = match numerator.checked_div(denominator) {
            Some(out) => out,
            None => return Err(AutoBuyerError::MathOverflow),
        };
        Ok((amount_out, fee_amount))
    }
    /// The instruction bytes of the swap that `swap_params` describes.
    pub fn create_swap_instruction_data(&self, swap_params: &SwapParams) -> (data: Result<
        Vec<u8>,
        AutoBuyerError,
    >)
        ensures
            data matches Ok(bytes) && bytes@ == swap_payload(
                swap_params.amount_in,
                swap_params.min_amount_out,
            ),
    {
        let mut bytes: Vec<u8> = Vec::new();
        bytes.push(SWAP_OPCODE);
        push_u64(&mut bytes, swap_params.amount_in);
        push_u64(&mut bytes, swap_params.min_amount_out);
        Ok(bytes)
    }

    /// Assembles the call that carries out the swap: the pool program at
    /// its position, the eighteen accounts in the program's order, the
    /// instruction bytes, and the seeds of the pool authority, which signs.
    ///
    /// The pool is read again for its nonce, so an account that is no pool
    /// gives the error of reading it; a list too short for the pool or for
    /// the call gives `InvalidParameters`.
    pub fn execute_raydium_swap(
        &self,
        accounts: &[AccountSnapshot],
        swap_params: &SwapParams,
        program_id: &Pubkey,
    ) -> (call: Result<PoolCall, AutoBuyerError>)
        ensures
            call_view(call) == swap_call(
                accounts@,
                swap_params.amount_in,
                swap_params.min_amount_out,
            ),
    {
        let data = match self.create_swap_instruction_data(swap_params) {
            Ok(bytes) => bytes,
            Err(e) => return Err(e),
        };
        if accounts.len() <= POOL {
            return Err(AutoBuyerError::InvalidParameters);
        }
        let amm_info = match self.load_amm_info(&accounts[POOL]) {
            Ok(info) => info,
            Err(e) => return Err(e),
        };
        if accounts.len() < ACCOUNTS_TO_SWAP {
            return Err(AutoBuyerError::InvalidParameters);
        }
        let mut call_accounts: Vec<CallAccount> = Vec::new();
        let mut place: usize = 0;
        while place < SWAP_CALL_ACCOUNTS
            invariant
                place <= SWAP_CALL_ACCOUNTS,
                accounts@.len() >= ACCOUNTS_TO_SWAP,
                call_accounts@.len() == place,
                forall|i: int| 0 <= i < place ==> call_accounts@[i] == swap_account(accounts@, i),
            decreases SWAP_CALL_ACCOUNTS - place,
        {
            let position = SWAP_CALL_POSITIONS[place];
            assert(position < ACCOUNTS_TO_SWAP);
            call_accounts.push(
                CallAccount {
                    index: position,
                    key: accounts[position].key,
                    is_writable: SWAP_CALL_WRITABLE[place],
                    is_signer: SWAP_CALL_SIGNER[place],
                },
            );
            place += 1;
        }
        let label = vstd::slice::slice_to_vec(AUTHORITY_SEED.as_slice());
        let mut nonce: Vec<u8> = Vec::new();
        push_u64(&mut nonce, amm_info.nonce);
        let mut signer_seeds: Vec<Vec<u8>> = Vec::new();
        signer_seeds.push(label);
        signer_seeds.push(nonce);
        let call = PoolCall {
            program_id: accounts[POOL_PROGRAM].key,
            accounts: call_accounts,
            data,
            signer_seeds,
        };
        assert(call@.accounts =~= swap_accounts(accounts@));
        assert(call@.signer_seeds =~= authority_seeds(amm_info.nonce));
        Ok(call)
    }
}

impl DexInterface for RaydiumV4 {
    /// Looks at the account at the pool's position. Where it is a pool of
    /// this program whose two mints are the requested pair, in either
    /// order, the pair is found; where there is no such account, or it is
    /// no pool, or it trades other assets, none is, and that is no error.
    /// A pool that trades the pair but whose fee rate in basis points cannot
    /// be computed, or does not fit its 16 bits, gives `MathOverflow`.
    fn find_trading_pair(
        &self,
        base_mint: &Pubkey,
        quote_mint: &Pubkey,
        accounts: &[AccountSnapshot],
    ) -> (found: Result<Option<TradingPair>, AutoBuyerError>)
        ensures
            found == discovered(*base_mint, *quote_mint, accounts@),
    {
        if accounts.len() <= POOL {
            return Ok(None);
        }
        let pool_account = &accounts[POOL];
        let amm_info = match self.load_amm_info(pool_account) {
            Ok(info) => info,
            Err(_) => return Ok(None),
        };
        let is_correct_pair = (keys_equal(&amm_info.base_mint, base_mint) && keys_equal(
            &amm_info.quote_mint,
            quote_mint,
        )) || (keys_equal(&amm_info.base_mint, quote_mint) && keys_equal(
            &amm_info.quote_mint,
            base_mint,
        ));
        if !is_correct_pair {
            return Ok(None);
        }
        let scaled_fee = match amm_info.trade_fee_numerator.checked_mul(BASIS_POINTS as u64) {
            Some(product) => product,
            None => return Err(AutoBuyerError::MathOverflow),
        };
        let fee_rate = match scaled_fee.checked_div(amm_info.trade_fee_denominator) {
            Some(rate) => rate,
            None => return Err(AutoBuyerError::MathOverflow),
        };
        if fee_rate > u16::MAX as u64 {
            return Err(AutoBuyerError::MathOverflow);
        }
        let pool_config = PoolConfig {
            pool_address: pool_account.key,
            token_a_account: amm_info.base_vault,
            token_b_account: amm_info.quote_vault,
            token_a_mint: amm_info.base_mint,
            token_b_mint: amm_info.quote_mint,
            fee_rate: fee_rate as u16,
        };
        Ok(Some(TradingPair { base_mint: *base_mint, quote_mint: *quote_mint, pool_config }))
    }

    /// Quotes `amount_in` of the pair's quote asset against the balances
    /// of the two vaults, at the pool's trade fee.
    fn calculate_swap(
        &self,
        trading_pair: &TradingPair,
        amount_in: u64,
        accounts: &[AccountSnapshot],
    ) -> (calculation: Result<SwapCalculation, AutoBuyerError>)
        ensures
            calculation == calculated(*trading_pair, amount_in, accounts@),
    {
        if accounts.len() <= POOL {
            return Err(AutoBuyerError::InvalidParameters);
        }
        let amm_info = match self.load_amm_info(&accounts[POOL]) {
            Ok(info) => info,
            Err(e) => return Err(e),
        };
        if accounts.len() <= POOL_VAULT_B {
            return Err(AutoBuyerError::InvalidParameters);
        }
        let reserve_a = match Self::get_token_balance(&accounts[POOL_VAULT_A]) {
            Ok(balance) => balance,
            Err(e) => return Err(e),
        };
        let reserve_b = match Self::get_token_balance(&accounts[POOL_VAULT_B]) {
            Ok(balance) => balance,
            Err(e) => return Err(e),
        };
        let (reserve_in, reserve_out) = if keys_equal(
            &trading_pair.pool_config.token_a_mint,
            &trading_pair.quote_mint,
        ) {
            (reserve_a, reserve_b)
        } else {
            (reserve_b, reserve_a)
        };
        let (amount_out, fee_amount) = match self.calculate_amount_out(
            amount_in,
            reserve_in,
            reserve_out,
            amm_info.trade_fee_numerator,
            amm_info.trade_fee_denominator,
        ) {
            Ok(quoted) => quoted,
            Err(e) => return Err(e),
        };
        Ok(SwapCalculation { amount_in, amount_out, fee_amount, reserve_in, reserve_out })
    }

    /// Assembles the call that carries out the swap.
    fn execute_swap(
        &self,
        program_id: &Pubkey,
        accounts: &[AccountSnapshot],
        swap_params: &SwapParams,
    ) -> (call: Result<PoolCall, AutoBuyerError>)
        ensures
            call_view(call) == swap_call(
                accounts@,
                swap_params.amount_in,
                swap_params.min_amount_out,
            ),
    {
        self.execute_raydium_swap(accounts, swap_params, program_id)
    }

    fn provider_type(&self) -> (provider: DexProvider)
        ensures
            provider == DexProvider::RaydiumV4,
    {
        DexProvider::RaydiumV4
    }
}

} // verus!
