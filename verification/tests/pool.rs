#![allow(dead_code)]

use auto_buyer::account::AccountSnapshot;
use auto_buyer::dex::raydium::{AmmInfo, RaydiumV4};
use auto_buyer::error::AutoBuyerError;
use auto_buyer::state::constants::{RAYDIUM_V4_PROGRAM_ID, TOKEN_PROGRAM_ID};
use auto_buyer::state::Pubkey;
use spl_token::solana_program::program_pack::Pack;

fn key(n: u8) -> Pubkey {
    [n; 32]
}

/// A pool record whose every field holds a value of its own: the number
/// fields count up from 1000, the wide ones from 2000, the keys from 100.
fn pool_record(
    nonce: u64,
    fee_numerator: u64,
    fee_denominator: u64,
    base_mint: Pubkey,
    quote_mint: Pubkey,
) -> Vec<u8> {
    let mut bytes: Vec<u8> = Vec::new();
    for i in 0..32u64 {
        let value = match i {
            1 => nonce,
            18 => fee_numerator,
            19 => fee_denominator,
            _ => 1000 + i,
        };
        bytes.extend(borsh::to_vec(&value).unwrap());
    }
    bytes.extend(borsh::to_vec(&2000u128).unwrap());
    bytes.extend(borsh::to_vec(&2001u128).unwrap());
    bytes.extend(borsh::to_vec(&1032u64).unwrap());
    bytes.extend(borsh::to_vec(&2002u128).unwrap());
    bytes.extend(borsh::to_vec(&2003u128).unwrap());
    bytes.extend(borsh::to_vec(&1033u64).unwrap());
    for j in 0..12u8 {
        let field = match j {
            2 => base_mint,
            3 => quote_mint,
            _ => key(100 + j),
        };
        bytes.extend(borsh::to_vec(&field).unwrap());
    }
    bytes.extend(borsh::to_vec(&1034u64).unwrap());
    bytes
}

/// The packed state of an initialized token account that holds `amount`.
fn token_account(amount: u64) -> Vec<u8> {
    let account = spl_token::state::Account {
        mint: spl_token::solana_program::pubkey::Pubkey::new_from_array([7; 32]),
        owner: spl_token::solana_program::pubkey::Pubkey::new_from_array([8; 32]),
        amount,
        delegate: spl_token::solana_program::program_option::COption::None,
        state: spl_token::state::AccountState::Initialized,
        is_native: spl_token::solana_program::program_option::COption::None,
        delegated_amount: 0,
        close_authority: spl_token::solana_program::program_option::COption::None,
    };
    let mut bytes = vec![0u8; 165];
    spl_token::state::Account::pack(account, &mut bytes).unwrap();
    bytes
}

const MINT_A: Pubkey = [0xA1; 32];
const MINT_B: Pubkey = [0xB2; 32];
const MINT_C: Pubkey = [0xC3; 32];

/// The accounts of a valid request against a pool of `MINT_A` and `MINT_B`
/// at a fee of 0.25%, with the given balances in its two vaults. The
/// account at position `i` has the key `[200 + i; 32]` unless its role
/// fixes it.
fn request(reserve_a: u64, reserve_b: u64, target: Pubkey, quote: Pubkey) -> Vec<AccountSnapshot> {
    let mut accounts: Vec<AccountSnapshot> = Vec::new();
    for i in 0..22u8 {
        accounts.push(AccountSnapshot {
            key: key(200 + i),
            owner: key(50),
            is_signer: false,
            data: Some(Vec::new()),
        });
    }
    accounts[0].is_signer = true;
    accounts[1].owner = TOKEN_PROGRAM_ID;
    accounts[2].owner = TOKEN_PROGRAM_ID;
    accounts[3].key = target;
    accounts[4].key = quote;
    accounts[5].key = RAYDIUM_V4_PROGRAM_ID;
    accounts[6].owner = RAYDIUM_V4_PROGRAM_ID;
    accounts[6].data = Some(pool_record(254, 25, 10_000, MINT_A, MINT_B));
    accounts[7].owner = TOKEN_PROGRAM_ID;
    accounts[7].data = Some(token_account(reserve_a));
    accounts[8].owner = TOKEN_PROGRAM_ID;
    accounts[8].data = Some(token_account(reserve_b));
    accounts[9].key = TOKEN_PROGRAM_ID;
    accounts
}

fn pool_account(data: Option<Vec<u8>>) -> AccountSnapshot {
    AccountSnapshot { key: key(1), owner: RAYDIUM_V4_PROGRAM_ID, is_signer: false, data }
}

fn vault(data: Option<Vec<u8>>) -> AccountSnapshot {
    AccountSnapshot { key: key(2), owner: TOKEN_PROGRAM_ID, is_signer: false, data }
}

#[test]
fn record_is_728_bytes() {
    assert_eq!(AmmInfo::LEN, 728);
    assert_eq!(pool_record(1, 2, 3, MINT_A, MINT_B).len(), 728);
}

#[test]
fn record_decodes_every_field_from_its_place() {
    let info = AmmInfo::try_from_slice(&pool_record(254, 25, 10_000, MINT_A, MINT_B)).unwrap();
    assert_eq!(info.status, 1000);
    assert_eq!(info.nonce, 254);
    assert_eq!(info.order_num, 1002);
    assert_eq!(info.depth, 1003);
    assert_eq!(info.base_decimals, 1004);
    assert_eq!(info.quote_decimals, 1005);
    assert_eq!(info.state, 1006);
    assert_eq!(info.reset_flag, 1007);
    assert_eq!(info.min_size, 1008);
    assert_eq!(info.vol_max_cut_ratio, 1009);
    assert_eq!(info.amount_wave_ratio, 1010);
    assert_eq!(info.base_lot_size, 1011);
    assert_eq!(info.quote_lot_size, 1012);
    assert_eq!(info.min_price_multiplier, 1013);
    assert_eq!(info.max_price_multiplier, 1014);
    assert_eq!(info.system_decimals_value, 1015);
    assert_eq!(info.min_separate_numerator, 1016);
    assert_eq!(info.min_separate_denominator, 1017);
    assert_eq!(info.trade_fee_numerator, 25);
    assert_eq!(info.trade_fee_denominator, 10_000);
    assert_eq!(info.pnl_numerator, 1020);
    assert_eq!(info.pnl_denominator, 1021);
    assert_eq!(info.swap_fee_numerator, 1022);
    assert_eq!(info.swap_fee_denominator, 1023);
    assert_eq!(info.base_need_take_pnl, 1024);
    assert_eq!(info.quote_need_take_pnl, 1025);
    assert_eq!(info.quote_total_pnl, 1026);
    assert_eq!(info.base_total_pnl, 1027);
    assert_eq!(info.pool_open_time, 1028);
    assert_eq!(info.punish_pc_amount, 1029);
    assert_eq!(info.punish_coin_amount, 1030);
    assert_eq!(info.orderbook_to_init_time, 1031);
    assert_eq!(info.swap_base_in_amount, 2000);
    assert_eq!(info.swap_quote_out_amount, 2001);
    assert_eq!(info.swap_base2_quote_fee, 1032);
    assert_eq!(info.swap_quote_in_amount, 2002);
    assert_eq!(info.swap_base_out_amount, 2003);
    assert_eq!(info.swap_quote2_base_fee, 1033);
    assert_eq!(info.base_vault, key(100));
    assert_eq!(info.quote_vault, key(101));
    assert_eq!(info.base_mint, MINT_A);
    assert_eq!(info.quote_mint, MINT_B);
    assert_eq!(info.lp_mint, key(104));
    assert_eq!(info.open_orders, key(105));
    assert_eq!(info.market_id, key(106));
    assert_eq!(info.market_program_id, key(107));
    assert_eq!(info.target_orders, key(108));
    assert_eq!(info.withdraw_queue, key(109));
    assert_eq!(info.lp_vault, key(110));
    assert_eq!(info.owner, key(111));
    assert_eq!(info.lp_reserve, 1034);
}

#[test]
fn record_numbers_are_little_endian() {
    let mut bytes = vec![0u8; 728];
    bytes[8] = 0x01;
    bytes[9] = 0x02;
    bytes[15] = 0x80;
    bytes[256] = 0x05;
    bytes[271] = 0x01;
    let info = AmmInfo::try_from_slice(&bytes).unwrap();
    assert_eq!(info.status, 0);
    assert_eq!(info.nonce, 0x8000_0000_0000_0201);
    assert_eq!(info.swap_base_in_amount, (1u128 << 120) + 5);
}

#[test]
fn record_keys_keep_their_bytes_in_order() {
    let mut bytes = vec![0u8; 728];
    for i in 0..32u8 {
        bytes[400 + i as usize] = i + 1;
    }
    let info = AmmInfo::try_from_slice(&bytes).unwrap();
    let mut expected = [0u8; 32];
    for i in 0..32u8 {
        expected[i as usize] = i + 1;
    }
    assert_eq!(info.base_mint, expected);
    assert_eq!(info.quote_vault, [0u8; 32]);
    assert_eq!(info.quote_mint, [0u8; 32]);
}

#[test]
fn record_of_another_size_is_refused() {
    let record = pool_record(1, 2, 3, MINT_A, MINT_B);
    assert_eq!(AmmInfo::try_from_slice(&record[..727]), None);
    assert_eq!(AmmInfo::try_from_slice(&[]), None);
    let mut longer = record.clone();
    longer.push(0);
    assert_eq!(AmmInfo::try_from_slice(&longer), None);
    let mut padded = record;
    padded.extend([0u8; 24]);
    assert_eq!(AmmInfo::try_from_slice(&padded), None);
}

#[test]
fn pool_loads_from_an_account_of_the_pool_program() {
    let record = pool_record(9, 25, 10_000, MINT_A, MINT_B);
    let loaded = RaydiumV4::new().load_amm_info(&pool_account(Some(record.clone())));
    assert_eq!(loaded, Ok(AmmInfo::try_from_slice(&record).unwrap()));
    assert_eq!(loaded.unwrap().nonce, 9);
}

#[test]
fn pool_of_another_owner_is_invalid_account_owner() {
    let mut account = pool_account(Some(pool_record(9, 25, 10_000, MINT_A, MINT_B)));
    account.owner = TOKEN_PROGRAM_ID;
    assert_eq!(RaydiumV4::new().load_amm_info(&account), Err(AutoBuyerError::InvalidAccountOwner));
    account.owner = RAYDIUM_V4_PROGRAM_ID;
    account.owner[31] ^= 1;
    assert_eq!(RaydiumV4::new().load_amm_info(&account), Err(AutoBuyerError::InvalidAccountOwner));
}

#[test]
fn owner_is_checked_before_the_bytes() {
    let mut account = pool_account(Some(vec![1, 2, 3]));
    account.owner = key(0);
    assert_eq!(RaydiumV4::new().load_amm_info(&account), Err(AutoBuyerError::InvalidAccountOwner));
}

#[test]
fn pool_of_wrong_shape_is_invalid_parameters() {
    let provider = RaydiumV4::new();
    assert_eq!(
        provider.load_amm_info(&pool_account(Some(vec![0u8; 727]))),
        Err(AutoBuyerError::InvalidParameters)
    );
    assert_eq!(
        provider.load_amm_info(&pool_account(Some(Vec::new()))),
        Err(AutoBuyerError::InvalidParameters)
    );
    assert_eq!(provider.load_amm_info(&pool_account(None)), Err(AutoBuyerError::InvalidParameters));
}

#[test]
fn balance_is_the_amount_of_the_token_account() {
    assert_eq!(RaydiumV4::get_token_balance(&vault(Some(token_account(0)))), Ok(0));
    assert_eq!(RaydiumV4::get_token_balance(&vault(Some(token_account(1_000_000)))), Ok(1_000_000));
    assert_eq!(RaydiumV4::get_token_balance(&vault(Some(token_account(u64::MAX)))), Ok(u64::MAX));
}

#[test]
fn balance_is_read_from_bytes_64_to_71() {
    let mut bytes = token_account(0);
    bytes[64] = 0x10;
    bytes[71] = 0x01;
    assert_eq!(RaydiumV4::get_token_balance(&vault(Some(bytes))), Ok(0x0100_0000_0000_0010));
}

#[test]
fn balance_of_a_frozen_account_is_read() {
    let mut bytes = token_account(42);
    bytes[108] = 2;
    assert_eq!(RaydiumV4::get_token_balance(&vault(Some(bytes))), Ok(42));
}

#[test]
fn balance_with_optional_fields_present_is_read() {
    let mut bytes = token_account(42);
    bytes[72] = 1;
    bytes[109] = 1;
    bytes[129] = 1;
    assert_eq!(RaydiumV4::get_token_balance(&vault(Some(bytes))), Ok(42));
}

#[test]
fn balance_of_what_is_no_token_account_is_invalid_parameters() {
    let good = token_account(42);
    assert_eq!(
        RaydiumV4::get_token_balance(&vault(Some(good[..164].to_vec()))),
        Err(AutoBuyerError::InvalidParameters)
    );
    assert_eq!(
        RaydiumV4::get_token_balance(&vault(Some(Vec::new()))),
        Err(AutoBuyerError::InvalidParameters)
    );
    let mut longer = good.clone();
    longer.push(0);
    assert_eq!(
        RaydiumV4::get_token_balance(&vault(Some(longer))),
        Err(AutoBuyerError::InvalidParameters)
    );
    let mut uninitialized = good.clone();
    uninitialized[108] = 0;
    assert_eq!(
        RaydiumV4::get_token_balance(&vault(Some(uninitialized))),
        Err(AutoBuyerError::InvalidParameters)
    );
    let mut unknown_state = good.clone();
    unknown_state[108] = 3;
    assert_eq!(
        RaydiumV4::get_token_balance(&vault(Some(unknown_state))),
        Err(AutoBuyerError::InvalidParameters)
    );
    for at in [72usize, 73, 74, 75, 109, 110, 111, 112, 129, 130, 131, 132] {
        let mut bad_tag = good.clone();
        bad_tag[at] = 2;
        assert_eq!(
            RaydiumV4::get_token_balance(&vault(Some(bad_tag))),
            Err(AutoBuyerError::InvalidParameters)
        );
    }
}

#[test]
fn balance_of_an_account_without_bytes_is_cpi_error() {
    assert_eq!(RaydiumV4::get_token_balance(&vault(None)), Err(AutoBuyerError::CpiError));
}
