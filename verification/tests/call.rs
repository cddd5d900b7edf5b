#![allow(dead_code)]

use auto_buyer::account::AccountSnapshot;
use auto_buyer::dex::raydium::{
    RaydiumV4, AUTHORITY_SEED, SWAP_CALL_ACCOUNTS, SWAP_CALL_POSITIONS, SWAP_CALL_SIGNER,
    SWAP_CALL_WRITABLE, SWAP_OPCODE,
};
use auto_buyer::dex::types::{CallAccount, SwapParams};
use auto_buyer::dex::DexInterface;
use auto_buyer::error::AutoBuyerError;
use auto_buyer::state::constants::{RAYDIUM_V4_PROGRAM_ID, TOKEN_PROGRAM_ID};
use auto_buyer::state::Pubkey;
use spl_token::solana_program::program_pack::Pack;

fn key(n: u8) -> Pubkey {
    [n; 32]
}

/// A pool record whose every field holds a value of its own: the number
/// fields count up from 1000, the wide ones from 2000, the keys from 100.
fn pool_record(
    nonce: u64,
    fee_numerator: u64,
    fee_denominator: u64,
    base_mint: Pubkey,
    quote_mint: Pubkey,
) -> Vec<u8> {
    let mut bytes: Vec<u8> = Vec::new();
    for i in 0..32u64 {
        let value = match i {
            1 => nonce,
            18 => fee_numerator,
            19 => fee_denominator,
            _ => 1000 + i,
        };
        bytes.extend(borsh::to_vec(&value).unwrap());
    }
    bytes.extend(borsh::to_vec(&2000u128).unwrap());
    bytes.extend(borsh::to_vec(&2001u128).unwrap());
    bytes.extend(borsh::to_vec(&1032u64).unwrap());
    bytes.extend(borsh::to_vec(&2002u128).unwrap());
    bytes.extend(borsh::to_vec(&2003u128).unwrap());
    bytes.extend(borsh::to_vec(&1033u64).unwrap());
    for j in 0..12u8 {
        let field = match j {
            2 => base_mint,
            3 => quote_mint,
            _ => key(100 + j),
        };
        bytes.extend(borsh::to_vec(&field).unwrap());
    }
    bytes.extend(borsh::to_vec(&1034u64).unwrap());
    bytes
}

/// The packed state of an initialized token account that holds `amount`.
fn token_account(amount: u64) -> Vec<u8> {
    let account = spl_token::state::Account {
        mint: spl_token::solana_program::pubkey::Pubkey::new_from_array([7; 32]),
        owner: spl_token::solana_program::pubkey::Pubkey::new_from_array([8; 32]),
        amount,
        delegate: spl_token::solana_program::program_option::COption::None,
        state: spl_token::state::AccountState::Initialized,
        is_native: spl_token::solana_program::program_option::COption::None,
        delegated_amount: 0,
        close_authority: spl_token::solana_program::program_option::COption::None,
    };
    let mut bytes = vec![0u8; 165];
    spl_token::state::Account::pack(account, &mut bytes).unwrap();
    bytes
}

const MINT_A: Pubkey = [0xA1; 32];
const MINT_B: Pubkey = [0xB2; 32];
const MINT_C: Pubkey = [0xC3; 32];

/// The accounts of a valid request against a pool of `MINT_A` and `MINT_B`
/// at a fee of 0.25%, with the given balances in its two vaults. The
/// account at position `i` has the key `[200 + i; 32]` unless its role
/// fixes it.
fn request(reserve_a: u64, reserve_b: u64, target: Pubkey, quote: Pubkey) -> Vec<AccountSnapshot> {
    let mut accounts: Vec<AccountSnapshot> = Vec::new();
    for i in 0..22u8 {
        accounts.push(AccountSnapshot {
            key: key(200 + i),
            owner: key(50),
            is_signer: false,
            data: Some(Vec::new()),
        });
    }
    accounts[0].is_signer = true;
    accounts[1].owner = TOKEN_PROGRAM_ID;
    accounts[2].owner = TOKEN_PROGRAM_ID;
    accounts[3].key = target;
    accounts[4].key = quote;
    accounts[5].key = RAYDIUM_V4_PROGRAM_ID;
    accounts[6].owner = RAYDIUM_V4_PROGRAM_ID;
    accounts[6].data = Some(pool_record(254, 25, 10_000, MINT_A, MINT_B));
    accounts[7].owner = TOKEN_PROGRAM_ID;
    accounts[7].data = Some(token_account(reserve_a));
    accounts[8].owner = TOKEN_PROGRAM_ID;
    accounts[8].data = Some(token_account(reserve_b));
    accounts[9].key = TOKEN_PROGRAM_ID;
    accounts
}

fn params(accounts: &[AccountSnapshot], amount_in: u64, min_amount_out: u64) -> SwapParams {
    let provider = RaydiumV4::new();
    let trading_pair = provider.find_trading_pair(&MINT_A, &MINT_B, accounts).unwrap().unwrap();
    let calculation = provider.calculate_swap(&trading_pair, 1_000, accounts).unwrap();
    SwapParams { trading_pair, amount_in, min_amount_out, calculation }
}

#[test]
fn payload_is_opcode_and_two_amounts() {
    let accounts = request(1_000_000, 1_000_000, MINT_A, MINT_B);
    let swap = params(&accounts, 0x0102_0304_0506_0708, 0x1112_1314_1516_1718);
    let data = RaydiumV4::new().create_swap_instruction_data(&swap).unwrap();
    assert_eq!(
        data,
        vec![
            9, 0x08, 0x07, 0x06, 0x05, 0x04, 0x03, 0x02, 0x01, 0x18, 0x17, 0x16, 0x15, 0x14, 0x13,
            0x12, 0x11
        ]
    );
}

#[test]
fn payload_agrees_with_borsh() {
    let accounts = request(1_000_000, 1_000_000, MINT_A, MINT_B);
    let swap = params(&accounts, 10_000, 9_000);
    let data = RaydiumV4::new().create_swap_instruction_data(&swap).unwrap();
    assert_eq!(data, borsh::to_vec(&(9u8, 10_000u64, 9_000u64)).unwrap());
    assert_eq!(SWAP_OPCODE, 9);
}

#[test]
fn authority_seed_is_its_label() {
    assert_eq!(&AUTHORITY_SEED[..], &b"amm_authority"[..]);
}

#[test]
fn call_tables_hold_eighteen_accounts() {
    assert_eq!(SWAP_CALL_ACCOUNTS, 18);
    assert_eq!(
        SWAP_CALL_POSITIONS,
        [0, 1, 2, 9, 6, 11, 12, 13, 7, 8, 14, 15, 16, 17, 18, 19, 20, 21]
    );
    assert_eq!(SWAP_CALL_WRITABLE.iter().filter(|writable| **writable).count(), 13);
    assert_eq!(SWAP_CALL_SIGNER.iter().filter(|signer| **signer).count(), 1);
}

#[test]
fn call_names_the_accounts_in_the_program_s_order() {
    let accounts = request(1_000_000, 1_000_000, MINT_A, MINT_B);
    let swap = params(&accounts, 10_000, 9_000);
    let call = RaydiumV4::new().execute_swap(&key(1), &accounts, &swap).unwrap();
    let readonly = |index: usize, key: Pubkey| CallAccount {
        index,
        key,
        is_writable: false,
        is_signer: false,
    };
    let writable = |index: usize, key: Pubkey| CallAccount {
        index,
        key,
        is_writable: true,
        is_signer: false,
    };
    let expected = vec![
        CallAccount { index: 0, key: key(200), is_writable: false, is_signer: true },
        writable(1, key(201)),
        writable(2, key(202)),
        readonly(9, TOKEN_PROGRAM_ID),
        writable(6, key(206)),
        readonly(11, key(211)),
        writable(12, key(212)),
        writable(13, key(213)),
        writable(7, key(207)),
        writable(8, key(208)),
        readonly(14, key(214)),
        writable(15, key(215)),
        writable(16, key(216)),
        writable(17, key(217)),
        writable(18, key(218)),
        writable(19, key(219)),
        writable(20, key(220)),
        readonly(21, key(221)),
    ];
    assert_eq!(call.accounts, expected);
}

#[test]
fn call_goes_to_the_pool_program_with_the_payload() {
    let accounts = request(1_000_000, 1_000_000, MINT_A, MINT_B);
    let swap = params(&accounts, 10_000, 9_000);
    let call = RaydiumV4::new().execute_swap(&key(1), &accounts, &swap).unwrap();
    assert_eq!(call.program_id, RAYDIUM_V4_PROGRAM_ID);
    assert_eq!(
        call.data,
        vec![9, 0x10, 0x27, 0, 0, 0, 0, 0, 0, 0x28, 0x23, 0, 0, 0, 0, 0, 0]
    );
}

#[test]
fn call_is_signed_by_the_authority_of_the_pool_s_nonce() {
    let mut accounts = request(1_000_000, 1_000_000, MINT_A, MINT_B);
    let swap = params(&accounts, 10_000, 9_000);
    let call = RaydiumV4::new().execute_swap(&key(1), &accounts, &swap).unwrap();
    assert_eq!(
        call.signer_seeds,
        vec![b"amm_authority".to_vec(), vec![254, 0, 0, 0, 0, 0, 0, 0]]
    );
    accounts[6].data = Some(pool_record(0x0102, 25, 10_000, MINT_A, MINT_B));
    let call = RaydiumV4::new().execute_swap(&key(1), &accounts, &swap).unwrap();
    assert_eq!(
        call.signer_seeds,
        vec![b"amm_authority".to_vec(), vec![2, 1, 0, 0, 0, 0, 0, 0]]
    );
}

#[test]
fn call_does_not_depend_on_the_calling_program() {
    let accounts = request(1_000_000, 1_000_000, MINT_A, MINT_B);
    let swap = params(&accounts, 10_000, 9_000);
    let provider = RaydiumV4::new();
    assert_eq!(
        provider.execute_swap(&key(1), &accounts, &swap),
        provider.execute_raydium_swap(&accounts, &swap, &key(2))
    );
}

#[test]
fn call_needs_twenty_two_accounts() {
    let accounts = request(1_000_000, 1_000_000, MINT_A, MINT_B);
    let swap = params(&accounts, 10_000, 9_000);
    let provider = RaydiumV4::new();
    assert_eq!(
        provider.execute_swap(&key(1), &accounts[..21], &swap),
        Err(AutoBuyerError::InvalidParameters)
    );
    assert_eq!(
        provider.execute_swap(&key(1), &accounts[..6], &swap),
        Err(AutoBuyerError::InvalidParameters)
    );
    let mut more = accounts.clone();
    more.push(accounts[0].clone());
    assert_eq!(
        provider.execute_swap(&key(1), &more, &swap),
        provider.execute_swap(&key(1), &accounts, &swap)
    );
}

#[test]
fn call_without_a_pool_gives_the_pool_s_error() {
    let good = request(1_000_000, 1_000_000, MINT_A, MINT_B);
    let swap = params(&good, 10_000, 9_000);
    let provider = RaydiumV4::new();
    let mut accounts = good.clone();
    accounts[6].owner = key(3);
    assert_eq!(
        provider.execute_swap(&key(1), &accounts, &swap),
        Err(AutoBuyerError::InvalidAccountOwner)
    );
    assert_eq!(
        provider.execute_swap(&key(1), &accounts[..10], &swap),
        Err(AutoBuyerError::InvalidAccountOwner)
    );
    let mut accounts = good.clone();
    accounts[6].data = Some(Vec::new());
    assert_eq!(
        provider.execute_swap(&key(1), &accounts, &swap),
        Err(AutoBuyerError::InvalidParameters)
    );
}
