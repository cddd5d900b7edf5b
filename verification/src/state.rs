//! The values a swap request is made of.

use vstd::prelude::*;

pub mod constants;

verus! {

/// A 32-byte address: of an account, a program or an asset's mint. Two keys
/// are the same when their bytes are.
pub type Pubkey = [u8; 32];

/// The key that is made of `bytes`.
pub closed spec fn key_of(bytes: Seq<u8>) -> Pubkey {
    choose|key: Pubkey| key@ == bytes
}

spec fn key_prefix(bytes: Seq<u8>, n: nat) -> Pubkey
    decreases n,
{
    if n == 0 {
        vstd::array::spec_array_fill_for_copy_type::<u8, 32>(0u8)
    } else {
        vstd::array::spec_array_update(key_prefix(bytes, (n - 1) as nat), n - 1, bytes[n - 1])
    }
}

proof fn lemma_key_prefix(bytes: Seq<u8>, n: nat)
    requires
        n <= 32,
    ensures
        forall|i: int| 0 <= i < n ==> key_prefix(bytes, n)@[i] == bytes[i],
    decreases n,
{
    if n > 0 {
        lemma_key_prefix(bytes, (n - 1) as nat);
    }
}

/// Any 32 bytes make a key, and the key holds just those bytes.
pub proof fn lemma_key_of(bytes: Seq<u8>)
    requires
        bytes.len() == 32,
    ensures
        key_of(bytes)@ == bytes,
{
    lemma_key_prefix(bytes, 32);
    assert(key_prefix(bytes, 32)@ =~= bytes);
}

/// Whether two keys hold the same bytes.
pub fn keys_equal(a: &Pubkey, b: &Pubkey) -> (same: bool)
    ensures
        same == (*a == *b),
{
    let mut i: usize = 0;
    while i < 32
        invariant
            i <= 32,
            forall|j: int| 0 <= j < i ==> a@[j] == b@[j],
        decreases 32 - i,
    {
        if a[i] != b[i] {
            return false;
        }
        i += 1;
    }
    assert(*a =~= *b);
    true
}

/// A liquidity pool as its program records it: where it lives, where its
/// two reserves are kept, and what it charges. It is a reading taken for one
/// request; the reserves move between requests.
#[derive(Debug, Clone, Copy, PartialEq, Eq)]
pub struct PoolConfig {
    /// Address of the pool.
    pub pool_address: Pubkey,
    /// Account that holds the pool's reserve of asset A.
    pub token_a_account: Pubkey,
    /// Account that holds the pool's reserve of asset B.
    pub token_b_account: Pubkey,
    /// Mint of asset A.
    pub token_a_mint: Pubkey,
    /// Mint of asset B.
    pub token_b_mint: Pubkey,
    /// Trade fee in basis points.
    pub fee_rate: u16,
}

/// A requested pair of assets together with the pool that trades it.
#[derive(Debug, Clone, Copy, PartialEq, Eq)]
pub struct TradingPair {
    /// The asset to buy.
    pub base_mint: Pubkey,
    /// The asset to pay with.
    pub quote_mint: Pubkey,
    /// The pool that trades the two.
    pub pool_config: PoolConfig,
}

impl TradingPair {
    /// The pool's two mints are the requested pair, in one order or the
    /// other.
    pub open spec fn wf(&self) -> bool {
        ||| self.pool_config.token_a_mint == self.base_mint && self.pool_config.token_b_mint
            == self.quote_mint
        ||| self.pool_config.token_a_mint == self.quote_mint && self.pool_config.token_b_mint
            == self.base_mint
    }
}

/// A quote: what a swap of `amount_in` yields and costs, and the two
/// reserves it was computed against. The price per unit is
/// `amount_out / amount_in`, the pool's own price `reserve_out / reserve_in`.
#[derive(Debug, Clone, Copy, PartialEq, Eq)]
pub struct SwapCalculation {
    /// Amount paid in.
    pub amount_in: u64,
    /// Amount received.
    pub amount_out: u64,
    /// Part of `amount_in` kept by the pool as its fee.
    pub fee_amount: u64,
    /// Reserve of the asset paid in, before the swap.
    pub reserve_in: u64,
    /// Reserve of the asset received, before the swap.
    pub reserve_out: u64,
}

impl SwapCalculation {
    /// The fee is part of the amount paid in, and what is received is less
    /// than the reserve it is paid out of, which the swap cannot drain.
    pub open spec fn wf(&self) -> bool {
        &&& self.fee_amount <= self.amount_in
        &&& self.amount_out < self.reserve_out
        &&& self.reserve_in > 0
    }
}

} // verus!
