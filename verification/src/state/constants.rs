//! Fixed addresses and rates.

use vstd::prelude::*;

use crate::state::Pubkey;

verus! {

/// Mint of wrapped SOL.
pub const WSOL_MINT: Pubkey = [
    6, 155, 136, 87, 254, 171, 129, 132, 251, 104, 127, 99, 70, 24, 192, 53, 218, 196, 57, 220,
    26, 235, 59, 85, 152, 160, 240, 0, 0, 0, 0, 1,
];

/// The pool program whose accounts the engine reads and calls.
pub const RAYDIUM_V4_PROGRAM_ID: Pubkey = [
    0x67, 0x5d, 0x14, 0x89, 0xbb, 0x1b, 0x7b, 0x1c, 0x62, 0x5f, 0x9c, 0x3a, 0x5e, 0x2f, 0x8e,
    0x17, 0x8c, 0xa2, 0x7c, 0x8a, 0x5d, 0xf8, 0x2b, 0x36, 0x91, 0x4e, 0x3d, 0x7a, 0x5a, 0x9e,
    0x8b, 0x5c,
];

/// The order-book program behind the pool.
pub const SERUM_PROGRAM_ID: Pubkey = [
    0x9, 0x71, 0x2, 0x4, 0xac, 0x5, 0x39, 0x36, 0x51, 0x2, 0x4, 0xac, 0x5, 0x39, 0x36, 0x51,
    0x2, 0x4, 0xac, 0x5, 0x39, 0x36, 0x51, 0x2, 0x4, 0xac, 0x5, 0x39, 0x36, 0x51, 0x2, 0x4,
];

/// The pool program's authority account.
pub const AMM_AUTHORITY: Pubkey = [
    0x5, 0x1a, 0xda, 0x5b, 0x3b, 0x1d, 0x82, 0x9e, 0x8, 0x2b, 0x57, 0x8, 0x8, 0x4, 0x9, 0x25,
    0x2d, 0x1, 0x4, 0x7, 0x5, 0x4, 0x44, 0x4, 0x4, 0x4, 0x4, 0x4, 0x4, 0x4, 0x4, 0x4,
];

/// The token program that owns every token account.
pub const TOKEN_PROGRAM_ID: Pubkey = [
    6, 221, 246, 225, 215, 101, 161, 147, 217, 203, 225, 70, 206, 235, 121, 172, 28, 180, 133,
    237, 95, 91, 55, 145, 58, 140, 245, 133, 126, 255, 0, 169,
];

/// Largest slippage accepted by default, in basis points (1%).
pub const MAX_SLIPPAGE_BPS: u16 = 100;

/// Basis points in a whole (10000 = 100%).
pub const BASIS_POINTS: u16 = 10000;

} // verus!
