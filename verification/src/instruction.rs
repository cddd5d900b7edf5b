//! The request as it arrives, and the report that answers it.

use vstd::prelude::*;

use crate::error::AutoBuyerError;
use crate::wire::{
    get_u64, le_bytes, lemma_le_bytes_len, lemma_le_value_of_bytes, lemma_radix_u64, push_u64,
    u64_at,
};

verus! {

/// What the program can be asked to do.
///
/// `BuyToken` comes with a list of accounts whose roles go by position; the
/// positions are the constants of the `account` module.
#[derive(Debug, Clone, Copy, PartialEq, Eq)]
pub enum AutoBuyerInstruction {
    /// Buy the target asset with a fixed amount of the quote asset.
    BuyToken {
        /// Amount of the quote asset to pay in.
        amount_in: u64,
        /// Least amount of the target asset the caller accepts.
        min_amount_out: u64,
    },
}

impl AutoBuyerInstruction {
    /// Size of a packed instruction in bytes.
    pub const LEN: usize = 17;

    /// The bytes of the instruction: the number of the variant, then its
    /// fields in order, each as eight little-endian bytes.
    pub open spec fn packed(self) -> Seq<u8> {
        match self {
            AutoBuyerInstruction::BuyToken { amount_in, min_amount_out } => seq![0u8] + le_bytes(
                amount_in as nat,
                8,
            ) + le_bytes(min_amount_out as nat, 8),
        }
    }

    /// The instruction that bytes spell: they must be exactly one packed
    /// instruction of a known variant.
    pub open spec fn unpacked(input: Seq<u8>) -> Result<AutoBuyerInstruction, AutoBuyerError> {
        if input.len() == AutoBuyerInstruction::LEN && input[0] == 0 {
            Ok(
                AutoBuyerInstruction::BuyToken {
                    amount_in: u64_at(input, 1),
                    min_amount_out: u64_at(input, 9),
                },
            )
        } else {
            Err(AutoBuyerError::InvalidInstruction)
        }
    }

    /// Packs the instruction into bytes.
    pub fn pack(&self) -> (bytes: Vec<u8>)
        ensures
            bytes@ == self.packed(),
    {
        let mut bytes: Vec<u8> = Vec::new();
        match self {
            AutoBuyerInstruction::BuyToken { amount_in, min_amount_out } => {
                bytes.push(0u8);
                push_u64(&mut bytes, *amount_in);
                push_u64(&mut bytes, *min_amount_out);
            },
        }
        bytes
    }

    /// Unpacks an instruction from bytes. Bytes too few, left over, or of
    /// an unknown variant give `InvalidInstruction`.
    pub fn unpack(input: &[u8]) -> (instruction: Result<AutoBuyerInstruction, AutoBuyerError>)
        ensures
            instruction == Self::unpacked(input@),
    {
        if input.len() != AutoBuyerInstruction::LEN || input[0] != 0 {
            return Err(AutoBuyerError::InvalidInstruction);
        }
        let amount_in = get_u64(input, 1);
        let min_amount_out = get_u64(input, 9);
        Ok(AutoBuyerInstruction::BuyToken { amount_in, min_amount_out })
    }

    /// Unpacking what was packed gives the instruction back.
    pub proof fn lemma_unpack_pack(instruction: AutoBuyerInstruction)
        ensures
            Self::unpacked(instruction.packed()) == Ok::<AutoBuyerInstruction, AutoBuyerError>(
                instruction,
            ),
    {
        match instruction {
            AutoBuyerInstruction::BuyToken { amount_in, min_amount_out } => {
                let first = le_bytes(amount_in as nat, 8);
                let second = le_bytes(min_amount_out as nat, 8);
                let bytes = instruction.packed();
                lemma_le_bytes_len(amount_in as nat, 8);
                lemma_le_bytes_len(min_amount_out as nat, 8);
                lemma_radix_u64();
                lemma_le_value_of_bytes(amount_in as nat, 8);
                lemma_le_value_of_bytes(min_amount_out as nat, 8);
                assert(bytes.subrange(1, 9) =~= first);
                assert(bytes.subrange(9, 17) =~= second);
            },
        }
    }
}

/// The report on a purchase.
#[derive(Debug, Clone, Copy, PartialEq, Eq)]
pub struct BuyResult {
    /// Whether the purchase went through.
    pub success: bool,
    /// Amount of the target asset received.
    pub amount_out: u64,
    /// Fee paid to the pool.
    pub fee_paid: u64,
    /// Time of the purchase; always zero, no clock is read.
    pub timestamp: i64,
}

} // verus!
