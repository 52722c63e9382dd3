//! The instruction codec: from a byte buffer to one of the two commands.

use vstd::prelude::*;
use crate::codec::{lemma_u64_le_roundtrip, push_u64_le, read_u64_le, u64_from_le, u64_to_le};
use crate::error::EscrowError;

verus! {

/// The number of bytes of an instruction payload: the tag and the amount.
pub const INSTRUCTION_LEN: usize = 9;

/// A command to the escrow program.
#[derive(Clone, Copy, Debug, PartialEq, Eq, Structural)]
pub enum EscrowInstruction {
    /// Locks the deposit of the initializer and records that `amount` of
    /// the other asset is expected in return.
    InitEscrow { amount: u64 },
    /// Completes the swap; `amount` is what the taker expects to receive.
    Exchange { amount: u64 },
}

impl EscrowInstruction {
    /// The payload that stands for this instruction: the tag byte, then the
    /// amount, least significant byte first.
    pub open spec fn spec_pack(self) -> Seq<u8> {
        match self {
            EscrowInstruction::InitEscrow { amount } => seq![0u8] + u64_to_le(amount),
            EscrowInstruction::Exchange { amount } => seq![1u8] + u64_to_le(amount),
        }
    }

    /// The instruction that a payload stands for, if it stands for one: the
    /// payload has exactly nine bytes and its tag is 0 or 1.
    pub open spec fn spec_unpack(input: Seq<u8>) -> Option<EscrowInstruction> {
        if input.len() != 9 {
            None
        } else if input[0] == 0 {
            Some(EscrowInstruction::InitEscrow { amount: u64_from_le(input.subrange(1, 9)) as u64 })
        } else if input[0] == 1 {
            Some(EscrowInstruction::Exchange { amount: u64_from_le(input.subrange(1, 9)) as u64 })
        } else {
            None
        }
    }

    /// The amount that the instruction carries.
    pub open spec fn spec_amount(self) -> u64 {
        match self {
            EscrowInstruction::InitEscrow { amount } => amount,
            EscrowInstruction::Exchange { amount } => amount,
        }
    }

    /// The amount that the instruction carries.
    pub fn amount(&self) -> (amount: u64)
        ensures
            amount == self.spec_amount(),
    {
        match self {
            EscrowInstruction::InitEscrow { amount } => *amount,
            EscrowInstruction::Exchange { amount } => *amount,
        }
    }

    /// Decodes a payload. Fails with `InvalidInstruction` on a payload that
    /// is truncated, over-long or carries an unknown tag.
    pub fn unpack(input: &[u8]) -> (result: Result<EscrowInstruction, EscrowError>)
        ensures
            match Self::spec_unpack(input@) {
                Some(instruction) => result == Ok::<EscrowInstruction, EscrowError>(instruction),
                None => result == Err::<EscrowInstruction, EscrowError>(
                    EscrowError::InvalidInstruction,
                ),
            },
    {
        if input.len() != INSTRUCTION_LEN {
            return Err(EscrowError::InvalidInstruction);
        }
        let tag = input[0];
        let amount = read_u64_le(input, 1);
        if tag == 0 {
            Ok(EscrowInstruction::InitEscrow { amount })
        } else if tag == 1 {
            Ok(EscrowInstruction::Exchange { amount })
        } else {
            Err(EscrowError::InvalidInstruction)
        }
    }

    /// Encodes the instruction as a payload.
    pub fn pack(&self) -> (payload: Vec<u8>)
        ensures
            payload@ == self.spec_pack(),
            payload@.len() == INSTRUCTION_LEN,
    {
        let mut payload: Vec<u8> = Vec::new();
        match self {
            EscrowInstruction::InitEscrow { amount } => {
                payload.push(0);
                push_u64_le(&mut payload, *amount);
            },
            EscrowInstruction::Exchange { amount } => {
                payload.push(1);
                push_u64_le(&mut payload, *amount);
            },
        }
        assert(payload@ =~= self.spec_pack());
        payload
    }
}

/// Every instruction is decoded from its own payload.
pub proof fn lemma_instruction_roundtrip(instruction: EscrowInstruction)
    ensures
        instruction.spec_pack().len() == 9,
        EscrowInstruction::spec_unpack(instruction.spec_pack()) == Some(instruction),
{
    let amount = instruction.spec_amount();
    lemma_u64_le_roundtrip(amount);
    assert(instruction.spec_pack().subrange(1, 9) =~= u64_to_le(amount));
}

} // verus!
