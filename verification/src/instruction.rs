//! The wire format of the two operations.
//!
//! An instruction is nine bytes: the opcode, then an amount as a
//! little-endian `u64`. Decoding looks at the bytes only, never at accounts.

use crate::error::EscrowError;
use crate::wire::{
    lemma_u64_le_bytes_round_trip, lemma_u64_le_round_trip, spec_u64_from_le, spec_u64_to_le,
    u64_from_le, u64_to_le,
};
use vstd::prelude::*;

verus! {

/// The number of bytes of an instruction.
pub const INSTRUCTION_LEN: usize = 9;

/// The opcode of [`EscrowInstruction::InitEscrow`].
pub const TAG_INIT_ESCROW: u8 = 0;

/// The opcode of [`EscrowInstruction::Exchange`].
pub const TAG_EXCHANGE: u8 = 1;

/// An operation of the escrow program with its parameters.
#[derive(Debug, Clone, Copy, PartialEq, Eq, Structural)]
pub enum EscrowInstruction {
    /// Opens a trade: the initializer asks `amount` of the token it wants in
    /// return for what its temporary token account holds.
    InitEscrow { amount: u64 },
    /// Completes a trade: the taker delivers `amount` of the token that the
    /// initializer asked for.
    Exchange { amount: u64 },
}

impl EscrowInstruction {
    /// The amount that the instruction carries.
    pub open spec fn spec_amount(self) -> u64 {
        match self {
            EscrowInstruction::InitEscrow { amount } => amount,
            EscrowInstruction::Exchange { amount } => amount,
        }
    }

    /// The opcode of the instruction.
    pub open spec fn spec_tag(self) -> u8 {
        match self {
            EscrowInstruction::InitEscrow { .. } => TAG_INIT_ESCROW,
            EscrowInstruction::Exchange { .. } => TAG_EXCHANGE,
        }
    }

    /// What `input` decodes to: bytes of another length than nine, or with
    /// an opcode other than 0 and 1, are invalid.
    pub open spec fn spec_unpack(input: Seq<u8>) -> Result<EscrowInstruction, EscrowError> {
        if input.len() != INSTRUCTION_LEN {
            Err(EscrowError::InvalidInstruction)
        } else if input[0] == TAG_INIT_ESCROW {
            Ok(EscrowInstruction::InitEscrow { amount: spec_u64_from_le(input.subrange(1, 9)) as u64 })
        } else if input[0] == TAG_EXCHANGE {
            Ok(EscrowInstruction::Exchange { amount: spec_u64_from_le(input.subrange(1, 9)) as u64 })
        } else {
            Err(EscrowError::InvalidInstruction)
        }
    }

    /// The nine bytes that encode the instruction.
    pub open spec fn spec_pack(self) -> Seq<u8> {
        seq![self.spec_tag()] + spec_u64_to_le(self.spec_amount())
    }

    /// Decodes an instruction from its bytes.
    pub fn unpack(input: &[u8]) -> (r: Result<EscrowInstruction, EscrowError>)
        ensures
            r == EscrowInstruction::spec_unpack(input@),
    {
        if input.len() != INSTRUCTION_LEN {
            return Err(EscrowError::InvalidInstruction);
        }
        let tag = input[0];
        if tag != TAG_INIT_ESCROW && tag != TAG_EXCHANGE {
            return Err(EscrowError::InvalidInstruction);
        }
        let amount = u64_from_le(input, 1);
        if tag == TAG_INIT_ESCROW {
            Ok(EscrowInstruction::InitEscrow { amount })
        } else {
            Ok(EscrowInstruction::Exchange { amount })
        }
    }

    /// Encodes the instruction.
    pub fn pack(&self) -> (bytes: [u8; 9])
        ensures
            bytes@ == self.spec_pack(),
    {
        let (tag, amount) = match self {
            EscrowInstruction::InitEscrow { amount } => (TAG_INIT_ESCROW, *amount),
            EscrowInstruction::Exchange { amount } => (TAG_EXCHANGE, *amount),
        };
        let a = u64_to_le(amount);
        let bytes: [u8; 9] = [tag, a[0], a[1], a[2], a[3], a[4], a[5], a[6], a[7]];
        assert(bytes@ =~= self.spec_pack());
        bytes
    }

    /// Decoding the bytes of an instruction gives the instruction back.
    pub proof fn lemma_unpack_pack(self)
        ensures
            EscrowInstruction::spec_unpack(self.spec_pack()) == Ok::<EscrowInstruction, EscrowError>(self),
    {
        let bytes = self.spec_pack();
        lemma_u64_le_round_trip(self.spec_amount());
        assert(bytes.subrange(1, 9) =~= spec_u64_to_le(self.spec_amount()));
    }

    /// Bytes that decode are the encoding of what they decode to, so no two
    /// byte strings decode to one instruction.
    pub proof fn lemma_pack_unpack(input: Seq<u8>)
        requires
            EscrowInstruction::spec_unpack(input) is Ok,
        ensures
            EscrowInstruction::spec_unpack(input)->Ok_0.spec_pack() == input,
    {
        let decoded = EscrowInstruction::spec_unpack(input)->Ok_0;
        lemma_u64_le_bytes_round_trip(input.subrange(1, 9));
        assert(decoded.spec_pack() =~= input);
    }
}

} // verus!
