//! The instruction payload: one opcode byte, read as an [`Instruction`].

use vstd::prelude::*;

verus! {

/// Why an instruction was refused.
#[derive(Clone, Copy, Debug, PartialEq, Eq, Structural)]
pub enum VoteError {
    /// The account list is empty.
    MissingAccount,
    /// The tally account is owned by another program.
    NotProgramOwned,
    /// The tally account's data cannot hold two counters.
    AccountDataTooSmall,
    /// The instruction payload has no opcode byte.
    MalformedInstruction,
}

/// What an opcode asks for.
#[derive(Clone, Copy, Debug, PartialEq, Eq, Structural)]
pub enum Instruction {
    /// One vote for candidate A (opcode 1).
    IncrementA,
    /// One vote for candidate B (opcode 2).
    IncrementB,
    /// Any other opcode: nothing is changed.
    Unrecognized(u8),
}

/// The instruction that an opcode byte stands for.
pub open spec fn instruction_of(op: u8) -> Instruction {
    if op == 1 {
        Instruction::IncrementA
    } else if op == 2 {
        Instruction::IncrementB
    } else {
        Instruction::Unrecognized(op)
    }
}

/// The instruction that a payload stands for: its first byte, if it has one.
pub open spec fn decoded(payload: Seq<u8>) -> Result<Instruction, VoteError> {
    if payload.len() == 0 {
        Err(VoteError::MalformedInstruction)
    } else {
        Ok(instruction_of(payload[0]))
    }
}

impl Instruction {
    /// Reads an opcode byte.
    pub fn from_opcode(op: u8) -> (r: Instruction)
        ensures
            r == instruction_of(op),
    {
        if op == 1 {
            Instruction::IncrementA
        } else if op == 2 {
            Instruction::IncrementB
        } else {
            Instruction::Unrecognized(op)
        }
    }

    /// Reads a payload; one without an opcode byte is malformed.
    pub fn decode(payload: &[u8]) -> (r: Result<Instruction, VoteError>)
        ensures
            r == decoded(payload@),
    {
        if payload.len() == 0 {
            Err(VoteError::MalformedInstruction)
        } else {
            Ok(Instruction::from_opcode(payload[0]))
        }
    }
}

} // verus!
