//! The instruction processor: validation of the tally account, then one
//! change to its counters.

use crate::instruction::{decoded, Instruction, VoteError};
use crate::layout::{counter_bumped, increment_counter, COUNTER_A_OFFSET, COUNTER_B_OFFSET, TALLY_LEN};
use solana_program::pubkey::Pubkey;
use vstd::prelude::*;

verus! {

#[verifier::external_type_specification]
#[verifier::external_body]
pub struct ExPubkey(Pubkey);

/// An account as the processor sees it: the program that owns it and its data.
#[derive(Debug)]
pub struct Account {
    /// The program allowed to change `data`.
    pub owner: Pubkey,
    /// The account's data; the tally occupies its first eight bytes.
    pub data: Vec<u8>,
}

/// Relies on `PartialEq` of solana_program's `Pubkey`, derived over its 32
/// bytes: two keys compare equal exactly when they are the same value.
#[verifier::external_body]
fn same_key(a: &Pubkey, b: &Pubkey) -> (r: bool)
    ensures
        r == (*a == *b),
{
    a == b
}

/// `after` is the tally `before` with `ins` carried out.
pub open spec fn applied(before: Seq<u8>, after: Seq<u8>, ins: Instruction) -> bool {
    match ins {
        Instruction::IncrementA => counter_bumped(before, after, COUNTER_A_OFFSET as int),
        Instruction::IncrementB => counter_bumped(before, after, COUNTER_B_OFFSET as int),
        Instruction::Unrecognized(_) => after == before,
    }
}

/// What a call decides before it touches anything: the instruction to carry
/// out on the first account, or the first check that fails.
pub open spec fn outcome(program_id: Pubkey, accounts: Seq<Account>, payload: Seq<u8>) -> Result<
    Instruction,
    VoteError,
> {
    if accounts.len() == 0 {
        Err(VoteError::MissingAccount)
    } else if accounts[0].owner != program_id {
        Err(VoteError::NotProgramOwned)
    } else if accounts[0].data@.len() < TALLY_LEN {
        Err(VoteError::AccountDataTooSmall)
    } else {
        decoded(payload)
    }
}

/// A call with `program_id` and `payload` turns `before` into `after` and returns `r`:
/// a refused call changes nothing; an accepted one changes the first account's
/// tally as its instruction says and leaves everything else alone.
pub open spec fn processed(
    program_id: Pubkey,
    before: Seq<Account>,
    payload: Seq<u8>,
    after: Seq<Account>,
    r: Result<(), VoteError>,
) -> bool {
    match outcome(program_id, before, payload) {
        Err(e) => r == Err::<(), VoteError>(e) && after == before,
        Ok(ins) => {
            &&& r == Ok::<(), VoteError>(())
            &&& after.len() == before.len()
            &&& after[0].owner == before[0].owner
            &&& applied(before[0].data@, after[0].data@, ins)
            &&& forall|i: int| 1 <= i < before.len() ==> #[trigger] after[i] == before[i]
        },
    }
}

/// Carries out `ins` on a tally.
pub fn apply(data: &mut Vec<u8>, ins: Instruction)
    requires
        old(data)@.len() >= TALLY_LEN,
    ensures
        applied(old(data)@, final(data)@, ins),
{
    match ins {
        Instruction::IncrementA => increment_counter(data, COUNTER_A_OFFSET),
        Instruction::IncrementB => increment_counter(data, COUNTER_B_OFFSET),
        Instruction::Unrecognized(_) => {},
    }
}

/// Handles one instruction for `program_id`. The tally is the first of
/// `accounts`; it must be owned by `program_id` and hold at least eight bytes,
/// and the payload must hold an opcode byte. Opcode 1 adds a vote for
/// candidate A, opcode 2 one for candidate B, any other changes nothing.
pub fn process_instruction(
    program_id: &Pubkey,
    accounts: &mut Vec<Account>,
    instruction_data: &[u8],
) -> (r: Result<(), VoteError>)
    ensures
        processed(*program_id, old(accounts)@, instruction_data@, final(accounts)@, r),
{
    if accounts.len() == 0 {
        return Err(VoteError::MissingAccount);
    }
    if !same_key(&accounts[0].owner, program_id) {
        return Err(VoteError::NotProgramOwned);
    }
    if accounts[0].data.len() < TALLY_LEN {
        return Err(VoteError::AccountDataTooSmall);
    }
    let ins = match Instruction::decode(instruction_data) {
        Ok(ins) => ins,
        Err(e) => return Err(e),
    };
    apply(&mut accounts[0].data, ins);
    Ok(())
}

} // verus!
