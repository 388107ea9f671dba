//! Properties of whole calls to `process_instruction`, stated over the
//! relation `processed` that its contract gives.

use crate::instruction::VoteError;
use crate::layout::{counter_a, counter_b, TALLY_LEN};
use crate::processor::{processed, Account};
use solana_program::pubkey::Pubkey;
use vstd::prelude::*;

verus! {

/// The accounts hold the same owners and the same data, account by account.
pub open spec fn same_contents(a: Seq<Account>, b: Seq<Account>) -> bool {
    &&& a.len() == b.len()
    &&& forall|i: int|
        0 <= i < a.len() ==> (#[trigger] a[i]).owner == b[i].owner && a[i].data@ == b[i].data@
}

/// The tally account is owned by `program_id` and large enough for two counters.
pub open spec fn valid_tally(program_id: Pubkey, accounts: Seq<Account>) -> bool {
    &&& accounts.len() > 0
    &&& accounts[0].owner == program_id
    &&& accounts[0].data@.len() >= TALLY_LEN
}

/// A tally account owned by another program is refused with `NotProgramOwned`,
/// and no account changes.
pub proof fn lemma_foreign_owner_refused(
    program_id: Pubkey,
    before: Seq<Account>,
    payload: Seq<u8>,
    after: Seq<Account>,
    r: Result<(), VoteError>,
)
    requires
        before.len() > 0,
        before[0].owner != program_id,
        processed(program_id, before, payload, after, r),
    ensures
        r == Err::<(), VoteError>(VoteError::NotProgramOwned),
        after == before,
{
}

/// A tally account of the calling program with fewer than eight bytes of data
/// is refused with `AccountDataTooSmall`, and no account changes.
pub proof fn lemma_short_data_refused(
    program_id: Pubkey,
    before: Seq<Account>,
    payload: Seq<u8>,
    after: Seq<Account>,
    r: Result<(), VoteError>,
)
    requires
        before.len() > 0,
        before[0].owner == program_id,
        before[0].data@.len() < TALLY_LEN,
        processed(program_id, before, payload, after, r),
    ensures
        r == Err::<(), VoteError>(VoteError::AccountDataTooSmall),
        after == before,
{
}

/// On a valid tally, opcode 1 adds exactly one to candidate A's counter while it
/// is below `u32::MAX`, keeps candidate B's, and keeps every byte from offset 4 on.
pub proof fn lemma_vote_a_adds_one(
    program_id: Pubkey,
    before: Seq<Account>,
    payload: Seq<u8>,
    after: Seq<Account>,
    r: Result<(), VoteError>,
)
    requires
        valid_tally(program_id, before),
        payload.len() > 0,
        payload[0] == 1,
        counter_a(before[0].data@) < u32::MAX,
        processed(program_id, before, payload, after, r),
    ensures
        r == Ok::<(), VoteError>(()),
        after.len() == before.len(),
        after[0].data@.len() == before[0].data@.len(),
        counter_a(after[0].data@) == counter_a(before[0].data@) + 1,
        counter_b(after[0].data@) == counter_b(before[0].data@),
        forall|i: int| 4 <= i < before[0].data@.len() ==> after[0].data@[i] == before[0].data@[i],
{
}

/// On a valid tally, opcode 2 adds exactly one to candidate B's counter while it
/// is below `u32::MAX`, keeps candidate A's, and keeps every byte outside 4..8.
pub proof fn lemma_vote_b_adds_one(
    program_id: Pubkey,
    before: Seq<Account>,
    payload: Seq<u8>,
    after: Seq<Account>,
    r: Result<(), VoteError>,
)
    requires
        valid_tally(program_id, before),
        payload.len() > 0,
        payload[0] == 2,
        counter_b(before[0].data@) < u32::MAX,
        processed(program_id, before, payload, after, r),
    ensures
        r == Ok::<(), VoteError>(()),
        after.len() == before.len(),
        after[0].data@.len() == before[0].data@.len(),
        counter_a(after[0].data@) == counter_a(before[0].data@),
        counter_b(after[0].data@) == counter_b(before[0].data@) + 1,
        forall|i: int|
            0 <= i < before[0].data@.len() && !(4 <= i < 8) ==> after[0].data@[i]
                == before[0].data@[i],
{
}

/// On a valid tally, an opcode other than 1 and 2 succeeds and changes nothing.
pub proof fn lemma_unknown_opcode_no_change(
    program_id: Pubkey,
    before: Seq<Account>,
    payload: Seq<u8>,
    after: Seq<Account>,
    r: Result<(), VoteError>,
)
    requires
        valid_tally(program_id, before),
        payload.len() > 0,
        payload[0] != 1,
        payload[0] != 2,
        processed(program_id, before, payload, after, r),
    ensures
        r == Ok::<(), VoteError>(()),
        same_contents(after, before),
{
}

/// Two calls with opcode 1 on a valid tally add two votes for candidate A:
/// carrying out an instruction is not idempotent.
pub proof fn lemma_two_votes_add_two(
    program_id: Pubkey,
    s0: Seq<Account>,
    payload: Seq<u8>,
    s1: Seq<Account>,
    r1: Result<(), VoteError>,
    s2: Seq<Account>,
    r2: Result<(), VoteError>,
)
    requires
        valid_tally(program_id, s0),
        payload.len() > 0,
        payload[0] == 1,
        counter_a(s0[0].data@) + 2 <= u32::MAX,
        processed(program_id, s0, payload, s1, r1),
        processed(program_id, s1, payload, s2, r2),
    ensures
        r1 == Ok::<(), VoteError>(()),
        r2 == Ok::<(), VoteError>(()),
        counter_a(s2[0].data@) == counter_a(s0[0].data@) + 2,
        counter_b(s2[0].data@) == counter_b(s0[0].data@),
{
    lemma_vote_a_adds_one(program_id, s0, payload, s1, r1);
    lemma_vote_a_adds_one(program_id, s1, payload, s2, r2);
}

/// A refused call, made again on what it left, is refused the same way and
/// again changes nothing.
pub proof fn lemma_refusal_repeats(
    program_id: Pubkey,
    s0: Seq<Account>,
    payload: Seq<u8>,
    s1: Seq<Account>,
    r1: Result<(), VoteError>,
    s2: Seq<Account>,
    r2: Result<(), VoteError>,
)
    requires
        r1.is_err(),
        processed(program_id, s0, payload, s1, r1),
        processed(program_id, s1, payload, s2, r2),
    ensures
        r2 == r1,
        s2 == s0,
{
}

} // verus!
