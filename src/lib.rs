//! A vote-tally instruction processor: it checks that an account belongs to
//! the calling program and is large enough, then bumps one of two
//! little-endian `u32` counters kept in the account's data.

pub mod instruction;
pub mod laws;
pub mod layout;
pub mod processor;

pub use instruction::{Instruction, VoteError};
pub use layout::{increment_counter, COUNTER_A_OFFSET, COUNTER_B_OFFSET, TALLY_LEN};
pub use processor::{apply, process_instruction, Account};
pub use laws::{
    lemma_foreign_owner_refused, lemma_refusal_repeats, lemma_short_data_refused,
    lemma_two_votes_add_two, lemma_unknown_opcode_no_change, lemma_vote_a_adds_one,
    lemma_vote_b_adds_one,
};
