//! Host-side data contract around one execution of the Miden transaction
//! kernel: serializing transaction context onto the kernel's input stack, and
//! deserializing and validating the kernel's output stack and advice map back
//! into structured transaction results.

pub mod account;
pub mod advice;
pub mod errors;
pub mod felt;
pub mod notes;
pub mod stack;
pub mod transaction;

pub use account::{
    group_into_words, parse_final_account_stub, AccountId, FinalAccountStub,
    ACCOUNT_STUB_NUM_WORDS,
};
pub use errors::{AccountStubError, OutputStackViolation, TransactionOutputError};
pub use felt::{felt_valid, word_from_seq, zero_word, Word, FIELD_MODULUS};
pub use notes::{OutputNotes, MAX_OUTPUT_NOTES_PER_TX};
pub use stack::{StackInputs, StackOutputs, MAX_STACK_OUTPUTS_SIZE, STACK_INPUT_LEN, STACK_TOP_SIZE};
pub use transaction::{
    TransactionKernel, TransactionOutputs, FINAL_ACCOUNT_HASH_WORD_IDX,
    OUTPUT_NOTES_COMMITMENT_WORD_IDX,
};
