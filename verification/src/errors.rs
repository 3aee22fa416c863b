//! Error values surfaced while deserializing and validating the results of a
//! kernel execution.
//!
//! All errors are plain values: none is used for control flow, and a failed
//! transaction attempt is never retried inside this crate, since re-execution
//! on the same inputs is deterministic and would reproduce the error.

use vstd::prelude::*;
use crate::felt::Word;

verus! {

/// The way in which an output stack failed its cleanliness checks.
#[derive(Clone, Copy, Debug, PartialEq, Eq, Structural)]
pub enum OutputStackViolation {
    /// The third word (element offsets 8..12) holds a non-zero element.
    ThirdWordNotZero,
    /// The fourth word (element offsets 12..16) holds a non-zero element.
    FourthWordNotZero,
    /// The overflow region is not empty.
    OverflowNotEmpty,
}

/// The way in which advice-map data failed to decode into a final account
/// stub.
#[derive(Clone, Copy, Debug, PartialEq, Eq, Structural)]
pub enum AccountStubError {
    /// The element sequence cannot be grouped into whole words.
    NotWordAligned,
    /// The grouped data does not hold exactly the expected number of words.
    UnexpectedNumberOfWords,
}

/// An error raised while assembling validated transaction outputs from the
/// output stack, the advice map and the caller-supplied note list.
#[derive(Clone, Copy, Debug, PartialEq, Eq, Structural)]
pub enum TransactionOutputError {
    /// The output stack failed a cleanliness invariant.
    OutputStackInvalid(OutputStackViolation),
    /// The advice map has no entry under the final account hash.
    FinalAccountDataNotFound,
    /// The advice data present under the final account hash does not decode
    /// into a final account stub.
    FinalAccountStubDataInvalid(AccountStubError),
    /// The commitment computed over the supplied notes disagrees with the
    /// commitment asserted on the output stack; carries the stack-asserted
    /// value first and the recomputed value second.
    OutputNotesCommitmentInconsistent(Word, Word),
    /// The supplied note list exceeds the collection's capacity.
    TooManyOutputNotes { max: usize, actual: usize },
    /// The supplied note list holds two notes with the same identifier.
    DuplicateOutputNote,
}

} // verus!
